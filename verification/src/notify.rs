//! The notifier's request: where a message is pushed to, and how.

use vstd::prelude::*;
use vstd::string::*;

verus! {

/// One outbound push: an HTTP POST of `body` to `url` with the header
/// `Title: <title>`.
#[derive(Clone, Debug, PartialEq, Eq)]
pub struct PushRequest {
    pub url: String,
    pub title: String,
    pub body: String,
}

/// The address that messages for a topic are posted to.
pub open spec fn push_url(topic: Seq<char>) -> Seq<char> {
    "https://ntfy.sh/"@ + topic
}

/// The fixed title of every notification.
pub open spec fn push_title() -> Seq<char> {
    "JLPT Update"@
}

/// The request that delivers `message` to the subscribers of `topic`.
pub fn notification_request(topic: &str, message: &str) -> (out: PushRequest)
    ensures
        out.url@ == push_url(topic@),
        out.title@ == push_title(),
        out.body@ == message@,
{
    let mut url = String::from_str("https://ntfy.sh/");
    url.append(topic);
    PushRequest { url, title: String::from_str("JLPT Update"), body: String::from_str(message) }
}

} // verus!
