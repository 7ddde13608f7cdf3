//! What a run is configured with.

use vstd::prelude::*;
use vstd::string::*;

verus! {

/// The settings of a run. They are handed to the run rather than compiled
/// into it, so that a run can be tried against a fixture page and keyword.
#[derive(Clone, Debug, PartialEq, Eq)]
pub struct Config {
    /// The page to watch.
    pub page_url: String,
    /// The text whose appearance in the page is announced with priority.
    pub keyword: String,
    /// The namespace of the state store that holds the last fingerprint.
    pub store_namespace: String,
}

/// The mathematical content of a [`Config`].
pub struct ConfigView {
    pub page_url: Seq<char>,
    pub keyword: Seq<char>,
    pub store_namespace: Seq<char>,
}

impl View for Config {
    type V = ConfigView;

    open spec fn view(&self) -> ConfigView {
        ConfigView {
            page_url: self.page_url@,
            keyword: self.keyword@,
            store_namespace: self.store_namespace@,
        }
    }
}

/// The settings of the production checker.
pub open spec fn standard_config() -> ConfigView {
    ConfigView {
        page_url: "https://www.ucd.ie/japan/exams/"@,
        keyword: "2026"@,
        store_namespace: "PAGE_STATE"@,
    }
}

impl Default for Config {
    /// The settings of the production checker.
    fn default() -> (out: Config)
        ensures
            out@ == standard_config(),
    {
        Config {
            page_url: String::from_str("https://www.ucd.ie/japan/exams/"),
            keyword: String::from_str("2026"),
            store_namespace: String::from_str("PAGE_STATE"),
        }
    }
}

/// The name of the variable of the environment that supplies the
/// notification topic. A run cannot notify without it.
pub fn topic_variable() -> (out: &'static str)
    ensures
        out@ == "NTFY_TOPIC"@,
{
    "NTFY_TOPIC"
}

} // verus!
