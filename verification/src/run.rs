//! One run of the checker, as a state machine.
//!
//! A run goes through `Fetching`, `Normalizing`, `Comparing`, `Notifying`
//! and `Persisting` to `Done`, strictly in that order; a failure of any step
//! takes it to `Failed` instead. The machine decides, the caller acts: each
//! step hands back the [`Action`] to perform, and the caller reports what
//! came of it as the next [`Event`].

use vstd::prelude::*;
use vstd::string::*;
use crate::config::{Config, ConfigView};
use crate::detect::{
    classification, classify, digest_changed, digest_differs, message_for, message_text,
    Classification,
};
use crate::failure::{failure_text, Failure, FetchError, NotifyError, RunError, StoreError};
use crate::fingerprint::{fingerprint, fingerprint_of};
use crate::normalize::{strip, strip_dynamic_elements};

verus! {

/// Where a run stands.
#[derive(Clone, Debug, PartialEq, Eq)]
pub enum State {
    /// The page has been asked for.
    Fetching,
    /// The page is here and is about to be normalized and fingerprinted.
    Normalizing { body: String },
    /// The stored fingerprint has been asked for.
    Comparing { content: String, digest: String },
    /// The notification is on its way. `pending` holds the fingerprint that
    /// has to be stored once it is delivered, if the fingerprint changed.
    Notifying { pending: Option<String> },
    /// The new fingerprint is being stored.
    Persisting,
    /// The run succeeded.
    Done,
    /// The run failed.
    Failed { error: RunError },
}

/// What the caller reports back to the machine.
#[derive(Clone, Debug, PartialEq, Eq)]
pub enum Event {
    /// The origin answered the page request.
    Fetched { status: u16, body: String },
    /// The page request failed before any answer.
    FetchFailed { reason: String },
    /// Nothing had to be done.
    Proceeded,
    /// The state store was read; `stored` is absent if the key is.
    DigestRead { stored: Option<String> },
    /// The state store could not be read or written.
    StoreFailed { reason: String },
    /// The notification was delivered.
    Notified,
    /// The notification could not be delivered.
    NotifyFailed { reason: String },
    /// The new fingerprint was stored.
    DigestWritten,
}

/// The fingerprints of a detected change, kept in the state store for later
/// inspection.
#[derive(Clone, Debug, PartialEq, Eq)]
pub struct ChangeRecord {
    pub namespace: String,
    pub previous: String,
    pub current: String,
}

/// What the caller has to do next.
#[derive(Clone, Debug, PartialEq, Eq)]
pub enum Action {
    /// Request the page with an HTTP GET that carries this `User-Agent`.
    FetchPage { url: String, user_agent: String },
    /// Nothing; report `Proceeded`.
    Proceed,
    /// Read the stored fingerprint.
    ReadDigest { namespace: String, key: String },
    /// Store the entries of `record`, if there is one, without regard to
    /// whether that works; then deliver `message`.
    Notify { message: String, record: Option<ChangeRecord> },
    /// Store the new fingerprint.
    WriteDigest { namespace: String, key: String, digest: String },
    /// The run is over.
    Finish,
}

/// The mathematical content of a [`State`].
pub enum StateView {
    Fetching,
    Normalizing { body: Seq<char> },
    Comparing { content: Seq<char>, digest: Seq<char> },
    Notifying { pending: Option<Seq<char>> },
    Persisting,
    Done,
    Failed { error: Failure },
}

/// The mathematical content of an [`Event`].
pub enum EventView {
    Fetched { status: u16, body: Seq<char> },
    FetchFailed { reason: Seq<char> },
    Proceeded,
    DigestRead { stored: Option<Seq<char>> },
    StoreFailed { reason: Seq<char> },
    Notified,
    NotifyFailed { reason: Seq<char> },
    DigestWritten,
}

/// The mathematical content of a [`ChangeRecord`].
pub struct ChangeRecordView {
    pub namespace: Seq<char>,
    pub previous: Seq<char>,
    pub current: Seq<char>,
}

/// The mathematical content of an [`Action`].
pub enum ActionView {
    FetchPage { url: Seq<char>, user_agent: Seq<char> },
    Proceed,
    ReadDigest { namespace: Seq<char>, key: Seq<char> },
    Notify { message: Seq<char>, record: Option<ChangeRecordView> },
    WriteDigest { namespace: Seq<char>, key: Seq<char>, digest: Seq<char> },
    Finish,
}

impl View for State {
    type V = StateView;

    open spec fn view(&self) -> StateView {
        match self {
            State::Fetching => StateView::Fetching,
            State::Normalizing { body } => StateView::Normalizing { body: body@ },
            State::Comparing { content, digest } => StateView::Comparing {
                content: content@,
                digest: digest@,
            },
            State::Notifying { pending } => StateView::Notifying { pending: pending.deep_view() },
            State::Persisting => StateView::Persisting,
            State::Done => StateView::Done,
            State::Failed { error } => StateView::Failed { error: error@ },
        }
    }
}

impl View for Event {
    type V = EventView;

    open spec fn view(&self) -> EventView {
        match self {
            Event::Fetched { status, body } => EventView::Fetched { status: *status, body: body@ },
            Event::FetchFailed { reason } => EventView::FetchFailed { reason: reason@ },
            Event::Proceeded => EventView::Proceeded,
            Event::DigestRead { stored } => EventView::DigestRead { stored: stored.deep_view() },
            Event::StoreFailed { reason } => EventView::StoreFailed { reason: reason@ },
            Event::Notified => EventView::Notified,
            Event::NotifyFailed { reason } => EventView::NotifyFailed { reason: reason@ },
            Event::DigestWritten => EventView::DigestWritten,
        }
    }
}

impl View for ChangeRecord {
    type V = ChangeRecordView;

    open spec fn view(&self) -> ChangeRecordView {
        ChangeRecordView {
            namespace: self.namespace@,
            previous: self.previous@,
            current: self.current@,
        }
    }
}

/// The content of an optional change record.
pub open spec fn record_view(record: Option<ChangeRecord>) -> Option<ChangeRecordView> {
    match record {
        Some(r) => Some(r@),
        None => None,
    }
}

impl View for Action {
    type V = ActionView;

    open spec fn view(&self) -> ActionView {
        match self {
            Action::FetchPage { url, user_agent } => ActionView::FetchPage {
                url: url@,
                user_agent: user_agent@,
            },
            Action::Proceed => ActionView::Proceed,
            Action::ReadDigest { namespace, key } => ActionView::ReadDigest {
                namespace: namespace@,
                key: key@,
            },
            Action::Notify { message, record } => ActionView::Notify {
                message: message@,
                record: record_view(*record),
            },
            Action::WriteDigest { namespace, key, digest } => ActionView::WriteDigest {
                namespace: namespace@,
                key: key@,
                digest: digest@,
            },
            Action::Finish => ActionView::Finish,
        }
    }
}

/// The `User-Agent` that the page is requested with. The origin's edge
/// network turns away requests that carry none.
pub open spec fn user_agent() -> Seq<char> {
    "Mozilla/5.0 (compatible; JLPT-Checker/1.0)"@
}

/// The key under which the last fingerprint is stored.
pub open spec fn digest_key() -> Seq<char> {
    "page_content_hash"@
}

/// The reason recorded when an event does not answer the step in progress.
pub open spec fn out_of_turn() -> Seq<char> {
    "unexpected event"@
}

/// How a run starts: the page is asked for.
pub open spec fn first(config: ConfigView) -> (StateView, ActionView) {
    (StateView::Fetching, ActionView::FetchPage { url: config.page_url, user_agent: user_agent() })
}

/// How a step fails: the run is over, and one notification that describes
/// the failure is attempted.
pub open spec fn failed(error: Failure) -> (StateView, ActionView) {
    (StateView::Failed { error }, ActionView::Notify { message: failure_text(error), record: None })
}

/// The transition out of `Fetching`. Only status 200 lets the run go on.
pub open spec fn after_fetch(event: EventView) -> (StateView, ActionView) {
    match event {
        EventView::Fetched { status, body } => if status == 200 {
            (StateView::Normalizing { body }, ActionView::Proceed)
        } else {
            failed(Failure::FetchStatus(status))
        },
        EventView::FetchFailed { reason } => failed(Failure::FetchRequest(reason)),
        _ => failed(Failure::FetchRequest(out_of_turn())),
    }
}

/// The transition out of `Normalizing`: the page is normalized, the result
/// fingerprinted, and the stored fingerprint asked for.
pub open spec fn after_normalize(config: ConfigView, body: Seq<char>) -> (StateView, ActionView) {
    let content = strip(body);
    (
        StateView::Comparing { content, digest: fingerprint_of(content) },
        ActionView::ReadDigest { namespace: config.store_namespace, key: digest_key() },
    )
}

/// The record of a change: kept when the fingerprint replaces an earlier
/// one, not on the first run.
pub open spec fn change_record(
    config: ConfigView,
    digest: Seq<char>,
    stored: Option<Seq<char>>,
) -> Option<ChangeRecordView> {
    match stored {
        Some(previous) => if previous != digest {
            Some(
                ChangeRecordView {
                    namespace: config.store_namespace,
                    previous,
                    current: digest,
                },
            )
        } else {
            None
        },
        None => None,
    }
}

/// The transition out of `Comparing`. The message goes by the
/// classification; the fingerprint is kept for storing exactly if it
/// changed.
pub open spec fn after_compare(
    config: ConfigView,
    content: Seq<char>,
    digest: Seq<char>,
    event: EventView,
) -> (StateView, ActionView) {
    match event {
        EventView::DigestRead { stored } => (
            StateView::Notifying {
                pending: if digest_differs(digest, stored) {
                    Some(digest)
                } else {
                    None
                },
            },
            ActionView::Notify {
                message: message_text(classification(digest, stored, content, config.keyword)),
                record: change_record(config, digest, stored),
            },
        ),
        EventView::StoreFailed { reason } => failed(Failure::Store(reason)),
        _ => failed(Failure::Store(out_of_turn())),
    }
}

/// The transition out of `Notifying`. A delivered notification is followed
/// by the write of the pending fingerprint, or ends the run if none is
/// pending.
pub open spec fn after_notify(config: ConfigView, pending: Option<Seq<char>>, event: EventView) -> (
    StateView,
    ActionView,
) {
    match event {
        EventView::Notified => match pending {
            Some(digest) => (
                StateView::Persisting,
                ActionView::WriteDigest {
                    namespace: config.store_namespace,
                    key: digest_key(),
                    digest,
                },
            ),
            None => (StateView::Done, ActionView::Finish),
        },
        EventView::NotifyFailed { reason } => failed(Failure::Notify(reason)),
        _ => failed(Failure::Notify(out_of_turn())),
    }
}

/// The transition out of `Persisting`.
pub open spec fn after_persist(event: EventView) -> (StateView, ActionView) {
    match event {
        EventView::DigestWritten => (StateView::Done, ActionView::Finish),
        EventView::StoreFailed { reason } => failed(Failure::Store(reason)),
        _ => failed(Failure::Store(out_of_turn())),
    }
}

/// The whole transition function: the state after `event` and the action
/// to perform next.
///
/// An event that does not answer the step in progress fails that step, with
/// [`out_of_turn`] as the reason. `Normalizing` waits for nothing from
/// outside and goes on whatever is reported. `Done` and `Failed` are final:
/// whatever is reported to them, they stay and the run is over. In
/// particular the outcome of the notification that reports a failure
/// changes nothing.
pub open spec fn next(config: ConfigView, state: StateView, event: EventView) -> (
    StateView,
    ActionView,
) {
    match state {
        StateView::Fetching => after_fetch(event),
        StateView::Normalizing { body } => after_normalize(config, body),
        StateView::Comparing { content, digest } => after_compare(config, content, digest, event),
        StateView::Notifying { pending } => after_notify(config, pending, event),
        StateView::Persisting => after_persist(event),
        StateView::Done => (StateView::Done, ActionView::Finish),
        StateView::Failed { error } => (StateView::Failed { error }, ActionView::Finish),
    }
}

/// Ends the run with `error` and asks for the notification that reports it.
fn fail(error: RunError) -> (out: (State, Action))
    ensures
        (out.0@, out.1@) == failed(error@),
{
    let message = error.failure_message();
    (State::Failed { error }, Action::Notify { message, record: None })
}

/// Starts a run.
pub fn begin(config: &Config) -> (out: (State, Action))
    ensures
        (out.0@, out.1@) == first(config@),
{
    (
        State::Fetching,
        Action::FetchPage {
            url: config.page_url.clone(),
            user_agent: String::from_str("Mozilla/5.0 (compatible; JLPT-Checker/1.0)"),
        },
    )
}

/// Takes the run one step further: from the state it is in and the event
/// that the caller reports, to the state it is in next and the action that
/// the caller has to perform.
pub fn step(config: &Config, state: State, event: Event) -> (out: (State, Action))
    ensures
        (out.0@, out.1@) == next(config@, state@, event@),
{
    match state {
        State::Fetching => match event {
            Event::Fetched { status, body } => if status == 200 {
                (State::Normalizing { body }, Action::Proceed)
            } else {
                fail(RunError::Fetch(FetchError::Status(status)))
            },
            Event::FetchFailed { reason } => fail(RunError::Fetch(FetchError::Request(reason))),
            _ => fail(RunError::Fetch(FetchError::Request(String::from_str("unexpected event")))),
        },
        State::Normalizing { body } => {
            let content = strip_dynamic_elements(body.as_str());
            let digest = fingerprint(content.as_str());
            (
                State::Comparing { content, digest },
                Action::ReadDigest {
                    namespace: config.store_namespace.clone(),
                    key: String::from_str("page_content_hash"),
                },
            )
        },
        State::Comparing { content, digest } => match event {
            Event::DigestRead { stored } => {
                let found = classify(&digest, &stored, content.as_str(), config.keyword.as_str());
                let message = String::from_str(message_for(found));
                let changed = digest_changed(&digest, &stored);
                let record = match stored {
                    Some(previous) => if changed {
                        Some(
                            ChangeRecord {
                                namespace: config.store_namespace.clone(),
                                previous,
                                current: digest.clone(),
                            },
                        )
                    } else {
                        None
                    },
                    None => None,
                };
                let pending = if changed {
                    Some(digest)
                } else {
                    None
                };
                (State::Notifying { pending }, Action::Notify { message, record })
            },
            Event::StoreFailed { reason } => fail(RunError::Store(StoreError { reason })),
            _ => fail(
                RunError::Store(StoreError { reason: String::from_str("unexpected event") }),
            ),
        },
        State::Notifying { pending } => match event {
            Event::Notified => match pending {
                Some(digest) => (
                    State::Persisting,
                    Action::WriteDigest {
                        namespace: config.store_namespace.clone(),
                        key: String::from_str("page_content_hash"),
                        digest,
                    },
                ),
                None => (State::Done, Action::Finish),
            },
            Event::NotifyFailed { reason } => fail(RunError::Notify(NotifyError { reason })),
            _ => fail(
                RunError::Notify(NotifyError { reason: String::from_str("unexpected event") }),
            ),
        },
        State::Persisting => match event {
            Event::DigestWritten => (State::Done, Action::Finish),
            Event::StoreFailed { reason } => fail(RunError::Store(StoreError { reason })),
            _ => fail(
                RunError::Store(StoreError { reason: String::from_str("unexpected event") }),
            ),
        },
        State::Done => (State::Done, Action::Finish),
        State::Failed { error } => (State::Failed { error }, Action::Finish),
    }
}

/// The entries that record a change in the state store: the fingerprint
/// that was replaced, the one that replaced it, and when.
pub open spec fn record_entries(record: ChangeRecordView, timestamp: Seq<char>) -> Seq<
    (Seq<char>, Seq<char>),
> {
    seq![
        ("previous_hash_debug"@, record.previous),
        ("current_hash_debug"@, record.current),
        ("last_change_timestamp"@, timestamp),
    ]
}

impl ChangeRecord {
    /// The key and value of each entry to store for this record, given the
    /// caller's reading of the clock. They go into `self.namespace`; a write
    /// that fails is of no consequence to the run.
    pub fn entries(&self, timestamp: &str) -> (out: Vec<(String, String)>)
        ensures
            out.deep_view() == record_entries(self@, timestamp@),
    {
        let mut out: Vec<(String, String)> = Vec::new();
        out.push((String::from_str("previous_hash_debug"), self.previous.clone()));
        out.push((String::from_str("current_hash_debug"), self.current.clone()));
        out.push((String::from_str("last_change_timestamp"), String::from_str(timestamp)));
        assert(out.deep_view() =~= record_entries(self@, timestamp@));
        out
    }
}

impl State {
    /// Whether the run is over.
    pub fn is_final(&self) -> (out: bool)
        ensures
            out == (self@ is Done || self@ is Failed),
    {
        match self {
            State::Done => true,
            State::Failed { .. } => true,
            _ => false,
        }
    }

    /// The error that ended the run, if it failed.
    pub fn into_error(self) -> (out: Option<RunError>)
        ensures
            match out {
                Some(error) => self@ == (StateView::Failed { error: error@ }),
                None => !(self@ is Failed),
            },
    {
        match self {
            State::Failed { error } => Some(error),
            _ => None,
        }
    }
}

/// How far a run has come: the position of its state in the sequence of
/// steps.
pub open spec fn stage(state: StateView) -> nat {
    match state {
        StateView::Fetching => 0,
        StateView::Normalizing { .. } => 1,
        StateView::Comparing { .. } => 2,
        StateView::Notifying { .. } => 3,
        StateView::Persisting => 4,
        StateView::Done => 5,
        StateView::Failed { .. } => 5,
    }
}

/// Sequence law: a step never stays where it is and never goes back. From a
/// state that is not final it leads to the state that follows in the
/// sequence, to `Failed`, or, when nothing has to be stored, from
/// `Notifying` to `Done`.
pub proof fn lemma_steps_are_sequential(config: ConfigView, state: StateView, event: EventView)
    requires
        !(state is Done || state is Failed),
    ensures
        ({
            let after = next(config, state, event).0;
            ||| after is Failed
            ||| stage(after) == stage(state) + 1
            ||| state is Notifying && after is Done
        }),
{
}

/// Final-state law: once a run is done or has failed, no event changes its
/// state or asks for anything more. So the notification that reports a
/// failure is attempted once, and what comes of it is ignored.
pub proof fn lemma_final_states_stay(config: ConfigView, state: StateView, event: EventView)
    requires
        state is Done || state is Failed,
    ensures
        next(config, state, event) == (state, ActionView::Finish),
{
}

/// Failure law: a step that fails asks for exactly one thing, the
/// notification that describes the failure.
pub proof fn lemma_failure_is_reported(config: ConfigView, state: StateView, event: EventView)
    requires
        !(state is Done || state is Failed),
        next(config, state, event).0 is Failed,
    ensures
        next(config, state, event) == failed(next(config, state, event).0->error),
{
}

/// Fetch law: any status other than 200 fails the run with that status.
pub proof fn lemma_bad_status_fails(config: ConfigView, status: u16, body: Seq<char>)
    requires
        status != 200,
    ensures
        next(config, first(config).0, EventView::Fetched { status, body }) == failed(
            Failure::FetchStatus(status),
        ),
{
}

/// Persist law: after the comparison and a delivered notification, the
/// current fingerprint is written exactly if it differs from the stored
/// one; otherwise the run ends without a write.
pub proof fn lemma_write_follows_change(
    config: ConfigView,
    content: Seq<char>,
    digest: Seq<char>,
    stored: Option<Seq<char>>,
)
    ensures
        ({
            let compared = next(
                config,
                StateView::Comparing { content, digest },
                EventView::DigestRead { stored },
            );
            let notified = next(config, compared.0, EventView::Notified);
            if digest_differs(digest, stored) {
                notified == (
                    StateView::Persisting,
                    ActionView::WriteDigest {
                        namespace: config.store_namespace,
                        key: digest_key(),
                        digest,
                    },
                )
            } else {
                notified == (StateView::Done, ActionView::Finish)
            }
        }),
{
}

/// Run law: a run whose every outside step works sends the message that
/// fits the classification of the fetched page, whatever that is, and then
/// stores the page's fingerprint if and only if it changed.
pub proof fn lemma_successful_run(config: ConfigView, body: Seq<char>, stored: Option<Seq<char>>)
    ensures
        ({
            let content = strip(body);
            let digest = fingerprint_of(content);
            let fetched = next(
                config,
                first(config).0,
                EventView::Fetched { status: 200, body },
            );
            let normalized = next(config, fetched.0, EventView::Proceeded);
            let compared = next(config, normalized.0, EventView::DigestRead { stored });
            let notified = next(config, compared.0, EventView::Notified);
            &&& fetched.1 == ActionView::Proceed
            &&& normalized.1 == (ActionView::ReadDigest {
                namespace: config.store_namespace,
                key: digest_key(),
            })
            &&& compared.1 == (ActionView::Notify {
                message: message_text(classification(digest, stored, content, config.keyword)),
                record: change_record(config, digest, stored),
            })
            &&& digest_differs(digest, stored) ==> notified.1 == (ActionView::WriteDigest {
                namespace: config.store_namespace,
                key: digest_key(),
                digest,
            }) && next(config, notified.0, EventView::DigestWritten) == (
                StateView::Done,
                ActionView::Finish,
            )
            &&& !digest_differs(digest, stored) ==> notified == (
                StateView::Done,
                ActionView::Finish,
            )
        }),
{
}

/// The page is never requested without a `User-Agent`.
pub proof fn lemma_user_agent_present(config: ConfigView)
    ensures
        first(config).1 matches ActionView::FetchPage { user_agent, .. } && user_agent.len() > 0,
{
    reveal_strlit("Mozilla/5.0 (compatible; JLPT-Checker/1.0)");
}

} // verus!
