use jlpt_checker::config::Config;
use jlpt_checker::failure::{FetchError, NotifyError, RunError, StoreError};
use jlpt_checker::fingerprint::fingerprint;
use jlpt_checker::run::{begin, step, Action, ChangeRecord, Event, State};

const UPDATED: &str = "UCD JLPT page has been updated. Check https://www.ucd.ie/japan/exams/";
const NO_CHANGE: &str = "JLPT check complete - no changes detected.";
const KEYWORD: &str =
    "JLPT 2026 dates may have been announced! Check https://www.ucd.ie/japan/exams/";

/// A stand-in for everything outside the checker.
struct World {
    status: u16,
    page: String,
    fetch_error: Option<String>,
    stored: Option<String>,
    read_error: Option<String>,
    notify_errors: Vec<bool>,
    write_error: Option<String>,
    fetches: Vec<(String, String)>,
    reads: Vec<(String, String)>,
    sent: Vec<String>,
    records: Vec<ChangeRecord>,
    written: Vec<(String, String, String)>,
    steps: usize,
}

fn world(status: u16, page: &str, stored: Option<&str>) -> World {
    World {
        status,
        page: String::from(page),
        fetch_error: None,
        stored: stored.map(String::from),
        read_error: None,
        notify_errors: Vec::new(),
        write_error: None,
        fetches: Vec::new(),
        reads: Vec::new(),
        sent: Vec::new(),
        records: Vec::new(),
        written: Vec::new(),
        steps: 0,
    }
}

/// Runs the machine to its end against `world` and returns the final state.
fn drive(config: &Config, world: &mut World) -> State {
    let (mut state, mut action) = begin(config);
    loop {
        let event = match action {
            Action::FetchPage { url, user_agent } => {
                world.fetches.push((url, user_agent));
                match &world.fetch_error {
                    Some(reason) => Event::FetchFailed { reason: reason.clone() },
                    None => Event::Fetched { status: world.status, body: world.page.clone() },
                }
            }
            Action::Proceed => Event::Proceeded,
            Action::ReadDigest { namespace, key } => {
                world.reads.push((namespace, key));
                match &world.read_error {
                    Some(reason) => Event::StoreFailed { reason: reason.clone() },
                    None => Event::DigestRead { stored: world.stored.clone() },
                }
            }
            Action::Notify { message, record } => {
                if let Some(record) = record {
                    world.records.push(record);
                }
                let fails = world.notify_errors.get(world.sent.len()).copied().unwrap_or(false);
                world.sent.push(message);
                if fails {
                    Event::NotifyFailed { reason: String::from("push refused") }
                } else {
                    Event::Notified
                }
            }
            Action::WriteDigest { namespace, key, digest } => match &world.write_error {
                Some(reason) => Event::StoreFailed { reason: reason.clone() },
                None => {
                    world.stored = Some(digest.clone());
                    world.written.push((namespace, key, digest));
                    Event::DigestWritten
                }
            },
            Action::Finish => return state,
        };
        world.steps += 1;
        assert!(world.steps <= 10);
        let (next_state, next_action) = step(config, state, event);
        state = next_state;
        action = next_action;
    }
}

#[test]
fn first_run_without_keyword_reports_an_update_and_stores_the_digest() {
    let config = Config::default();
    let page = "<html><body><h1>JLPT</h1><script>track()</script></body></html>";
    let mut world = world(200, page, None);
    let end = drive(&config, &mut world);
    assert_eq!(end, State::Done);
    assert_eq!(world.sent, vec![String::from(UPDATED)]);
    let digest = String::from("be37e566d4dad4c65201b10c17097727a88745517a83a7d2c9ee8a25ce8e6830");
    assert_eq!(
        world.written,
        vec![(String::from("PAGE_STATE"), String::from("page_content_hash"), digest.clone())]
    );
    assert_eq!(world.stored, Some(digest));
    assert!(world.records.is_empty());
}

#[test]
fn unchanged_page_reports_no_change_and_writes_nothing() {
    let config = Config::default();
    let page = "<html><body><h1>JLPT</h1></body></html>";
    let stored = "be37e566d4dad4c65201b10c17097727a88745517a83a7d2c9ee8a25ce8e6830";
    let mut world = world(200, page, Some(stored));
    let end = drive(&config, &mut world);
    assert_eq!(end, State::Done);
    assert_eq!(world.sent, vec![String::from(NO_CHANGE)]);
    assert!(world.written.is_empty());
    assert!(world.records.is_empty());
    assert_eq!(world.stored, Some(String::from(stored)));
}

#[test]
fn volatile_regions_do_not_count_as_a_change() {
    let config = Config::default();
    let first = "<html><body><h1>JLPT</h1><script>nonce = 1</script></body></html>";
    let second = "<html><!-- build 7 --><body><h1>JLPT</h1><footer>2026</footer></body></html>";
    let mut before = world(200, first, None);
    drive(&config, &mut before);
    let mut again = world(200, second, before.stored.as_deref());
    let end = drive(&config, &mut again);
    assert_eq!(end, State::Done);
    assert_eq!(again.sent, vec![String::from(NO_CHANGE)]);
    assert!(again.written.is_empty());
}

#[test]
fn status_404_fails_the_run_and_attempts_a_failure_notice() {
    let config = Config::default();
    let mut world = world(404, "not found", Some("aa"));
    let end = drive(&config, &mut world);
    assert_eq!(end, State::Failed { error: RunError::Fetch(FetchError::Status(404)) });
    assert_eq!(world.sent, vec![String::from("JLPT checker error: HTTP 404 from UCD page")]);
    assert!(world.reads.is_empty());
    assert!(world.written.is_empty());
    assert_eq!(world.stored, Some(String::from("aa")));
}

#[test]
fn keyword_message_is_sent_and_a_changed_digest_is_stored() {
    let config = Config::default();
    let page = "<p>JLPT 2026 registration opens</p>";
    let mut world = world(200, page, Some("0000"));
    let end = drive(&config, &mut world);
    assert_eq!(end, State::Done);
    assert_eq!(world.sent, vec![String::from(KEYWORD)]);
    let digest = String::from("8294880044d62bb65566b14536a3cfbda8caa68c9f9b1c321f3bb029e94ab266");
    assert_eq!(
        world.written,
        vec![(String::from("PAGE_STATE"), String::from("page_content_hash"), digest.clone())]
    );
    assert_eq!(
        world.records,
        vec![ChangeRecord {
            namespace: String::from("PAGE_STATE"),
            previous: String::from("0000"),
            current: digest,
        }]
    );
}

#[test]
fn keyword_message_is_sent_even_when_the_digest_is_unchanged() {
    let config = Config::default();
    let page = "<p>JLPT 2026 registration opens</p>";
    let stored = "8294880044d62bb65566b14536a3cfbda8caa68c9f9b1c321f3bb029e94ab266";
    let mut world = world(200, page, Some(stored));
    let end = drive(&config, &mut world);
    assert_eq!(end, State::Done);
    assert_eq!(world.sent, vec![String::from(KEYWORD)]);
    assert!(world.written.is_empty());
    assert!(world.records.is_empty());
}

#[test]
fn keyword_inside_a_removed_region_does_not_count() {
    let config = Config::default();
    let page = "<p>JLPT</p><footer>Copyright 2026</footer>";
    let mut world = world(200, page, None);
    let end = drive(&config, &mut world);
    assert_eq!(end, State::Done);
    assert_eq!(world.sent, vec![String::from(UPDATED)]);
    assert_eq!(world.stored, Some(fingerprint("<p>JLPT</p>")));
}

#[test]
fn changed_page_reports_an_update_and_records_both_digests() {
    let config = Config::default();
    let mut world = world(200, "abc", Some("0123"));
    let end = drive(&config, &mut world);
    assert_eq!(end, State::Done);
    assert_eq!(world.sent, vec![String::from(UPDATED)]);
    let digest = String::from("ba7816bf8f01cfea414140de5dae2223b00361a396177a9cb410ff61f20015ad");
    assert_eq!(world.stored, Some(digest.clone()));
    assert_eq!(world.records.len(), 1);
    assert_eq!(
        world.records[0].entries("2024-05-01T00:00:00.000Z"),
        vec![
            (String::from("previous_hash_debug"), String::from("0123")),
            (String::from("current_hash_debug"), digest),
            (String::from("last_change_timestamp"), String::from("2024-05-01T00:00:00.000Z")),
        ]
    );
}

#[test]
fn page_is_requested_with_a_user_agent() {
    let config = Config::default();
    let mut world = world(200, "abc", None);
    drive(&config, &mut world);
    assert_eq!(
        world.fetches,
        vec![(
            String::from("https://www.ucd.ie/japan/exams/"),
            String::from("Mozilla/5.0 (compatible; JLPT-Checker/1.0)")
        )]
    );
    assert_eq!(
        world.reads,
        vec![(String::from("PAGE_STATE"), String::from("page_content_hash"))]
    );
}

#[test]
fn configured_page_keyword_and_namespace_are_used() {
    let config = Config {
        page_url: String::from("https://example.test/fixture"),
        keyword: String::from("December"),
        store_namespace: String::from("FIXTURE_STATE"),
    };
    let mut world = world(200, "Exam in December", Some("aa"));
    let end = drive(&config, &mut world);
    assert_eq!(end, State::Done);
    assert_eq!(world.fetches[0].0, "https://example.test/fixture");
    assert_eq!(world.reads[0].0, "FIXTURE_STATE");
    assert_eq!(world.sent, vec![String::from(KEYWORD)]);
    assert_eq!(world.written[0].0, "FIXTURE_STATE");
}

#[test]
fn fetch_failure_fails_the_run() {
    let config = Config::default();
    let mut world = world(200, "abc", None);
    world.fetch_error = Some(String::from("connection refused"));
    let end = drive(&config, &mut world);
    assert_eq!(
        end,
        State::Failed {
            error: RunError::Fetch(FetchError::Request(String::from("connection refused")))
        }
    );
    assert_eq!(world.sent, vec![String::from("JLPT checker error: connection refused")]);
}

#[test]
fn store_read_failure_fails_the_run_before_any_message() {
    let config = Config::default();
    let mut world = world(200, "abc", None);
    world.read_error = Some(String::from("no binding found for `PAGE_STATE`"));
    let end = drive(&config, &mut world);
    assert_eq!(
        end,
        State::Failed {
            error: RunError::Store(StoreError {
                reason: String::from("no binding found for `PAGE_STATE`")
            })
        }
    );
    assert_eq!(
        world.sent,
        vec![String::from("JLPT checker error: no binding found for `PAGE_STATE`")]
    );
    assert!(world.written.is_empty());
}

#[test]
fn notify_failure_fails_the_run_and_skips_the_write() {
    let config = Config::default();
    let mut world = world(200, "abc", None);
    world.notify_errors = vec![true, true];
    let end = drive(&config, &mut world);
    assert_eq!(
        end,
        State::Failed {
            error: RunError::Notify(NotifyError { reason: String::from("push refused") })
        }
    );
    assert_eq!(
        world.sent,
        vec![String::from(UPDATED), String::from("JLPT checker error: push refused")]
    );
    assert!(world.written.is_empty());
    assert_eq!(world.stored, None);
}

#[test]
fn store_write_failure_fails_the_run_after_the_message() {
    let config = Config::default();
    let mut world = world(200, "abc", None);
    world.write_error = Some(String::from("write refused"));
    let end = drive(&config, &mut world);
    assert_eq!(
        end,
        State::Failed { error: RunError::Store(StoreError { reason: String::from("write refused") }) }
    );
    assert_eq!(
        world.sent,
        vec![String::from(UPDATED), String::from("JLPT checker error: write refused")]
    );
}

#[test]
fn failed_failure_notice_ends_the_run_quietly() {
    let config = Config::default();
    let mut world = world(500, "", None);
    world.notify_errors = vec![true];
    let end = drive(&config, &mut world);
    assert_eq!(end, State::Failed { error: RunError::Fetch(FetchError::Status(500)) });
    assert_eq!(world.sent.len(), 1);
    assert_eq!(world.steps, 2);
}

#[test]
fn event_out_of_turn_fails_the_step_in_progress() {
    let config = Config::default();
    let (state, _) = begin(&config);
    let (state, action) = step(&config, state, Event::Notified);
    assert_eq!(
        state,
        State::Failed {
            error: RunError::Fetch(FetchError::Request(String::from("unexpected event")))
        }
    );
    assert_eq!(
        action,
        Action::Notify {
            message: String::from("JLPT checker error: unexpected event"),
            record: None
        }
    );
}

#[test]
fn final_states_ignore_every_event() {
    let config = Config::default();
    assert_eq!(
        step(&config, State::Done, Event::DigestWritten),
        (State::Done, Action::Finish)
    );
    let failed = State::Failed { error: RunError::Fetch(FetchError::Status(503)) };
    assert_eq!(
        step(&config, failed.clone(), Event::Fetched { status: 200, body: String::new() }),
        (failed, Action::Finish)
    );
}

#[test]
fn state_knows_when_the_run_is_over() {
    assert!(State::Done.is_final());
    assert!(State::Failed { error: RunError::Fetch(FetchError::Status(503)) }.is_final());
    assert!(!State::Fetching.is_final());
    assert!(!State::Persisting.is_final());
    assert_eq!(State::Done.into_error(), None);
    assert_eq!(
        State::Failed { error: RunError::Fetch(FetchError::Status(503)) }.into_error(),
        Some(RunError::Fetch(FetchError::Status(503)))
    );
}
