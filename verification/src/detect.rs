//! The change detector: compares the current fingerprint with the stored
//! one, looks for the target keyword, and picks the message to send.

use vstd::prelude::*;
use vstd::string::*;
use crate::text::{contains, find_from, lemma_first_match_iff_contains, to_chars};

verus! {

/// What a run found, from the most to the least urgent.
#[derive(Clone, Copy, Debug, PartialEq, Eq, Structural)]
pub enum Classification {
    /// The normalized content holds the target keyword.
    KeywordFound,
    /// The fingerprint differs from the stored one, or none was stored.
    ContentChanged,
    /// The fingerprint equals the stored one.
    Unchanged,
}

/// The current fingerprint is not the stored one. A run that finds nothing
/// stored counts as changed.
pub open spec fn digest_differs(current: Seq<char>, stored: Option<Seq<char>>) -> bool {
    stored != Some(current)
}

/// The classification of a run: a keyword match in the normalized content
/// comes first, then a changed fingerprint.
pub open spec fn classification(
    current: Seq<char>,
    stored: Option<Seq<char>>,
    content: Seq<char>,
    keyword: Seq<char>,
) -> Classification {
    if contains(content, keyword) {
        Classification::KeywordFound
    } else if digest_differs(current, stored) {
        Classification::ContentChanged
    } else {
        Classification::Unchanged
    }
}

/// The notification text for each classification.
pub open spec fn message_text(found: Classification) -> Seq<char> {
    match found {
        Classification::KeywordFound =>
            "JLPT 2026 dates may have been announced! Check https://www.ucd.ie/japan/exams/"@,
        Classification::ContentChanged =>
            "UCD JLPT page has been updated. Check https://www.ucd.ie/japan/exams/"@,
        Classification::Unchanged => "JLPT check complete - no changes detected."@,
    }
}

/// Whether `keyword` occurs in `content`, matched exactly, case included.
pub fn contains_keyword(content: &str, keyword: &str) -> (out: bool)
    ensures
        out == contains(content@, keyword@),
{
    let hay = to_chars(content);
    let needle = to_chars(keyword);
    proof {
        assert(hay@.skip(0) =~= hay@);
        lemma_first_match_iff_contains(hay@, needle@);
    }
    find_from(&hay, &needle, 0).is_some()
}

/// Whether the current fingerprint differs from the stored one; the stored
/// fingerprint has to be written again exactly then.
pub fn digest_changed(current: &String, stored: &Option<String>) -> (out: bool)
    ensures
        out == digest_differs(current@, stored.deep_view()),
{
    match stored {
        Some(previous) => !(*previous == *current),
        None => true,
    }
}

/// Classifies a run from the current fingerprint, the stored one and the
/// normalized content.
pub fn classify(current: &String, stored: &Option<String>, content: &str, keyword: &str) -> (out:
    Classification)
    ensures
        out == classification(current@, stored.deep_view(), content@, keyword@),
{
    if contains_keyword(content, keyword) {
        Classification::KeywordFound
    } else if digest_changed(current, stored) {
        Classification::ContentChanged
    } else {
        Classification::Unchanged
    }
}

/// The notification text for a classification.
pub fn message_for(found: Classification) -> (out: &'static str)
    ensures
        out@ == message_text(found),
{
    match found {
        Classification::KeywordFound =>
            "JLPT 2026 dates may have been announced! Check https://www.ucd.ie/japan/exams/",
        Classification::ContentChanged =>
            "UCD JLPT page has been updated. Check https://www.ucd.ie/japan/exams/",
        Classification::Unchanged => "JLPT check complete - no changes detected.",
    }
}

/// First-run law: with nothing stored the fingerprint counts as changed, and
/// the run is never classified as unchanged.
pub proof fn lemma_first_run_is_changed(
    current: Seq<char>,
    content: Seq<char>,
    keyword: Seq<char>,
)
    ensures
        digest_differs(current, None),
        classification(current, None, content, keyword) != Classification::Unchanged,
{
}

/// Steady-state law: when the stored fingerprint is the current one, nothing
/// has to be written, and a run whose content lacks the keyword is
/// classified as unchanged.
pub proof fn lemma_same_digest_is_unchanged(
    current: Seq<char>,
    content: Seq<char>,
    keyword: Seq<char>,
)
    requires
        !contains(content, keyword),
    ensures
        !digest_differs(current, Some(current)),
        classification(current, Some(current), content, keyword) == Classification::Unchanged,
{
}

/// Keyword-priority law: content that holds the keyword is classified as a
/// keyword match whatever the fingerprints are.
pub proof fn lemma_keyword_has_priority(
    current: Seq<char>,
    stored: Option<Seq<char>>,
    content: Seq<char>,
    keyword: Seq<char>,
)
    requires
        contains(content, keyword),
    ensures
        classification(current, stored, content, keyword) == Classification::KeywordFound,
{
}

/// A run is classified as unchanged only if the fingerprint did not change:
/// whenever the stored fingerprint has to be written, the classification is
/// something else.
pub proof fn lemma_changed_is_never_unchanged(
    current: Seq<char>,
    stored: Option<Seq<char>>,
    content: Seq<char>,
    keyword: Seq<char>,
)
    requires
        digest_differs(current, stored),
    ensures
        classification(current, stored, content, keyword) != Classification::Unchanged,
{
}

} // verus!
