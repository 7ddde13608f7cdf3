//! The HTML normalizer: removes the volatile regions of a page (comments,
//! scripts, styles, no-script blocks and footers) so that only meaningful
//! content is fingerprinted.
//!
//! This is a single forward scan, not an HTML parser. It repeatedly looks for
//! the earliest opening marker, then for the matching closing marker from
//! that point on, and drops everything in between. A region that is never
//! closed swallows the rest of the page.

use vstd::prelude::*;
use vstd::string::*;
use crate::text::{
    contains, find_from, first_match, is_first_match, lemma_first_match_none,
    lemma_first_match_some, lemma_first_match_unique, lemma_lower_concat, lemma_lower_skip,
    lemma_matches_at_prefix, lemma_matches_at_skip, lower, matches_at, to_chars, to_lower,
};

verus! {

/// The kinds of region that are removed, in the order in which they are
/// considered when two of them open at the same place.
#[derive(Clone, Copy, Debug, PartialEq, Eq, Structural)]
pub enum Region {
    Comment,
    Script,
    Style,
    NoScript,
    Footer,
}

impl Region {
    /// The lower-case text that opens a region of this kind.
    pub open spec fn opening(self) -> Seq<char> {
        match self {
            Region::Comment => "<!--"@,
            Region::Script => "<script"@,
            Region::Style => "<style"@,
            Region::NoScript => "<noscript"@,
            Region::Footer => "<footer"@,
        }
    }

    /// The lower-case text that closes a region of this kind.
    pub open spec fn closing(self) -> Seq<char> {
        match self {
            Region::Comment => "-->"@,
            Region::Script => "</script>"@,
            Region::Style => "</style>"@,
            Region::NoScript => "</noscript>"@,
            Region::Footer => "</footer>"@,
        }
    }

    /// The opening marker, as text.
    pub fn opening_marker(self) -> (out: &'static str)
        ensures
            out@ == self.opening(),
    {
        match self {
            Region::Comment => "<!--",
            Region::Script => "<script",
            Region::Style => "<style",
            Region::NoScript => "<noscript",
            Region::Footer => "<footer",
        }
    }

    /// The closing marker, as text.
    pub fn closing_marker(self) -> (out: &'static str)
        ensures
            out@ == self.closing(),
    {
        match self {
            Region::Comment => "-->",
            Region::Script => "</script>",
            Region::Style => "</style>",
            Region::NoScript => "</noscript>",
            Region::Footer => "</footer>",
        }
    }
}

/// Markers are never empty, so removing a region always makes progress.
pub proof fn lemma_marker_lengths(region: Region)
    ensures
        region.opening().len() >= 4,
        region.closing().len() >= 3,
{
    reveal_strlit("<!--");
    reveal_strlit("<script");
    reveal_strlit("<style");
    reveal_strlit("<noscript");
    reveal_strlit("<footer");
    reveal_strlit("-->");
    reveal_strlit("</script>");
    reveal_strlit("</style>");
    reveal_strlit("</noscript>");
    reveal_strlit("</footer>");
}

/// The first place at which a region of the given kind opens in lower-cased
/// text, together with the kind.
pub open spec fn opening_of(low: Seq<char>, region: Region) -> Option<(int, Region)> {
    match first_match(low, region.opening()) {
        Some(at) => Some((at, region)),
        None => None,
    }
}

/// The earlier of two candidate openings; on a tie, or when `next` is
/// absent, `best` stays.
pub open spec fn earlier(best: Option<(int, Region)>, next: Option<(int, Region)>) -> Option<
    (int, Region),
> {
    match (best, next) {
        (Some(b), Some(n)) => if n.0 < b.0 {
            next
        } else {
            best
        },
        (Some(_), None) => best,
        (None, _) => next,
    }
}

/// The earliest opening marker of any kind in lower-cased text.
pub open spec fn earliest_opening(low: Seq<char>) -> Option<(int, Region)> {
    earlier(
        earlier(
            earlier(
                earlier(opening_of(low, Region::Comment), opening_of(low, Region::Script)),
                opening_of(low, Region::Style),
            ),
            opening_of(low, Region::NoScript),
        ),
        opening_of(low, Region::Footer),
    )
}

/// The earliest opening marker in `s`, matched without regard to ASCII case:
/// its index and the kind of region it opens.
pub open spec fn first_opening(s: Seq<char>) -> Option<(int, Region)> {
    earliest_opening(lower(s))
}

/// Where the region that opens at the start of `rest` ends: the index just
/// past the first closing marker, searched from the opening marker's own
/// first character and without regard to ASCII case.
pub open spec fn region_end(rest: Seq<char>, region: Region) -> Option<int> {
    match first_match(lower(rest), region.closing()) {
        Some(at) => Some(at + region.closing().len()),
        None => None,
    }
}

/// The normalized form of a page.
///
/// Text before the earliest opening marker is kept. The region that the
/// marker opens is dropped up to and including its closing marker, and the
/// scan goes on behind it. If the region is never closed, everything from
/// the opening marker on is dropped.
pub open spec fn strip(s: Seq<char>) -> Seq<char>
    decreases s.len(),
    via strip_decreases
{
    match first_opening(s) {
        None => s,
        Some((at, region)) => match region_end(s.skip(at), region) {
            None => s.take(at),
            Some(end) => s.take(at) + strip(s.skip(at).skip(end)),
        },
    }
}

#[via_fn]
proof fn strip_decreases(s: Seq<char>) {
    if let Some((at, region)) = first_opening(s) {
        lemma_first_opening_bounds(s);
        if let Some(end) = region_end(s.skip(at), region) {
            lemma_region_end_bounds(s.skip(at), region);
        }
    }
}

/// An opening marker lies wholly inside the text.
pub proof fn lemma_first_opening_bounds(s: Seq<char>)
    ensures
        first_opening(s) matches Some((at, region)) ==> 0 <= at && at + region.opening().len()
            <= s.len() && is_first_match(lower(s), region.opening(), at),
{
    let low = lower(s);
    lemma_first_match_some(low, Region::Comment.opening());
    lemma_first_match_some(low, Region::Script.opening());
    lemma_first_match_some(low, Region::Style.opening());
    lemma_first_match_some(low, Region::NoScript.opening());
    lemma_first_match_some(low, Region::Footer.opening());
}

/// The end of a region lies inside the text and behind at least one
/// character.
pub proof fn lemma_region_end_bounds(rest: Seq<char>, region: Region)
    ensures
        region_end(rest, region) matches Some(end) ==> 0 < end <= rest.len(),
{
    lemma_first_match_some(lower(rest), region.closing());
    lemma_marker_lengths(region);
}

/// The opening of one kind of region, searched in lower-cased text from
/// index `from` on, merged into the best candidate found so far.
fn consider(low: &Vec<char>, from: usize, best: Option<(usize, Region)>, region: Region) -> (out:
    Option<(usize, Region)>)
    requires
        from <= low.len(),
        best matches Some(b) ==> from <= b.0,
    ensures
        out matches Some(o) ==> from <= o.0,
        shifted(out, from) == earlier(
            shifted(best, from),
            opening_of(low@.skip(from as int), region),
        ),
{
    let marker = to_chars(region.opening_marker());
    match find_from(low, &marker, from) {
        None => best,
        Some(at) => match best {
            None => Some((at, region)),
            Some(b) => if at < b.0 {
                Some((at, region))
            } else {
                best
            },
        },
    }
}

/// An opening found at an index of the whole text, seen from index `from`.
pub open spec fn shifted(found: Option<(usize, Region)>, from: usize) -> Option<(int, Region)> {
    match found {
        Some(f) => Some((f.0 - from, f.1)),
        None => None,
    }
}

/// The earliest opening marker at or after index `from` of lower-cased text.
fn next_opening(low: &Vec<char>, from: usize) -> (out: Option<(usize, Region)>)
    requires
        from <= low.len(),
    ensures
        out matches Some(o) ==> from <= o.0,
        shifted(out, from) == earliest_opening(low@.skip(from as int)),
{
    let best = consider(low, from, None, Region::Comment);
    let best = consider(low, from, best, Region::Script);
    let best = consider(low, from, best, Region::Style);
    let best = consider(low, from, best, Region::NoScript);
    consider(low, from, best, Region::Footer)
}

/// Removes comments, scripts, styles, no-script blocks and footers from a
/// page, so that what is left reflects only its meaningful content.
pub fn strip_dynamic_elements(html: &str) -> (out: String)
    ensures
        out@ == strip(html@),
{
    let chars = to_chars(html);
    let low = to_lower(&chars);
    let len = chars.len();
    let mut out = String::new();
    let mut cursor: usize = 0;
    assert(html@.skip(0) =~= html@);
    loop
        invariant
            cursor <= len,
            len == html@.len(),
            low@ == lower(html@),
            strip(html@) == out@ + strip(html@.skip(cursor as int)),
        decreases len - cursor,
    {
        let ghost rest = html@.skip(cursor as int);
        proof {
            lemma_lower_skip(html@, cursor as int);
            lemma_first_opening_bounds(rest);
        }
        match next_opening(&low, cursor) {
            None => {
                out.append(html.substring_char(cursor, len));
                assert(html@.subrange(cursor as int, len as int) =~= rest);
                return out;
            },
            Some((at, region)) => {
                out.append(html.substring_char(cursor, at));
                let marker = to_chars(region.closing_marker());
                let ghost opened = rest.skip(at - cursor);
                proof {
                    assert(html@.subrange(cursor as int, at as int) =~= rest.take(at - cursor));
                    assert(opened =~= html@.skip(at as int));
                    lemma_lower_skip(html@, at as int);
                    lemma_region_end_bounds(opened, region);
                }
                match find_from(&low, &marker, at) {
                    None => {
                        return out;
                    },
                    Some(close) => {
                        proof {
                            lemma_first_match_some(lower(opened), region.closing());
                            assert(opened.skip(close - at + marker@.len()) =~= html@.skip(
                                close + marker@.len(),
                            ));
                        }
                        cursor = close + marker.len();
                    },
                }
            },
        }
    }
}

/// No region of any kind opens in `s` before index `limit`.
pub open spec fn no_opening_before(s: Seq<char>, limit: int) -> bool {
    forall|region: Region, i: int|
        0 <= i < limit ==> !#[trigger] matches_at(lower(s), region.opening(), i)
}

/// `text` is one whole region of the given kind: it begins with the opening
/// marker and its first closing marker is its end, both without regard to
/// ASCII case.
pub open spec fn is_region(text: Seq<char>, kind: Region) -> bool {
    &&& matches_at(lower(text), kind.opening(), 0)
    &&& is_first_match(lower(text), kind.closing(), text.len() - kind.closing().len())
}

/// `text` begins with the opening marker of the given kind and never closes
/// it.
pub open spec fn is_unterminated(text: Seq<char>, kind: Region) -> bool {
    &&& matches_at(lower(text), kind.opening(), 0)
    &&& !contains(lower(text), kind.closing())
}

/// Two different kinds of region never open at the same place.
pub proof fn lemma_openings_exclusive(low: Seq<char>, a: Region, b: Region, i: int)
    requires
        matches_at(low, a.opening(), i),
        matches_at(low, b.opening(), i),
    ensures
        a == b,
{
    reveal_strlit("<!--");
    reveal_strlit("<script");
    reveal_strlit("<style");
    reveal_strlit("<noscript");
    reveal_strlit("<footer");
    let x = low.subrange(i, i + a.opening().len());
    let y = low.subrange(i, i + b.opening().len());
    assert(x[1] == low[i + 1] && x[2] == low[i + 2]);
    assert(y[1] == low[i + 1] && y[2] == low[i + 2]);
}

/// Where one kind opens at `at` and nothing opens before, every other kind
/// opens later, if at all.
proof fn lemma_other_opens_later(s: Seq<char>, at: int, kind: Region, other: Region)
    requires
        matches_at(lower(s), kind.opening(), at),
        no_opening_before(s, at),
        other != kind,
    ensures
        first_match(lower(s), other.opening()) matches Some(later) ==> at < later,
{
    let low = lower(s);
    if let Some(later) = first_match(low, other.opening()) {
        lemma_first_match_some(low, other.opening());
        if later < at {
            assert(!matches_at(lower(s), other.opening(), later));
        }
        if later == at {
            lemma_openings_exclusive(low, kind, other, at);
        }
    }
}

/// A marker that opens at `at`, with no opening of any kind before it, is
/// the earliest opening.
pub proof fn lemma_first_opening_is(s: Seq<char>, at: int, kind: Region)
    requires
        matches_at(lower(s), kind.opening(), at),
        no_opening_before(s, at),
    ensures
        first_opening(s) == Some((at, kind)),
{
    lemma_first_match_unique(lower(s), kind.opening(), at);
    if kind != Region::Comment {
        lemma_other_opens_later(s, at, kind, Region::Comment);
    }
    if kind != Region::Script {
        lemma_other_opens_later(s, at, kind, Region::Script);
    }
    if kind != Region::Style {
        lemma_other_opens_later(s, at, kind, Region::Style);
    }
    if kind != Region::NoScript {
        lemma_other_opens_later(s, at, kind, Region::NoScript);
    }
    if kind != Region::Footer {
        lemma_other_opens_later(s, at, kind, Region::Footer);
    }
}

/// In a text in which nothing opens, no kind of region has a first opening.
proof fn lemma_never_opens(s: Seq<char>, region: Region)
    requires
        no_opening_before(s, s.len() as int),
    ensures
        first_match(lower(s), region.opening()) is None,
{
    let low = lower(s);
    assert forall|i: int| !matches_at(low, region.opening(), i) by {
        lemma_marker_lengths(region);
        if 0 <= i < s.len() {
            assert(!matches_at(lower(s), region.opening(), i));
        }
    }
    lemma_first_match_none(low, region.opening());
}

/// Identity law: a page in which no region opens is its own normalized form.
pub proof fn lemma_strip_identity(s: Seq<char>)
    requires
        no_opening_before(s, s.len() as int),
    ensures
        strip(s) == s,
{
    lemma_never_opens(s, Region::Comment);
    lemma_never_opens(s, Region::Script);
    lemma_never_opens(s, Region::Style);
    lemma_never_opens(s, Region::NoScript);
    lemma_never_opens(s, Region::Footer);
}

/// Removal law: when the first region that opens in a page is well formed,
/// the normalized page is the text before it followed by the normalized
/// form of the text after it. Nothing of the region itself, markers or
/// inner text, is kept.
pub proof fn lemma_strip_removes_region(
    before: Seq<char>,
    region: Seq<char>,
    after: Seq<char>,
    kind: Region,
)
    requires
        is_region(region, kind),
        no_opening_before(before + region + after, before.len() as int),
    ensures
        strip(before + region + after) == before + strip(after),
{
    let s = before + region + after;
    let at = before.len() as int;
    let rest = region + after;
    let close = region.len() - kind.closing().len();
    assert(s.skip(at) =~= rest);
    assert(s.take(at) =~= before);
    lemma_lower_skip(s, at);
    lemma_lower_concat(region, after);
    lemma_matches_at_prefix(lower(region), lower(after), kind.opening(), 0);
    lemma_matches_at_skip(lower(s), kind.opening(), at, 0);
    lemma_first_opening_is(s, at, kind);
    assert(is_first_match(lower(rest), kind.closing(), close)) by {
        lemma_matches_at_prefix(lower(region), lower(after), kind.closing(), close);
        assert forall|j: int| 0 <= j < close implies !matches_at(
            lower(rest),
            kind.closing(),
            j,
        ) by {
            lemma_matches_at_prefix(lower(region), lower(after), kind.closing(), j);
        }
    }
    lemma_first_match_unique(lower(rest), kind.closing(), close);
    assert(rest.skip(region.len() as int) =~= after);
}

/// A stretch of a page: text that is kept, followed by one region that is
/// removed.
pub struct Span {
    pub kept: Seq<char>,
    pub region: Seq<char>,
    pub kind: Region,
}

/// The page made of the given stretches, in order, followed by `rest`.
pub open spec fn assemble(spans: Seq<Span>, rest: Seq<char>) -> Seq<char>
    decreases spans.len(),
{
    if spans.len() == 0 {
        rest
    } else {
        spans[0].kept + spans[0].region + assemble(spans.drop_first(), rest)
    }
}

/// The kept text of the given stretches, in order.
pub open spec fn kept_text(spans: Seq<Span>) -> Seq<char>
    decreases spans.len(),
{
    if spans.len() == 0 {
        Seq::empty()
    } else {
        spans[0].kept + kept_text(spans.drop_first())
    }
}

/// Every stretch ends in a well-formed region, and within the page that the
/// stretches make with `rest`, nothing opens in the kept text before it.
pub open spec fn spans_well_formed(spans: Seq<Span>, rest: Seq<char>) -> bool
    decreases spans.len(),
{
    if spans.len() == 0 {
        true
    } else {
        &&& is_region(spans[0].region, spans[0].kind)
        &&& no_opening_before(assemble(spans, rest), spans[0].kept.len() as int)
        &&& spans_well_formed(spans.drop_first(), rest)
    }
}

/// Removal law for a whole page: however many well-formed regions a page
/// begins with, its normalized form is the kept text between them followed
/// by the normalized form of what comes after the last of them. Of the
/// regions themselves nothing is left.
pub proof fn lemma_strip_removes_regions(spans: Seq<Span>, rest: Seq<char>)
    requires
        spans_well_formed(spans, rest),
    ensures
        strip(assemble(spans, rest)) == kept_text(spans) + strip(rest),
    decreases spans.len(),
{
    if spans.len() == 0 {
        assert(kept_text(spans) + strip(rest) =~= strip(rest));
    } else {
        let head = spans[0];
        let after = assemble(spans.drop_first(), rest);
        lemma_strip_removes_region(head.kept, head.region, after, head.kind);
        lemma_strip_removes_regions(spans.drop_first(), rest);
        assert(head.kept + (kept_text(spans.drop_first()) + strip(rest)) =~= kept_text(spans)
            + strip(rest));
    }
}

/// Truncation law: when the first region that opens in a page is never
/// closed, the normalized page is the text before its opening marker.
pub proof fn lemma_strip_truncates(before: Seq<char>, tail: Seq<char>, kind: Region)
    requires
        is_unterminated(tail, kind),
        no_opening_before(before + tail, before.len() as int),
    ensures
        strip(before + tail) == before,
{
    let s = before + tail;
    let at = before.len() as int;
    assert(s.skip(at) =~= tail);
    assert(s.take(at) =~= before);
    lemma_lower_skip(s, at);
    lemma_matches_at_skip(lower(s), kind.opening(), at, 0);
    lemma_first_opening_is(s, at, kind);
    lemma_first_match_none(lower(tail), kind.closing());
}

} // verus!
