//! Detection of URLs in notification text, for rendering as links.

use crate::text::{byte_slice, lowercase_of, starts_with, to_lowercase};
use vstd::prelude::*;
use vstd::string::{StringExecFns, StringSliceAdditionalSpecFns};
use vstd::utf8::{decode_utf8, encode_utf8, is_char_boundary};

verus! {

/// The pattern of a URL in running text: `http`, `https` and `ftp` URLs
/// with `://`, `mailto:` links, and addresses that start with `www.`, each
/// up to the next white space, angle bracket or quotation mark.
pub const URL_PATTERN: &'static str =
    "(?:https?|ftp)://[^\\s<>\"']+|mailto:[^\\s<>\"']+|www\\.[^\\s<>\"']+";

/// Text segment - either plain text or a URL.
#[derive(Debug, Clone, PartialEq, Eq)]
pub enum TextSegment {
    /// Plain text segment.
    Text(String),
    /// URL segment with display text and the URL.
    Link { text: String, url: String },
}

/// A segment by its characters.
pub enum SegmentView {
    Text(Seq<char>),
    Link { text: Seq<char>, url: Seq<char> },
}

impl View for TextSegment {
    type V = SegmentView;

    open spec fn view(&self) -> SegmentView {
        match self {
            TextSegment::Text(text) => SegmentView::Text(text@),
            TextSegment::Link { text, url } => SegmentView::Link { text: text@, url: url@ },
        }
    }
}

/// The views of a run of segments.
pub open spec fn segment_views(segments: Seq<TextSegment>) -> Seq<SegmentView> {
    segments.map_values(|s: TextSegment| s@)
}

/// The places where `regex` finds the pattern in a text, by `Regex::new`
/// and `Regex::find_iter`: each the byte offsets of a match's start and
/// end, in the order of the matches; none where `regex` refuses the
/// pattern.
pub uninterp spec fn pattern_spans(pattern: Seq<char>, text: Seq<char>) -> Option<Seq<(int, int)>>;

/// The places of the URLs in a text: where `regex` finds `URL_PATTERN`.
pub open spec fn url_spans(text: Seq<char>) -> Seq<(int, int)> {
    match pattern_spans(URL_PATTERN@, text) {
        Some(spans) => spans,
        None => Seq::empty(),
    }
}

/// Whether `spans` are places in `bytes` one after the other: each within
/// the bytes, from a character's start to a character's start, and none
/// before the end of the one before it.
pub open spec fn spans_in_order(bytes: Seq<u8>, spans: Seq<(int, int)>) -> bool {
    &&& forall|i: int|
        0 <= i < spans.len() ==> 0 <= (#[trigger] spans[i]).0 <= spans[i].1 <= bytes.len()
            && is_char_boundary(bytes, spans[i].0) && is_char_boundary(bytes, spans[i].1)
    &&& forall|i: int, j: int|
        0 <= i < j < spans.len() ==> (#[trigger] spans[i]).1 <= (#[trigger] spans[j]).0
}

/// Spans as pairs of integers.
pub open spec fn span_ints(spans: Seq<(usize, usize)>) -> Seq<(int, int)> {
    spans.map_values(|s: (usize, usize)| (s.0 as int, s.1 as int))
}

/// Found places as pairs of integers.
pub open spec fn found_spans(found: Option<Vec<(usize, usize)>>) -> Option<Seq<(int, int)>> {
    match found {
        Some(spans) => Some(span_ints(spans@)),
        None => None,
    }
}

/// The matches of `pattern` in `text`, by `regex`'s `Regex::new` and
/// `Regex::find_iter`, each as the byte offsets that `Match::start` and
/// `Match::end` give; `None` where `Regex::new` refuses the pattern.
///
/// Trusted: the contract names the result and claims of the matches what
/// `regex` documents: they come one after the other and do not overlap,
/// no match ends before it starts, and every offset lies within the text
/// on a character boundary.
#[verifier::external_body]
fn find_spans(pattern: &str, text: &str) -> (found: Option<Vec<(usize, usize)>>)
    ensures
        found_spans(found) == pattern_spans(pattern@, text@),
        found matches Some(spans) ==> spans_in_order(text.spec_bytes(), span_ints(spans@)),
{
    let regex = regex::Regex::new(pattern).ok()?;
    Some(regex.find_iter(text).map(|found| (found.start(), found.end())).collect())
}

/// The places of the URLs in `text`, in their order.
pub fn find_url_spans(text: &str) -> (spans: Vec<(usize, usize)>)
    ensures
        span_ints(spans@) == url_spans(text@),
        spans_in_order(text.spec_bytes(), span_ints(spans@)),
{
    match find_spans(URL_PATTERN, text) {
        Some(spans) => spans,
        None => {
            let spans: Vec<(usize, usize)> = Vec::new();
            proof {
                assert(span_ints(spans@) =~= Seq::empty());
            }
            spans
        },
    }
}

/// Whether a URL in lowercase has a scheme that is never made a link.
pub open spec fn dangerous_scheme(lowered: Seq<char>) -> bool {
    ||| "javascript:"@.is_prefix_of(lowered)
    ||| "data:"@.is_prefix_of(lowered)
    ||| "vbscript:"@.is_prefix_of(lowered)
    ||| "file:"@.is_prefix_of(lowered)
}

/// The URL to open for `url`, given its lowercase form: none where the
/// scheme is dangerous, `https://` in front of an address that starts with
/// `www.`, and else the URL as it is.
pub open spec fn validated_url(url: Seq<char>, lowered: Seq<char>) -> Option<Seq<char>> {
    if dangerous_scheme(lowered) {
        None
    } else if "www."@.is_prefix_of(url) {
        Some("https://"@ + url)
    } else {
        Some(url)
    }
}

/// The characters of an optional string.
pub open spec fn url_view(url: Option<String>) -> Option<Seq<char>> {
    match url {
        Some(u) => Some(u@),
        None => None,
    }
}

/// Validate and normalize a URL, given its lowercase form.
pub fn validate_lowered(url: &str, lowered: &str) -> (r: Option<String>)
    ensures
        url_view(r) == validated_url(url@, lowered@),
{
    if starts_with(lowered, "javascript:") || starts_with(lowered, "data:") || starts_with(
        lowered,
        "vbscript:",
    ) || starts_with(lowered, "file:") {
        return None;
    }
    if starts_with(url, "www.") {
        let mut full = "https://".to_owned();
        full.append(url);
        return Some(full);
    }
    Some(url.to_owned())
}

/// Validate and normalize a URL.
///
/// Returns `None` for a URL with a dangerous scheme, whatever the case of
/// its letters. An address that starts with `www.` is given the scheme
/// `https://`.
pub fn validate_url(url: &str) -> (r: Option<String>)
    ensures
        url_view(r) == validated_url(url@, lowercase_of(url@)),
{
    let lowered = to_lowercase(url);
    validate_lowered(url, lowered.as_str())
}

/// The segment for a match: a link where the URL is valid, else the match
/// as plain text.
pub open spec fn url_segment(url: Seq<char>) -> SegmentView {
    match validated_url(url, lowercase_of(url)) {
        Some(target) => SegmentView::Link { text: url, url: target },
        None => SegmentView::Text(url),
    }
}

/// The segments of the text from the byte `from` on, given the matches
/// that lie there: the text before each match, where there is any, the
/// match itself, and at last the text after the last match, where there
/// is any.
pub open spec fn segments_from(bytes: Seq<u8>, spans: Seq<(int, int)>, from: int) -> Seq<
    SegmentView,
>
    decreases spans.len(),
{
    if spans.len() == 0 {
        if from < bytes.len() {
            seq![SegmentView::Text(decode_utf8(bytes.subrange(from, bytes.len() as int)))]
        } else {
            Seq::empty()
        }
    } else {
        let span = spans[0];
        let lead = if span.0 > from {
            seq![SegmentView::Text(decode_utf8(bytes.subrange(from, span.0)))]
        } else {
            Seq::empty()
        };
        lead + seq![url_segment(decode_utf8(bytes.subrange(span.0, span.1)))] + segments_from(
            bytes,
            spans.drop_first(),
            span.1,
        )
    }
}

/// The segments of a text with the given matches: plain text and links in
/// the order of the text. A text without matches is one segment of plain
/// text, an empty text too.
pub open spec fn segments_of(text: Seq<char>, spans: Seq<(int, int)>) -> Seq<SegmentView> {
    let segments = segments_from(encode_utf8(text), spans, 0);
    if segments.len() == 0 {
        seq![SegmentView::Text(text)]
    } else {
        segments
    }
}

/// The part of `text` between two byte offsets, as a string of its own.
fn piece(text: &str, start: usize, end: usize) -> (part: String)
    requires
        start <= end <= text.spec_bytes().len(),
        is_char_boundary(text.spec_bytes(), start as int),
        is_char_boundary(text.spec_bytes(), end as int),
    ensures
        part@ == decode_utf8(text.spec_bytes().subrange(start as int, end as int)),
{
    let part = byte_slice(text, start, end);
    proof {
        vstd::utf8::encode_utf8_decode_utf8(part@);
    }
    part.to_owned()
}

/// Split `text` into segments of plain text and links, given the places
/// of its URLs.
pub fn segment_text(text: &str, spans: &Vec<(usize, usize)>) -> (segments: Vec<TextSegment>)
    requires
        spans_in_order(text.spec_bytes(), span_ints(spans@)),
    ensures
        segment_views(segments@) == segments_of(text@, span_ints(spans@)),
{
    let ghost bytes = text.spec_bytes();
    let ghost places = span_ints(spans@);
    let length = text.as_bytes().len();
    let mut segments: Vec<TextSegment> = Vec::new();
    let mut last_end: usize = 0;
    let mut i: usize = 0;
    proof {
        assert(places.skip(0) =~= places);
        assert(segment_views(segments@) =~= Seq::empty());
        vstd::utf8::encode_utf8_valid_utf8(text@);
        vstd::utf8::is_char_boundary_start_end_of_seq(bytes);
    }
    while i < spans.len()
        invariant
            i <= spans@.len(),
            bytes == text.spec_bytes(),
            places == span_ints(spans@),
            length == bytes.len(),
            spans_in_order(bytes, places),
            last_end <= length,
            is_char_boundary(bytes, last_end as int),
            forall|j: int| i <= j < places.len() ==> last_end <= (#[trigger] places[j]).0,
            segment_views(segments@) + segments_from(bytes, places.skip(i as int), last_end as int)
                == segments_from(bytes, places, 0),
        decreases spans@.len() - i,
    {
        let start = spans[i].0;
        let end = spans[i].1;
        let ghost before = segment_views(segments@);
        let ghost rest = places.skip(i as int);
        proof {
            assert(places[i as int] == (start as int, end as int));
            assert(rest[0] == places[i as int]);
            assert(rest.drop_first() =~= places.skip(i as int + 1));
        }
        if start > last_end {
            let lead = piece(text, last_end, start);
            segments.push(TextSegment::Text(lead));
        }
        let url = piece(text, start, end);
        let segment = match validate_url(url.as_str()) {
            Some(target) => TextSegment::Link { text: url, url: target },
            None => TextSegment::Text(url),
        };
        segments.push(segment);
        proof {
            let lead = if start > last_end {
                seq![SegmentView::Text(decode_utf8(bytes.subrange(last_end as int, start as int)))]
            } else {
                Seq::empty()
            };
            let made = url_segment(decode_utf8(bytes.subrange(start as int, end as int)));
            assert(segment_views(segments@) =~= before + lead + seq![made]);
            assert(segments_from(bytes, rest, last_end as int) == lead + seq![made]
                + segments_from(bytes, rest.drop_first(), end as int));
            assert(before + (lead + seq![made] + segments_from(
                bytes,
                rest.drop_first(),
                end as int,
            )) =~= (before + lead + seq![made]) + segments_from(
                bytes,
                rest.drop_first(),
                end as int,
            ));
            assert forall|j: int| i + 1 <= j < places.len() implies end <= (#[trigger] places[j]).0 by {
                assert(places[i as int].1 <= places[j].0);
            }
        }
        last_end = end;
        i += 1;
    }
    proof {
        assert(places.skip(i as int) =~= Seq::empty());
    }
    if last_end < length {
        let ghost before = segment_views(segments@);
        let tail = piece(text, last_end, length);
        segments.push(TextSegment::Text(tail));
        proof {
            assert(segment_views(segments@) =~= before + seq![
                SegmentView::Text(decode_utf8(bytes.subrange(last_end as int, length as int))),
            ]);
        }
    } else {
        proof {
            assert(segment_views(segments@) + Seq::<SegmentView>::empty() =~= segment_views(
                segments@,
            ));
        }
    }
    if segments.len() == 0 {
        segments.push(TextSegment::Text(text.to_owned()));
        proof {
            assert(segment_views(segments@) =~= seq![SegmentView::Text(text@)]);
        }
    }
    segments
}

/// Parse text into segments of plain text and URLs.
pub fn parse_text(text: &str) -> (segments: Vec<TextSegment>)
    ensures
        segment_views(segments@) == segments_of(text@, url_spans(text@)),
{
    let spans = find_url_spans(text);
    segment_text(text, &spans)
}

/// The URL to open for the first match among `spans`, if there is a match
/// and its URL is valid.
pub open spec fn first_url(text: Seq<char>, spans: Seq<(int, int)>) -> Option<Seq<char>> {
    if spans.len() == 0 {
        None
    } else {
        let url = decode_utf8(encode_utf8(text).subrange(spans[0].0, spans[0].1));
        validated_url(url, lowercase_of(url))
    }
}

/// The first URL of `text`, given the places of its URLs: validated, and
/// none where the first match is no valid URL.
pub fn first_url_among(text: &str, spans: &Vec<(usize, usize)>) -> (r: Option<String>)
    requires
        spans_in_order(text.spec_bytes(), span_ints(spans@)),
    ensures
        url_view(r) == first_url(text@, span_ints(spans@)),
{
    if spans.len() == 0 {
        return None;
    }
    proof {
        assert(span_ints(spans@)[0] == (spans@[0].0 as int, spans@[0].1 as int));
    }
    let url = piece(text, spans[0].0, spans[0].1);
    validate_url(url.as_str())
}

/// Extract the first URL from text.
///
/// Returns the first URL found in the text, validated, or `None` if no
/// URL is present or the first one is not valid.
pub fn extract_first_url(text: &str) -> (r: Option<String>)
    ensures
        url_view(r) == first_url(text@, url_spans(text@)),
{
    let spans = find_url_spans(text);
    first_url_among(text, &spans)
}

} // verus!
