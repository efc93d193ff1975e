use vstd::prelude::*;
use vstd::slice::*;
use vstd::string::StringSliceAdditionalSpecFns;
use vstd::utf8::*;

verus! {

/// A titled paragraph of a text document.
#[derive(Clone, Debug, PartialEq, Eq)]
pub struct Paragraph {
    /// The header text, exactly as it was matched.
    pub title: String,
    /// Everything between this header and the next one (or the end of the text).
    pub contents: String,
}

/// The paragraphs found in one file, with the file's path.
#[derive(Clone, Debug, PartialEq, Eq)]
pub struct Document {
    pub paragraphs: Vec<Paragraph>,
    pub path: String,
}

/// The UTF-8 encoding of a character sequence.
pub open spec fn bytes_of(s: Seq<char>) -> Seq<u8> {
    encode_utf8(s)
}

/// Header spans over `text`: each lies within the text on character
/// boundaries, and each ends no later than the next one starts.
pub open spec fn spans_valid(text: Seq<u8>, spans: Seq<(usize, usize)>) -> bool {
    &&& forall|i: int|
        0 <= i < spans.len() ==> {
            &&& #[trigger] spans[i].0 <= spans[i].1
            &&& is_char_boundary(text, spans[i].0 as int)
            &&& is_char_boundary(text, spans[i].1 as int)
            &&& spans[i].1 <= text.len()
        }
    &&& forall|i: int| 0 <= i < spans.len() - 1 ==> #[trigger] spans[i].1 <= spans[i + 1].0
}

/// Where the body of the `i`-th header ends: at the next header, or at the end of the text.
pub open spec fn body_end(text_len: int, spans: Seq<(usize, usize)>, i: int) -> int {
    if i + 1 < spans.len() {
        spans[i + 1].0 as int
    } else {
        text_len
    }
}

/// Where the title of the `i`-th header ends: before the line break that
/// closes the match, where it ends in one, else at the end of the match.
pub open spec fn title_end(text: Seq<u8>, spans: Seq<(usize, usize)>, i: int) -> int {
    if spans[i].0 < spans[i].1 && text[spans[i].1 - 1] == 10u8 {
        spans[i].1 - 1
    } else {
        spans[i].1 as int
    }
}

/// Paragraph `p` is what header span `i` cuts out of `text`: its title is
/// the matched text without its closing line break, its body everything from
/// the end of the match up to the next header.
pub open spec fn paragraph_at(text: Seq<u8>, spans: Seq<(usize, usize)>, i: int, p: Paragraph) -> bool {
    &&& bytes_of(p.title@) == text.subrange(spans[i].0 as int, title_end(text, spans, i))
    &&& bytes_of(p.contents@) == text.subrange(
        spans[i].1 as int,
        body_end(text.len() as int, spans, i),
    )
}

/// `ps` holds one paragraph per header span, in order, each cut out of `text`.
pub open spec fn splits(text: Seq<u8>, spans: Seq<(usize, usize)>, ps: Seq<Paragraph>) -> bool {
    &&& ps.len() == spans.len()
    &&& forall|i: int| 0 <= i < ps.len() ==> #[trigger] paragraph_at(text, spans, i, ps[i])
}

/// From the `k`-th header on, each matched header followed by its body.
pub open spec fn rebuilt(text: Seq<u8>, spans: Seq<(usize, usize)>, ps: Seq<Paragraph>, k: int) -> Seq<u8>
    decreases ps.len() - k,
{
    if k < 0 || k >= ps.len() {
        Seq::empty()
    } else {
        text.subrange(spans[k].0 as int, spans[k].1 as int) + bytes_of(ps[k].contents@) + rebuilt(
            text,
            spans,
            ps,
            k + 1,
        )
    }
}

/// Relies on `str`'s indexing by a byte range: the bytes from `start` to
/// `end`, both of them character boundaries.
#[verifier::external_body]
fn slice_str<'a>(s: &'a str, start: usize, end: usize) -> (r: &'a str)
    requires
        start <= end,
        is_char_boundary(s.spec_bytes(), start as int),
        is_char_boundary(s.spec_bytes(), end as int),
    ensures
        r.spec_bytes() == s.spec_bytes().subrange(start as int, end as int),
{
    &s[start..end]
}

/// Cuts `text` into paragraphs at the given header spans.
pub fn paragraphs_from_spans(text: &str, spans: &Vec<(usize, usize)>) -> (r: Vec<Paragraph>)
    requires
        spans_valid(text.spec_bytes(), spans@),
    ensures
        splits(text.spec_bytes(), spans@, r@),
{
    let ghost bytes = text.spec_bytes();
    broadcast use axiom_spec_len;
    let mut out: Vec<Paragraph> = Vec::new();
    let mut i: usize = 0;
    while i < spans.len()
        invariant
            bytes == text.spec_bytes(),
            spans_valid(bytes, spans@),
            0 <= i <= spans.len(),
            out.len() == i,
            forall|k: int| 0 <= k < i ==> #[trigger] paragraph_at(bytes, spans@, k, out@[k]),
        decreases spans.len() - i,
    {
        let (start, end) = spans[i];
        assert(spans@[i as int].0 <= spans@[i as int].1);
        let next = if i + 1 < spans.len() {
            assert(spans@[i as int].1 <= spans@[i + 1].0);
            assert(spans@[i + 1].0 <= spans@[i + 1].1);
            spans[i + 1].0
        } else {
            text.as_bytes().len()
        };
        assert(is_char_boundary(bytes, next as int)) by {
            if i + 1 < spans.len() {
                assert(spans@[i + 1].0 <= spans@[i + 1].1);
            } else {
                assert(bytes.len() == next);
                encode_utf8_valid_utf8(text@);
                is_char_boundary_start_end_of_seq(bytes);
            }
        }
        let raw = text.as_bytes();
        let cut = if start < end && raw[end - 1] == 10u8 {
            proof {
                encode_utf8_valid_utf8(text@);
                is_char_boundary_iff_is_leading_byte(bytes, end - 1);
            }
            end - 1
        } else {
            end
        };
        let title = slice_str(text, start, cut).to_owned();
        let contents = slice_str(text, end, next).to_owned();
        let p = Paragraph { title, contents };
        proof {
            assert(paragraph_at(bytes, spans@, i as int, p));
        }
        out.push(p);
        i = i + 1;
    }
    out
}

/// Each title lies within its match; each body starts where its match ends
/// and ends where the next match starts, so no body overlaps a header or
/// another body.
pub proof fn lemma_bodies_do_not_overlap(text: Seq<u8>, spans: Seq<(usize, usize)>, i: int)
    requires
        spans_valid(text, spans),
        0 <= i < spans.len(),
    ensures
        spans[i].0 <= title_end(text, spans, i) <= spans[i].1 <= body_end(text.len() as int, spans, i),
        i + 1 < spans.len() ==> body_end(text.len() as int, spans, i) == spans[i + 1].0,
        body_end(text.len() as int, spans, i) <= text.len(),
{
    assert(spans[i].0 <= spans[i].1);
    if i + 1 < spans.len() {
        assert(spans[i].1 <= spans[i + 1].0);
        assert(spans[i + 1].0 <= spans[i + 1].1);
    }
}

/// With `n` header matches the text is cut into `n` paragraphs, and each
/// matched header followed by its body, in order, gives the text again from
/// the first header to the end.
pub proof fn lemma_paragraphs_rebuild_text(text: Seq<u8>, spans: Seq<(usize, usize)>, ps: Seq<Paragraph>)
    requires
        spans_valid(text, spans),
        splits(text, spans, ps),
        spans.len() > 0,
    ensures
        ps.len() == spans.len(),
        rebuilt(text, spans, ps, 0) == text.subrange(spans[0].0 as int, text.len() as int),
{
    lemma_rebuild_from(text, spans, ps, 0);
}

proof fn lemma_rebuild_from(text: Seq<u8>, spans: Seq<(usize, usize)>, ps: Seq<Paragraph>, k: int)
    requires
        spans_valid(text, spans),
        splits(text, spans, ps),
        0 <= k < spans.len(),
    ensures
        rebuilt(text, spans, ps, k) == text.subrange(spans[k].0 as int, text.len() as int),
    decreases spans.len() - k,
{
    let n = ps.len() as int;
    assert(paragraph_at(text, spans, k, ps[k]));
    lemma_bodies_do_not_overlap(text, spans, k);
    let e = body_end(text.len() as int, spans, k);
    if k + 1 < n {
        lemma_rebuild_from(text, spans, ps, k + 1);
    } else {
        assert(rebuilt(text, spans, ps, k + 1).len() == 0);
        assert(text.subrange(e, text.len() as int).len() == 0);
    }
    let m = spans[k].1 as int;
    assert(text.subrange(spans[k].0 as int, text.len() as int) =~= text.subrange(
        spans[k].0 as int,
        m,
    ) + text.subrange(m, e) + text.subrange(e, text.len() as int));
}

impl Document {
    /// Makes a document from its paragraphs and the path of its file.
    pub fn new(paragraphs: Vec<Paragraph>, path: String) -> (r: Document)
        ensures
            r.paragraphs@ == paragraphs@,
            r.path@ == path@,
    {
        Document { paragraphs, path }
    }
}

} // verus!
