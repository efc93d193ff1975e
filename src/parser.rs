use crate::document::{
    bytes_of, lemma_paragraphs_rebuild_text, paragraphs_from_spans, rebuilt, spans_valid, splits,
    Document, Paragraph,
};
use vstd::prelude::*;
use vstd::string::StringSliceAdditionalSpecFns;

verus! {

#[verifier::external_type_specification]
#[verifier::external_body]
pub struct ExRegex(regex::Regex);

#[verifier::external_type_specification]
#[verifier::external_body]
pub struct ExRegexError(regex::Error);

/// Whether a header pattern compiles as a multi-line regular expression.
pub uninterp spec fn pattern_compiles(pattern: Seq<char>) -> bool;

/// Relies on `regex::RegexBuilder` with `multi_line(true)`: `build` succeeds
/// exactly when the pattern is a valid expression within the default limits,
/// which depends on the pattern alone.
#[verifier::external_body]
fn compile_multi_line(pattern: &str) -> (r: Result<regex::Regex, regex::Error>)
    ensures
        r is Ok <==> pattern_compiles(pattern@),
{
    regex::RegexBuilder::new(pattern).multi_line(true).build()
}

/// Relies on `regex::Error`'s `Display`: a description of the error.
#[verifier::external_body]
fn regex_error_text(e: &regex::Error) -> String {
    e.to_string()
}

/// The byte spans, start and end, of the matches that a header pattern,
/// compiled in multi-line mode, finds in a text.
pub uninterp spec fn header_matches(pattern: Seq<char>, text: Seq<char>) -> Seq<(usize, usize)>;

/// Relies on `regex::Regex::find_iter` on the parser's compiled pattern:
/// successive non-overlapping matches, left to right, whose bounds fall on
/// character boundaries of the text, and which depend on the pattern and
/// the text alone.
#[verifier::external_body]
fn match_spans(parser: &Parser, text: &str) -> (r: Vec<(usize, usize)>)
    ensures
        r@ == header_matches(parser.pattern(), text@),
        spans_valid(text.spec_bytes(), r@),
{
    parser.regex.find_iter(text).map(|m| (m.start(), m.end())).collect()
}

/// Why a parse could not be made.
#[derive(Clone, Debug)]
pub enum ParseError {
    /// The header pattern is not a valid regular expression.
    Regex(String),
    /// A path could not be written as text.
    Utf8Error,
    /// The glob pattern is not valid.
    Glob(String),
}

/// A file to cut into paragraphs: its path and its contents.
#[derive(Clone, Debug)]
pub struct SourceFile {
    pub path: String,
    pub contents: String,
}

/// Splits text documents into paragraphs at the lines that match a header
/// pattern.
pub struct Parser {
    /// Glob pattern that selects the files to parse.
    pub glob_path: String,
    /// The header pattern as it was given.
    pattern: String,
    /// The header pattern, compiled in multi-line mode from `pattern`.
    regex: regex::Regex,
}

/// `ps` is `text` cut at every match of the header `pattern`.
pub open spec fn split_at_headers(pattern: Seq<char>, text: Seq<char>, ps: Seq<Paragraph>) -> bool {
    &&& spans_valid(bytes_of(text), header_matches(pattern, text))
    &&& splits(bytes_of(text), header_matches(pattern, text), ps)
}

/// A text in which the header pattern finds no match gives no paragraphs.
pub proof fn lemma_no_headers_no_paragraphs(pattern: Seq<char>, text: Seq<char>, ps: Seq<Paragraph>)
    requires
        header_matches(pattern, text).len() == 0,
        split_at_headers(pattern, text, ps),
    ensures
        ps.len() == 0,
{
}

/// With `n` matches of the header pattern the text is cut into `n`
/// paragraphs, and each matched header followed by its body, in order, gives
/// the text again from the first header to the end.
pub proof fn lemma_headers_rebuild_text(pattern: Seq<char>, text: Seq<char>, ps: Seq<Paragraph>)
    requires
        split_at_headers(pattern, text, ps),
        header_matches(pattern, text).len() > 0,
    ensures
        ps.len() == header_matches(pattern, text).len(),
        rebuilt(bytes_of(text), header_matches(pattern, text), ps, 0) == bytes_of(text).subrange(
            header_matches(pattern, text)[0].0 as int,
            bytes_of(text).len() as int,
        ),
{
    lemma_paragraphs_rebuild_text(bytes_of(text), header_matches(pattern, text), ps);
}

impl Parser {
    /// The glob pattern that the parser was made with.
    pub closed spec fn glob(&self) -> Seq<char> {
        self.glob_path@
    }

    /// The header pattern that the parser was made with.
    pub closed spec fn pattern(&self) -> Seq<char> {
        self.pattern@
    }

    /// Compiles the header pattern once, for every file that is parsed.
    pub fn new(glob_path: &str, regex: &str) -> (r: Result<Parser, ParseError>)
        ensures
            r is Ok <==> pattern_compiles(regex@),
            r matches Ok(p) ==> p.glob() == glob_path@ && p.pattern() == regex@,
            r matches Err(e) ==> e is Regex,
    {
        match compile_multi_line(regex) {
            Ok(re) => Ok(Parser { glob_path: glob_path.to_owned(), pattern: regex.to_owned(), regex: re }),
            Err(e) => Err(ParseError::Regex(regex_error_text(&e))),
        }
    }

    /// Cuts one text into paragraphs, one per header match, in order.
    pub fn parse_text(&self, text: &str) -> (r: Vec<Paragraph>)
        ensures
            split_at_headers(self.pattern(), text@, r@),
    {
        let spans = match_spans(self, text);
        paragraphs_from_spans(text, &spans)
    }

    /// Makes one document per file, in the order given, each holding the
    /// paragraphs of its file's contents.
    pub fn parse(&self, files: &Vec<SourceFile>) -> (r: Vec<Document>)
        ensures
            r.len() == files.len(),
            forall|i: int|
                0 <= i < r.len() ==> {
                    &&& (#[trigger] r[i]).path@ == files[i].path@
                    &&& split_at_headers(self.pattern(), files[i].contents@, r[i].paragraphs@)
                },
    {
        let mut documents: Vec<Document> = Vec::new();
        let mut i: usize = 0;
        while i < files.len()
            invariant
                0 <= i <= files.len(),
                documents.len() == i,
                forall|k: int|
                    0 <= k < i ==> {
                        &&& (#[trigger] documents[k]).path@ == files[k].path@
                        &&& split_at_headers(self.pattern(), files[k].contents@, documents[k].paragraphs@)
                    },
            decreases files.len() - i,
        {
            let file = &files[i];
            let paragraphs = self.parse_text(file.contents.as_str());
            documents.push(Document::new(paragraphs, file.path.clone()));
            i = i + 1;
        }
        documents
    }
}

} // verus!
