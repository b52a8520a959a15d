use vstd::prelude::*;

verus! {

/// The characters that decoding a byte stream as UTF-8 yields, with every
/// invalid sequence replaced rather than rejected. The result depends on
/// the bytes alone.
pub uninterp spec fn lossy_decode_of(bytes: Seq<u8>) -> Seq<char>;

/// The logical lines of a text, split at line endings, the terminators
/// dropped. The result depends on the characters alone. A text without
/// characters has no lines.
pub uninterp spec fn lines_of(text: Seq<char>) -> Seq<Seq<char>>;

/// Relies on String::from_utf8_lossy: decodes the bytes as UTF-8,
/// replacing invalid sequences with the replacement character; valid
/// UTF-8, and so an empty input, passes through unchanged.
#[verifier::external_body]
fn decode_lossy(bytes: &Vec<u8>) -> (s: String)
    ensures
        s@ == lossy_decode_of(bytes@),
        bytes@.len() == 0 ==> s@.len() == 0,
{
    String::from_utf8_lossy(bytes).into_owned()
}

/// Relies on str::lines: splits at every line feed, dropping it and a
/// carriage return just before it; a final line ending is optional, and
/// an empty text yields no lines.
#[verifier::external_body]
fn split_lines(text: &str) -> (r: Vec<String>)
    ensures
        r@.map_values(|l: String| l@) == lines_of(text@),
        text@.len() == 0 ==> r@.len() == 0,
{
    text.lines().map(|l| l.to_string()).collect()
}

/// The document: the ordered logical lines of the input, fixed once they
/// are loaded.
pub struct Document {
    pub lines: Vec<String>,
}

impl Document {
    /// The characters of each logical line, in order.
    pub open spec fn view(&self) -> Seq<Seq<char>> {
        self.lines@.map_values(|s: String| s@)
    }

    /// Load a document from a raw byte stream: decode it leniently, then
    /// split it into logical lines. No bytes give an empty document.
    pub fn load(bytes: &Vec<u8>) -> (d: Document)
        ensures
            d@ == lines_of(lossy_decode_of(bytes@)),
            bytes@.len() == 0 ==> d@.len() == 0,
    {
        let text = decode_lossy(bytes);
        let lines = split_lines(text.as_str());
        Document { lines }
    }

    /// How many logical lines the document holds.
    pub fn len(&self) -> (n: usize)
        ensures
            n == self@.len(),
    {
        self.lines.len()
    }
}

} // verus!
