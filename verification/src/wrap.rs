use vstd::prelude::*;

verus! {

/// The display lines that word-wrapping one logical line at the given
/// width produces, in order. The result depends on the line and the width
/// alone; wrapping never breaks a word across two display lines, so a
/// line holding a token longer than the width may exceed it.
pub uninterp spec fn wrap_segments_of(line: Seq<char>, width: usize) -> Seq<Seq<char>>;

/// Relies on textwrap::wrap, with word breaking disabled as the options
/// say: it wraps one logical line into display lines of at most `width`
/// columns, moving whole words only, as a pure function of the line and
/// the width.
#[verifier::external_body]
fn wrap_line(line: &str, width: usize) -> (r: Vec<String>)
    requires
        1 <= width,
    ensures
        r@.map_values(|s: String| s@) == wrap_segments_of(line@, width),
{
    textwrap::wrap(line, textwrap::Options::new(width).break_words(false))
        .iter()
        .map(|seg| seg.to_string())
        .collect()
}

/// Relies on String::push_str: appends the slice to the end of the
/// string.
#[verifier::external_body]
fn append_str(s: &mut String, t: &str)
    ensures
        final(s)@ == old(s)@ + t@,
{
    s.push_str(t);
}

/// One screen row: the text of one wrapped segment, and whether it is a
/// soft-wrap continuation of its logical line rather than the start of a
/// new one.
pub struct DisplayLine {
    pub text: String,
    pub continuation: bool,
}

impl DisplayLine {
    /// What a display line holds: its characters and its continuation
    /// flag.
    pub open spec fn model(self) -> (Seq<char>, bool) {
        (self.text@, self.continuation)
    }

    /// The text as shown on screen: a continuation carries the marker in
    /// front, a first segment stands verbatim.
    pub open spec fn rendered_model(self) -> Seq<char> {
        if self.continuation {
            marker() + self.text@
        } else {
            self.text@
        }
    }

    /// The string written to the screen for this row.
    pub fn rendered(&self) -> (r: String)
        ensures
            r@ == self.rendered_model(),
    {
        if self.continuation {
            let mut s = marker_string();
            append_str(&mut s, self.text.as_str());
            s
        } else {
            self.text.clone()
        }
    }
}

/// The continuation marker: a glyph and a space, in front of every
/// soft-wrapped segment after the first.
pub open spec fn marker() -> Seq<char> {
    seq!['\u{21a9}', ' ']
}

/// The marker as a string.
pub fn marker_string() -> (r: String)
    ensures
        r@ == marker(),
{
    let m = "\u{21a9} ";
    proof {
        reveal_strlit("\u{21a9} ");
    }
    m.to_owned()
}

/// The rows that one logical line contributes to the display: its wrapped
/// segments in order, the first flagged as a line start and the rest as
/// continuations.
pub open spec fn line_display(line: Seq<char>, width: usize) -> Seq<(Seq<char>, bool)> {
    wrap_segments_of(line, width).map(|i: int, s: Seq<char>| (s, i > 0))
}

/// The rows that the document contributes from logical line `index` to
/// its end, in document order.
pub open spec fn display_from(doc: Seq<Seq<char>>, index: int, width: usize) -> Seq<
    (Seq<char>, bool),
>
    decreases doc.len() - index,
{
    if index < 0 || index >= doc.len() {
        Seq::empty()
    } else {
        line_display(doc[index], width) + display_from(doc, index + 1, width)
    }
}

/// The characters of each logical line of the document.
pub open spec fn doc_model(lines: Seq<String>) -> Seq<Seq<char>> {
    lines.map_values(|s: String| s@)
}

/// Wrap every logical line from `offset` to the end of the document and
/// flag continuations, in document order. An offset at or past the end of
/// the document yields no rows.
pub fn wrap_display(lines: &Vec<String>, offset: usize, width: usize) -> (r: Vec<DisplayLine>)
    requires
        1 <= width,
    ensures
        r@.map_values(|d: DisplayLine| d.model()) == display_from(
            doc_model(lines@),
            offset as int,
            width,
        ),
{
    let ghost doc = doc_model(lines@);
    let mut r: Vec<DisplayLine> = Vec::new();
    let mut j: usize = offset;
    proof {
        assert(r@.map_values(|d: DisplayLine| d.model()) + display_from(doc, j as int, width)
            =~= display_from(doc, offset as int, width));
    }
    while j < lines.len()
        invariant
            1 <= width,
            offset <= j,
            doc == doc_model(lines@),
            r@.map_values(|d: DisplayLine| d.model()) + display_from(doc, j as int, width)
                == display_from(doc, offset as int, width),
        decreases lines@.len() - j,
    {
        let ghost prev = r@.map_values(|d: DisplayLine| d.model());
        let ghost row = line_display(doc[j as int], width);
        let segs: Vec<String> = wrap_line(&lines[j], width);
        proof {
            assert(lines@[j as int]@ == doc[j as int]);
            assert(segs@.map_values(|s: String| s@) == wrap_segments_of(doc[j as int], width));
            assert(row.len() == segs@.len());
            assert(prev + row.take(0) =~= prev);
        }
        let mut i: usize = 0;
        while i < segs.len()
            invariant
                0 <= i <= segs.len(),
                segs@.map_values(|s: String| s@) == wrap_segments_of(doc[j as int], width),
                row == line_display(doc[j as int], width),
                r@.map_values(|d: DisplayLine| d.model()) == prev + row.take(i as int),
            decreases segs@.len() - i,
        {
            let seg = segs[i].clone();
            let d = DisplayLine { text: seg, continuation: i > 0 };
            proof {
                assert(d.model() == row[i as int]);
                assert(r@.push(d).map_values(|dd: DisplayLine| dd.model()) =~= r@.map_values(
                    |dd: DisplayLine| dd.model(),
                ).push(d.model()));
                assert(prev + row.take(i as int + 1) =~= (prev + row.take(i as int)).push(
                    row[i as int],
                ));
            }
            r.push(d);
            i = i + 1;
        }
        proof {
            assert(row.take(segs@.len() as int) =~= row);
            assert(display_from(doc, j as int, width) == row + display_from(
                doc,
                j as int + 1,
                width,
            ));
            assert((prev + row) + display_from(doc, j as int + 1, width) =~= prev + (row
                + display_from(doc, j as int + 1, width)));
        }
        j = j + 1;
    }
    proof {
        assert(display_from(doc, j as int, width) =~= Seq::<(Seq<char>, bool)>::empty());
        assert(r@.map_values(|d: DisplayLine| d.model()) + Seq::<(Seq<char>, bool)>::empty()
            =~= r@.map_values(|d: DisplayLine| d.model()));
    }
    r
}

/// Wrapping is deterministic: two display computations over the same
/// logical lines, offset and width are the same, so repeated calls of
/// `wrap_display` on equal inputs yield equal rows.
pub proof fn lemma_wrap_deterministic(
    a: Seq<(Seq<char>, bool)>,
    b: Seq<(Seq<char>, bool)>,
    doc: Seq<Seq<char>>,
    offset: int,
    width: usize,
)
    requires
        a == display_from(doc, offset, width),
        b == display_from(doc, offset, width),
    ensures
        a == b,
{
}

} // verus!
