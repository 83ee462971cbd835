//! The text of the output: one line per accepted point, and the rendering of
//! a region.
//!
//! Numbers are rendered as decimals by the caller; this module frames the
//! renderings.
use vstd::prelude::*;
use vstd::string::*;

verus! {

/// Whether a field can stand in a line: it holds no tab and no newline.
pub open spec fn plain(field: Seq<char>) -> bool {
    forall|i: int| 0 <= i < field.len() ==> field[i] != '\t' && field[i] != '\n'
}

/// The line of one accepted point: the two coordinates and the label,
/// separated by tabs and closed by a newline.
pub open spec fn line_of(x: Seq<char>, y: Seq<char>, label: Seq<char>) -> Seq<char> {
    x + seq!['\t'] + y + seq!['\t'] + label + seq!['\n']
}

/// The rendering of a region from the renderings of its four bounds.
pub open spec fn bounds_of(
    min_x: Seq<char>,
    max_x: Seq<char>,
    min_y: Seq<char>,
    max_y: Seq<char>,
) -> Seq<char> {
    "(x: "@ + min_x + ".."@ + max_x + "), y: ("@ + min_y + ".."@ + max_y + ")"@
}

/// Builds the output line of an accepted point from the decimal renderings
/// of its coordinates and the label of its task.
pub fn record_line(x_text: &str, y_text: &str, label: &str) -> (r: String)
    ensures
        r@ == line_of(x_text@, y_text@, label@),
{
    proof {
        reveal_strlit("\t");
        reveal_strlit("\n");
    }
    let mut line = String::from_str(x_text);
    line.append("\t");
    line.append(y_text);
    line.append("\t");
    line.append(label);
    line.append("\n");
    proof {
        assert("\t"@ =~= seq!['\t']);
        assert("\n"@ =~= seq!['\n']);
    }
    line
}

/// Builds the human-readable rendering of a region from the decimal
/// renderings of its four bounds.
pub fn bounds_text(min_x: &str, max_x: &str, min_y: &str, max_y: &str) -> (r: String)
    ensures
        r@ == bounds_of(min_x@, max_x@, min_y@, max_y@),
{
    let mut text = String::from_str("(x: ");
    text.append(min_x);
    text.append("..");
    text.append(max_x);
    text.append("), y: (");
    text.append(min_y);
    text.append("..");
    text.append(max_y);
    text.append(")");
    text
}

/// A line whose fields are plain is framed without ambiguity: its tabs are
/// the two separators, one right after each coordinate, and its only newline
/// is its last character.
pub proof fn lemma_line_is_framed(x: Seq<char>, y: Seq<char>, label: Seq<char>)
    requires
        plain(x),
        plain(y),
        plain(label),
    ensures
        ({
            let line = line_of(x, y, label);
            let first_tab: int = x.len() as int;
            let second_tab: int = first_tab + 1 + y.len();
            let end: int = line.len() - 1;
            &&& end == x.len() + y.len() + label.len() + 2
            &&& forall|i: int|
                0 <= i < line.len() ==> (line[i] == '\t' <==> i == first_tab || i == second_tab)
            &&& forall|i: int| 0 <= i < line.len() ==> (line[i] == '\n' <==> i == end)
            &&& line.subrange(0, first_tab) == x
            &&& line.subrange(first_tab + 1, second_tab) == y
            &&& line.subrange(second_tab + 1, end) == label
        }),
{
    let line = line_of(x, y, label);
    let first_tab: int = x.len() as int;
    let second_tab: int = first_tab + 1 + y.len();
    let end: int = line.len() - 1;
    assert forall|i: int| 0 <= i < line.len() implies (line[i] == '\t' <==> i == first_tab || i
        == second_tab) && (line[i] == '\n' <==> i == end) by {
        if i < first_tab {
            assert(line[i] == x[i]);
        } else if first_tab < i < second_tab {
            assert(line[i] == y[i - first_tab - 1]);
        } else if second_tab < i < end {
            assert(line[i] == label[i - second_tab - 1]);
        }
    }
    assert(line.subrange(0, first_tab) =~= x);
    assert(line.subrange(first_tab + 1, second_tab) =~= y);
    assert(line.subrange(second_tab + 1, end) =~= label);
}

} // verus!
