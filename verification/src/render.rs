//! The layout of one line of output.

use vstd::prelude::*;
use crate::style::{decorated, paint, painted, Color};

verus! {

/// The least number of columns that a justified label takes.
pub const STATUS_WIDTH: usize = 12;

/// `n` blanks.
pub open spec fn spaces(n: nat) -> Seq<char> {
    Seq::new(n, |i: int| ' ')
}

/// How many blanks go before a label of `len` characters.
pub open spec fn padding(len: nat) -> nat {
    if len < STATUS_WIDTH {
        (STATUS_WIDTH - len) as nat
    } else {
        0
    }
}

/// The label moved to the right edge of a field of twelve columns. A label
/// that is longer stays as it is.
pub open spec fn justified_label(label: Seq<char>) -> Seq<char> {
    spaces(padding(label.len())) + label
}

/// The label as it is laid out before any styling.
pub open spec fn placed_label(label: Seq<char>, justified: bool) -> Seq<char> {
    if justified {
        justified_label(label)
    } else {
        label
    }
}

/// One line of output: the label, laid out and then styled, one blank, the
/// message and a line feed. The styling wraps the label only.
pub open spec fn line_text(
    label: Seq<char>,
    message: Seq<char>,
    color: Color,
    justified: bool,
    enabled: bool,
) -> Seq<char> {
    decorated(placed_label(label, justified), color, enabled) + seq![' '] + message + seq!['\n']
}

/// Right-justifies `label` to twelve columns.
pub fn justify(label: &str) -> (out: String)
    ensures
        out@ == justified_label(label@),
{
    let len: usize = label.unicode_len();
    let mut out = String::new();
    let mut i: usize = len;
    while i < STATUS_WIDTH
        invariant
            len == label@.len(),
            len <= i,
            i <= STATUS_WIDTH || i == len,
            out@ == spaces((i - len) as nat),
        decreases STATUS_WIDTH - i,
    {
        proof {
            reveal_strlit(" ");
        }
        out.append(" ");
        i = i + 1;
        assert(out@ =~= spaces((i - len) as nat));
    }
    assert(out@ =~= spaces(padding(label@.len())));
    out.append(label);
    out
}

/// Lays out one line: the label, right-justified if asked, styled in bold
/// `color` if `enabled`, then a blank, the message and a line feed.
pub fn render_line(label: &str, message: &str, color: Color, justified: bool, enabled: bool) -> (out:
    String)
    ensures
        out@ == line_text(label@, message@, color, justified, enabled),
{
    let mut out = if justified {
        let placed = justify(label);
        paint(placed.as_str(), color, enabled)
    } else {
        paint(label, color, enabled)
    };
    proof {
        reveal_strlit(" ");
        reveal_strlit("\n");
    }
    out.append(" ");
    out.append(message);
    out.append("\n");
    assert(out@ =~= line_text(label@, message@, color, justified, enabled));
    out
}

/// The blanks before a justified label are counted on the bare label: the
/// text handed to the styling is the same whether styling is on or off, it is
/// never narrower than twelve columns, and a short label fills them exactly.
pub proof fn lemma_padding_ignores_styling(label: Seq<char>, message: Seq<char>, color: Color)
    ensures
        line_text(label, message, color, true, true) == painted(
            justified_label(label),
            color,
        ) + seq![' '] + message + seq!['\n'],
        line_text(label, message, color, true, false) == justified_label(label) + seq![' ']
            + message + seq!['\n'],
        justified_label(label).len() == if label.len() < STATUS_WIDTH {
            STATUS_WIDTH as nat
        } else {
            label.len()
        },
        justified_label(label).subrange(padding(label.len()) as int, justified_label(label).len() as int)
            == label,
        forall|i: int| 0 <= i < padding(label.len()) ==> justified_label(label)[i] == ' ',
{
    assert(justified_label(label).subrange(
        padding(label.len()) as int,
        justified_label(label).len() as int,
    ) =~= label);
}

/// A line is never empty: whatever the label and the styling, it holds at
/// least the blank, the message and the line feed.
pub proof fn lemma_line_nonempty(
    label: Seq<char>,
    message: Seq<char>,
    color: Color,
    justified: bool,
    enabled: bool,
)
    ensures
        line_text(label, message, color, justified, enabled).len() >= message.len() + 2,
{
}

} // verus!
