//! Pure text rendering: the bordered grid with the cursor marker, the
//! blank line used to clear the input region, the mode-dependent input
//! line, and the echo line for a submitted command.
//!
//! Every drawing is recomputed in full from the model; nothing is cached.
//! The terminal width and output column are taken as plain inputs, so a
//! caller that cannot determine them substitutes a default instead of
//! failing.

use vstd::prelude::*;
use vstd::string::StringExecFns;

use crate::grid::Grid;
use crate::mode::InputMode;
use crate::text::chars_to_string;

verus! {

/// A horizontal border: `+` in the two corner columns, `-` between.
pub open spec fn border_row(cols: int) -> Seq<char> {
    Seq::new((cols + 2) as nat, |i: int| if i == 0 || i == cols + 1 { '+' } else { '-' })
}

/// One interior line: `|` at both edges, `@` on the cursor cell when this
/// is the cursor's row, blanks elsewhere.
pub open spec fn cell_row(cols: int, c_col: int, cursor_here: bool) -> Seq<char> {
    Seq::new(
        (cols + 2) as nat,
        |i: int|
            if i == 0 || i == cols + 1 {
                '|'
            } else if cursor_here && i == c_col + 1 {
                '@'
            } else {
                ' '
            },
    )
}

/// The first `n` interior lines, each followed by a newline and a
/// carriage return.
pub open spec fn body_rows(cols: int, c_col: int, c_row: int, n: int) -> Seq<char>
    decreases n,
{
    if n <= 0 {
        Seq::empty()
    } else {
        body_rows(cols, c_col, c_row, n - 1) + cell_row(cols, c_col, c_row == n - 1) + seq![
            '\n',
            '\r',
        ]
    }
}

/// The full frame: carriage return, top border, interior rows with the
/// cursor marker, bottom border, final newline.
pub open spec fn plane_text(g: Grid) -> Seq<char> {
    seq!['\r'] + border_row(g.cols as int) + seq!['\n', '\r'] + body_rows(
        g.cols as int,
        g.col as int,
        g.row as int,
        g.rows as int,
    ) + border_row(g.cols as int) + seq!['\n']
}

/// Appends one horizontal border to `out`.
fn push_border_row(out: &mut Vec<char>, cols: usize)
    requires
        cols + 2 <= usize::MAX,
    ensures
        final(out)@ == old(out)@ + border_row(cols as int),
{
    let ghost orig: Seq<char> = out@;
    let w = cols + 2;
    let mut i: usize = 0;
    while i < w
        invariant
            w == cols + 2,
            i <= w,
            out@ == orig + border_row(cols as int).take(i as int),
        decreases w - i,
    {
        if i == 0 || i == w - 1 {
            out.push('+');
        } else {
            out.push('-');
        }
        proof {
            assert(border_row(cols as int).take(i + 1 as int) =~= border_row(
                cols as int,
            ).take(i as int).push(border_row(cols as int)[i as int]));
        }
        i = i + 1;
    }
    proof {
        assert(border_row(cols as int).take(w as int) =~= border_row(cols as int));
    }
}

/// Appends one interior line to `out`.
fn push_cell_row(out: &mut Vec<char>, cols: usize, c_col: usize, cursor_here: bool)
    requires
        cols + 2 <= usize::MAX,
        c_col < cols,
    ensures
        final(out)@ == old(out)@ + cell_row(cols as int, c_col as int, cursor_here),
{
    let ghost orig: Seq<char> = out@;
    let ghost line: Seq<char> = cell_row(cols as int, c_col as int, cursor_here);
    let w = cols + 2;
    let mut i: usize = 0;
    while i < w
        invariant
            w == cols + 2,
            c_col < cols,
            i <= w,
            line == cell_row(cols as int, c_col as int, cursor_here),
            out@ == orig + line.take(i as int),
        decreases w - i,
    {
        if i == 0 || i == w - 1 {
            out.push('|');
        } else if cursor_here && i == c_col + 1 {
            out.push('@');
        } else {
            out.push(' ');
        }
        proof {
            assert(line.take(i + 1 as int) =~= line.take(i as int).push(line[i as int]));
        }
        i = i + 1;
    }
    proof {
        assert(line.take(w as int) =~= line);
    }
}

/// Renders the bordered grid with the cursor marker as one full repaint.
pub fn render_plane(g: &Grid) -> (r: String)
    requires
        g.wf(),
    ensures
        r@ == plane_text(*g),
{
    let ghost cols = g.cols as int;
    let ghost head: Seq<char> = seq!['\r'] + border_row(cols) + seq!['\n', '\r'];
    let mut out: Vec<char> = Vec::new();
    out.push('\r');
    push_border_row(&mut out, g.cols);
    out.push('\n');
    out.push('\r');
    proof {
        assert(out@ =~= head);
    }
    let mut row: usize = 0;
    while row < g.rows
        invariant
            g.wf(),
            head == seq!['\r'] + border_row(g.cols as int) + seq!['\n', '\r'],
            row <= g.rows,
            out@ == head + body_rows(g.cols as int, g.col as int, g.row as int, row as int),
        decreases g.rows - row,
    {
        let ghost before: Seq<char> = out@;
        push_cell_row(&mut out, g.cols, g.col, row == g.row);
        out.push('\n');
        out.push('\r');
        proof {
            assert(out@ =~= head + body_rows(
                g.cols as int,
                g.col as int,
                g.row as int,
                row + 1 as int,
            ));
        }
        row = row + 1;
    }
    push_border_row(&mut out, g.cols);
    out.push('\n');
    proof {
        assert(out@ =~= plane_text(*g));
    }
    chars_to_string(&out)
}

/// A carriage return followed by `width` blanks: overwrites the input
/// line region with spaces.
pub open spec fn blank_row(width: int) -> Seq<char> {
    seq!['\r'] + Seq::new(width as nat, |i: int| ' ')
}

/// The text that clears the input line region for a terminal of the
/// given width.
pub fn clear_row_text(width: u16) -> (r: String)
    ensures
        r@ == blank_row(width as int),
{
    let mut out: Vec<char> = Vec::new();
    out.push('\r');
    let mut i: u16 = 0;
    while i < width
        invariant
            i <= width,
            out@ == blank_row(width as int).take(i + 1),
        decreases width - i,
    {
        out.push(' ');
        proof {
            assert(blank_row(width as int).take(i + 2) =~= blank_row(width as int).take(
                i + 1,
            ).push(blank_row(width as int)[i + 1]));
        }
        i = i + 1;
    }
    proof {
        assert(blank_row(width as int).take(width + 1) =~= blank_row(width as int));
    }
    chars_to_string(&out)
}

/// The terminal width to use: the queried value when the query
/// succeeded, else the default of 80 columns.
pub fn width_or_default(w: Option<u16>) -> (r: u16)
    ensures
        match w {
            Some(q) => r == q,
            None => r == 80,
        },
{
    match w {
        Some(q) => q,
        None => 80,
    }
}

/// The output column to clip against: the queried value when the query
/// succeeded, else the line start, which skips the clipping adjustment.
pub fn column_or_default(c: Option<u16>) -> (r: u16)
    ensures
        match c {
            Some(q) => r == q,
            None => r == 0,
        },
{
    match c {
        Some(q) => q,
        None => 0,
    }
}

/// How many leading characters of a buffer of length `len` are dropped
/// so that the rest fits between output column `col` and the terminal
/// width `cols`: the excess over the available trailing width, never
/// negative and never more than the whole buffer.
pub open spec fn clip_skip(len: int, cols: int, col: int) -> int {
    let available = cols - col;
    let over = len - available;
    let skip = if over > 0 {
        over
    } else {
        0
    };
    if skip > len {
        len
    } else {
        skip
    }
}

/// The clip keeps exactly what fits: a buffer no longer than the
/// available trailing width is shown in full, a longer one is cut to
/// exactly the available width, nothing is shown when no width is
/// available, and what is dropped is always a prefix of the buffer.
pub proof fn lemma_clip_fits(len: int, cols: int, col: int)
    requires
        0 <= len,
    ensures
        len <= cols - col ==> clip_skip(len, cols, col) == 0,
        cols - col >= 0 && len > cols - col ==> len - clip_skip(len, cols, col) == cols - col,
        cols - col <= 0 ==> clip_skip(len, cols, col) == len,
        0 <= clip_skip(len, cols, col) <= len,
{
}

/// The suffix of the buffered text that fits between the current output
/// column and the terminal width; the whole text when it is short
/// enough. Oldest characters are dropped first.
pub fn input_suffix(input: &Vec<char>, cols: u16, col: u16) -> (r: String)
    ensures
        r@ == input@.skip(clip_skip(input@.len() as int, cols as int, col as int)),
{
    let len = input.len();
    let skip: usize = if cols > col {
        let available = (cols - col) as usize;
        if len > available {
            len - available
        } else {
            0
        }
    } else {
        len
    };
    proof {
        assert(skip == clip_skip(input@.len() as int, cols as int, col as int));
    }
    let mut out: Vec<char> = Vec::new();
    let mut i: usize = skip;
    while i < len
        invariant
            skip <= i <= len,
            len == input@.len(),
            out@ == input@.subrange(skip as int, i as int),
        decreases len - i,
    {
        out.push(input[i]);
        proof {
            assert(input@.subrange(skip as int, i + 1 as int) =~= input@.subrange(
                skip as int,
                i as int,
            ).push(input@[i as int]));
        }
        i = i + 1;
    }
    proof {
        assert(input@.subrange(skip as int, len as int) =~= input@.skip(skip as int));
    }
    chars_to_string(&out)
}

/// The mode tag that starts the input line.
pub open spec fn tag_text(m: InputMode) -> Seq<char> {
    match m {
        InputMode::Cmd => "cmd"@,
        InputMode::Key => "mov"@,
    }
}

/// The input line up to the point where the clipped buffer suffix is
/// printed: the tag alone outside command mode; the tag and a divider
/// when there is buffered text; the tag, the placeholder hint and the
/// reprinted tag with a divider when the buffer is empty.
pub open spec fn prefix_text(m: InputMode, buffer_empty: bool, hint: Seq<char>) -> Seq<char> {
    if m is Key {
        "\r"@ + tag_text(m)
    } else if !buffer_empty {
        "\r"@ + tag_text(m) + "| "@
    } else {
        "\r"@ + tag_text(m) + "  "@ + hint + " \r"@ + tag_text(m) + "|"@
    }
}

/// Builds the input line prefix for the current mode. The hint is passed
/// in display form so a caller may have styled it (for instance dimmed);
/// it is shown only when the buffer is empty.
pub fn input_line_prefix(m: &InputMode, buffer_empty: bool, styled_hint: &str) -> (r: String)
    ensures
        r@ == prefix_text(*m, buffer_empty, styled_hint@),
{
    let mut out: String = "\r".to_owned();
    out.append(m.name());
    match m {
        InputMode::Key => {},
        InputMode::Cmd => {
            if !buffer_empty {
                out.append("| ");
            } else {
                out.append("  ");
                out.append(styled_hint);
                out.append(" \r");
                out.append(m.name());
                out.append("|");
            }
        },
    }
    out
}

/// The dimmable placeholder shown on an empty command line.
pub fn placeholder_hint() -> (r: &'static str)
    ensures
        r@ == "Type your command here"@,
{
    "Type your command here"
}

/// The finalized line echoed for a submitted command.
pub open spec fn echo_text(s: Seq<char>) -> Seq<char> {
    "\r[CMD]: "@ + s + "\n\r"@
}

/// Builds the echo line for a submitted command: exactly the submitted
/// text between the fixed frame.
pub fn echo_line(s: &str) -> (r: String)
    ensures
        r@ == echo_text(s@),
{
    let mut out: String = "\r[CMD]: ".to_owned();
    out.append(s);
    out.append("\n\r");
    out
}

/// The fixed acknowledgement line for the write key; a stub with no
/// persistence behind it.
pub fn write_ack_line() -> (r: String)
    ensures
        r@ == "\rNew save writed\n"@,
{
    "\rNew save writed\n".to_owned()
}

} // verus!
