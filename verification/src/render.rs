//! Terminal text for a grid: every cell painted in its colour and followed by
//! a space, every row closed by a newline.

use vstd::prelude::*;

verus! {

/// The character of a decimal digit.
pub open spec fn digit(d: u8) -> char {
    (d + 48) as u8 as char
}

/// A byte in decimal, without leading zeros.
pub open spec fn decimal(n: u8) -> Seq<char> {
    if n < 10 {
        seq![digit(n)]
    } else if n < 100 {
        seq![digit(n / 10), digit(n % 10)]
    } else {
        seq![digit(n / 100), digit((n / 10) % 10), digit(n % 10)]
    }
}

/// The parameters that select a 24-bit foreground colour: `38;2;r;g;b`.
pub open spec fn truecolor_code(rgb: (u8, u8, u8)) -> Seq<char> {
    seq!['3', '8', ';', '2', ';'] + decimal(rgb.0) + seq![';'] + decimal(rgb.1) + seq![';']
        + decimal(rgb.2)
}

/// The parameters that select one of the sixteen basic foreground colours:
/// `30` to `37` and `90` to `97`.
pub open spec fn is_basic_code(code: Seq<char>) -> bool {
    &&& code.len() == 2
    &&& (code[0] == '3' || code[0] == '9')
    &&& '0' <= code[1] <= '7'
}

/// A symbol between the escape sequence that sets the colour and the one that
/// resets it.
pub open spec fn escaped(code: Seq<char>, symbol: char) -> Seq<char> {
    seq!['\x1b', '['] + code + seq!['m', symbol, '\x1b', '[', '0', 'm']
}

/// The texts that painting a symbol in a colour may give. Which one comes
/// depends on the terminal and the environment: the bare symbol where colours
/// are off, the symbol in its 24-bit colour, or, where the terminal does not
/// announce 24-bit colours, the symbol in the nearest basic colour.
pub open spec fn is_painted(symbol: char, rgb: (u8, u8, u8), text: Seq<char>) -> bool {
    ||| text == seq![symbol]
    ||| text == escaped(truecolor_code(rgb), symbol)
    ||| exists|code: Seq<char>| is_basic_code(code) && text == #[trigger] escaped(code, symbol)
}

/// The cells of one row, each followed by a space.
pub open spec fn cells_text(cells: Seq<Seq<char>>) -> Seq<char>
    decreases cells.len(),
{
    if cells.len() == 0 {
        Seq::empty()
    } else {
        cells_text(cells.drop_last()) + cells.last() + seq![' ']
    }
}

/// One row: its cells, and a newline.
pub open spec fn row_text(cells: Seq<Seq<char>>) -> Seq<char> {
    cells_text(cells) + seq!['\n']
}

/// The rows of a grid, one after the other.
pub open spec fn grid_text(rows: Seq<Seq<Seq<char>>>) -> Seq<char>
    decreases rows.len(),
{
    if rows.len() == 0 {
        Seq::empty()
    } else {
        grid_text(rows.drop_last()) + row_text(rows.last())
    }
}

/// `Colorize::truecolor` on the symbol, written out through `Display`. The
/// outside crate decides by the environment whether and how it colours, so the
/// contract lists the forms the text can take and does not say which one it is.
#[verifier::external_body]
pub(crate) fn paint(symbol: char, rgb: (u8, u8, u8)) -> (text: String)
    ensures
        is_painted(symbol, rgb, text@),
{
    let plain = symbol.to_string();
    colored::Colorize::truecolor(plain.as_str(), rgb.0, rgb.1, rgb.2).to_string()
}

/// Joins painted cells into the text of a grid.
pub fn layout(painted: &Vec<Vec<String>>) -> (text: String)
    ensures
        text@ == grid_text(painted.deep_view()),
{
    let mut text = String::new();
    let mut y: usize = 0;
    while y < painted.len()
        invariant
            y <= painted.len(),
            text@ == grid_text(painted.deep_view().take(y as int)),
        decreases painted.len() - y,
    {
        let row = &painted[y];
        let ghost above = text@;
        let mut x: usize = 0;
        while x < row.len()
            invariant
                x <= row.len(),
                text@ == above + cells_text(row.deep_view().take(x as int)),
            decreases row.len() - x,
        {
            text.append(row[x].as_str());
            text.append(" ");
            proof {
                reveal_strlit(" ");
                let cells = row.deep_view().take(x + 1);
                assert(cells.drop_last() == row.deep_view().take(x as int));
                assert(cells.last() == row[x as int]@);
                assert(" "@ == seq![' ']);
            }
            x = x + 1;
        }
        text.append("\n");
        proof {
            reveal_strlit("\n");
            let rows = painted.deep_view().take(y + 1);
            assert(rows.drop_last() == painted.deep_view().take(y as int));
            assert(rows.last() == row.deep_view());
            assert(row.deep_view().take(row.len() as int) == row.deep_view());
            assert("\n"@ == seq!['\n']);
        }
        y = y + 1;
    }
    proof {
        assert(painted.deep_view().take(painted.len() as int) == painted.deep_view());
    }
    text
}

} // verus!
