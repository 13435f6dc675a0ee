//! What a row of the table of records shows: the text of each cell and how
//! it is styled.

use crate::decimal::{append_decimal, append_signed_decimal, decimal_text, signed_decimal_text};
use crate::series::{Series, SeriesView};
use crate::term::attribute::{invert, invert_sequence, reset, reset_sequence};
use crate::term::color::{color_sequence, Color};
use vstd::prelude::*;
use vstd::string::{StrSliceExecFns, StringExecFns};

verus! {

/// Number of characters of an identifier that a row shows.
pub const GUID_SHOWN: usize = 4;

/// One cell of a row.
pub struct Cell {
    pub text: String,
    /// The colour of the text; none for the terminal's own.
    pub color: Option<Color>,
    /// Whether foreground and background are swapped.
    pub inverted: bool,
}

/// The mathematical value of a [`Cell`].
pub struct CellView {
    pub text: Seq<char>,
    pub color: Option<Color>,
    pub inverted: bool,
}

impl View for Cell {
    type V = CellView;

    open spec fn view(&self) -> CellView {
        CellView { text: self.text@, color: self.color, inverted: self.inverted }
    }
}

/// The views of the cells of `cells`, in order.
pub open spec fn cell_views(cells: Seq<Cell>) -> Seq<CellView> {
    cells.map_values(|c: Cell| c@)
}

/// A truth value as text.
pub open spec fn bool_text(b: bool) -> Seq<char> {
    if b {
        seq!['t', 'r', 'u', 'e']
    } else {
        seq!['f', 'a', 'l', 's', 'e']
    }
}

/// What a row shows of an identifier: its first four characters, or all of
/// it if it is shorter, and three dots.
pub open spec fn guid_stub(guid: Seq<char>) -> Seq<char> {
    let shown = if guid.len() < GUID_SHOWN {
        guid.len() as int
    } else {
        GUID_SHOWN as int
    };
    guid.take(shown) + seq!['.', '.', '.']
}

/// The cells of the row of the record at index `idx`: its number, counted
/// from 1 and never styled, then its identifier, name, the two flags and the
/// two episode numbers, each in its colour and inverted when the row is
/// selected.
pub open spec fn row_cells_spec(series: SeriesView, idx: nat, selected: bool) -> Seq<CellView> {
    seq![
        CellView { text: decimal_text(idx + 1), color: None, inverted: false },
        CellView {
            text: guid_stub(series.guid),
            color: Some(Color::Rgb(190, 190, 190)),
            inverted: selected,
        },
        CellView { text: series.name, color: Some(Color::Green), inverted: selected },
        CellView {
            text: bool_text(series.is_finished),
            color: Some(Color::Red),
            inverted: selected,
        },
        CellView {
            text: bool_text(series.is_airing_finished),
            color: Some(Color::Blue),
            inverted: selected,
        },
        CellView {
            text: signed_decimal_text(series.total_episodes as int),
            color: Some(Color::Green),
            inverted: selected,
        },
        CellView {
            text: signed_decimal_text(series.current_episode as int),
            color: Some(Color::Green),
            inverted: selected,
        },
    ]
}

/// The characters that draw a cell: the colour's sequence if the cell has a
/// colour, the inverting sequence if it is inverted, the text, and the
/// sequence that ends all styling.
pub open spec fn styled_text(cell: CellView) -> Seq<char> {
    let colored = match cell.color {
        Some(color) => color_sequence(color),
        None => Seq::empty(),
    };
    let inverted = if cell.inverted {
        invert_sequence()
    } else {
        Seq::empty()
    };
    colored + inverted + cell.text + reset_sequence()
}

/// How often a separator of `sep_len` characters is repeated to rule off a
/// line of `cols` columns; 0 where the separator is longer than the line and
/// one more column.
pub open spec fn rule_repeats(cols: nat, sep_len: nat) -> nat {
    if sep_len > cols + 1 {
        0
    } else {
        (cols + 1 - sep_len) as nat
    }
}

/// Tells how often a separator is repeated to rule off a line.
pub fn separator_repeats(cols: u16, sep_len: usize) -> (r: usize)
    ensures
        r == rule_repeats(cols as nat, sep_len as nat),
{
    let width: usize = cols as usize;
    if sep_len > width + 1 {
        0
    } else {
        width + 1 - sep_len
    }
}

fn flag_text(b: bool) -> (r: String)
    ensures
        r@ == bool_text(b),
{
    proof {
        reveal_strlit("true");
        reveal_strlit("false");
        assert("true"@ =~= bool_text(true));
        assert("false"@ =~= bool_text(false));
    }
    if b {
        "true".to_owned()
    } else {
        "false".to_owned()
    }
}

fn number_text(v: i32) -> (r: String)
    ensures
        r@ == signed_decimal_text(v as int),
{
    let mut out: String = String::new();
    append_signed_decimal(&mut out, v);
    assert(out@ =~= signed_decimal_text(v as int));
    out
}

fn guid_text(guid: &String) -> (r: String)
    ensures
        r@ == guid_stub(guid@),
{
    let whole: &str = guid.as_str();
    let len: usize = whole.unicode_len();
    let shown: usize = if len < GUID_SHOWN {
        len
    } else {
        GUID_SHOWN
    };
    let mut out: String = whole.substring_char(0, shown).to_owned();
    proof {
        reveal_strlit("...");
        assert("..."@ =~= seq!['.', '.', '.']);
        assert(whole@.subrange(0, shown as int) =~= guid@.take(shown as int));
    }
    out.append("...");
    out
}

/// Builds the cells of the row of `series`, the record at index `idx`.
pub fn row_cells(series: &Series, idx: usize, is_selected: bool) -> (cells: Vec<Cell>)
    requires
        idx < usize::MAX,
    ensures
        cell_views(cells@) == row_cells_spec(series@, idx as nat, is_selected),
{
    let mut number: String = String::new();
    append_decimal(&mut number, (idx + 1) as u64);
    assert(number@ =~= decimal_text((idx + 1) as nat));
    let mut cells: Vec<Cell> = Vec::new();
    cells.push(Cell { text: number, color: None, inverted: false });
    cells.push(
        Cell {
            text: guid_text(&series.guid),
            color: Some(Color::Rgb(190, 190, 190)),
            inverted: is_selected,
        },
    );
    cells.push(Cell { text: series.name.clone(), color: Some(Color::Green), inverted: is_selected });
    cells.push(
        Cell { text: flag_text(series.is_finished), color: Some(Color::Red), inverted: is_selected },
    );
    cells.push(
        Cell {
            text: flag_text(series.is_airing_finished),
            color: Some(Color::Blue),
            inverted: is_selected,
        },
    );
    cells.push(
        Cell {
            text: number_text(series.total_episodes),
            color: Some(Color::Green),
            inverted: is_selected,
        },
    );
    cells.push(
        Cell {
            text: number_text(series.current_episode),
            color: Some(Color::Green),
            inverted: is_selected,
        },
    );
    assert(cell_views(cells@) =~= row_cells_spec(series@, idx as nat, is_selected));
    cells
}

impl Cell {
    /// The characters that draw the cell on a terminal.
    pub fn styled(&self) -> (r: String)
        ensures
            r@ == styled_text(self@),
    {
        let mut out: String = match self.color {
            Some(color) => color.escape(),
            None => String::new(),
        };
        if self.inverted {
            out.append(invert().as_str());
        }
        out.append(self.text.as_str());
        out.append(reset().as_str());
        assert(out@ =~= styled_text(self@));
        out
    }
}

} // verus!
