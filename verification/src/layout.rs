//! How much room texts take on the screen: the rows of a wrapped text, the
//! first row of the chat that is visible, and the height of the input area.

use vstd::prelude::*;
use vstd::string::StrSliceExecFns;

verus! {

/// The rows that a line of `chars` characters takes at `width` columns: an
/// empty line takes one.
pub open spec fn line_rows(chars: nat, width: nat) -> nat {
    if chars == 0 || width == 0 {
        1
    } else {
        ((chars + width - 1) / width as int) as nat
    }
}

/// The rows that a text takes at `width` columns, after a line of `run`
/// characters that it continues: each line break starts a new row.
pub open spec fn rows_from(text: Seq<char>, width: nat, run: nat) -> nat
    decreases text.len(),
{
    if text.len() == 0 {
        line_rows(run, width)
    } else if text[0] == '\n' {
        line_rows(run, width) + rows_from(text.skip(1), width, 0)
    } else {
        rows_from(text.skip(1), width, run + 1)
    }
}

/// The rows that a text takes at `width` columns.
pub open spec fn text_rows(text: Seq<char>, width: nat) -> nat {
    rows_from(text, width, 0)
}

/// A count as far as a machine word can hold it.
pub open spec fn capped(n: nat) -> usize {
    if n <= usize::MAX {
        n as usize
    } else {
        usize::MAX
    }
}

/// The first row of `total_rows` that shows in a window of `height` rows
/// that is scrolled up by `scroll_offset` rows from the end, as far as there
/// is anything above.
pub open spec fn first_visible(total_rows: usize, height: usize, scroll_offset: usize) -> int {
    let hidden = if total_rows > height {
        total_rows - height
    } else {
        0
    };
    if scroll_offset < hidden {
        hidden - scroll_offset
    } else {
        0
    }
}

/// The height of the input area for a text of `text_rows` rows on a screen
/// of `screen_height` rows: two rows at least, a border above and below, and
/// a third of the screen at most.
pub open spec fn input_area_height(text_rows: usize, screen_height: u16) -> int {
    let rows: int = if text_rows < 2 {
        2
    } else {
        text_rows as int
    };
    if rows + 2 < screen_height / 3 {
        rows + 2
    } else {
        screen_height as int / 3
    }
}

/// The rows that a line takes.
pub fn rows_of_line(chars: usize, width: usize) -> (r: usize)
    ensures
        r == line_rows(chars as nat, width as nat),
{
    if chars == 0 || width == 0 {
        1
    } else {
        let full = chars / width;
        if chars % width == 0 {
            assert(full == (chars + width - 1) / width as int) by (nonlinear_arith)
                requires
                    full == chars / width,
                    chars % width == 0,
                    width > 0,
            ;
            full
        } else {
            assert(full + 1 == (chars + width - 1) / width as int && full < chars)
                by (nonlinear_arith)
                requires
                    full == chars / width,
                    chars % width != 0,
                    width > 0,
            ;
            full + 1
        }
    }
}

/// The rows that a text takes when it is wrapped at `width` columns.
pub fn wrapped_rows(text: &str, width: usize) -> (r: usize)
    ensures
        r == capped(text_rows(text@, width as nat)),
{
    let length = text.unicode_len();
    let mut rows: usize = 0;
    let mut run: usize = 0;
    let ghost mut counted: nat = 0;
    let ghost all = text@;
    proof {
        assert(all.skip(0) =~= all);
    }
    for c in it: text.chars()
        invariant
            it.seq() == all,
            all.len() == length,
            run <= it.index(),
            rows == capped(counted),
            text_rows(all, width as nat) == counted + rows_from(
                all.skip(it.index()),
                width as nat,
                run as nat,
            ),
    {
        proof {
            let rest = all.skip(it.index());
            assert(rest[0] == c);
            assert(rest.skip(1) =~= all.skip(it.index() + 1));
        }
        if c == '\n' {
            let line = rows_of_line(run, width);
            rows = rows.saturating_add(line);
            proof {
                counted = counted + line as nat;
            }
            run = 0;
        } else {
            run = run + 1;
        }
    }
    let line = rows_of_line(run, width);
    proof {
        assert(all.skip(all.len() as int).len() == 0);
    }
    rows.saturating_add(line)
}

/// The first row of the chat that shows.
pub fn first_visible_row(total_rows: usize, height: usize, scroll_offset: usize) -> (r: usize)
    ensures
        r == first_visible(total_rows, height, scroll_offset),
{
    let hidden = if total_rows > height {
        total_rows - height
    } else {
        0
    };
    if scroll_offset < hidden {
        hidden - scroll_offset
    } else {
        0
    }
}

/// The height of the input area.
pub fn input_height(text_rows: usize, screen_height: u16) -> (r: u16)
    ensures
        r == input_area_height(text_rows, screen_height),
{
    let limit = screen_height / 3;
    let rows: usize = if text_rows < 2 {
        2
    } else {
        text_rows
    };
    if rows < 65000 && rows + 2 < limit as usize {
        (rows + 2) as u16
    } else {
        limit
    }
}

} // verus!
