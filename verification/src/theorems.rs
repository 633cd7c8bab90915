//! What holds of the writer's state machine for every state and every
//! input.

use vstd::prelude::*;
use crate::buffer::{blank, blank_row, grid_shaped, ScreenChar, BUFFER_HEIGHT, BUFFER_WIDTH};
use crate::screen::{is_printable, rendered, Screen, NEWLINE, SUBSTITUTE};

verus! {

/// Whether none of `bytes` ends a line.
pub open spec fn no_newline(bytes: Seq<u8>) -> bool {
    forall|i: int| 0 <= i < bytes.len() ==> bytes[i] != NEWLINE
}

/// A printable byte is written as it is, and so is a newline; every other
/// byte is written as the substitute glyph. Only a newline is written as a
/// newline.
pub proof fn lemma_rendered(byte: u8)
    ensures
        is_printable(byte) || byte == NEWLINE ==> rendered(byte) == byte,
        !is_printable(byte) && byte != NEWLINE ==> rendered(byte) == SUBSTITUTE,
        rendered(byte) == NEWLINE <==> byte == NEWLINE,
{
}

/// A scroll discards the top row, moves every other row up by one, leaves
/// the bottom row blank in the writer's colors and puts the cursor at the
/// start of it.
pub proof fn lemma_new_line(s: Screen)
    requires
        grid_shaped(s.rows),
    ensures
        s.new_line().wf(),
        s.new_line().column == 0,
        s.new_line().color == s.color,
        forall|row: int|
            0 <= row < BUFFER_HEIGHT - 1 ==> #[trigger] s.new_line().rows[row] == s.rows[row + 1],
        s.new_line().bottom() == blank_row(s.color),
{
}

/// A newline is a scroll and nothing else, wherever the cursor stands. Any
/// other byte scrolls first exactly when the row is full.
pub proof fn lemma_write_byte_cases(s: Screen, byte: u8)
    ensures
        byte == NEWLINE ==> s.write_byte(byte) == s.new_line(),
        byte != NEWLINE && s.column < BUFFER_WIDTH ==> s.write_byte(byte) == s.place(byte),
        byte != NEWLINE && s.column >= BUFFER_WIDTH
            ==> s.write_byte(byte) == s.new_line().place(byte),
{
}

/// Whatever the cursor was, after one byte it stands in the bottom row or
/// just behind its last cell, and the grid has kept its shape.
pub proof fn lemma_write_byte_wf(s: Screen, byte: u8)
    requires
        grid_shaped(s.rows),
    ensures
        s.write_byte(byte).wf(),
        s.write_byte(byte).color == s.color,
{
}

/// A well-formed state stays well-formed, and keeps its colors, whatever
/// string is written.
pub proof fn lemma_write_bytes_wf(s: Screen, bytes: Seq<u8>)
    requires
        s.wf(),
    ensures
        s.write_bytes(bytes).wf(),
        s.write_bytes(bytes).color == s.color,
    decreases bytes.len(),
{
    if bytes.len() > 0 {
        lemma_write_bytes_wf(s, bytes.drop_last());
        lemma_write_byte_wf(s.write_bytes(bytes.drop_last()), rendered(bytes.last()));
    }
}

/// Writing two strings one after the other is writing the two joined.
pub proof fn lemma_write_bytes_concat(s: Screen, first: Seq<u8>, second: Seq<u8>)
    ensures
        s.write_bytes(first + second) == s.write_bytes(first).write_bytes(second),
    decreases second.len(),
{
    if second.len() == 0 {
        assert(first + second =~= first);
    } else {
        assert((first + second).drop_last() =~= first + second.drop_last());
        lemma_write_bytes_concat(s, first, second.drop_last());
    }
}

/// A string without a newline that fits in what is left of the bottom row
/// goes into that row from the cursor on, byte by byte from left to right,
/// each as the byte it is rendered as. The cursor ends behind the last of
/// them. No other cell changes, and nothing scrolls.
///
/// From column 0 this says that the cursor ends at the length of the string
/// and that the string starts at the left edge.
pub proof fn lemma_write_within_line(s: Screen, bytes: Seq<u8>)
    requires
        grid_shaped(s.rows),
        s.column + bytes.len() <= BUFFER_WIDTH,
        no_newline(bytes),
    ensures
        ({
            let t = s.write_bytes(bytes);
            &&& t.wf()
            &&& t.column == s.column + bytes.len()
            &&& t.color == s.color
            &&& forall|row: int|
                0 <= row < BUFFER_HEIGHT - 1 ==> #[trigger] t.rows[row] == s.rows[row]
            &&& forall|col: int|
                s.column <= col < s.column + bytes.len() ==> #[trigger] t.bottom()[col] == (
                ScreenChar {
                    ascii_character: rendered(bytes[col - s.column]),
                    color_code: s.color,
                })
            &&& forall|col: int|
                0 <= col < s.column || s.column + bytes.len() <= col < BUFFER_WIDTH
                    ==> #[trigger] t.bottom()[col] == s.bottom()[col]
        }),
    decreases bytes.len(),
{
    if bytes.len() > 0 {
        let front = bytes.drop_last();
        let before_last = s.write_bytes(front);
        lemma_write_within_line(s, front);
        // The last byte finds the cursor inside the row, so it is placed
        // there without a scroll.
        assert(s.write_bytes(bytes) == before_last.place(rendered(bytes.last())));
        assert forall|col: int|
            s.column <= col < s.column + front.len() implies #[trigger] before_last.bottom()[col]
            == (ScreenChar {
            ascii_character: rendered(bytes[col - s.column]),
            color_code: s.color,
        }) by {
            assert(front[col - s.column] == bytes[col - s.column]);
        }
    }
}

/// A string without a newline that is one byte longer than what is left of
/// the bottom row fills that row, and its last byte causes exactly one
/// scroll: the top row is gone, every other row has moved up by one (the
/// row that was filled is now the last but one), and the bottom row is
/// blank but for that last byte in its first cell. The cursor stands behind
/// it.
///
/// From column 0 this is a string of one full row and one byte more.
pub proof fn lemma_write_past_line_end(s: Screen, bytes: Seq<u8>)
    requires
        s.wf(),
        bytes.len() == BUFFER_WIDTH - s.column + 1,
        no_newline(bytes),
    ensures
        ({
            let filled = s.write_bytes(bytes.drop_last());
            let t = s.write_bytes(bytes);
            &&& t == filled.new_line().place(rendered(bytes.last()))
            &&& t.wf()
            &&& t.column == 1
            &&& t.color == s.color
            &&& forall|row: int|
                0 <= row < BUFFER_HEIGHT - 2 ==> #[trigger] t.rows[row] == s.rows[row + 1]
            &&& forall|col: int|
                0 <= col < s.column ==> #[trigger] t.rows[BUFFER_HEIGHT - 2][col]
                    == s.bottom()[col]
            &&& forall|col: int|
                s.column <= col < BUFFER_WIDTH ==> #[trigger] t.rows[BUFFER_HEIGHT - 2][col] == (
                ScreenChar {
                    ascii_character: rendered(bytes[col - s.column]),
                    color_code: s.color,
                })
            &&& t.bottom() == blank_row(s.color).update(
                0,
                ScreenChar { ascii_character: rendered(bytes.last()), color_code: s.color },
            )
        }),
{
    let front = bytes.drop_last();
    let filled = s.write_bytes(front);
    let t = s.write_bytes(bytes);
    // All bytes but the last fill the row to its end and scroll nothing.
    lemma_write_within_line(s, front);
    assert(filled.column == BUFFER_WIDTH);
    // The last byte finds the row full: one scroll, then it is placed.
    assert(t == filled.new_line().place(rendered(bytes.last())));
    assert forall|row: int| 0 <= row < BUFFER_HEIGHT - 2 implies #[trigger] t.rows[row]
        == s.rows[row + 1] by {
        assert(filled.rows[row + 1] == s.rows[row + 1]);
    }
    assert(t.rows[BUFFER_HEIGHT - 2] == filled.bottom());
    assert forall|col: int| s.column <= col < BUFFER_WIDTH implies #[trigger] t.rows[BUFFER_HEIGHT
        - 2][col] == (ScreenChar {
        ascii_character: rendered(bytes[col - s.column]),
        color_code: s.color,
    }) by {
        assert(front[col - s.column] == bytes[col - s.column]);
    }
}

/// A byte that is neither printable nor a newline is stored as the
/// substitute glyph: writing it as a string is writing the substitute
/// glyph, which then stands in the cell before the cursor. What is stored
/// differs from the byte that came in, unless that was the code of the
/// substitute glyph itself.
pub proof fn lemma_unprintable_byte_is_substituted(s: Screen, byte: u8)
    requires
        grid_shaped(s.rows),
        !is_printable(byte),
        byte != NEWLINE,
    ensures
        ({
            let t = s.write_bytes(seq![byte]);
            &&& t == s.write_byte(SUBSTITUTE)
            &&& 1 <= t.column <= BUFFER_WIDTH
            &&& t.bottom()[t.column - 1] == (ScreenChar {
                ascii_character: SUBSTITUTE,
                color_code: s.color,
            })
            &&& byte != SUBSTITUTE ==> t.bottom()[t.column - 1].ascii_character != byte
        }),
{
    let bytes = seq![byte];
    // Before its one byte, the string has written nothing.
    assert(s.write_bytes(bytes.drop_last()) == s);
    assert(bytes.last() == byte);
}

/// After the screen is cleared every cell is a space in the writer's
/// colors, and the cursor and the colors are what they were.
pub proof fn lemma_clear_screen_cells(s: Screen)
    ensures
        s.clear_screen().column == s.column,
        s.clear_screen().color == s.color,
        grid_shaped(s.clear_screen().rows),
        forall|row: int, col: int|
            0 <= row < BUFFER_HEIGHT && 0 <= col < BUFFER_WIDTH
                ==> #[trigger] s.clear_screen().rows[row][col] == blank(s.color),
{
}

/// Clearing the screen a second time changes nothing.
pub proof fn lemma_clear_screen_idempotent(s: Screen)
    ensures
        s.clear_screen().clear_screen() == s.clear_screen(),
{
    assert(s.clear_screen().clear_screen().rows =~= s.clear_screen().rows);
}

} // verus!
