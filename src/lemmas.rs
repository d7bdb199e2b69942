use vstd::prelude::*;
use crate::codec::{cell, Color};
use crate::writer::{
    index_of, is_printable, ScreenState, BUFFER_HEIGHT, BUFFER_SIZE, BUFFER_WIDTH, NEWLINE,
    SUBSTITUTE,
};

verus! {

/// Writing printable bytes that fit in the rest of the row keeps the cursor
/// on its row and moves it right by one column per byte.
pub proof fn lemma_printable_run(s: ScreenState, bytes: Seq<u8>)
    requires
        s.wf(),
        s.col + bytes.len() <= BUFFER_WIDTH,
        forall|i: int| 0 <= i < bytes.len() ==> is_printable(#[trigger] bytes[i]),
    ensures
        s.write_text(bytes).row == s.row,
        s.write_text(bytes).col == s.col + bytes.len(),
        s.write_text(bytes).wf(),
    decreases bytes.len(),
{
    if bytes.len() > 0 {
        let prefix = bytes.drop_last();
        assert forall|i: int| 0 <= i < prefix.len() implies is_printable(#[trigger] prefix[i]) by {
            assert(prefix[i] == bytes[i]);
        }
        lemma_printable_run(s, prefix);
        assert(is_printable(bytes[bytes.len() - 1]));
    }
}

/// A newline moves the cursor to column 0 of the next row; on the last row
/// the cursor stays there and every row moves up by one, the last row
/// becoming blank in the default colors.
pub proof fn lemma_newline(s: ScreenState)
    requires
        s.wf(),
    ensures
        s.write(NEWLINE).wf(),
        s.write(NEWLINE).col == 0,
        s.row < BUFFER_HEIGHT - 1 ==> s.write(NEWLINE).row == s.row + 1 && s.write(NEWLINE).cells
            == s.cells,
        s.row == BUFFER_HEIGHT - 1 ==> {
            &&& s.write(NEWLINE).row == s.row
            &&& forall|r: nat, c: nat|
                r < BUFFER_HEIGHT - 1 && c < BUFFER_WIDTH ==> #[trigger] s.write(NEWLINE).at(r, c)
                    == s.at(r + 1, c)
            &&& forall|c: nat|
                c < BUFFER_WIDTH ==> #[trigger] s.write(NEWLINE).at(
                    (BUFFER_HEIGHT - 1) as nat,
                    c,
                ) == s.blank()
        },
{
    let t = s.write(NEWLINE);
    if s.row == BUFFER_HEIGHT - 1 {
        assert forall|r: nat, c: nat| r < BUFFER_HEIGHT - 1 && c < BUFFER_WIDTH implies #[trigger] t.at(
            r,
            c,
        ) == s.at(r + 1, c) by {
            assert(r * 80 <= 23 * 80) by (nonlinear_arith)
                requires
                    r <= 23,
            ;
            assert(index_of(r + 1, c) == index_of(r, c) + BUFFER_WIDTH) by (nonlinear_arith);
        }
    }
}

/// A byte that is neither printable nor a newline is shown as the substitute
/// glyph, in yellow on a red background and in red on any other, in the
/// cell just left of the cursor.
pub proof fn lemma_substitute(s: ScreenState, byte: u8)
    requires
        s.wf(),
        !is_printable(byte),
        byte != NEWLINE,
    ensures
        s.write_text_byte(byte).wf(),
        s.write_text_byte(byte).col >= 1,
        s.write_text_byte(byte).at(s.write_text_byte(byte).row, (s.write_text_byte(byte).col - 1) as nat)
            == cell(SUBSTITUTE, if s.background == Color::Red {
            Color::Yellow
        } else {
            Color::Red
        }, s.background),
{
    let m = if s.col >= BUFFER_WIDTH {
        s.new_line()
    } else {
        s
    };
    assert(m.row < BUFFER_HEIGHT && m.col < BUFFER_WIDTH);
    assert(m.row * 80 <= 24 * 80) by (nonlinear_arith)
        requires
            m.row <= 24,
    ;
    assert(0 <= index_of(m.row, m.col) < BUFFER_SIZE);
}

/// Blanking a row twice leaves the same grid as blanking it once.
pub proof fn lemma_clear_row_idempotent(s: ScreenState, row: nat)
    requires
        s.wf(),
        row < BUFFER_HEIGHT,
    ensures
        s.clear_row(row).clear_row(row) == s.clear_row(row),
{
    assert(s.clear_row(row).clear_row(row).cells =~= s.clear_row(row).cells);
}

} // verus!
