//! Laws of the console writer's model: what a sequence of writes leaves on
//! the grid.
use crate::vga_buffer::{
    blank_row, glyph, glyphs, ScreenChar, Screen, BUFFER_HEIGHT, BUFFER_WIDTH, NEWLINE,
    PLACEHOLDER,
};
use vstd::prelude::*;

verus! {

/// Bytes written without a newline, while they fit in the bottom row, land
/// one after another from the cursor on; the rows above, the rest of the
/// bottom row and the attribute are untouched, and no line advance happens.
pub proof fn lemma_put_all_in_row(s: Screen, bytes: Seq<u8>)
    requires
        s.wf(),
        s.column + bytes.len() <= BUFFER_WIDTH,
        forall|i: int| 0 <= i < bytes.len() ==> bytes[i] != NEWLINE,
    ensures
        s.put_all(bytes).wf(),
        s.put_all(bytes).color == s.color,
        s.put_all(bytes).column == s.column + bytes.len(),
        forall|r: int| 0 <= r < BUFFER_HEIGHT - 1 ==> #[trigger] s.put_all(bytes).rows[r] == s.rows[r],
        forall|c: int|
            0 <= c < BUFFER_WIDTH ==> #[trigger] s.put_all(bytes).rows[BUFFER_HEIGHT - 1][c] == if s.column
                <= c < s.column + bytes.len() {
                ScreenChar { ascii_character: bytes[c - s.column], color_code: s.color }
            } else {
                s.rows[BUFFER_HEIGHT - 1][c]
            },
    decreases bytes.len(),
{
    if bytes.len() > 0 {
        let front = bytes.drop_last();
        lemma_put_all_in_row(s, front);
        let t = s.put_all(front);
        assert(t.put(bytes.last()).rows[BUFFER_HEIGHT - 1] =~= t.rows[BUFFER_HEIGHT - 1].update(
            t.column as int,
            ScreenChar { ascii_character: bytes.last(), color_code: t.color },
        ));
    }
}

/// Writing a string stores, at each cell it reaches in the bottom row, the
/// byte itself when it is printable ASCII and the placeholder glyph otherwise
/// (for a string without newlines that fits in the rest of the row).
pub proof fn lemma_write_string_glyphs(s: Screen, bytes: Seq<u8>)
    requires
        s.wf(),
        s.column + bytes.len() <= BUFFER_WIDTH,
        forall|i: int| 0 <= i < bytes.len() ==> bytes[i] != NEWLINE,
    ensures
        s.put_all(glyphs(bytes)).column == s.column + bytes.len(),
        forall|i: int|
            0 <= i < bytes.len() ==> {
                let cell = #[trigger] s.put_all(glyphs(bytes)).rows[BUFFER_HEIGHT - 1][s.column + i];
                &&& cell.color_code == s.color
                &&& 0x20 <= bytes[i] <= 0x7e ==> cell.ascii_character == bytes[i]
                &&& !(0x20 <= bytes[i] <= 0x7e) ==> cell.ascii_character == PLACEHOLDER
            },
{
    let g = glyphs(bytes);
    assert forall|i: int| 0 <= i < g.len() implies g[i] != NEWLINE by {
        assert(g[i] == glyph(bytes[i]));
    }
    lemma_put_all_in_row(s, g);
    assert forall|i: int| 0 <= i < bytes.len() implies {
        let cell = #[trigger] s.put_all(glyphs(bytes)).rows[BUFFER_HEIGHT - 1][s.column + i];
        &&& cell.color_code == s.color
        &&& 0x20 <= bytes[i] <= 0x7e ==> cell.ascii_character == bytes[i]
        &&& !(0x20 <= bytes[i] <= 0x7e) ==> cell.ascii_character == PLACEHOLDER
    } by {
        let c = s.column + i;
        assert(s.put_all(g).rows[BUFFER_HEIGHT - 1][c] == ScreenChar {
            ascii_character: g[c - s.column],
            color_code: s.color,
        });
        assert(c - s.column == i);
    }
}

/// A newline written as a string advances exactly one line and stores nothing.
pub proof fn lemma_write_newline(s: Screen)
    ensures
        s.put_all(glyphs(seq![NEWLINE])) == s.advanced(),
{
    let g = glyphs(seq![NEWLINE]);
    assert(g.drop_last() =~= Seq::<u8>::empty());
    assert(g.last() == glyph(NEWLINE));
    assert(s.put_all(Seq::<u8>::empty()) == s);
}

/// From column 0, `BUFFER_WIDTH` bytes without a newline leave the cursor at
/// column `BUFFER_WIDTH` with no line advance; one more byte other than a
/// newline then advances exactly one line and lands at column 0 of the
/// bottom row.
pub proof fn lemma_full_row_then_wrap(s: Screen, bytes: Seq<u8>, b: u8)
    requires
        s.wf(),
        s.column == 0,
        bytes.len() == BUFFER_WIDTH,
        forall|i: int| 0 <= i < bytes.len() ==> bytes[i] != NEWLINE,
        b != NEWLINE,
    ensures
        s.put_all(bytes).column == BUFFER_WIDTH,
        forall|r: int| 0 <= r < BUFFER_HEIGHT - 1 ==> #[trigger] s.put_all(bytes).rows[r] == s.rows[r],
        s.put_all(bytes.push(b)) == ({
            let full = s.put_all(bytes);
            Screen {
                column: 1,
                ..full.advanced().with_cell(
                    BUFFER_HEIGHT - 1,
                    0,
                    ScreenChar { ascii_character: b, color_code: s.color },
                )
            }
        }),
{
    lemma_put_all_in_row(s, bytes);
    assert(bytes.push(b).drop_last() =~= bytes);
}

/// The state after `n` line advances.
pub open spec fn advanced_times(s: Screen, n: nat) -> Screen
    decreases n,
{
    if n == 0 {
        s
    } else {
        advanced_times(s, (n - 1) as nat).advanced()
    }
}

/// Scrolling is a pure upward shift: after `n` line advances row `r` holds
/// what row `r + n` held, or a blank row once that is past the bottom; after
/// `BUFFER_HEIGHT` or more advances none of the original content is left.
pub proof fn lemma_advanced_times(s: Screen, n: nat)
    requires
        s.wf(),
    ensures
        advanced_times(s, n).wf(),
        advanced_times(s, n).color == s.color,
        forall|r: int|
            0 <= r < BUFFER_HEIGHT ==> #[trigger] advanced_times(s, n).rows[r] == if r + n
                < BUFFER_HEIGHT {
                s.rows[r + n]
            } else {
                blank_row(s.color)
            },
        n >= BUFFER_HEIGHT ==> forall|r: int|
            0 <= r < BUFFER_HEIGHT ==> #[trigger] advanced_times(s, n).rows[r] == blank_row(s.color),
    decreases n,
{
    if n > 0 {
        lemma_advanced_times(s, (n - 1) as nat);
    }
}

} // verus!
