//! The 64x32 monochrome display, one packed `u64` per row.
//!
//! Column `x` (0 is the leftmost) of a row is the bit at position `63 - x`.
use vstd::prelude::*;

verus! {

/// Number of pixel columns in a row.
pub const SCREEN_WIDTH: u8 = 64;

/// Number of rows on the screen.
pub const SCREEN_HEIGHT: u8 = 32;

/// Whether column `x` of `row` is lit.
pub open spec fn pixel_on(row: u64, x: u64) -> bool {
    (row >> (63 - x) as u64) & 1 == 1
}

/// The bits that a sprite byte covers when its leftmost pixel stands at column
/// `x` (below 64): the byte's high bit goes to column `x`, and the columns that
/// would pass the right edge re-enter at column 0.
pub open spec fn sprite_row_mask(x: u64, byte: u8) -> u64 {
    if x <= 56 {
        ((byte as u64) << 56u64) >> x
    } else {
        (((byte as u64) << 56u64) >> x) | ((byte as u64) << (120 - x) as u64)
    }
}

/// XORs `add` onto `base`; the flag tells whether a lit pixel was erased, that is
/// whether the XOR differs from the OR.
pub fn xor(base: u64, add: u64) -> (r: (u64, bool))
    ensures
        r.0 == base ^ add,
        r.1 == (base & add != 0),
{
    let xored = base ^ add;
    let ored = base | add;
    assert((xored != ored) == (base & add != 0)) by (bit_vector)
        requires
            xored == base ^ add,
            ored == base | add,
    ;
    (xored, xored != ored)
}

/// XOR-composes one sprite byte onto a row at column `x`, splitting it at the
/// right edge when fewer than eight columns remain.
pub fn draw_row(row: u64, x: u8, byte: u8) -> (r: (u64, bool))
    requires
        x < 64,
    ensures
        r.0 == row ^ sprite_row_mask(x as u64, byte),
        r.1 == (row & sprite_row_mask(x as u64, byte) != 0),
{
    let x64 = x as u64;
    let b = byte as u64;
    if x64 > 56 {
        let wrap_shift = 120 - x64;
        let high = (b << 56u64) >> x64;
        let low = b << wrap_shift;
        let (partial, erased_high) = xor(row, high);
        let (result, erased_low) = xor(partial, low);
        assert(high & low == 0) by (bit_vector)
            requires
                56 < x64 < 64,
                b < 256,
                wrap_shift == 120 - x64,
                high == (b << 56u64) >> x64,
                low == b << wrap_shift,
        ;
        assert(((row ^ high) ^ low == row ^ (high | low)) && (((row & high != 0) || ((row ^ high)
            & low != 0)) == (row & (high | low) != 0))) by (bit_vector)
            requires
                high & low == 0,
        ;
        (result, erased_high || erased_low)
    } else {
        xor(row, (b << 56u64) >> x64)
    }
}

/// Which byte of a sprite whose top row is `y` lands on screen row `r`; a value
/// of 32 or more never names a byte, since a sprite has at most 32 bytes.
pub open spec fn sprite_line(y: int, r: int) -> int {
    (r - y) % 32
}

/// The screen row on which byte `i` of a sprite whose top row is `y` lands.
pub open spec fn target_row(y: int, i: int) -> int {
    (y + i) % 32
}

/// The rows after XOR-composing `sprite` with its top-left pixel at (`x`, `y`),
/// wrapping at the right and bottom edges.
pub open spec fn drawn(rows: Seq<u64>, x: u64, y: int, sprite: Seq<u8>) -> Seq<u64> {
    Seq::new(
        rows.len(),
        |r: int|
            if sprite_line(y, r) < sprite.len() {
                rows[r] ^ sprite_row_mask(x, sprite[sprite_line(y, r)])
            } else {
                rows[r]
            },
    )
}

/// Whether byte `i` of the sprite covers a pixel that is lit in `rows`.
pub open spec fn erases_at(rows: Seq<u64>, x: u64, y: int, sprite: Seq<u8>, i: int) -> bool {
    rows[target_row(y, i)] & sprite_row_mask(x, sprite[i]) != 0
}

/// Whether drawing the sprite erases at least one lit pixel.
pub open spec fn collides(rows: Seq<u64>, x: u64, y: int, sprite: Seq<u8>) -> bool {
    exists|i: int| 0 <= i < sprite.len() && #[trigger] erases_at(rows, x, y, sprite, i)
}

/// Whether byte `i` of the sprite covers a pixel that is dark in `rows`.
pub open spec fn lights_at(rows: Seq<u64>, x: u64, y: int, sprite: Seq<u8>, i: int) -> bool {
    !rows[target_row(y, i)] & sprite_row_mask(x, sprite[i]) != 0
}

/// Whether drawing the sprite turns at least one dark pixel on.
pub open spec fn lights_any(rows: Seq<u64>, x: u64, y: int, sprite: Seq<u8>) -> bool {
    exists|i: int| 0 <= i < sprite.len() && #[trigger] lights_at(rows, x, y, sprite, i)
}

/// The screen: 32 rows of 64 packed pixels.
pub struct DisplayBuffer {
    rows: [u64; 32],
}

impl View for DisplayBuffer {
    type V = Seq<u64>;

    closed spec fn view(&self) -> Seq<u64> {
        self.rows@
    }
}

impl DisplayBuffer {
    /// A screen always has 32 rows.
    pub proof fn lemma_row_count(&self)
        ensures
            self@.len() == 32,
    {
    }

    /// A screen with every pixel dark.
    pub fn new() -> (d: DisplayBuffer)
        ensures
            d@.len() == 32,
            forall|r: int| 0 <= r < 32 ==> d@[r] == 0,
    {
        DisplayBuffer { rows: [0u64; 32] }
    }

    /// Turns every pixel off.
    pub fn clear(&mut self)
        ensures
            final(self)@.len() == 32,
            forall|r: int| 0 <= r < 32 ==> final(self)@[r] == 0,
    {
        self.rows = [0u64; 32];
    }

    /// The packed pixels of row `y`.
    pub fn row(&self, y: u8) -> (r: u64)
        requires
            y < 32,
        ensures
            r == self@[y as int],
    {
        self.rows[y as usize]
    }

    /// A copy of all rows, top row first.
    pub fn rows(&self) -> (r: [u64; 32])
        ensures
            r@ == self@,
    {
        self.rows
    }

    /// Whether the pixel at column `x`, row `y` is lit.
    pub fn is_pixel_on(&self, x: u8, y: u8) -> (on: bool)
        requires
            x < 64,
            y < 32,
        ensures
            on == pixel_on(self@[y as int], x as u64),
    {
        let row = self.rows[y as usize];
        let shift = 63 - x as u64;
        (row >> shift) & 1 == 1
    }

    /// XOR-composes `sprite`, one byte per row, with its top-left pixel at column
    /// `x % 64` and row `y % 32`; pixels past the right edge re-enter at column 0
    /// and rows past the bottom re-enter at row 0. Returns whether a lit pixel was
    /// erased.
    pub fn draw_sprite(&mut self, x: u8, y: u8, sprite: &[u8]) -> (collision: bool)
        requires
            sprite@.len() <= 32,
        ensures
            final(self)@.len() == 32,
            final(self)@ == drawn(old(self)@, (x % 64) as u64, (y % 32) as int, sprite@),
            collision == collides(old(self)@, (x % 64) as u64, (y % 32) as int, sprite@),
    {
        let x0 = x % 64;
        let y0 = (y % 32) as usize;
        let ghost cx = x0 as u64;
        let ghost cy = y0 as int;
        let mut collision = false;
        let mut i: usize = 0;
        while i < sprite.len()
            invariant
                i <= sprite@.len() <= 32,
                x0 < 64,
                cx == x0 as u64,
                y0 < 32,
                cy == y0 as int,
                self@.len() == 32,
                forall|r: int|
                    0 <= r < 32 ==> self@[r] == (if sprite_line(cy, r) < i {
                        old(self)@[r] ^ sprite_row_mask(cx, sprite@[sprite_line(cy, r)])
                    } else {
                        old(self)@[r]
                    }),
                collision == exists|j: int| 0 <= j < i && #[trigger] erases_at(old(self)@, cx, cy, sprite@, j),
            decreases sprite@.len() - i,
        {
            let row = (y0 + i) % 32;
            assert(sprite_line(cy, row as int) == i);
            let (new_row, erased) = draw_row(self.rows[row], x0, sprite[i]);
            self.rows[row] = new_row;
            proof {
                assert(target_row(cy, i as int) == row);
                if erased {
                    assert(erases_at(old(self)@, cx, cy, sprite@, i as int));
                }
                if !collision && !erased {
                    assert forall|j: int| 0 <= j < i + 1 implies !#[trigger] erases_at(old(self)@, cx, cy, sprite@, j) by {
                        if j < i {
                        } else {
                            assert(j == i);
                        }
                    }
                }
            }
            collision = collision || erased;
            i += 1;
        }
        proof {
            assert(self@ =~= drawn(old(self)@, cx, cy, sprite@));
        }
        collision
    }
}

/// XOR is its own inverse: drawing a sprite twice at the same place restores the
/// screen, and the second drawing reports a collision exactly when the first one
/// turned some dark pixel on.
pub proof fn lemma_draw_twice_restores(rows: Seq<u64>, x: u64, y: int, sprite: Seq<u8>)
    requires
        rows.len() == 32,
        x < 64,
        0 <= y < 32,
        sprite.len() <= 32,
    ensures
        drawn(drawn(rows, x, y, sprite), x, y, sprite) == rows,
        collides(drawn(rows, x, y, sprite), x, y, sprite) == lights_any(rows, x, y, sprite),
{
    let once = drawn(rows, x, y, sprite);
    assert forall|r: int| 0 <= r < 32 implies #[trigger] drawn(once, x, y, sprite)[r] == rows[r] by {
        if sprite_line(y, r) < sprite.len() {
            let a = rows[r];
            let m = sprite_row_mask(x, sprite[sprite_line(y, r)]);
            assert((a ^ m) ^ m == a) by (bit_vector);
        }
    }
    assert(drawn(once, x, y, sprite) =~= rows);
    assert forall|i: int| 0 <= i < sprite.len() implies #[trigger] erases_at(once, x, y, sprite, i)
        == lights_at(rows, x, y, sprite, i) by {
        let r = target_row(y, i);
        assert(sprite_line(y, r) == i);
        let a = rows[r];
        let m = sprite_row_mask(x, sprite[i]);
        assert(((a ^ m) & m != 0) == (!a & m != 0)) by (bit_vector);
    }
    if collides(once, x, y, sprite) {
        let i = choose|i: int| 0 <= i < sprite.len() && #[trigger] erases_at(once, x, y, sprite, i);
        assert(lights_at(rows, x, y, sprite, i));
    }
    if lights_any(rows, x, y, sprite) {
        let i = choose|i: int| 0 <= i < sprite.len() && #[trigger] lights_at(rows, x, y, sprite, i);
        assert(erases_at(once, x, y, sprite, i));
    }
}

/// Whether bit `k` of `b` is set, bit 0 being the lowest.
pub open spec fn byte_bit(b: u8, k: u64) -> bool {
    (b >> k) & 1 == 1
}

/// A byte drawn at column 60 wraps at the right edge: columns 60 to 63 show its
/// high four bits and columns 0 to 3 its low four bits, each left to right, and
/// no other column is touched.
pub proof fn lemma_wrap_at_column_sixty(b: u8)
    ensures
        forall|j: u64|
            j < 4 ==> #[trigger] pixel_on(sprite_row_mask(60, b), (60 + j) as u64) == byte_bit(b, (7 - j) as u64),
        forall|j: u64| j < 4 ==> #[trigger] pixel_on(sprite_row_mask(60, b), j) == byte_bit(b, (3 - j) as u64),
        forall|c: u64| 4 <= c < 60 ==> !#[trigger] pixel_on(sprite_row_mask(60, b), c),
{
    let m = sprite_row_mask(60, b);
    assert(m == (((b as u64) << 56u64) >> 60u64) | ((b as u64) << 60u64));
    assert forall|j: u64| j < 4 implies #[trigger] pixel_on(m, (60 + j) as u64) == byte_bit(b, (7 - j) as u64) by {
        assert(((m >> (63 - (60 + j)) as u64) & 1 == 1) == ((b >> (7 - j) as u64) & 1 == 1))
            by (bit_vector)
            requires
                j < 4,
                m == (((b as u64) << 56u64) >> 60u64) | ((b as u64) << 60u64),
        ;
    }
    assert forall|j: u64| j < 4 implies #[trigger] pixel_on(m, j) == byte_bit(b, (3 - j) as u64) by {
        assert(((m >> (63 - j) as u64) & 1 == 1) == ((b >> (3 - j) as u64) & 1 == 1)) by (bit_vector)
            requires
                j < 4,
                m == (((b as u64) << 56u64) >> 60u64) | ((b as u64) << 60u64),
        ;
    }
    assert forall|c: u64| 4 <= c < 60 implies !#[trigger] pixel_on(m, c) by {
        assert((m >> (63 - c) as u64) & 1 != 1) by (bit_vector)
            requires
                4 <= c < 60,
                m == (((b as u64) << 56u64) >> 60u64) | ((b as u64) << 60u64),
        ;
    }
}

} // verus!
