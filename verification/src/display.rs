//! Sprites and the monochrome framebuffer they are drawn onto.

use vstd::prelude::*;
use crate::machine::{SCREEN_HEIGHT, SCREEN_SIZE, SCREEN_WIDTH};

verus! {

/// Whether the bit in column `col` of a sprite row is set. Column 0 is the
/// most significant bit, the leftmost pixel.
pub open spec fn bit_from_left(byte: u8, col: int) -> bool {
    byte & (0x80u8 >> col) != 0
}

/// A sprite placed on the screen: its rows, top first, and the position of
/// its top left corner. A sprite is eight pixels wide.
pub struct Sprite {
    /// One byte for each row of the sprite.
    pub rows: Seq<u8>,
    /// Column of the left edge.
    pub x: int,
    /// Row of the top edge.
    pub y: int,
}

impl Sprite {
    /// Whether the sprite has a set bit on the pixel `(px, py)` of the
    /// screen. Both axes wrap: the sprite's column `c` of row `r` lies on
    /// `((x + c) mod 64, (y + r) mod 32)`.
    pub open spec fn covers(self, px: int, py: int) -> bool {
        let col = (px - self.x) % (SCREEN_WIDTH as int);
        let row = (py - self.y) % (SCREEN_HEIGHT as int);
        col < 8 && row < self.rows.len() && bit_from_left(self.rows[row], col)
    }

    /// Whether the sprite has a set bit on the pixel stored at `p`.
    pub open spec fn covers_index(self, p: int) -> bool {
        self.covers(p % (SCREEN_WIDTH as int), p / (SCREEN_WIDTH as int))
    }

    /// The screen after the sprite was drawn onto `screen`: every pixel the
    /// sprite covers is toggled, every other pixel is kept.
    pub open spec fn drawn_onto(self, screen: Seq<bool>) -> Seq<bool> {
        Seq::new(SCREEN_SIZE as nat, |p: int| screen[p] != self.covers_index(p))
    }

    /// Whether drawing the sprite onto `screen` switches some pixel off.
    pub open spec fn collides_with(self, screen: Seq<bool>) -> bool {
        exists|p: int| 0 <= p < SCREEN_SIZE && #[trigger] self.covers_index(p) && screen[p]
    }
}

/// The part of a sprite that a drawing in progress has already put on the
/// screen: whether the sprite covers the pixel stored at `p` with a bit that
/// comes before column `c` of row `r` in reading order.
#[verifier::opaque]
spec fn drawn_before(sprite: Sprite, r: int, c: int, p: int) -> bool {
    let width = SCREEN_WIDTH as int;
    let height = SCREEN_HEIGHT as int;
    let col = (p % width - sprite.x) % width;
    let row = (p / width - sprite.y) % height;
    sprite.covers_index(p) && (row < r || (row == r && col < c))
}

/// Where the bit in column `c` of row `r` of a sprite lands on the screen.
spec fn landing(sprite: Sprite, r: int, c: int) -> int {
    (sprite.x + c) % (SCREEN_WIDTH as int) + SCREEN_WIDTH * ((sprite.y + r) % (SCREEN_HEIGHT as int))
}

/// On an axis of length `n`, the point at distance `d` behind `origin` is
/// the only point whose distance behind `origin` is `d`.
proof fn lemma_wrapped_offset(origin: int, d: int, p: int, n: int)
    requires
        n == SCREEN_WIDTH || n == SCREEN_HEIGHT,
        0 <= d < n,
        0 <= p < n,
    ensures
        (p - origin) % n == d <==> p == (origin + d) % n,
{
    if n == 64 {
        assert((p - origin) % 64 == d <==> p == (origin + d) % 64);
    } else {
        assert((p - origin) % 32 == d <==> p == (origin + d) % 32);
    }
}

/// Nothing is drawn before the first bit.
proof fn lemma_drawn_before_start(sprite: Sprite, p: int)
    ensures
        !drawn_before(sprite, 0, 0, p),
{
    reveal(drawn_before);
}

/// One more bit: the drawing grows by the landing place of the bit in
/// column `c` of row `r`, if that bit is set, and by nothing else.
proof fn lemma_drawn_before_step(sprite: Sprite, r: int, c: int, p: int)
    requires
        0 <= r < sprite.rows.len() <= SCREEN_HEIGHT,
        0 <= c < 8,
        0 <= p < SCREEN_SIZE,
    ensures
        drawn_before(sprite, r, c + 1, p) == (drawn_before(sprite, r, c, p) || (bit_from_left(
            sprite.rows[r],
            c,
        ) && p == landing(sprite, r, c))),
{
    reveal(drawn_before);
    let width = SCREEN_WIDTH as int;
    lemma_wrapped_offset(sprite.x, c, p % width, width);
    lemma_wrapped_offset(sprite.y, r, p / width, SCREEN_HEIGHT as int);
}

/// The landing place of a bit is not drawn on before that bit's turn.
proof fn lemma_landing_fresh(sprite: Sprite, r: int, c: int)
    requires
        0 <= r < SCREEN_HEIGHT,
        0 <= c < 8,
    ensures
        0 <= landing(sprite, r, c) < SCREEN_SIZE,
        !drawn_before(sprite, r, c, landing(sprite, r, c)),
{
    reveal(drawn_before);
    let p = landing(sprite, r, c);
    let width = SCREEN_WIDTH as int;
    lemma_wrapped_offset(sprite.x, c, p % width, width);
    lemma_wrapped_offset(sprite.y, r, p / width, SCREEN_HEIGHT as int);
}

/// The end of a row is the start of the next.
proof fn lemma_drawn_before_row(sprite: Sprite, r: int, p: int)
    ensures
        drawn_before(sprite, r, 8, p) == drawn_before(sprite, r + 1, 0, p),
{
    reveal(drawn_before);
}

/// After the last row the whole sprite is drawn.
proof fn lemma_drawn_before_end(sprite: Sprite, p: int)
    ensures
        drawn_before(sprite, sprite.rows.len() as int, 0, p) == sprite.covers_index(p),
{
    reveal(drawn_before);
}

/// Tests one bit of a sprite row.
fn bit_is_set(byte: u8, col: u8) -> (set: bool)
    requires
        col < 8,
    ensures
        set == bit_from_left(byte, col as int),
{
    byte & (0x80u8 >> col) != 0
}

/// Draws a sprite: XORs its rows onto the pixels, the top left corner at
/// column `x` of row `y`, wrapping on both axes, and returns whether any
/// pixel went from on to off.
pub(crate) fn draw_sprite(pixels: &mut [bool; SCREEN_SIZE], rows: &[u8], x: u8, y: u8) -> (collision:
    bool)
    requires
        rows.len() <= SCREEN_HEIGHT,
    ensures
        final(pixels)@ == (Sprite { rows: rows@, x: x as int, y: y as int }).drawn_onto(
            old(pixels)@,
        ),
        collision == (Sprite { rows: rows@, x: x as int, y: y as int }).collides_with(
            old(pixels)@,
        ),
{
    let ghost sprite = Sprite { rows: rows@, x: x as int, y: y as int };
    let ghost before = pixels@;
    let mut collision = false;
    let mut r: usize = 0;
    proof {
        assert forall|p: int| 0 <= p < SCREEN_SIZE implies !#[trigger] drawn_before(
            sprite,
            0,
            0,
            p,
        ) by {
            lemma_drawn_before_start(sprite, p);
        }
    }
    while r < rows.len()
        invariant
            r <= rows.len() <= SCREEN_HEIGHT,
            sprite == (Sprite { rows: rows@, x: x as int, y: y as int }),
            before.len() == SCREEN_SIZE,
            forall|p: int|
                0 <= p < SCREEN_SIZE ==> pixels@[p] == (before[p] != #[trigger] drawn_before(
                    sprite,
                    r as int,
                    0,
                    p,
                )),
            collision <==> exists|p: int|
                0 <= p < SCREEN_SIZE && #[trigger] drawn_before(sprite, r as int, 0, p)
                    && before[p],
        decreases rows.len() - r,
    {
        let byte = rows[r];
        let py: usize = (y as usize + r) % SCREEN_HEIGHT;
        let mut c: u8 = 0;
        while c < 8
            invariant
                c <= 8,
                r < rows.len() <= SCREEN_HEIGHT,
                byte == rows@[r as int],
                py == (y + r) % (SCREEN_HEIGHT as int),
                sprite == (Sprite { rows: rows@, x: x as int, y: y as int }),
                before.len() == SCREEN_SIZE,
                forall|p: int|
                    0 <= p < SCREEN_SIZE ==> pixels@[p] == (before[p] != #[trigger] drawn_before(
                        sprite,
                        r as int,
                        c as int,
                        p,
                    )),
                collision <==> exists|p: int|
                    0 <= p < SCREEN_SIZE && #[trigger] drawn_before(sprite, r as int, c as int, p)
                        && before[p],
            decreases 8 - c,
        {
            let ghost collided = collision;
            let px: usize = (x as usize + c as usize) % SCREEN_WIDTH;
            let idx: usize = px + SCREEN_WIDTH * py;
            let set = bit_is_set(byte, c);
            proof {
                assert(idx == landing(sprite, r as int, c as int));
                assert forall|p: int| 0 <= p < SCREEN_SIZE implies #[trigger] drawn_before(
                    sprite,
                    r as int,
                    c + 1,
                    p,
                ) == (drawn_before(sprite, r as int, c as int, p) || (set && p == idx)) by {
                    lemma_drawn_before_step(sprite, r as int, c as int, p);
                }
                lemma_landing_fresh(sprite, r as int, c as int);
            }
            if set {
                let was = pixels[idx];
                if was {
                    collision = true;
                }
                pixels[idx] = !was;
            }
            proof {
                if collided {
                    let p = choose|p: int|
                        0 <= p < SCREEN_SIZE && drawn_before(sprite, r as int, c as int, p)
                            && before[p];
                    assert(drawn_before(sprite, r as int, c + 1, p));
                }
                if set && before[idx as int] {
                    assert(drawn_before(sprite, r as int, c + 1, idx as int));
                }
            }
            c += 1;
        }
        proof {
            assert forall|p: int| 0 <= p < SCREEN_SIZE implies drawn_before(sprite, r as int, 8, p)
                == #[trigger] drawn_before(sprite, r + 1, 0, p) by {
                lemma_drawn_before_row(sprite, r as int, p);
            }
            if collision {
                let p = choose|p: int|
                    0 <= p < SCREEN_SIZE && drawn_before(sprite, r as int, 8, p) && before[p];
                assert(drawn_before(sprite, r + 1, 0, p));
            }
        }
        r += 1;
    }
    proof {
        assert forall|p: int| 0 <= p < SCREEN_SIZE implies drawn_before(sprite, r as int, 0, p)
            == #[trigger] sprite.covers_index(p) by {
            lemma_drawn_before_end(sprite, p);
        }
        assert(pixels@ =~= sprite.drawn_onto(before));
        if collision {
            let p = choose|p: int|
                0 <= p < SCREEN_SIZE && drawn_before(sprite, r as int, 0, p) && before[p];
            assert(sprite.covers_index(p) && before[p]);
        }
    }
    collision
}

} // verus!
