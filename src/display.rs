use vstd::prelude::*;
use egui::{Color32, ColorImage};

verus! {

/// The side, in image pixels, of one low-resolution screen pixel when rendered.
pub const DISPLAY_SCALE: usize = 10;

/// The number of pixels of the larger (128x64) screen.
pub const BIG_LEN: usize = 8192;

/// The number of pixels of the smaller (64x32) screen.
pub const SMALL_LEN: usize = 2048;

/// The width of the screen in the given resolution.
pub open spec fn screen_width(highres: bool) -> int {
    if highres { 128 } else { 64 }
}

/// The height of the screen in the given resolution.
pub open spec fn screen_height(highres: bool) -> int {
    if highres { 64 } else { 32 }
}

/// The number of pixels of the screen in the given resolution.
pub open spec fn screen_len(highres: bool) -> int {
    if highres { 8192 } else { 2048 }
}

/// The direction in which to shift the screen.
pub enum ScrollDirection {
    Right,
    Left,
    Down,
}

/// The distance a scroll moves the screen: halved on the low-resolution screen
/// when the low-resolution scroll quirk is on.
pub open spec fn scroll_distance(amount: int, highres: bool, scroll_quirk: bool) -> int {
    if scroll_quirk && !highres { amount / 2 } else { amount }
}

/// The pixels after the screen of the given resolution moved `amount` pixels in
/// `direction`. What moves off an edge is lost, the vacated edge is off, and
/// pixels beyond the screen are kept.
#[verifier::opaque]
pub open spec fn scrolled(
    pixels: Seq<bool>,
    direction: ScrollDirection,
    amount: int,
    highres: bool,
) -> Seq<bool> {
    let w = screen_width(highres);
    Seq::new(
        pixels.len(),
        |i: int|
            if i < screen_len(highres) {
                let x = i % w;
                let y = i / w;
                match direction {
                    ScrollDirection::Right => if x >= amount { pixels[i - amount] } else { false },
                    ScrollDirection::Left => if x + amount < w { pixels[i + amount] } else { false },
                    ScrollDirection::Down => if y >= amount { pixels[i - amount * w] } else { false },
                }
            } else {
                pixels[i]
            },
    )
}

/// The width in pixels of a sprite.
pub open spec fn sprite_width(wide: bool) -> int {
    if wide { 16 } else { 8 }
}

/// The number of rows of a sprite: two bytes a row for a wide sprite, one otherwise.
pub open spec fn sprite_rows(sprite: Seq<u8>, wide: bool) -> int {
    if wide { sprite.len() as int / 2 } else { sprite.len() as int }
}

/// Whether the sprite bit at `row`, `col` is set. Bits are read from the most
/// significant one on.
pub open spec fn sprite_bit(sprite: Seq<u8>, wide: bool, row: int, col: int) -> bool {
    let byte = if wide { sprite[2 * row + col / 8] } else { sprite[row] };
    byte & (0x80u8 >> ((col % 8) as u8)) != 0
}

/// The offset within a sprite of screen coordinate `p`, for a sprite placed at
/// coordinate `start` on an axis of `size` pixels. When clipping, a coordinate
/// before the start has a negative offset; when wrapping, it is reached by
/// going round the edge.
pub open spec fn sprite_offset(p: int, start: int, size: int, clip: bool) -> int {
    let s = start % size;
    if clip || p >= s { p - s } else { p + size - s }
}

/// Whether a set bit of the sprite, drawn at (`x`, `y`), lands on screen pixel `i`.
pub open spec fn sprite_hits(
    sprite: Seq<u8>,
    wide: bool,
    x: int,
    y: int,
    highres: bool,
    clip: bool,
    i: int,
) -> bool {
    let w = screen_width(highres);
    let h = screen_height(highres);
    let col = sprite_offset(i % w, x, w, clip);
    let row = sprite_offset(i / w, y, h, clip);
    &&& 0 <= i < screen_len(highres)
    &&& 0 <= col < sprite_width(wide)
    &&& 0 <= row < sprite_rows(sprite, wide)
    &&& sprite_bit(sprite, wide, row, col)
}

/// The pixels after the sprite was XOR-ed onto the screen at (`x`, `y`).
#[verifier::opaque]
pub open spec fn drawn(
    pixels: Seq<bool>,
    sprite: Seq<u8>,
    wide: bool,
    x: int,
    y: int,
    highres: bool,
    clip: bool,
) -> Seq<bool> {
    Seq::new(
        pixels.len(),
        |i: int|
            if sprite_hits(sprite, wide, x, y, highres, clip, i) {
                !pixels[i]
            } else {
                pixels[i]
            },
    )
}

/// Whether drawing the sprite turns off a pixel that was on.
#[verifier::opaque]
pub open spec fn collides(
    pixels: Seq<bool>,
    sprite: Seq<u8>,
    wide: bool,
    x: int,
    y: int,
    highres: bool,
    clip: bool,
) -> bool {
    exists|i: int| #[trigger] sprite_hits(sprite, wide, x, y, highres, clip, i) && pixels[i]
}

/// The shapes a sprite may have: 16 rows of two bytes, or at most 16 rows of one byte.
pub open spec fn sprite_shape_ok(sprite: Seq<u8>, wide: bool) -> bool {
    if wide { sprite.len() == 32 } else { sprite.len() <= 16 }
}

/// Pixel index `i` of a screen `w` wide is column `i % w` of row `i / w`.
proof fn lemma_index_coords(i: int, highres: bool)
    requires
        0 <= i < screen_len(highres),
    ensures
        i == i % screen_width(highres) + (i / screen_width(highres)) * screen_width(highres),
        0 <= i % screen_width(highres) < screen_width(highres),
        0 <= i / screen_width(highres) < screen_height(highres),
{
}

/// The pixel at column `x` of row `y` has index `x + y * w`.
proof fn lemma_coords_index(x: int, y: int, highres: bool)
    requires
        0 <= x < screen_width(highres),
        0 <= y < screen_height(highres),
    ensures
        0 <= x + y * screen_width(highres) < screen_len(highres),
        (x + y * screen_width(highres)) % screen_width(highres) == x,
        (x + y * screen_width(highres)) / screen_width(highres) == y,
{
}


/// Whether the sprite position of pixel `i` comes before (`row`, `col`) in
/// drawing order.
spec fn before(i: int, x: int, y: int, highres: bool, clip: bool, row: int, col: int) -> bool {
    let w = screen_width(highres);
    let r = sprite_offset(i / w, y, screen_height(highres), clip);
    let c = sprite_offset(i % w, x, w, clip);
    r < row || (r == row && c < col)
}

/// The screen once the sprite positions before (`row`, `col`) are drawn.
spec fn drawn_until(
    pixels: Seq<bool>,
    sprite: Seq<u8>,
    wide: bool,
    x: int,
    y: int,
    highres: bool,
    clip: bool,
    row: int,
    col: int,
) -> Seq<bool> {
    Seq::new(
        pixels.len(),
        |i: int|
            if sprite_hits(sprite, wide, x, y, highres, clip, i) && before(
                i,
                x,
                y,
                highres,
                clip,
                row,
                col,
            ) {
                !pixels[i]
            } else {
                pixels[i]
            },
    )
}

/// Whether a sprite position before (`row`, `col`) lands on a pixel that was on.
spec fn collides_until(
    pixels: Seq<bool>,
    sprite: Seq<u8>,
    wide: bool,
    x: int,
    y: int,
    highres: bool,
    clip: bool,
    row: int,
    col: int,
) -> bool {
    exists|i: int|
        #[trigger] sprite_hits(sprite, wide, x, y, highres, clip, i) && before(
            i,
            x,
            y,
            highres,
            clip,
            row,
            col,
        ) && pixels[i]
}

/// Whether sprite position (`row`, `col`) lies on the screen.
spec fn cell_visible(x: int, y: int, highres: bool, clip: bool, row: int, col: int) -> bool {
    !clip || (x % screen_width(highres) + col < screen_width(highres) && y % screen_height(highres)
        + row < screen_height(highres))
}

/// The coordinate that offset `k` from `start` reaches on an axis of `size`
/// pixels, going round the edge.
spec fn wrapped(start: int, k: int, size: int) -> int {
    if start % size + k < size { start % size + k } else { start % size + k - size }
}

/// The pixel that sprite position (`row`, `col`) lands on when visible.
spec fn cell_target(x: int, y: int, highres: bool, row: int, col: int) -> int {
    wrapped(x, col, screen_width(highres)) + wrapped(y, row, screen_height(highres)) * screen_width(
        highres,
    )
}

/// A pixel has sprite position (`row`, `col`) exactly when that position is
/// visible and lands on it.
proof fn lemma_cell_pixel(x: int, y: int, highres: bool, clip: bool, row: int, col: int, i: int)
    requires
        0 <= x,
        0 <= y,
        0 <= row < 16,
        0 <= col < 16,
        0 <= i < screen_len(highres),
    ensures
        0 <= cell_target(x, y, highres, row, col) < screen_len(highres),
        (sprite_offset(i / screen_width(highres), y, screen_height(highres), clip) == row
            && sprite_offset(i % screen_width(highres), x, screen_width(highres), clip) == col)
            <==> (cell_visible(x, y, highres, clip, row, col) && i == cell_target(
            x,
            y,
            highres,
            row,
            col,
        )),
{
    let w = screen_width(highres);
    let h = screen_height(highres);
    lemma_index_coords(i, highres);
    let px = wrapped(x, col, w);
    let py = wrapped(y, row, h);
    assert(0 <= x % w < w);
    assert(0 <= y % h < h);
    lemma_coords_index(px, py, highres);
}

/// The positions drawn after one more step are those before it and, if it is
/// visible and set, the pixel of the new position.
#[verifier::rlimit(40)]
proof fn lemma_step_positions(
    sprite: Seq<u8>,
    wide: bool,
    x: int,
    y: int,
    highres: bool,
    clip: bool,
    row: int,
    col: int,
)
    requires
        0 <= x,
        0 <= y,
        sprite_shape_ok(sprite, wide),
        0 <= row < sprite_rows(sprite, wide),
        0 <= col < sprite_width(wide),
    ensures
        forall|i: int|
            0 <= i < screen_len(highres) ==> ((#[trigger] sprite_hits(
                sprite,
                wide,
                x,
                y,
                highres,
                clip,
                i,
            ) && before(i, x, y, highres, clip, row, col + 1)) == ((sprite_hits(
                sprite,
                wide,
                x,
                y,
                highres,
                clip,
                i,
            ) && before(i, x, y, highres, clip, row, col)) || (cell_visible(
                x,
                y,
                highres,
                clip,
                row,
                col,
            ) && sprite_bit(sprite, wide, row, col) && i == cell_target(x, y, highres, row, col)))),
{
    let t = cell_target(x, y, highres, row, col);
    let w = screen_width(highres);
    let h = screen_height(highres);
    assert forall|i: int| 0 <= i < screen_len(highres) implies ((sprite_hits(
        sprite,
        wide,
        x,
        y,
        highres,
        clip,
        i,
    ) && before(i, x, y, highres, clip, row, col + 1)) == ((sprite_hits(
        sprite,
        wide,
        x,
        y,
        highres,
        clip,
        i,
    ) && before(i, x, y, highres, clip, row, col)) || (cell_visible(
        x,
        y,
        highres,
        clip,
        row,
        col,
    ) && sprite_bit(sprite, wide, row, col) && i == t))) by {
        lemma_cell_pixel(x, y, highres, clip, row, col, i);
        lemma_index_coords(i, highres);
    }
}

/// Drawing one more sprite position flips its pixel, if it is visible and set.
#[verifier::rlimit(40)]
proof fn lemma_draw_step(
    pixels: Seq<bool>,
    sprite: Seq<u8>,
    wide: bool,
    x: int,
    y: int,
    highres: bool,
    clip: bool,
    row: int,
    col: int,
)
    requires
        0 <= x,
        0 <= y,
        sprite_shape_ok(sprite, wide),
        0 <= row < sprite_rows(sprite, wide),
        0 <= col < sprite_width(wide),
        pixels.len() >= screen_len(highres),
    ensures
        ({
            let t = cell_target(x, y, highres, row, col);
            let next = drawn_until(pixels, sprite, wide, x, y, highres, clip, row, col + 1);
            let cur = drawn_until(pixels, sprite, wide, x, y, highres, clip, row, col);
            if cell_visible(x, y, highres, clip, row, col) && sprite_bit(sprite, wide, row, col) {
                &&& 0 <= t < screen_len(highres)
                &&& cur[t] == pixels[t]
                &&& next == cur.update(t, !cur[t])
            } else {
                next == cur
            }
        }),
{
    let t = cell_target(x, y, highres, row, col);
    let next = drawn_until(pixels, sprite, wide, x, y, highres, clip, row, col + 1);
    let cur = drawn_until(pixels, sprite, wide, x, y, highres, clip, row, col);
    lemma_step_positions(sprite, wide, x, y, highres, clip, row, col);
    lemma_cell_pixel(x, y, highres, clip, row, col, 0);
    if cell_visible(x, y, highres, clip, row, col) && sprite_bit(sprite, wide, row, col) {
        lemma_cell_pixel(x, y, highres, clip, row, col, t);
        lemma_index_coords(t, highres);
        assert(!before(t, x, y, highres, clip, row, col));
        assert(cur[t] == pixels[t]);
        assert(next =~= cur.update(t, !cur[t]));
    } else {
        assert(next =~= cur);
    }
}

/// One more sprite position collides exactly when it is visible, set and lands
/// on a pixel that was on.
#[verifier::rlimit(40)]
proof fn lemma_collides_step(
    pixels: Seq<bool>,
    sprite: Seq<u8>,
    wide: bool,
    x: int,
    y: int,
    highres: bool,
    clip: bool,
    row: int,
    col: int,
)
    requires
        0 <= x,
        0 <= y,
        sprite_shape_ok(sprite, wide),
        0 <= row < sprite_rows(sprite, wide),
        0 <= col < sprite_width(wide),
        pixels.len() >= screen_len(highres),
    ensures
        collides_until(pixels, sprite, wide, x, y, highres, clip, row, col + 1) == (collides_until(
            pixels,
            sprite,
            wide,
            x,
            y,
            highres,
            clip,
            row,
            col,
        ) || (cell_visible(x, y, highres, clip, row, col) && sprite_bit(sprite, wide, row, col)
            && pixels[cell_target(x, y, highres, row, col)])),
{
    let t = cell_target(x, y, highres, row, col);
    lemma_step_positions(sprite, wide, x, y, highres, clip, row, col);
    lemma_cell_pixel(x, y, highres, clip, row, col, 0);
    if collides_until(pixels, sprite, wide, x, y, highres, clip, row, col + 1) {
        let i = choose|i: int|
            #[trigger] sprite_hits(sprite, wide, x, y, highres, clip, i) && before(
                i,
                x,
                y,
                highres,
                clip,
                row,
                col + 1,
            ) && pixels[i];
        assert(0 <= i < screen_len(highres));
    }
    if collides_until(pixels, sprite, wide, x, y, highres, clip, row, col) {
        let i = choose|i: int|
            #[trigger] sprite_hits(sprite, wide, x, y, highres, clip, i) && before(
                i,
                x,
                y,
                highres,
                clip,
                row,
                col,
            ) && pixels[i];
        assert(0 <= i < screen_len(highres));
        assert(before(i, x, y, highres, clip, row, col + 1));
    }
    if cell_visible(x, y, highres, clip, row, col) && sprite_bit(sprite, wide, row, col)
        && pixels[t] {
        assert(0 <= t < screen_len(highres));
        lemma_cell_pixel(x, y, highres, clip, row, col, t);
        lemma_index_coords(t, highres);
        assert(sprite_hits(sprite, wide, x, y, highres, clip, t));
        assert(sprite_hits(sprite, wide, x, y, highres, clip, t) && before(
            t,
            x,
            y,
            highres,
            clip,
            row,
            col + 1,
        ));
    }
}

/// Finishing a row is starting the next one.
proof fn lemma_draw_row(
    pixels: Seq<bool>,
    sprite: Seq<u8>,
    wide: bool,
    x: int,
    y: int,
    highres: bool,
    clip: bool,
    row: int,
)
    ensures
        drawn_until(pixels, sprite, wide, x, y, highres, clip, row, sprite_width(wide))
            == drawn_until(pixels, sprite, wide, x, y, highres, clip, row + 1, 0),
        collides_until(pixels, sprite, wide, x, y, highres, clip, row, sprite_width(wide))
            == collides_until(pixels, sprite, wide, x, y, highres, clip, row + 1, 0),
{
    assert(drawn_until(pixels, sprite, wide, x, y, highres, clip, row, sprite_width(wide))
        =~= drawn_until(pixels, sprite, wide, x, y, highres, clip, row + 1, 0));
    if collides_until(pixels, sprite, wide, x, y, highres, clip, row, sprite_width(wide)) {
        let i = choose|i: int|
            #[trigger] sprite_hits(sprite, wide, x, y, highres, clip, i) && before(
                i,
                x,
                y,
                highres,
                clip,
                row,
                sprite_width(wide),
            ) && pixels[i];
        assert(before(i, x, y, highres, clip, row + 1, 0));
    }
    if collides_until(pixels, sprite, wide, x, y, highres, clip, row + 1, 0) {
        let i = choose|i: int|
            #[trigger] sprite_hits(sprite, wide, x, y, highres, clip, i) && before(
                i,
                x,
                y,
                highres,
                clip,
                row + 1,
                0,
            ) && pixels[i];
        assert(before(i, x, y, highres, clip, row, sprite_width(wide)));
    }
}

/// Before the first position nothing is drawn; after the last row, all is.
proof fn lemma_draw_ends(
    pixels: Seq<bool>,
    sprite: Seq<u8>,
    wide: bool,
    x: int,
    y: int,
    highres: bool,
    clip: bool,
)
    ensures
        drawn_until(pixels, sprite, wide, x, y, highres, clip, 0, 0) == pixels,
        !collides_until(pixels, sprite, wide, x, y, highres, clip, 0, 0),
        drawn_until(pixels, sprite, wide, x, y, highres, clip, sprite_rows(sprite, wide), 0)
            == drawn(pixels, sprite, wide, x, y, highres, clip),
        collides_until(pixels, sprite, wide, x, y, highres, clip, sprite_rows(sprite, wide), 0)
            == collides(pixels, sprite, wide, x, y, highres, clip),
{
    reveal(drawn);
    reveal(collides);
    assert(drawn_until(pixels, sprite, wide, x, y, highres, clip, 0, 0) =~= pixels);
    assert(drawn_until(pixels, sprite, wide, x, y, highres, clip, sprite_rows(sprite, wide), 0)
        =~= drawn(pixels, sprite, wide, x, y, highres, clip));
    let rows = sprite_rows(sprite, wide);
    if collides(pixels, sprite, wide, x, y, highres, clip) {
        let i = choose|i: int|
            #[trigger] sprite_hits(sprite, wide, x, y, highres, clip, i) && pixels[i];
        assert(before(i, x, y, highres, clip, rows, 0));
    }
}

/// The side, in image pixels, of one screen pixel of the given resolution.
pub open spec fn render_scale(highres: bool) -> int {
    if highres { DISPLAY_SCALE as int / 2 } else { DISPLAY_SCALE as int }
}

/// The width of a rendered image: the same in both resolutions.
pub const IMAGE_WIDTH: usize = 640;

/// The height of a rendered image: the same in both resolutions.
pub const IMAGE_HEIGHT: usize = 320;

/// The screen pixel that image pixel `i` shows.
pub open spec fn image_source(i: int, highres: bool) -> int {
    (i % IMAGE_WIDTH as int) / render_scale(highres) + ((i / IMAGE_WIDTH as int) / render_scale(
        highres,
    )) * screen_width(highres)
}

/// An RGBA color of egui.
#[verifier::external_type_specification]
#[verifier::external_body]
pub struct ExColor32(Color32);

/// An image of egui, row by row.
#[verifier::external_type_specification]
#[verifier::external_body]
pub struct ExColorImage(ColorImage);

/// Relies on egui's `ColorImage` fields: an image of `size` (width, height) with
/// the given pixels, row by row.
#[verifier::external_body]
fn color_image(size: [usize; 2], pixels: Vec<Color32>) -> (r: ColorImage) {
    ColorImage { size, pixels }
}

/// A monochrome screen of 64x32 or 128x64 pixels.
#[derive(Debug, PartialEq, Eq, PartialOrd, Ord, Hash, Clone)]
pub struct Display {
    /// The state of each pixel, row by row.
    pub pixels: Vec<bool>,
}

impl Display {
    /// 64x32 pixels, as on CHIP-8. All pixels off.
    pub fn small() -> (r: Display)
        ensures
            r.pixels@ == Seq::new(SMALL_LEN as nat, |i: int| false),
    {
        let r = Display { pixels: vec![false; SMALL_LEN] };
        assert(r.pixels@ =~= Seq::new(SMALL_LEN as nat, |i: int| false));
        r
    }

    /// 128x64 pixels, as on SUPER-CHIP. All pixels off.
    pub fn big() -> (r: Display)
        ensures
            r.pixels@ == Seq::new(BIG_LEN as nat, |i: int| false),
    {
        let r = Display { pixels: vec![false; BIG_LEN] };
        assert(r.pixels@ =~= Seq::new(BIG_LEN as nat, |i: int| false));
        r
    }

    /// Turn off all pixels.
    pub fn clear(&mut self)
        ensures
            final(self).pixels@ == Seq::new(old(self).pixels@.len(), |i: int| false),
    {
        let n = self.pixels.len();
        let mut i: usize = 0;
        while i < n
            invariant
                i <= n == self.pixels@.len() == old(self).pixels@.len(),
                forall|j: int| 0 <= j < i ==> !self.pixels@[j],
            decreases n - i,
        {
            self.pixels.set(i, false);
            i = i + 1;
        }
        assert(self.pixels@ =~= Seq::new(old(self).pixels@.len(), |i: int| false));
    }

    /// Shift the screen of the given resolution by `amount` pixels, halved on the
    /// low-resolution screen when `scroll_quirk` is set.
    pub fn scroll(
        &mut self,
        direction: ScrollDirection,
        amount: usize,
        highres: bool,
        scroll_quirk: bool,
    )
        requires
            old(self).pixels@.len() >= screen_len(highres),
        ensures
            final(self).pixels@.len() == old(self).pixels@.len(),
            final(self).pixels@ == scrolled(
                old(self).pixels@,
                direction,
                scroll_distance(amount as int, highres, scroll_quirk),
                highres,
            ),
    {
        let amount = if scroll_quirk && !highres {
            amount / 2
        } else {
            amount
        };
        let width: usize = if highres { 128 } else { 64 };
        let size: usize = if highres { BIG_LEN } else { SMALL_LEN };
        let ghost goal = scrolled(self.pixels@, direction, amount as int, highres);
        proof {
            reveal(scrolled);
        }
        let n = self.pixels.len();
        let mut out: Vec<bool> = Vec::with_capacity(n);
        let mut i: usize = 0;
        while i < n
            invariant
                i <= n == self.pixels@.len() == goal.len(),
                n >= screen_len(highres),
                width == screen_width(highres),
                size == screen_len(highres),
                goal == scrolled(self.pixels@, direction, amount as int, highres),
                out@.len() == i,
                forall|j: int| 0 <= j < i ==> out@[j] == goal[j],
            decreases n - i,
        {
            proof {
                reveal(scrolled);
            }
            let value = if i < size {
                let x = i % width;
                let y = i / width;
                proof {
                    lemma_index_coords(i as int, highres);
                }
                match direction {
                    ScrollDirection::Right => if x >= amount {
                        self.pixels[i - amount]
                    } else {
                        false
                    },
                    ScrollDirection::Left => if amount < width - x {
                        self.pixels[i + amount]
                    } else {
                        false
                    },
                    ScrollDirection::Down => if y >= amount {
                        assert(amount * width <= y * width) by (nonlinear_arith)
                            requires
                                amount <= y,
                        ;
                        self.pixels[i - amount * width]
                    } else {
                        false
                    },
                }
            } else {
                self.pixels[i]
            };
            out.push(value);
            i = i + 1;
        }
        assert(out@ =~= goal);
        self.pixels = out;
    }


    /// XOR a sprite onto the screen of the given resolution at (`x`, `y`) and
    /// report whether a pixel that was on was turned off.
    ///
    /// A wide sprite is 16x16 pixels, two bytes a row; a narrow one is 8 pixels
    /// wide with one byte a row. The position wraps round the screen; with
    /// `clip`, the parts of the sprite past the right or bottom edge are not
    /// drawn, and otherwise they wrap round to the opposite edge.
    pub fn draw_sprite(
        &mut self,
        sprite: &Vec<u8>,
        wide: bool,
        x: u8,
        y: u8,
        highres: bool,
        clip: bool,
    ) -> (collision: bool)
        requires
            old(self).pixels@.len() >= screen_len(highres),
            sprite_shape_ok(sprite@, wide),
        ensures
            final(self).pixels@.len() == old(self).pixels@.len(),
            final(self).pixels@ == drawn(
                old(self).pixels@,
                sprite@,
                wide,
                x as int,
                y as int,
                highres,
                clip,
            ),
            collision == collides(old(self).pixels@, sprite@, wide, x as int, y as int, highres, clip),
    {
        let ghost start = self.pixels@;
        let ghost xi = x as int;
        let ghost yi = y as int;
        let w: usize = if highres { 128 } else { 64 };
        let h: usize = if highres { 64 } else { 32 };
        let rows: usize = if wide { 16 } else { sprite.len() };
        let sw: usize = if wide { 16 } else { 8 };
        let dx = (x as usize) % w;
        let dy = (y as usize) % h;
        let mut overlap = false;
        let mut row: usize = 0;
        proof {
            lemma_draw_ends(start, sprite@, wide, xi, yi, highres, clip);
        }
        while row < rows
            invariant
                w == screen_width(highres),
                h == screen_height(highres),
                rows == sprite_rows(sprite@, wide),
                sprite_shape_ok(sprite@, wide),
                sw == sprite_width(wide),
                dx == xi % w as int,
                dy == yi % h as int,
                xi == x as int,
                yi == y as int,
                row <= rows,
                start.len() >= screen_len(highres),
                self.pixels@ == drawn_until(start, sprite@, wide, xi, yi, highres, clip, row as int, 0),
                overlap == collides_until(start, sprite@, wide, xi, yi, highres, clip, row as int, 0),
            decreases rows - row,
        {
            let row_visible = dy + row < h;
            let py = if row_visible {
                dy + row
            } else {
                dy + row - h
            };
            let mut col: usize = 0;
            while col < sw
                invariant
                    w == screen_width(highres),
                    h == screen_height(highres),
                    rows == sprite_rows(sprite@, wide),
                    sprite_shape_ok(sprite@, wide),
                    sw == sprite_width(wide),
                    dx == xi % w as int,
                    dy == yi % h as int,
                    xi == x as int,
                    yi == y as int,
                    row < rows,
                    col <= sw,
                    row_visible == (dy + row < h),
                    py == wrapped(yi, row as int, h as int),
                    start.len() >= screen_len(highres),
                    self.pixels@ == drawn_until(
                        start,
                        sprite@,
                        wide,
                        xi,
                        yi,
                        highres,
                        clip,
                        row as int,
                        col as int,
                    ),
                    overlap == collides_until(
                        start,
                        sprite@,
                        wide,
                        xi,
                        yi,
                        highres,
                        clip,
                        row as int,
                        col as int,
                    ),
                decreases sw - col,
            {
                proof {
                    lemma_draw_step(start, sprite@, wide, xi, yi, highres, clip, row as int, col as int);
                    lemma_collides_step(start, sprite@, wide, xi, yi, highres, clip, row as int, col as int);
                }
                let col_visible = dx + col < w;
                let px = if col_visible {
                    dx + col
                } else {
                    dx + col - w
                };
                if !clip || (col_visible && row_visible) {
                    let byte = if wide {
                        sprite[2 * row + col / 8]
                    } else {
                        sprite[row]
                    };
                    if byte & (0x80u8 >> ((col % 8) as u8)) != 0 {
                        let t = px + py * w;
                        assert(t == cell_target(xi, yi, highres, row as int, col as int));
                        if self.pixels[t] {
                            overlap = true;
                        }
                        let cur = self.pixels[t];
                        self.pixels.set(t, !cur);
                    }
                }
                col = col + 1;
            }
            proof {
                lemma_draw_row(start, sprite@, wide, xi, yi, highres, clip, row as int);
            }
            row = row + 1;
        }
        overlap
    }

    /// The colors of a scaled-up image of the screen of the given resolution,
    /// row by row: `fill_color` where the pixel is on, `background_color`
    /// elsewhere.
    pub fn render_pixels(&self, highres: bool, background_color: Color32, fill_color: Color32) -> (r:
        Vec<Color32>)
        requires
            self.pixels@.len() >= screen_len(highres),
        ensures
            r@.len() == IMAGE_WIDTH * IMAGE_HEIGHT,
            forall|i: int|
                0 <= i < IMAGE_WIDTH * IMAGE_HEIGHT ==> #[trigger] r@[i] == if self.pixels@[image_source(
                    i,
                    highres,
                )] {
                    fill_color
                } else {
                    background_color
                },
    {
        let scale: usize = if highres { DISPLAY_SCALE / 2 } else { DISPLAY_SCALE };
        let width: usize = if highres { 128 } else { 64 };
        let n: usize = IMAGE_WIDTH * IMAGE_HEIGHT;
        let mut out: Vec<Color32> = Vec::with_capacity(n);
        let mut i: usize = 0;
        while i < n
            invariant
                i <= n == IMAGE_WIDTH * IMAGE_HEIGHT,
                scale == render_scale(highres),
                width == screen_width(highres),
                self.pixels@.len() >= screen_len(highres),
                out@.len() == i,
                forall|j: int|
                    0 <= j < i ==> #[trigger] out@[j] == if self.pixels@[image_source(j, highres)] {
                        fill_color
                    } else {
                        background_color
                    },
            decreases n - i,
        {
            let source = (i % IMAGE_WIDTH) / scale + ((i / IMAGE_WIDTH) / scale) * width;
            assert(source == image_source(i as int, highres));
            assert(source < screen_len(highres)) by {
                let col = i % IMAGE_WIDTH;
                let line = i / IMAGE_WIDTH;
                assert(col < IMAGE_WIDTH && line < IMAGE_HEIGHT);
                if highres {
                    assert(col / 5 < 128 && line / 5 < 64) by (nonlinear_arith)
                        requires
                            col < 640 && line < 320,
                    ;
                } else {
                    assert(col / 10 < 64 && line / 10 < 32) by (nonlinear_arith)
                        requires
                            col < 640 && line < 320,
                    ;
                }
            }
            let color = if self.pixels[source] {
                fill_color
            } else {
                background_color
            };
            out.push(color);
            i = i + 1;
        }
        out
    }

    /// A scaled-up image of the screen of the given resolution, 640x320 pixels.
    pub fn render(&self, highres: bool, background_color: Color32, fill_color: Color32) -> (r:
        ColorImage)
        requires
            self.pixels@.len() >= screen_len(highres),
    {
        let pixels = self.render_pixels(highres, background_color, fill_color);
        color_image([IMAGE_WIDTH, IMAGE_HEIGHT], pixels)
    }
}

} // verus!
