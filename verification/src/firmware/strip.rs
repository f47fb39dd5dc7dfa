//! A horizontal strip of the screen held in RAM. The UI is rendered into
//! one strip at a time; each finished strip is sent to the panel as one
//! block of big-endian RGB565 bytes. Pixels outside the current strip are
//! discarded, so every primitive can be drawn in screen coordinates.
use vstd::prelude::*;

use vstd::arithmetic::div_mod::{lemma_fundamental_div_mod, lemma_fundamental_div_mod_converse};

verus! {

/// Panel width in pixels.
pub const DISPLAY_WIDTH: u32 = 240;
/// Panel height in pixels.
pub const DISPLAY_HEIGHT: u32 = 320;
/// Capacity of a strip in bytes: 30 scanlines of `DISPLAY_WIDTH` pixels at
/// two bytes each.
pub const STRIP_MAX_BYTES: usize = 14400;

/// The byte of an RGB565 value stored at an even (`half == 0`, high byte)
/// or odd (`half == 1`, low byte) position.
pub open spec fn color_byte(c: u16, half: int) -> u8 {
    if half == 0 {
        (c / 256) as u8
    } else {
        (c % 256) as u8
    }
}

/// The number of pixels a strip of `h` rows of `w` pixels holds; a strip
/// with no rows or no columns holds none.
pub open spec fn pixel_count(h: int, w: int) -> int {
    if h == 0 || w == 0 {
        0
    } else {
        h * w
    }
}

/// A strip geometry the buffer can hold.
pub open spec fn strip_fits(h: int, w: int) -> bool {
    h == 0 || w == 0 || (0 < h && 0 < w && h * w * 2 <= STRIP_MAX_BYTES)
}

/// The abstract state of a strip buffer.
#[verifier::ext_equal]
pub struct StripView {
    /// The whole buffer.
    pub bytes: Seq<u8>,
    /// Screen row of the strip's first scanline.
    pub top: int,
    /// Scanlines in the strip.
    pub height: int,
    /// Pixels per scanline.
    pub width: int,
    /// Background colour.
    pub bg: u16,
}

impl StripView {
    /// Bytes in use for the current strip.
    pub open spec fn used_len(self) -> int {
        pixel_count(self.height, self.width) * 2
    }

    /// The screen pixel `(x, y)` lies in the current strip.
    pub open spec fn contains(self, x: int, y: int) -> bool {
        0 <= x < self.width && self.top <= y < self.top + self.height
    }

    /// Buffer position of the high byte of an in-strip pixel.
    pub open spec fn index_of(self, x: int, y: int) -> int {
        ((y - self.top) * self.width + x) * 2
    }

    /// Screen column of the pixel a buffer position belongs to.
    pub open spec fn column_of(self, k: int) -> int {
        (k / 2) % self.width
    }

    /// Screen row of the pixel a buffer position belongs to.
    pub open spec fn row_of(self, k: int) -> int {
        self.top + (k / 2) / self.width
    }

    /// The buffer with every in-strip pixel for which `inside` holds set to
    /// `c`, and everything else unchanged.
    pub open spec fn painted(self, inside: spec_fn(int, int) -> bool, c: u16) -> StripView {
        StripView {
            bytes: Seq::new(
                self.bytes.len(),
                |k: int|
                    if k < self.used_len() && inside(self.column_of(k), self.row_of(k)) {
                        color_byte(c, k % 2)
                    } else {
                        self.bytes[k]
                    },
            ),
            ..self
        }
    }

    /// The buffer after drawing pixel `(x, y)` in colour `c`: set when it
    /// lies in the strip, otherwise discarded.
    pub open spec fn with_pixel(self, x: int, y: int, c: u16) -> StripView {
        if self.contains(x, y) {
            let i = self.index_of(x, y);
            StripView {
                bytes: self.bytes.update(i, color_byte(c, 0)).update(i + 1, color_byte(c, 1)),
                ..self
            }
        } else {
            self
        }
    }

    /// The buffer after drawing `pixels` in order.
    pub open spec fn with_pixels(self, pixels: Seq<(i32, i32, u16)>) -> StripView
        decreases pixels.len(),
    {
        if pixels.len() == 0 {
            self
        } else {
            let p = pixels.last();
            self.with_pixels(pixels.drop_last()).with_pixel(p.0 as int, p.1 as int, p.2)
        }
    }

    /// The buffer after drawing `colors` in order along a run.
    pub open spec fn with_run(self, left: int, top: int, w: int, colors: Seq<u16>) -> StripView
        decreases colors.len(),
    {
        if colors.len() == 0 {
            self
        } else {
            let i = colors.len() - 1;
            let pos = run_position(left, top, w, i);
            self.with_run(left, top, w, colors.drop_last()).with_pixel(pos.0, pos.1, colors[i])
        }
    }
}

/// Where the `i`-th colour of a run that starts at `(left, top)` and wraps
/// after `w` pixels lands: row-major in the area when `w` is positive; for
/// an area of no columns, one pixel per row below `top`.
pub open spec fn run_position(left: int, top: int, w: int, i: int) -> (int, int) {
    if w >= 1 {
        (left + i % w, top + i / w)
    } else {
        (left, top + 1 + i)
    }
}

/// A rectangle clipped against the strip lies outside it entirely.
pub open spec fn run_outside(v: StripView, left: int, top: int, w: int, h: int) -> bool {
    top + h <= v.top || top >= v.top + v.height || left + w <= 0 || left >= v.width
}

/// Pixel `p = ly * w + x` of a row-major grid `w` wide: its two bytes and
/// its coordinates.
proof fn lemma_pixel_index(w: int, ly: int, x: int)
    requires
        0 <= x < w,
        0 <= ly,
    ensures
        ({
            let p = ly * w + x;
            &&& (2 * p) / 2 == p
            &&& (2 * p + 1) / 2 == p
            &&& (2 * p) % 2 == 0
            &&& (2 * p + 1) % 2 == 1
            &&& p % w == x
            &&& p / w == ly
            &&& p >= 0
        }),
{
    let p = ly * w + x;
    assert(p >= 0) by (nonlinear_arith)
        requires
            p == ly * w + x,
            0 <= x < w,
            0 <= ly,
    ;
    lemma_fundamental_div_mod_converse(p, w, ly, x);
    lemma_fundamental_div_mod_converse(2 * p, 2, p, 0);
    lemma_fundamental_div_mod_converse(2 * p + 1, 2, p, 1);
}

/// A position in the used part of a strip belongs to an in-strip pixel,
/// and is one of that pixel's two bytes.
proof fn lemma_position_pixel(v: StripView, k: int)
    requires
        0 <= k < v.used_len(),
        strip_fits(v.height, v.width),
    ensures
        v.width > 0 && v.height > 0,
        v.contains(v.column_of(k), v.row_of(k)),
        k == v.index_of(v.column_of(k), v.row_of(k)) + k % 2,
        0 <= k % 2 <= 1,
{
    let w = v.width;
    let h = v.height;
    let p = k / 2;
    lemma_fundamental_div_mod(k, 2);
    lemma_fundamental_div_mod(p, w);
    let x = p % w;
    let ly = p / w;
    assert(0 <= x < w);
    assert(0 <= p < h * w) by (nonlinear_arith)
        requires
            p == k / 2,
            0 <= k < h * w * 2,
    ;
    assert(0 <= ly < h) by (nonlinear_arith)
        requires
            p == w * ly + x,
            0 <= x < w,
            0 <= p < h * w,
            w > 0,
    ;
    assert(k == (ly * w + x) * 2 + k % 2) by (nonlinear_arith)
        requires
            k == 2 * p + k % 2,
            p == w * ly + x,
    ;
}

/// A strip buffer. The panel's strips are filled top to bottom; each is
/// cleared to the background colour when it is begun.
pub struct StripBuffer {
    buf: Vec<u8>,
    strip_y: i32,
    strip_h: i32,
    width: i32,
    bg: u16,
}

impl View for StripBuffer {
    type V = StripView;

    closed spec fn view(&self) -> StripView {
        StripView {
            bytes: self.buf@,
            top: self.strip_y as int,
            height: self.strip_h as int,
            width: self.width as int,
            bg: self.bg,
        }
    }
}

impl StripBuffer {
    #[verifier::type_invariant]
    spec fn inv(&self) -> bool {
        &&& self.buf@.len() == STRIP_MAX_BYTES
        &&& strip_fits(self.strip_h as int, self.width as int)
    }

    /// Number of pixels in the current strip.
    fn pixel_count(&self) -> (n: usize)
        ensures
            n == pixel_count(self@.height, self@.width),
            n * 2 <= STRIP_MAX_BYTES,
    {
        proof {
            use_type_invariant(self);
        }
        if self.strip_h == 0 || self.width == 0 {
            0
        } else {
            (self.strip_h as usize) * (self.width as usize)
        }
    }

    /// Fill the strip's pixels with `color`.
    fn fill_strip(&mut self, color: u16)
        ensures
            final(self)@ == old(self)@.painted(|x: int, y: int| true, color),
    {
        proof {
            use_type_invariant(&*self);
        }
        let hi = (color / 256) as u8;
        let lo = (color % 256) as u8;
        let n = self.pixel_count();
        let ghost start = self@;
        let ghost all = |x: int, y: int| true;
        let mut i: usize = 0;
        while i < n
            invariant
                0 <= i <= n,
                n == start.used_len() / 2,
                n * 2 <= STRIP_MAX_BYTES,
                self@.top == start.top && self@.height == start.height,
                self@.width == start.width && self@.bg == start.bg,
                self@.bytes.len() == STRIP_MAX_BYTES,
                hi == color_byte(color, 0) && lo == color_byte(color, 1),
                forall|k: int|
                    0 <= k < STRIP_MAX_BYTES ==> #[trigger] self@.bytes[k] == if k < 2 * i {
                        color_byte(color, k % 2)
                    } else {
                        start.bytes[k]
                    },
            decreases n - i,
        {
            proof {
                use_type_invariant(&*self);
            }
            self.buf[i * 2] = hi;
            self.buf[i * 2 + 1] = lo;
            proof {
                assert forall|k: int| 0 <= k < STRIP_MAX_BYTES implies #[trigger] self@.bytes[k]
                    == if k < 2 * (i + 1) {
                    color_byte(color, k % 2)
                } else {
                    start.bytes[k]
                } by {
                    if k == 2 * i {
                        lemma_fundamental_div_mod_converse(k, 2, i as int, 0);
                    } else if k == 2 * i + 1 {
                        lemma_fundamental_div_mod_converse(k, 2, i as int, 1);
                    }
                }
            }
            i = i + 1;
        }
        proof {
            let target = start.painted(all, color);
            assert(self@.bytes =~= target.bytes);
        }
    }

    /// Fill the strip with the background colour.
    fn clear_to_bg(&mut self)
        ensures
            final(self)@ == old(self)@.painted(|x: int, y: int| true, old(self)@.bg),
    {
        let bg = self.bg;
        self.fill_strip(bg);
    }

    /// A buffer for strips `width` pixels wide, holding a first strip of
    /// `height` scanlines at the top of the screen, cleared to `bg`.
    pub fn new(width: i32, height: i32, bg: u16) -> (s: Self)
        requires
            strip_fits(height as int, width as int),
        ensures
            s@.top == 0 && s@.height == height && s@.width == width && s@.bg == bg,
            s@.bytes == Seq::new(
                STRIP_MAX_BYTES as nat,
                |k: int|
                    if k < pixel_count(height as int, width as int) * 2 {
                        color_byte(bg, k % 2)
                    } else {
                        0u8
                    },
            ),
    {
        let mut buf: Vec<u8> = Vec::new();
        let mut i: usize = 0;
        while i < STRIP_MAX_BYTES
            invariant
                0 <= i <= STRIP_MAX_BYTES,
                buf@.len() == i,
                forall|k: int| 0 <= k < i ==> #[trigger] buf@[k] == 0u8,
            decreases STRIP_MAX_BYTES - i,
        {
            buf.push(0u8);
            i = i + 1;
        }
        let mut s = StripBuffer { buf, strip_y: 0, strip_h: height, width, bg };
        s.clear_to_bg();
        proof {
            assert(s@.bytes =~= Seq::new(
                STRIP_MAX_BYTES as nat,
                |k: int|
                    if k < pixel_count(height as int, width as int) * 2 {
                        color_byte(bg, k % 2)
                    } else {
                        0u8
                    },
            ));
        }
        s
    }

    /// Start a new strip of `h` scanlines at screen row `y`, cleared to the
    /// background colour.
    pub fn begin_strip(&mut self, y: i32, h: i32)
        requires
            strip_fits(h as int, old(self)@.width),
        ensures
            final(self)@ == (StripView { top: y as int, height: h as int, ..old(self)@ }).painted(
                |x: int, y: int| true,
                old(self)@.bg,
            ),
    {
        proof {
            use_type_invariant(&*self);
        }
        self.strip_y = y;
        self.strip_h = h;
        self.clear_to_bg();
    }

    /// The bytes of the current strip, ready to send to the panel.
    pub fn as_bytes(&self) -> (r: &[u8])
        ensures
            r@ == self@.bytes.take(self@.used_len()),
    {
        proof {
            use_type_invariant(self);
        }
        let len = self.pixel_count() * 2;
        &self.buf.as_slice()[0..len]
    }

    /// The drawing area reported to renderers: the whole screen, so that
    /// shapes are laid out in screen coordinates.
    pub fn size(&self) -> (r: (u32, u32))
        ensures
            r == (DISPLAY_WIDTH, DISPLAY_HEIGHT),
    {
        (DISPLAY_WIDTH, DISPLAY_HEIGHT)
    }

    /// Draw one pixel: kept when it lies in the current strip, discarded
    /// otherwise.
    fn set_pixel(&mut self, x: i32, y: i32, color: u16)
        requires
            i32::MIN <= y - old(self)@.top <= i32::MAX,
        ensures
            final(self)@ == old(self)@.with_pixel(x as int, y as int, color),
    {
        proof {
            use_type_invariant(&*self);
        }
        let local_y = y - self.strip_y;
        if x < 0 || x >= self.width || local_y < 0 || local_y >= self.strip_h {
            return;
        }
        let ghost w = self.width as int;
        let ghost h = self.strip_h as int;
        proof {
            lemma_pixel_index(w, local_y as int, x as int);
            assert((local_y * w + x) * 2 + 1 < STRIP_MAX_BYTES) by (nonlinear_arith)
                requires
                    0 <= local_y < h,
                    0 <= x < w,
                    h * w * 2 <= STRIP_MAX_BYTES,
            ;
        }
        let idx = ((local_y as usize) * (self.width as usize) + (x as usize)) * 2;
        self.buf[idx] = (color / 256) as u8;
        self.buf[idx + 1] = (color % 256) as u8;
    }

    /// Draw `pixels` (x, y, colour) in order; those outside the current
    /// strip are discarded.
    pub fn draw_iter(&mut self, pixels: &[(i32, i32, u16)])
        requires
            forall|i: int|
                0 <= i < pixels@.len() ==> i32::MIN <= #[trigger] pixels@[i].1 - old(self)@.top
                    <= i32::MAX,
        ensures
            final(self)@ == old(self)@.with_pixels(pixels@),
    {
        let ghost start = self@;
        let mut i: usize = 0;
        while i < pixels.len()
            invariant
                0 <= i <= pixels@.len(),
                self@ == start.with_pixels(pixels@.take(i as int)),
                self@.top == start.top,
                forall|j: int|
                    0 <= j < pixels@.len() ==> i32::MIN <= #[trigger] pixels@[j].1 - start.top
                        <= i32::MAX,
            decreases pixels@.len() - i,
        {
            let (x, y, c) = pixels[i];
            proof {
                assert(pixels@.take(i + 1).drop_last() =~= pixels@.take(i as int));
                assert(start.with_pixels(pixels@.take(i as int)).top == start.top) by {
                    lemma_with_pixels_geometry(start, pixels@.take(i as int));
                }
            }
            self.set_pixel(x, y, c);
            i = i + 1;
        }
        assert(pixels@.take(pixels@.len() as int) =~= pixels@);
    }

    /// Paint the rectangle at `(x, y)` of `w` × `h` pixels with `color`,
    /// clipped to the screen's width and the current strip.
    pub fn fill_solid(&mut self, x: i32, y: i32, w: u32, h: u32, color: u16)
        requires
            i32::MIN <= old(self)@.top + old(self)@.height <= i32::MAX,
            i32::MIN <= x + (w as i32) <= i32::MAX,
            i32::MIN <= y + (h as i32) <= i32::MAX,
        ensures
            ({
                let v = old(self)@;
                let x0 = if x < 0 { 0 } else { x as int };
                let y0 = if y < v.top { v.top } else { y as int };
                let x1 = if x + (w as i32) < v.width { x + (w as i32) } else { v.width };
                let y1 = if y + (h as i32) < v.top + v.height { y + (h as i32) } else { v.top + v.height };
                final(self)@ == v.painted(|a: int, b: int| x0 <= a < x1 && y0 <= b < y1, color)
            }),
    {
        proof {
            use_type_invariant(&*self);
        }
        let ghost start = self@;
        let strip_top = self.strip_y;
        let strip_bot = self.strip_y + self.strip_h;
        let x0 = if x < 0 { 0 } else { x };
        let y0 = if y < strip_top { strip_top } else { y };
        let xe = x + (#[verifier::truncate] (w as i32));
        let ye = y + (#[verifier::truncate] (h as i32));
        let x1 = if xe < self.width { xe } else { self.width };
        let y1 = if ye < strip_bot { ye } else { strip_bot };
        let ghost rect = |a: int, b: int| x0 <= a < x1 && y0 <= b < y1;
        if x0 >= x1 || y0 >= y1 {
            proof {
                assert(self@.bytes =~= start.painted(rect, color).bytes) by {
                    assert forall|k: int| 0 <= k < STRIP_MAX_BYTES implies self@.bytes[k]
                        == start.painted(rect, color).bytes[k] by {
                        if k < start.used_len() {
                            lemma_position_pixel(start, k);
                        }
                    }
                }
            }
            return;
        }
        let hi = (color / 256) as u8;
        let lo = (color % 256) as u8;
        let mut yy = y0;
        while yy < y1
            invariant
                y0 <= yy <= y1,
                0 <= x0 < x1 <= start.width,
                start.top <= y0 < y1 <= start.top + start.height,
                strip_top == start.top,
                x0 == (if x < 0 { 0 } else { x as int }),
                y0 == (if y < start.top { start.top } else { y as int }),
                x1 == (if x + (w as i32) < start.width { x + (w as i32) } else { start.width }),
                y1 == (if y + (h as i32) < start.top + start.height { y + (h as i32) } else { start.top
                    + start.height }),
                hi == color_byte(color, 0) && lo == color_byte(color, 1),
                self@ == start.painted(|a: int, b: int| x0 <= a < x1 && y0 <= b < yy, color),
            decreases y1 - yy,
        {
            proof {
                use_type_invariant(&*self);
            }
            let local_y = yy - self.strip_y;
            proof {
                let wv = start.width;
                let hv = start.height;
                assert(0 <= local_y * wv <= hv * wv) by (nonlinear_arith)
                    requires
                        0 <= local_y < hv,
                        0 < wv,
                ;
            }
            let row_start = (local_y as usize) * (self.width as usize);
            let ghost row_done = self@;
            let mut xx = x0;
            while xx < x1
                invariant
                    x0 <= xx <= x1,
                    0 <= x0 < x1 <= start.width,
                    start.top <= y0 <= yy < y1 <= start.top + start.height,
                    local_y == yy - start.top,
                    row_start == local_y * start.width,
                    self@.top == start.top && self@.height == start.height,
                    self@.width == start.width && self@.bg == start.bg,
                    hi == color_byte(color, 0) && lo == color_byte(color, 1),
                    self@ == start.painted(
                        |a: int, b: int| (x0 <= a < x1 && y0 <= b < yy) || (b == yy && x0 <= a < xx),
                        color,
                    ),
                decreases x1 - xx,
            {
                proof {
                    use_type_invariant(&*self);
                }
                let ghost before = self@;
                let ghost cur = |a: int, b: int|
                    (x0 <= a < x1 && y0 <= b < yy) || (b == yy && x0 <= a < xx);
                let ghost next = |a: int, b: int|
                    (x0 <= a < x1 && y0 <= b < yy) || (b == yy && x0 <= a < xx + 1);
                let ghost wv = start.width;
                let ghost hv = start.height;
                proof {
                    lemma_pixel_index(wv, local_y as int, xx as int);
                    assert((local_y * wv + xx) * 2 + 1 < hv * wv * 2) by (nonlinear_arith)
                        requires
                            0 <= local_y < hv,
                            0 <= xx < wv,
                    ;
                }
                let idx = (row_start + xx as usize) * 2;
                self.buf[idx] = hi;
                self.buf[idx + 1] = lo;
                proof {
                    let target = start.painted(next, color);
                    assert(self@.bytes =~= target.bytes) by {
                        assert forall|k: int| 0 <= k < STRIP_MAX_BYTES implies self@.bytes[k]
                            == target.bytes[k] by {
                            if k < start.used_len() {
                                lemma_position_pixel(start, k);
                            }
                            if k == idx || k == idx + 1 {
                                assert(k < start.used_len());
                            }
                        }
                    }
                }
                xx = xx + 1;
            }
            proof {
                let target = start.painted(|a: int, b: int| x0 <= a < x1 && y0 <= b < yy + 1, color);
                let cur = start.painted(
                    |a: int, b: int| (x0 <= a < x1 && y0 <= b < yy) || (b == yy && x0 <= a < xx),
                    color,
                );
                assert(cur.bytes =~= target.bytes);
            }
            yy = yy + 1;
        }
    }

    /// Paint the strip with `color`.
    pub fn clear(&mut self, color: u16)
        ensures
            final(self)@ == old(self)@.painted(|x: int, y: int| true, color),
    {
        self.fill_strip(color);
    }

    /// Paint `colors` row by row over the area at `(x, y)` that is `w`
    /// pixels wide and `h` high, starting a new row after each `w` colours.
    /// An area entirely outside the strip is skipped without drawing.
    pub fn fill_contiguous(&mut self, x: i32, y: i32, w: u32, h: u32, colors: &[u16])
        requires
            i32::MIN <= old(self)@.top + old(self)@.height <= i32::MAX,
            i32::MIN <= x + (w as i32) <= i32::MAX,
            i32::MIN <= y + (h as i32) <= i32::MAX,
            x + 1 <= i32::MAX,
            y + colors@.len() + 1 <= i32::MAX,
            i32::MIN <= y - old(self)@.top,
            y + colors@.len() + 1 - old(self)@.top <= i32::MAX,
        ensures
            final(self)@ == if run_outside(old(self)@, x as int, y as int, (w as i32) as int, (h as i32) as int) {
                old(self)@
            } else {
                old(self)@.with_run(x as int, y as int, (w as i32) as int, colors@)
            },
    {
        proof {
            use_type_invariant(&*self);
        }
        let strip_top = self.strip_y;
        let strip_bot = self.strip_y + self.strip_h;
        let area_w = #[verifier::truncate] (w as i32);
        let area_h = #[verifier::truncate] (h as i32);
        if y + area_h <= strip_top || y >= strip_bot || x + area_w <= 0 || x >= self.width {
            return;
        }
        let ghost start = self@;
        let ghost wi = area_w as int;
        let mut cx = x;
        let mut cy = y;
        let mut i: usize = 0;
        while i < colors.len()
            invariant
                0 <= i <= colors@.len(),
                area_w == wi,
                i32::MIN <= x + wi <= i32::MAX,
                x + 1 <= i32::MAX,
                y + colors@.len() + 1 <= i32::MAX,
                i32::MIN <= y - start.top,
                y + colors@.len() + 1 - start.top <= i32::MAX,
                self@.top == start.top,
                self@ == start.with_run(x as int, y as int, wi, colors@.take(i as int)),
                i == 0 ==> cx == x && cy == y,
                i > 0 ==> ({
                    let p = run_position(x as int, y as int, wi, i - 1);
                    cx == p.0 + 1 && cy == p.1
                }),
            decreases colors@.len() - i,
        {
            proof {
                lemma_run_step(x as int, y as int, wi, i as int);
                lemma_run_bounds(x as int, y as int, wi, i as int);
                if i > 0 {
                    lemma_run_bounds(x as int, y as int, wi, i - 1);
                }
            }
            if cx >= x + area_w {
                cx = x;
                cy = cy + 1;
            }
            proof {
                assert(colors@.take(i + 1).drop_last() =~= colors@.take(i as int));
                lemma_with_run_geometry(start, x as int, y as int, wi, colors@.take(i as int));
            }
            self.set_pixel(cx, cy, colors[i]);
            cx = cx + 1;
            i = i + 1;
        }
        assert(colors@.take(colors@.len() as int) =~= colors@);
    }
}

/// Drawing pixels moves no strip.
proof fn lemma_with_pixels_geometry(v: StripView, pixels: Seq<(i32, i32, u16)>)
    ensures
        v.with_pixels(pixels).top == v.top,
        v.with_pixels(pixels).height == v.height,
        v.with_pixels(pixels).width == v.width,
    decreases pixels.len(),
{
    if pixels.len() > 0 {
        lemma_with_pixels_geometry(v, pixels.drop_last());
    }
}

/// Drawing a run moves no strip.
proof fn lemma_with_run_geometry(v: StripView, left: int, top: int, w: int, colors: Seq<u16>)
    ensures
        v.with_run(left, top, w, colors).top == v.top,
        v.with_run(left, top, w, colors).height == v.height,
        v.with_run(left, top, w, colors).width == v.width,
    decreases colors.len(),
{
    if colors.len() > 0 {
        lemma_with_run_geometry(v, left, top, w, colors.drop_last());
    }
}

/// The cursor after colour `i - 1`, moved to the next row when it has run
/// past the area's right edge, is where colour `i` lands.
proof fn lemma_run_step(left: int, top: int, w: int, i: int)
    requires
        i >= 0,
    ensures
        i == 0 ==> ({
            let p = run_position(left, top, w, 0);
            let wraps = left >= left + w;
            p == if wraps { (left, top + 1) } else { (left, top) }
        }),
        i > 0 ==> ({
            let q = run_position(left, top, w, i - 1);
            let p = run_position(left, top, w, i);
            let wraps = q.0 + 1 >= left + w;
            p == if wraps { (left, q.1 + 1) } else { (q.0 + 1, q.1) }
        }),
{
    if w >= 1 {
        if i == 0 {
            lemma_fundamental_div_mod_converse(0, w, 0, 0);
        } else {
            lemma_fundamental_div_mod(i - 1, w);
            let q = (i - 1) / w;
            let r = (i - 1) % w;
            assert(0 <= r < w);
            if r + 1 < w {
                lemma_fundamental_div_mod_converse(i, w, q, r + 1);
            } else {
                assert(i == (q + 1) * w + 0) by (nonlinear_arith)
                    requires
                        i - 1 == w * q + r,
                        r + 1 == w,
                ;
                lemma_fundamental_div_mod_converse(i, w, q + 1, 0);
            }
        }
    }
}

/// Where colour `i` of a run lands lies within the bounds the run's
/// preconditions give.
proof fn lemma_run_bounds(left: int, top: int, w: int, i: int)
    requires
        i >= 0,
    ensures
        ({
            let p = run_position(left, top, w, i);
            &&& left <= p.0
            &&& w >= 1 ==> p.0 < left + w
            &&& w < 1 ==> p.0 == left
            &&& top <= p.1 <= top + i + 1
        }),
{
    if w >= 1 {
        lemma_fundamental_div_mod(i, w);
        assert(0 <= i % w < w);
        assert(0 <= i / w <= i) by (nonlinear_arith)
            requires
                i == w * (i / w) + i % w,
                0 <= i % w < w,
                w >= 1,
                i >= 0,
        ;
    }
}

/// A pixel drawn inside the strip reaches the panel: its two bytes lie in
/// the part `as_bytes` sends, at its place in the strip. A pixel drawn
/// outside changes nothing.
pub proof fn lemma_pixel_reaches_panel(v: StripView, x: int, y: int, c: u16)
    requires
        strip_fits(v.height, v.width),
        v.bytes.len() == STRIP_MAX_BYTES,
    ensures
        v.contains(x, y) ==> ({
            let i = v.index_of(x, y);
            let sent = v.with_pixel(x, y, c).bytes.take(v.used_len());
            &&& 0 <= i && i + 1 < v.used_len()
            &&& sent[i] == color_byte(c, 0)
            &&& sent[i + 1] == color_byte(c, 1)
        }),
        !v.contains(x, y) ==> v.with_pixel(x, y, c) == v,
{
    if v.contains(x, y) {
        let ly = y - v.top;
        lemma_pixel_index(v.width, ly, x);
        assert((ly * v.width + x) * 2 + 1 < v.height * v.width * 2) by (nonlinear_arith)
            requires
                0 <= ly < v.height,
                0 <= x < v.width,
        ;
    }
}

} // verus!
