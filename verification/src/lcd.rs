//! Display: the engine's frame buffer, flattened to the RGBA bytes that the
//! host's display sink draws.

use vstd::prelude::*;

verus! {

/// Width of the emulated screen, in pixels.
pub const PIXELS_WIDTH: usize = 160;

/// Height of the emulated screen, in pixels.
pub const PIXELS_HEIGHT: usize = 144;

/// Number of bytes in one delivered frame: four for each pixel.
pub const FRAME_BYTES: usize = PIXELS_WIDTH * PIXELS_HEIGHT * 4;

/// The alpha byte appended to every pixel: fully opaque.
pub const ALPHA_OPAQUE: u8 = 255;

/// One pixel of the emulated screen: red, green and blue, without alpha.
pub type Pixel = (u8, u8, u8);

/// The engine's picture of the screen: `PIXELS_HEIGHT` rows of `PIXELS_WIDTH`
/// pixels each. The engine owns it and overwrites it in place every frame.
pub type FrameBuffer = [[Pixel; PIXELS_WIDTH]; PIXELS_HEIGHT];

/// The pixel in row `y`, column `x` of a frame buffer.
pub open spec fn pixel_at(framebuffer: FrameBuffer, y: int, x: int) -> Pixel {
    framebuffer@[y]@[x]
}

/// Channel `c` of a pixel as the host receives it: red, green, blue, and
/// then an alpha that is always opaque.
pub open spec fn channel(pixel: Pixel, c: int) -> u8 {
    if c == 0 {
        pixel.0
    } else if c == 1 {
        pixel.1
    } else if c == 2 {
        pixel.2
    } else {
        ALPHA_OPAQUE
    }
}

/// Byte `i` of the delivered frame. Pixels follow each other row by row, four
/// bytes each, so byte `i` is channel `i % 4` of pixel number `i / 4`.
pub open spec fn rgba_byte(framebuffer: FrameBuffer, i: int) -> u8 {
    let p = i / 4;
    channel(pixel_at(framebuffer, p / (PIXELS_WIDTH as int), p % (PIXELS_WIDTH as int)), i % 4)
}

/// The frame as the host's display sink receives it.
pub open spec fn rgba_frame(framebuffer: FrameBuffer) -> Seq<u8> {
    Seq::new(FRAME_BYTES as nat, |i: int| rgba_byte(framebuffer, i))
}

/// The shape that every delivered frame has: four bytes for each pixel of the
/// screen, the fourth of them opaque.
pub open spec fn is_rgba_frame(bytes: Seq<u8>) -> bool {
    &&& bytes.len() == PIXELS_WIDTH * PIXELS_HEIGHT * 4
    &&& forall|i: int| 0 <= i < bytes.len() && i % 4 == 3 ==> bytes[i] == ALPHA_OPAQUE
}

/// Every flattened frame has the shape of a delivered frame.
pub proof fn lemma_rgba_frame_shape(framebuffer: FrameBuffer)
    ensures
        is_rgba_frame(rgba_frame(framebuffer)),
{
}

/// Row-major order: the four bytes of the pixel in row `y`, column `x` start
/// at offset `4 * (y * PIXELS_WIDTH + x)`, and hold its red, green and blue
/// channels followed by the opaque alpha.
pub proof fn lemma_rgba_frame_row_major(framebuffer: FrameBuffer, y: int, x: int, c: int)
    requires
        0 <= y < PIXELS_HEIGHT,
        0 <= x < PIXELS_WIDTH,
        0 <= c < 4,
    ensures
        0 <= 4 * (y * PIXELS_WIDTH + x) + c < rgba_frame(framebuffer).len(),
        rgba_frame(framebuffer)[4 * (y * PIXELS_WIDTH + x) + c] == channel(
            pixel_at(framebuffer, y, x),
            c,
        ),
{
}

/// Width of the emulated screen, in pixels.
pub fn pixels_width() -> (width: usize)
    ensures
        width == PIXELS_WIDTH,
{
    PIXELS_WIDTH
}

/// Height of the emulated screen, in pixels.
pub fn pixels_height() -> (height: usize)
    ensures
        height == PIXELS_HEIGHT,
{
    PIXELS_HEIGHT
}

/// Flattens a frame buffer into the bytes that the host draws: row by row,
/// each pixel as red, green, blue and an opaque alpha.
pub fn frame_bytes(framebuffer: &FrameBuffer) -> (bytes: Vec<u8>)
    ensures
        bytes@ == rgba_frame(*framebuffer),
        is_rgba_frame(bytes@),
{
    let mut bytes: Vec<u8> = Vec::with_capacity(FRAME_BYTES);
    let mut y: usize = 0;
    while y < PIXELS_HEIGHT
        invariant
            y <= PIXELS_HEIGHT,
            bytes@.len() == 4 * (y * PIXELS_WIDTH),
            forall|i: int| 0 <= i < bytes@.len() ==> bytes@[i] == rgba_byte(*framebuffer, i),
        decreases PIXELS_HEIGHT - y,
    {
        let mut x: usize = 0;
        while x < PIXELS_WIDTH
            invariant
                y < PIXELS_HEIGHT,
                x <= PIXELS_WIDTH,
                bytes@.len() == 4 * (y * PIXELS_WIDTH + x),
                forall|i: int| 0 <= i < bytes@.len() ==> bytes@[i] == rgba_byte(*framebuffer, i),
            decreases PIXELS_WIDTH - x,
        {
            let pixel: Pixel = framebuffer[y][x];
            bytes.push(pixel.0);
            bytes.push(pixel.1);
            bytes.push(pixel.2);
            bytes.push(ALPHA_OPAQUE);
            x += 1;
        }
        y += 1;
    }
    bytes
}

/// The host's display: it draws each frame that it is handed.
pub trait DisplaySink {
    /// Draws one frame. The bytes are the host's to keep. Every frame that
    /// this library delivers has four bytes for each pixel of the screen, the
    /// fourth of them opaque.
    fn draw_buffer(&self, framebuffer: Vec<u8>)
        requires
            is_rgba_frame(framebuffer@),
    ;
}

/// The display adapter: it turns each frame buffer that the engine finishes
/// into RGBA bytes and hands them to the host's display.
pub struct WebLcd<D: DisplaySink> {
    lcd: D,
}

impl<D: DisplaySink> WebLcd<D> {
    /// The adapter around `lcd`.
    pub closed spec fn spec_new(lcd: D) -> Self {
        Self { lcd }
    }

    /// The host display that this adapter forwards to.
    pub closed spec fn sink(&self) -> D {
        self.lcd
    }

    /// Wraps the host's display.
    #[verifier::when_used_as_spec(spec_new)]
    pub fn new(lcd: D) -> (adapter: Self)
        ensures
            adapter == Self::new(lcd),
            adapter.sink() == lcd,
    {
        Self { lcd }
    }

    /// Delivers one frame: the display's `draw_buffer` is called with the
    /// flattened frame buffer. Nothing of the frame buffer is kept, and there
    /// is no failure to report.
    pub fn draw_buffer(&mut self, framebuffer: &FrameBuffer)
        ensures
            final(self).sink() == old(self).sink(),
            exists|bytes: Vec<u8>|
                bytes@ == rgba_frame(*framebuffer) && #[trigger] call_ensures(
                    D::draw_buffer,
                    (&old(self).sink(), bytes),
                    (),
                ),
    {
        let bytes = frame_bytes(framebuffer);
        self.lcd.draw_buffer(bytes);
        assert(call_ensures(D::draw_buffer, (&old(self).sink(), bytes), ()));
    }
}

} // verus!
