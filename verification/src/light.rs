//! LED light shows: animations held as a 24-pixel-high RGB image that is
//! sampled column by column, and the selection of the show that plays.
use vstd::prelude::*;

verus! {

/// Number of LEDs on the strip, and so the height of every animation image.
pub const NUM_LEDS: usize = 24;

/// Milliseconds between two animation columns (25 frames per second).
pub const ANIMATION_INTERVAL: u64 = 40;

/// Number of shows a `ShowMaster` selects from.
pub const SHOWS: usize = 5;

/// The colour of one LED.
#[derive(Clone, Copy, Debug, Default, PartialEq, Eq, Hash, Structural)]
pub struct Rgb8 {
    pub r: u8,
    pub g: u8,
    pub b: u8,
}

#[verifier::external_type_specification]
#[verifier::external_body]
pub struct ExImageError(image::ImageError);

/// What decoding `bytes` as an image of the built-in format that their
/// leading signature names, and converting it to 8-bit RGB, gives: width,
/// height and the row-major pixel bytes, or nothing if the bytes do not decode.
pub uninterp spec fn rgb8_decoding(bytes: Seq<u8>) -> Option<(u32, u32, Seq<u8>)>;

/// Calls `image::guess_format` (built-in signatures only) and
/// `image::load_from_memory_with_format` with the format found, then
/// `DynamicImage::into_rgb8`, and hands back the buffer's dimensions and its
/// raw bytes (`ImageBuffer::into_raw`). A built-in format never consults the
/// crate's registered hooks, so the result depends on the bytes alone.
/// Trusted: the result is the decoding named by `rgb8_decoding`, and an image
/// buffer holds at least three bytes for each of its pixels (its constructors
/// check that).
#[verifier::external_body]
fn decode_rgb8(bytes: &[u8]) -> (r: Result<(u32, u32, Vec<u8>), image::ImageError>)
    ensures
        match r {
            Ok((w, h, data)) => rgb8_decoding(bytes@) == Some((w, h, data@)) && data@.len()
                >= w as int * h as int * 3,
            Err(_) => rgb8_decoding(bytes@) is None,
        },
{
    let format = image::guess_format(bytes)?;
    let image = image::load_from_memory_with_format(bytes, format)?.into_rgb8();
    let (w, h) = image.dimensions();
    Ok((w, h, image.into_raw()))
}

/// Why an animation image was refused.
#[derive(Debug)]
pub enum ShowError {
    /// Failed to decode image from memory.
    Decode(image::ImageError),
    /// Invalid animation image size: it must be exactly `NUM_LEDS` pixels
    /// high and at least one pixel wide.
    InvalidSize { width: u32, height: u32 },
}

/// The colour of pixel `(x, y)` in a row-major RGB buffer `width` pixels wide.
pub open spec fn pixel_in(width: int, data: Seq<u8>, x: int, y: int) -> Rgb8 {
    let i = (y * width + x) * 3;
    Rgb8 { r: data[i], g: data[i + 1], b: data[i + 2] }
}

/// Whether `bytes` decode to an image that can be a show: exactly
/// `NUM_LEDS` pixels high and at least one pixel wide.
pub open spec fn accepted(bytes: Seq<u8>) -> bool {
    match rgb8_decoding(bytes) {
        Some((w, h, _)) => h == NUM_LEDS && w >= 1,
        None => false,
    }
}

/// Whether `error` is the refusal of `bytes`: a decoding failure, or the
/// size of an image of the wrong size.
pub open spec fn refused_with(bytes: Seq<u8>, error: ShowError) -> bool {
    match rgb8_decoding(bytes) {
        None => error is Decode,
        Some((w, h, _)) => !(h == NUM_LEDS && w >= 1) && error == (ShowError::InvalidSize { width: w, height: h }),
    }
}

/// Whether `show` is the animation that `bytes` decode to.
pub open spec fn decodes_to(show: LightShow, bytes: Seq<u8>) -> bool {
    match rgb8_decoding(bytes) {
        Some((w, _, data)) => show.width() == w && show.data() == data,
        None => false,
    }
}

/// An animation: an RGB image `NUM_LEDS` pixels high, any number wide. Column
/// `x` is what the LEDs show at step `x`; row 0 drives the bottom rear LED,
/// row 11 the top rear, row 12 the top front and the last row the bottom front.
#[derive(Debug, PartialEq, Eq, Hash)]
pub struct LightShow {
    width: u32,
    data: Vec<u8>,
}

impl LightShow {
    #[verifier::type_invariant]
    spec fn holds_all_pixels(self) -> bool {
        &&& self.width >= 1
        &&& self.data@.len() >= self.width as int * NUM_LEDS as int * 3
    }

    /// Number of animation steps (the image width).
    pub closed spec fn width(&self) -> nat {
        self.width as nat
    }

    /// The image's pixel bytes, row by row.
    pub closed spec fn data(&self) -> Seq<u8> {
        self.data@
    }

    /// The colour of LED `row` at step `step`.
    pub open spec fn pixel(&self, step: int, row: int) -> Rgb8 {
        pixel_in(self.width() as int, self.data(), step, row)
    }

    /// A one-step show of `NUM_LEDS` pixels, all in `color`.
    pub open spec fn is_constant(&self, color: Rgb8) -> bool {
        &&& self.width() == 1
        &&& self.data().len() == NUM_LEDS * 3
        &&& forall|row: int| 0 <= row < NUM_LEDS ==> #[trigger] self.pixel(0, row) == color
    }

    /// All LEDs off.
    pub fn off() -> (s: LightShow)
        ensures
            s.width() == 1,
            s.data().len() == NUM_LEDS * 3,
            forall|row: int| 0 <= row < NUM_LEDS ==> #[trigger] s.pixel(0, row) == (Rgb8 { r: 0, g: 0, b: 0 }),
    {
        Self::constant(Rgb8 { r: 0, g: 0, b: 0 })
    }

    /// All LEDs full white.
    pub fn white() -> (s: LightShow)
        ensures
            s.width() == 1,
            s.data().len() == NUM_LEDS * 3,
            forall|row: int| 0 <= row < NUM_LEDS ==> #[trigger] s.pixel(0, row) == (Rgb8 { r: 255, g: 255, b: 255 }),
    {
        Self::constant(Rgb8 { r: 255, g: 255, b: 255 })
    }

    /// A one-step show with every LED in `color`.
    pub fn constant(color: Rgb8) -> (s: LightShow)
        ensures
            s.width() == 1,
            s.data().len() == NUM_LEDS * 3,
            forall|row: int| 0 <= row < NUM_LEDS ==> #[trigger] s.pixel(0, row) == color,
    {
        let mut data: Vec<u8> = Vec::new();
        for row in 0..NUM_LEDS
            invariant
                data@.len() == row * 3,
                forall|y: int| 0 <= y < row ==> #[trigger] pixel_in(1, data@, 0, y) == color,
        {
            let ghost before = data@;
            data.push(color.r);
            data.push(color.g);
            data.push(color.b);
            assert(data@ == before + seq![color.r, color.g, color.b]);
            assert forall|y: int| 0 <= y < row + 1 implies #[trigger] pixel_in(1, data@, 0, y) == color by {
                if y < row {
                    assert(pixel_in(1, before, 0, y) == color);
                    assert(data@[y * 3] == before[y * 3]);
                    assert(data@[y * 3 + 1] == before[y * 3 + 1]);
                    assert(data@[y * 3 + 2] == before[y * 3 + 2]);
                }
            }
        }
        LightShow { width: 1, data }
    }

    /// Read a show from image data. The image must be exactly `NUM_LEDS`
    /// pixels high and at least one pixel wide; it is shown one column per
    /// `ANIMATION_INTERVAL` milliseconds.
    pub fn from_image_bytes(buffer: &[u8]) -> (r: Result<LightShow, ShowError>)
        ensures
            r matches Ok(s) ==> decodes_to(s, buffer@),
            r matches Err(e) ==> refused_with(buffer@, e),
            r is Ok <==> accepted(buffer@),
    {
        match decode_rgb8(buffer) {
            Err(e) => Err(ShowError::Decode(e)),
            Ok((w, h, data)) => Self::from_decoded(w, h, data),
        }
    }

    /// A show from a decoded RGB image `width` by `height` pixels whose
    /// row-major pixel bytes are `data`: refused unless it is exactly
    /// `NUM_LEDS` pixels high and at least one pixel wide.
    pub fn from_decoded(width: u32, height: u32, data: Vec<u8>) -> (r: Result<LightShow, ShowError>)
        requires
            data@.len() >= width as int * height as int * 3,
        ensures
            r is Ok <==> height == NUM_LEDS && width >= 1,
            r matches Ok(s) ==> s.width() == width && s.data() == data@,
            r matches Err(e) ==> e == (ShowError::InvalidSize { width, height }),
    {
        if height as usize != NUM_LEDS || width == 0 {
            Err(ShowError::InvalidSize { width, height })
        } else {
            Ok(LightShow { width, data })
        }
    }

    /// Writes the colours of step `step` into `buffer`, one per LED.
    pub fn sample(&self, step: u32, buffer: &mut [Rgb8; NUM_LEDS])
        requires
            step < self.width(),
        ensures
            forall|row: int| 0 <= row < NUM_LEDS ==> #[trigger] final(buffer)@[row] == self.pixel(step as int, row),
    {
        proof {
            use_type_invariant(self);
        }
        let width: usize = self.width as usize;
        let len: usize = self.data.len();
        for row in 0..NUM_LEDS
            invariant
                width == self.width(),
                len == self.data@.len(),
                step < width,
                self.data@.len() >= width * NUM_LEDS * 3,
                buffer@.len() == NUM_LEDS,
                forall|y: int| 0 <= y < row ==> #[trigger] buffer@[y] == self.pixel(step as int, y),
        {
            assert(row * width <= 23 * width && (row * width + step) * 3 + 2 < width * NUM_LEDS * 3)
                by (nonlinear_arith)
                requires
                    row < NUM_LEDS,
                    step < width,
            ;
            let i: usize = (row * width + step as usize) * 3;
            buffer[row] = Rgb8 { r: self.data[i], g: self.data[i + 1], b: self.data[i + 2] };
        }
    }

    /// Number of animation steps.
    pub fn steps(&self) -> (n: u32)
        ensures
            n == self.width(),
    {
        self.width
    }
}

impl Clone for LightShow {
    fn clone(&self) -> (s: LightShow)
        ensures
            s.width() == self.width(),
            s.data() == self.data(),
    {
        proof {
            use_type_invariant(self);
        }
        LightShow { width: self.width, data: self.data.clone() }
    }
}

impl Default for LightShow {
    fn default() -> (s: LightShow)
        ensures
            s.width() == 1,
            s.data().len() == NUM_LEDS * 3,
            forall|row: int| 0 <= row < NUM_LEDS ==> #[trigger] s.pixel(0, row) == (Rgb8 { r: 0, g: 0, b: 0 }),
    {
        Self::off()
    }
}

/// The show that `next` moves to: one further, but never past the last,
/// and only while playing.
pub open spec fn index_after_next(current: nat, playing: bool) -> nat {
    if playing && current + 1 < SHOWS {
        current + 1
    } else {
        current
    }
}

/// The show that `previous` moves to: one back, but never before the first,
/// and only while playing.
pub open spec fn index_after_previous(current: nat, playing: bool) -> nat {
    if playing && current > 0 {
        (current - 1) as nat
    } else {
        current
    }
}

/// Selects which of `SHOWS` light shows plays, or that the lights are off.
#[derive(Debug, PartialEq, Eq, Hash)]
pub struct ShowMaster {
    shows: [LightShow; SHOWS],
    off: LightShow,
    current: usize,
    playing: bool,
}

impl ShowMaster {
    #[verifier::type_invariant]
    spec fn selects_a_show(self) -> bool {
        &&& self.current < SHOWS
        &&& self.shows@[0].is_constant(Rgb8 { r: 255, g: 255, b: 255 })
        &&& self.off.is_constant(Rgb8 { r: 0, g: 0, b: 0 })
    }

    /// The shows to choose from, in order.
    pub closed spec fn shows(&self) -> Seq<LightShow> {
        self.shows@
    }

    /// The show that plays when the lights are off.
    pub closed spec fn off_show(&self) -> LightShow {
        self.off
    }

    /// The index of the selected show.
    pub closed spec fn current(&self) -> nat {
        self.current as nat
    }

    /// Whether a show plays.
    pub closed spec fn playing(&self) -> bool {
        self.playing
    }

    /// A master over the all-white show followed by the animations decoded
    /// from `rainbow`, `bits`, `sparks` and `fire`, on the first show and
    /// switched off; refused with the error of the first animation (in that
    /// order) that `LightShow::from_image_bytes` refuses.
    pub fn new(rainbow: &[u8], bits: &[u8], sparks: &[u8], fire: &[u8]) -> (r: Result<ShowMaster, ShowError>)
        ensures
            r is Ok <==> accepted(rainbow@) && accepted(bits@) && accepted(sparks@) && accepted(fire@),
            r matches Err(e) ==> if !accepted(rainbow@) {
                refused_with(rainbow@, e)
            } else if !accepted(bits@) {
                refused_with(bits@, e)
            } else if !accepted(sparks@) {
                refused_with(sparks@, e)
            } else {
                refused_with(fire@, e)
            },
            r matches Ok(m) ==> {
                &&& m.shows().len() == SHOWS
                &&& m.shows()[0].is_constant(Rgb8 { r: 255, g: 255, b: 255 })
                &&& decodes_to(m.shows()[1], rainbow@)
                &&& decodes_to(m.shows()[2], bits@)
                &&& decodes_to(m.shows()[3], sparks@)
                &&& decodes_to(m.shows()[4], fire@)
                &&& m.off_show().is_constant(Rgb8 { r: 0, g: 0, b: 0 })
                &&& m.current() == 0
                &&& !m.playing()
            },
    {
        let rainbow = match LightShow::from_image_bytes(rainbow) {
            Ok(s) => s,
            Err(e) => return Err(e),
        };
        let bits = match LightShow::from_image_bytes(bits) {
            Ok(s) => s,
            Err(e) => return Err(e),
        };
        let sparks = match LightShow::from_image_bytes(sparks) {
            Ok(s) => s,
            Err(e) => return Err(e),
        };
        let fire = match LightShow::from_image_bytes(fire) {
            Ok(s) => s,
            Err(e) => return Err(e),
        };
        let shows = [LightShow::white(), rainbow, bits, sparks, fire];
        Ok(ShowMaster { shows, off: LightShow::off(), current: 0, playing: false })
    }

    /// The show to play now: the selected one while playing, the all-off show otherwise.
    pub fn show(&self) -> (s: &LightShow)
        ensures
            *s == if self.playing() { self.shows()[self.current() as int] } else { self.off_show() },
            self.off_show().is_constant(Rgb8 { r: 0, g: 0, b: 0 }),
            self.shows()[0].is_constant(Rgb8 { r: 255, g: 255, b: 255 }),
            !self.playing() ==> s.is_constant(Rgb8 { r: 0, g: 0, b: 0 }),
    {
        proof {
            use_type_invariant(self);
        }
        if self.playing {
            &self.shows[self.current]
        } else {
            &self.off
        }
    }

    /// Starts playing the selected show.
    pub fn on(&mut self)
        ensures
            final(self).playing(),
            final(self).current() == old(self).current(),
            final(self).shows() == old(self).shows(),
            final(self).off_show() == old(self).off_show(),
            final(self).current() < SHOWS,
    {
        proof {
            use_type_invariant(&*self);
        }
        self.playing = true
    }

    /// Switches the lights off; the selection is kept.
    pub fn off(&mut self)
        ensures
            !final(self).playing(),
            final(self).current() == old(self).current(),
            final(self).shows() == old(self).shows(),
            final(self).off_show() == old(self).off_show(),
            final(self).current() < SHOWS,
    {
        proof {
            use_type_invariant(&*self);
        }
        self.playing = false
    }

    /// Selects the next show while playing, staying on the last one.
    pub fn next(&mut self)
        ensures
            final(self).current() == index_after_next(old(self).current(), old(self).playing()),
            final(self).playing() == old(self).playing(),
            final(self).shows() == old(self).shows(),
            final(self).off_show() == old(self).off_show(),
            final(self).current() < SHOWS,
    {
        proof {
            use_type_invariant(&*self);
        }
        if self.playing {
            let stepped: usize = self.current + 1;
            self.current = if stepped < SHOWS - 1 { stepped } else { SHOWS - 1 };
        }
    }

    /// Selects the previous show while playing, staying on the first one.
    pub fn previous(&mut self)
        ensures
            final(self).current() == index_after_previous(old(self).current(), old(self).playing()),
            final(self).playing() == old(self).playing(),
            final(self).shows() == old(self).shows(),
            final(self).off_show() == old(self).off_show(),
            final(self).current() < SHOWS,
    {
        proof {
            use_type_invariant(&*self);
        }
        if self.playing {
            if self.current > 0 {
                self.current -= 1
            }
        }
    }
}

/// While playing, `previous` undoes `next` except on the last show, and
/// `next` undoes `previous` except on the first; both stay among the shows,
/// and neither moves while the lights are off.
pub proof fn lemma_next_previous_undo(current: nat, playing: bool)
    requires
        current < SHOWS,
    ensures
        playing && current + 1 < SHOWS ==> index_after_previous(index_after_next(current, playing), playing) == current,
        playing && current > 0 ==> index_after_next(index_after_previous(current, playing), playing) == current,
        index_after_next(current, playing) < SHOWS,
        index_after_previous(current, playing) < SHOWS,
        !playing ==> index_after_next(current, playing) == current && index_after_previous(current, playing) == current,
{
}

/// From any show, `SHOWS - 1` calls of `next` while playing reach the last show,
/// and as many calls of `previous` reach the first.
pub proof fn lemma_saturation(current: nat)
    requires
        current < SHOWS,
    ensures
        index_after_next(index_after_next(index_after_next(index_after_next(current, true), true), true), true)
            == SHOWS - 1,
        index_after_previous(index_after_previous(index_after_previous(index_after_previous(current, true), true), true), true)
            == 0,
{
}

/// While playing, `next` moves one show on and `previous` one show back,
/// except that `next` stays on the last show (index 4) and `previous` on the
/// first (index 0); while switched off neither moves.
pub proof fn lemma_selection_moves(current: nat, playing: bool)
    requires
        current < SHOWS,
    ensures
        playing && current < 4 ==> index_after_next(current, playing) == current + 1,
        playing && current == 4 ==> index_after_next(current, playing) == 4,
        playing && current > 0 ==> index_after_previous(current, playing) == current - 1,
        playing && current == 0 ==> index_after_previous(current, playing) == 0,
        !playing ==> index_after_next(current, playing) == current,
        !playing ==> index_after_previous(current, playing) == current,
{
}

/// The pixel at step `x` of LED `y` is the three bytes starting at
/// `3 * (y * width + x)`: red, then green, then blue, rows one after another.
pub proof fn lemma_pixel_layout(width: int, data: Seq<u8>, x: int, y: int)
    ensures
        pixel_in(width, data, x, y).r == data[3 * y * width + 3 * x],
        pixel_in(width, data, x, y).g == data[3 * y * width + 3 * x + 1],
        pixel_in(width, data, x, y).b == data[3 * y * width + 3 * x + 2],
{
    assert((y * width + x) * 3 == 3 * y * width + 3 * x) by (nonlinear_arith);
}

} // verus!
