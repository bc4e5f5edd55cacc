//! User-tunable display parameters, the fixed-layout record in which the
//! shaders read them, and the flag that says the filter chain is stale.

use vstd::prelude::*;
use vstd::std_specs::cmp::PartialEqSpecImpl;
use crate::scalar::{encode_words, lemma_word_at_offset, word_le_bytes, words_le_bytes, Scalar};

verus! {

/// Bit pattern of the single-precision number 0.
pub const ZERO_BITS: u32 = 0x0000_0000;

/// Bit pattern of the single-precision number 1.
pub const ONE_BITS: u32 = 0x3f80_0000;

/// Bit pattern of the single-precision number 1000, the side of the window
/// that the defaults assume.
pub const DEFAULT_WINDOW_SIDE_BITS: u32 = 0x447a_0000;

/// Number of weights in the 5x5 kernel.
pub const KERNEL_LEN: usize = 25;

/// Number of 32-bit words in the record.
pub const RECORD_WORDS: usize = 40;

/// Number of bytes in the record: a multiple of 16, as uniform buffers ask.
pub const RECORD_BYTES: usize = 160;

/// Word index of the viewport size. The byte offset of a field is four times
/// its word index.
pub const WORD_WINDOW_SIZE: usize = 0;

/// Word index of the pan offset.
pub const WORD_POS: usize = 2;

/// Word index of the scale factor.
pub const WORD_SIZE: usize = 4;

/// Word index of gamma.
pub const WORD_GAMMA: usize = 5;

/// Word index of the code of the scaling mode.
pub const WORD_SCALING_MODE: usize = 6;

/// Word index of the flag of cross-correlation.
pub const WORD_CROSS_CORRELATION: usize = 7;

/// Word index of the background colour.
pub const WORD_BACKGROUND_COLOUR: usize = 8;

/// Word index of the kernel.
pub const WORD_KERNEL: usize = 12;

/// Word index of the padding that fills the record to a multiple of 16 bytes.
pub const WORD_PAD: usize = 37;

/// How the source image is resampled to the destination resolution.
#[derive(Debug, Clone, Copy, PartialEq, Eq, Structural)]
pub enum ScalingMode {
    NearestNeighbour,
    Bilinear,
}

impl ScalingMode {
    /// The integer code under which the shaders know this mode.
    pub open spec fn code_spec(self) -> u32 {
        match self {
            ScalingMode::NearestNeighbour => 0,
            ScalingMode::Bilinear => 1,
        }
    }

    /// The mode that has the integer code `i`.
    pub fn from_u32(i: u32) -> (mode: ScalingMode)
        requires
            i <= 1,
        ensures
            mode.code_spec() == i,
    {
        if i == 0 {
            ScalingMode::NearestNeighbour
        } else {
            ScalingMode::Bilinear
        }
    }

    /// The integer code of this mode.
    #[verifier::when_used_as_spec(code_spec)]
    pub fn code(self) -> (c: u32)
        ensures
            c == self.code_spec(),
    {
        match self {
            ScalingMode::NearestNeighbour => 0,
            ScalingMode::Bilinear => 1,
        }
    }
}

/// The width and the height of a window as the record holds them: as
/// single-precision numbers, rounded down where a number has more
/// significant bits than such a number holds.
pub open spec fn window_numbers(width: u32, height: u32) -> [Scalar; 2] {
    [Scalar::rounded_down(width as nat), Scalar::rounded_down(height as nat)]
}

/// The number 0.
pub open spec fn zero() -> Scalar {
    Scalar { bits: ZERO_BITS }
}

/// The number 1.
pub open spec fn one() -> Scalar {
    Scalar { bits: ONE_BITS }
}

/// The default kernel, a discrete sharpening matrix, row by row:
/// -4 -1 0 -1 -4 / -1 2 3 2 -1 / 0 3 4 3 0 / -1 2 3 2 -1 / -4 -1 0 -1 -4.
pub open spec fn laplacian_spec() -> [Scalar; 25] {
    let m4 = Scalar { bits: 0xc080_0000 };
    let m1 = Scalar { bits: 0xbf80_0000 };
    let z = Scalar { bits: 0x0000_0000 };
    let p2 = Scalar { bits: 0x4000_0000 };
    let p3 = Scalar { bits: 0x4040_0000 };
    let p4 = Scalar { bits: 0x4080_0000 };
    [
        m4, m1, z, m1, m4,
        m1, p2, p3, p2, m1,
        z, p3, p4, p3, z,
        m1, p2, p3, p2, m1,
        m4, m1, z, m1, m4,
    ]
}

/// The default kernel.
pub fn laplacian() -> (kernel: [Scalar; 25])
    ensures
        kernel == laplacian_spec(),
{
    let m4 = Scalar { bits: 0xc080_0000 };
    let m1 = Scalar { bits: 0xbf80_0000 };
    let z = Scalar { bits: 0x0000_0000 };
    let p2 = Scalar { bits: 0x4000_0000 };
    let p3 = Scalar { bits: 0x4040_0000 };
    let p4 = Scalar { bits: 0x4080_0000 };
    [
        m4, m1, z, m1, m4,
        m1, p2, p3, p2, m1,
        z, p3, p4, p3, z,
        m1, p2, p3, p2, m1,
        m4, m1, z, m1, m4,
    ]
}

/// Whether two sequences hold, place by place, equal numbers.
pub open spec fn same_numbers(a: Seq<Scalar>, b: Seq<Scalar>) -> bool {
    &&& a.len() == b.len()
    &&& forall|i: int| 0 <= i < a.len() ==> (#[trigger] a[i]).same_number(b[i])
}

/// Whether the two slices hold, place by place, equal numbers.
pub fn numbers_eq(a: &[Scalar], b: &[Scalar]) -> (r: bool)
    ensures
        r == same_numbers(a@, b@),
{
    if a.len() != b.len() {
        return false;
    }
    let mut i: usize = 0;
    while i < a.len()
        invariant
            i <= a.len(),
            a.len() == b.len(),
            forall|j: int| 0 <= j < i ==> (#[trigger] a@[j]).same_number(b@[j]),
        decreases a.len() - i,
    {
        if !a[i].ieee_eq(b[i]) {
            assert(!a@[i as int].same_number(b@[i as int]));
            return false;
        }
        i = i + 1;
    }
    true
}

/// The display parameters that the user tunes.
#[derive(Debug, Clone, Copy)]
pub struct ImageDisplay {
    /// Width and height of the viewport.
    pub window_size: [Scalar; 2],
    /// Pan offset.
    pub pos: [Scalar; 2],
    /// Scale factor.
    pub size: Scalar,
    pub gamma: Scalar,
    pub scaling_mode: ScalingMode,
    pub cross_correlation: bool,
    /// Red, green, blue, alpha.
    pub background_colour: [Scalar; 4],
    /// The 5x5 kernel, row by row.
    pub kernel: [Scalar; 25],
}

/// The record in which the shaders read the parameters: forty 32-bit words
/// in the order of the fields, each least significant byte first. The shader
/// side declares the same fields in the same order; the two change together.
#[derive(Debug, Clone, Copy)]
pub struct RawImageDisplay {
    pub window_size: [Scalar; 2],
    pub pos: [Scalar; 2],
    pub size: Scalar,
    pub gamma: Scalar,
    pub scaling_mode: u32,
    pub cross_correlation: u32,
    pub background_colour: [Scalar; 4],
    pub kernel: [Scalar; 25],
    pub _pad: [u32; 3],
}

impl RawImageDisplay {
    /// The word at index `i` of the record.
    pub open spec fn word(self, i: int) -> u32 {
        if i < WORD_POS {
            self.window_size[i - WORD_WINDOW_SIZE].bits
        } else if i < WORD_SIZE {
            self.pos[i - WORD_POS].bits
        } else if i == WORD_SIZE {
            self.size.bits
        } else if i == WORD_GAMMA {
            self.gamma.bits
        } else if i == WORD_SCALING_MODE {
            self.scaling_mode
        } else if i == WORD_CROSS_CORRELATION {
            self.cross_correlation
        } else if i < WORD_KERNEL {
            self.background_colour[i - WORD_BACKGROUND_COLOUR].bits
        } else if i < WORD_PAD {
            self.kernel[i - WORD_KERNEL].bits
        } else {
            self._pad[i - WORD_PAD]
        }
    }

    /// The forty words of the record.
    pub open spec fn words(self) -> Seq<u32> {
        Seq::new(RECORD_WORDS as nat, |i: int| self.word(i))
    }

    /// The bytes of the record.
    pub open spec fn bytes(self) -> Seq<u8> {
        words_le_bytes(self.words())
    }

    /// The bytes of the record, as they are uploaded.
    pub fn to_bytes(&self) -> (bytes: Vec<u8>)
        ensures
            bytes@ == self.bytes(),
            bytes@.len() == RECORD_BYTES,
    {
        let mut words: Vec<u32> = Vec::new();
        words.push(self.window_size[0].bits);
        words.push(self.window_size[1].bits);
        words.push(self.pos[0].bits);
        words.push(self.pos[1].bits);
        words.push(self.size.bits);
        words.push(self.gamma.bits);
        words.push(self.scaling_mode);
        words.push(self.cross_correlation);
        words.push(self.background_colour[0].bits);
        words.push(self.background_colour[1].bits);
        words.push(self.background_colour[2].bits);
        words.push(self.background_colour[3].bits);
        let mut k: usize = 0;
        while k < KERNEL_LEN
            invariant
                k <= KERNEL_LEN,
                words@.len() == WORD_KERNEL + k,
                forall|j: int| 0 <= j < WORD_KERNEL + k ==> words@[j] == self.word(j),
            decreases KERNEL_LEN - k,
        {
            words.push(self.kernel[k].bits);
            k = k + 1;
        }
        words.push(self._pad[0]);
        words.push(self._pad[1]);
        words.push(self._pad[2]);
        assert(words@ =~= self.words());
        encode_words(&words)
    }
}

impl Default for RawImageDisplay {
    /// The record of the default parameters.
    fn default() -> (raw: RawImageDisplay)
        ensures
            raw == ImageDisplay::default_spec().raw(),
    {
        ImageDisplay::default().into_raw()
    }
}

impl ImageDisplay {
    /// The default parameters in a viewport of the given size: no pan, scale
    /// 1, gamma 1, nearest-neighbour scaling, no cross-correlation, an opaque
    /// black background and the default kernel.
    pub open spec fn with_window(window_size: [Scalar; 2]) -> ImageDisplay {
        ImageDisplay {
            window_size,
            pos: [zero(), zero()],
            size: one(),
            gamma: one(),
            scaling_mode: ScalingMode::NearestNeighbour,
            cross_correlation: false,
            background_colour: [zero(), zero(), zero(), one()],
            kernel: laplacian_spec(),
        }
    }

    /// The default parameters: those of a viewport of 1000 by 1000.
    pub open spec fn default_spec() -> ImageDisplay {
        ImageDisplay::with_window(
            [Scalar { bits: DEFAULT_WINDOW_SIDE_BITS }, Scalar { bits: DEFAULT_WINDOW_SIDE_BITS }],
        )
    }

    /// The record that holds these parameters: the scaling mode as its
    /// integer code, cross-correlation as 1 or 0, the padding zero.
    pub open spec fn raw(self) -> RawImageDisplay {
        RawImageDisplay {
            window_size: self.window_size,
            pos: self.pos,
            size: self.size,
            gamma: self.gamma,
            scaling_mode: self.scaling_mode.code_spec(),
            cross_correlation: if self.cross_correlation {
                1u32
            } else {
                0u32
            },
            background_colour: self.background_colour,
            kernel: self.kernel,
            _pad: [0u32, 0u32, 0u32],
        }
    }

    /// Whether every field of the two holds equal values, numbers compared
    /// as numbers.
    pub open spec fn same_parameters(self, other: ImageDisplay) -> bool {
        &&& same_numbers(self.pos@, other.pos@)
        &&& self.same_beyond_pan(other)
    }

    /// Whether every field but the pan offset holds equal values in the two.
    pub open spec fn same_beyond_pan(self, other: ImageDisplay) -> bool {
        &&& same_numbers(self.window_size@, other.window_size@)
        &&& self.size.same_number(other.size)
        &&& self.gamma.same_number(other.gamma)
        &&& self.scaling_mode == other.scaling_mode
        &&& self.cross_correlation == other.cross_correlation
        &&& same_numbers(self.background_colour@, other.background_colour@)
        &&& same_numbers(self.kernel@, other.kernel@)
    }

    /// The default parameters in a viewport of the given width and height.
    pub fn from_window(width: u32, height: u32) -> (display: ImageDisplay)
        ensures
            display == ImageDisplay::with_window(window_numbers(width, height)),
    {
        ImageDisplay::with_window_size([Scalar::from_u32(width), Scalar::from_u32(height)])
    }

    /// The default parameters in a viewport whose size is given as numbers.
    pub fn with_window_size(window_size: [Scalar; 2]) -> (display: ImageDisplay)
        ensures
            display == ImageDisplay::with_window(window_size),
    {
        let zero = Scalar { bits: ZERO_BITS };
        let one = Scalar { bits: ONE_BITS };
        ImageDisplay {
            window_size,
            pos: [zero, zero],
            size: one,
            gamma: one,
            scaling_mode: ScalingMode::NearestNeighbour,
            cross_correlation: false,
            background_colour: [zero, zero, zero, one],
            kernel: laplacian(),
        }
    }

    /// Converts the parameters into the record that is uploaded.
    pub fn into_raw(&self) -> (raw: RawImageDisplay)
        ensures
            raw == self.raw(),
    {
        RawImageDisplay {
            window_size: self.window_size,
            pos: self.pos,
            size: self.size,
            gamma: self.gamma,
            scaling_mode: self.scaling_mode.code(),
            cross_correlation: if self.cross_correlation {
                1
            } else {
                0
            },
            background_colour: self.background_colour,
            kernel: self.kernel,
            _pad: [0, 0, 0],
        }
    }

    /// Puts every parameter, the viewport size too, back to its default.
    pub fn reset_default(&mut self)
        ensures
            *final(self) == ImageDisplay::default_spec(),
    {
        *self = ImageDisplay::default();
    }

    /// Whether a change from `before` to these parameters makes the filter
    /// chain stale: some field other than the pan offset differs. The pan
    /// offset alone only moves the finished image.
    pub fn invalidates(&self, before: &ImageDisplay) -> (r: bool)
        ensures
            r == !self.same_beyond_pan(*before),
    {
        !(numbers_eq(&self.window_size, &before.window_size) && self.size.ieee_eq(before.size)
            && self.gamma.ieee_eq(before.gamma) && self.scaling_mode == before.scaling_mode
            && self.cross_correlation == before.cross_correlation && numbers_eq(
            &self.background_colour,
            &before.background_colour,
        ) && numbers_eq(&self.kernel, &before.kernel))
    }
}

impl Default for ImageDisplay {
    /// The default parameters.
    fn default() -> (display: ImageDisplay)
        ensures
            display == ImageDisplay::default_spec(),
    {
        let side = Scalar { bits: DEFAULT_WINDOW_SIDE_BITS };
        ImageDisplay::with_window_size([side, side])
    }
}

impl PartialEq for ImageDisplay {
    /// Equality over every field, the whole kernel included.
    fn eq(&self, other: &ImageDisplay) -> (r: bool) {
        numbers_eq(&self.pos, &other.pos) && !self.invalidates(other)
    }
}

impl PartialEqSpecImpl for ImageDisplay {
    open spec fn obeys_eq_spec() -> bool {
        true
    }

    open spec fn eq_spec(&self, other: &ImageDisplay) -> bool {
        self.same_parameters(*other)
    }
}

/// The layout of the record: it has 160 bytes, and the four bytes at offset
/// `4 * i` are those of its word `i`, least significant first. So the
/// viewport size stands at offset 0, the pan offset at 8, the scale factor at
/// 16, gamma at 20, the code of the scaling mode at 24, the flag of
/// cross-correlation at 28, the background colour at 32, the kernel at 48 and
/// the padding at 148.
pub proof fn lemma_record_layout(raw: RawImageDisplay)
    ensures
        raw.bytes().len() == RECORD_BYTES,
        forall|i: int|
            0 <= i < RECORD_WORDS ==> #[trigger] raw.bytes().subrange(4 * i, 4 * i + 4)
                == word_le_bytes(raw.word(i)),
        raw.bytes().subrange(0, 4) == raw.window_size[0].le_bytes(),
        raw.bytes().subrange(4, 8) == raw.window_size[1].le_bytes(),
        raw.bytes().subrange(8, 12) == raw.pos[0].le_bytes(),
        raw.bytes().subrange(12, 16) == raw.pos[1].le_bytes(),
        raw.bytes().subrange(16, 20) == raw.size.le_bytes(),
        raw.bytes().subrange(20, 24) == raw.gamma.le_bytes(),
        raw.bytes().subrange(24, 28) == word_le_bytes(raw.scaling_mode),
        raw.bytes().subrange(28, 32) == word_le_bytes(raw.cross_correlation),
        forall|c: int|
            0 <= c < 4 ==> #[trigger] raw.bytes().subrange(32 + 4 * c, 36 + 4 * c)
                == raw.background_colour[c].le_bytes(),
        forall|k: int|
            0 <= k < 25 ==> #[trigger] raw.bytes().subrange(48 + 4 * k, 52 + 4 * k)
                == raw.kernel[k].le_bytes(),
        forall|q: int|
            0 <= q < 3 ==> #[trigger] raw.bytes().subrange(148 + 4 * q, 152 + 4 * q)
                == word_le_bytes(raw._pad[q]),
{
    let words = raw.words();
    assert forall|i: int| 0 <= i < RECORD_WORDS implies #[trigger] raw.bytes().subrange(
        4 * i,
        4 * i + 4,
    ) == word_le_bytes(raw.word(i)) by {
        lemma_word_at_offset(words, i);
    }
    lemma_word_at_offset(words, 0);
    lemma_word_at_offset(words, 1);
    lemma_word_at_offset(words, 2);
    lemma_word_at_offset(words, 3);
    lemma_word_at_offset(words, 4);
    lemma_word_at_offset(words, 5);
    lemma_word_at_offset(words, 6);
    lemma_word_at_offset(words, 7);
    assert forall|c: int| 0 <= c < 4 implies #[trigger] raw.bytes().subrange(
        32 + 4 * c,
        36 + 4 * c,
    ) == raw.background_colour[c].le_bytes() by {
        lemma_word_at_offset(words, 8 + c);
    }
    assert forall|k: int| 0 <= k < 25 implies #[trigger] raw.bytes().subrange(
        48 + 4 * k,
        52 + 4 * k,
    ) == raw.kernel[k].le_bytes() by {
        lemma_word_at_offset(words, 12 + k);
    }
    assert forall|q: int| 0 <= q < 3 implies #[trigger] raw.bytes().subrange(
        148 + 4 * q,
        152 + 4 * q,
    ) == word_le_bytes(raw._pad[q]) by {
        lemma_word_at_offset(words, 37 + q);
    }
}

/// Whether the two buffers hold the same bytes.
pub fn same_bytes(a: &Vec<u8>, b: &Vec<u8>) -> (r: bool)
    ensures
        r == (a@ == b@),
{
    if a.len() != b.len() {
        return false;
    }
    let mut i: usize = 0;
    while i < a.len()
        invariant
            i <= a.len(),
            a.len() == b.len(),
            forall|j: int| 0 <= j < i ==> a@[j] == b@[j],
        decreases a.len() - i,
    {
        if a[i] != b[i] {
            return false;
        }
        i = i + 1;
    }
    assert(a@ =~= b@);
    true
}

/// The parameters together with the flag that says the filter chain is
/// stale and the buffer in which the record waits to be uploaded.
#[derive(Debug)]
pub struct ImageDisplayWithBuffers {
    pub internal: ImageDisplay,
    pub changed: bool,
    /// The bytes of the record as they were last bound.
    pub buffer: Vec<u8>,
}

impl ImageDisplayWithBuffers {
    /// The default parameters in a viewport of the given width and height,
    /// marked as changed, with their record in the buffer.
    pub fn from_window(width: u32, height: u32) -> (display: ImageDisplayWithBuffers)
        ensures
            display.internal == ImageDisplay::with_window(window_numbers(width, height)),
            display.changed,
            display.buffer@ == display.internal.raw().bytes(),
    {
        let internal = ImageDisplay::from_window(width, height);
        let buffer = internal.into_raw().to_bytes();
        ImageDisplayWithBuffers { internal, changed: true, buffer }
    }

    /// Writes the record of the current parameters into the buffer, and says
    /// whether the buffer has to be uploaded: it has to where the record is
    /// not the one that was in it.
    pub fn bind(&mut self) -> (upload: bool)
        ensures
            final(self).buffer@ == old(self).internal.raw().bytes(),
            final(self).buffer@.len() == RECORD_BYTES,
            final(self).internal == old(self).internal,
            final(self).changed == old(self).changed,
            upload == (old(self).buffer@ != old(self).internal.raw().bytes()),
    {
        let record = self.internal.into_raw().to_bytes();
        let upload = !same_bytes(&self.buffer, &record);
        self.buffer = record;
        upload
    }

    /// Marks the filter chain as stale.
    pub fn set_changed(&mut self)
        ensures
            final(self).changed,
            final(self).internal == old(self).internal,
            final(self).buffer == old(self).buffer,
    {
        self.changed = true;
    }

    /// Marks the filter chain as valid.
    pub fn clear_changed(&mut self)
        ensures
            !final(self).changed,
            final(self).internal == old(self).internal,
            final(self).buffer == old(self).buffer,
    {
        self.changed = false;
    }
}

} // verus!
