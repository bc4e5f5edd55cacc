//! The state of the viewer and the decisions of each frame: at what
//! resolution the image is processed, whether the filter chain has to run
//! again, and which passes are issued in which order.

use vstd::prelude::*;
use vstd::arithmetic::div_mod::{lemma_div_by_multiple, lemma_div_is_ordered};
use vstd::arithmetic::power2::{lemma_pow2_pos, pow2};
use crate::frame::{chain, output_pass, planned, Frame, PassModel, RenderPass, Target};
use crate::image_display::{numbers_eq, same_numbers, window_numbers, ImageDisplay, ImageDisplayWithBuffers, RECORD_BYTES};
use crate::input::{CursorEvent, InputAction, InputContext};
use crate::pipelines::{Binding, Pass, Pipelines, Resource};
use crate::scalar::{
    encode_words,
    lemma_floor_product_monotone,
    lemma_greatest_within_exists,
    lemma_product_at_most_follows_bits,
    lemma_units_of_one,
    unit_exponent,
    words_le_bytes,
    Scalar,
};
use crate::stages::{Allocation, RenderStages, StageFormat, StageRole};
use crate::texture::{LoadError, Texture};

verus! {

/// Side of the kernel.
pub const KERNEL_SIDE: u32 = 5;

/// Bytes of one row of the kernel image: five texels of four 32-bit
/// channels.
pub const KERNEL_BYTES_PER_ROW: u32 = 80;

/// Number of 32-bit words in the kernel image.
pub const KERNEL_WORDS: usize = 100;

/// Size of the presentation surface.
#[derive(Debug, Clone, Copy, PartialEq, Eq, Structural)]
pub struct SurfaceSize {
    pub width: u32,
    pub height: u32,
}

/// Why no image of the presentation surface could be had for a frame.
#[derive(Debug, Clone, Copy, PartialEq, Eq, Structural)]
pub enum SurfaceError {
    Lost,
    Outdated,
    Timeout,
    OutOfMemory,
}

/// What to do about a frame that could not be presented.
#[derive(Debug, Clone, Copy, PartialEq, Eq, Structural)]
pub enum Recovery {
    /// Configure the surface again and skip this frame.
    Reconfigure,
    /// Give up: the condition will not pass.
    Abort,
}

impl SurfaceError {
    /// What the caller does about the error: out of memory is fatal, every
    /// other condition passes once the surface is configured again.
    pub open spec fn recovery_spec(self) -> Recovery {
        match self {
            SurfaceError::OutOfMemory => Recovery::Abort,
            _ => Recovery::Reconfigure,
        }
    }

    /// What the caller does about the error.
    #[verifier::when_used_as_spec(recovery_spec)]
    pub fn recovery(self) -> (r: Recovery)
        ensures
            r == self.recovery_spec(),
    {
        match self {
            SurfaceError::OutOfMemory => Recovery::Abort,
            _ => Recovery::Reconfigure,
        }
    }
}

/// What the settings panel did in one frame.
#[derive(Debug, Clone, Copy)]
pub struct UiFrame {
    /// The parameters as the controls left them.
    pub edited: ImageDisplay,
    /// The button that applies the kernel was clicked.
    pub update_kernel: bool,
    /// The button that restores the defaults was clicked.
    pub reset_default: bool,
    /// The pointer is over the panel.
    pub pointer_over_ui: bool,
}

impl UiFrame {
    /// The parameters after the frame of the panel: the defaults where they
    /// were asked for, else what the controls left.
    pub open spec fn settled(self) -> ImageDisplay {
        if self.reset_default {
            ImageDisplay::default_spec()
        } else {
            self.edited
        }
    }

    /// The parameters that the viewer keeps after the frame of the panel:
    /// the settled ones, with the scale factor brought into the range for the
    /// source image on the device.
    pub open spec fn admitted(self, source: (u32, u32), limit: u32) -> ImageDisplay {
        ImageDisplay {
            size: clamped_scale(self.settled().size, source, limit),
            ..self.settled()
        }
    }

    /// Whether the filter chain is stale after the frame of the panel, where
    /// `stale` says whether it was before and `before` holds the parameters
    /// from before: it stays stale, and it becomes stale where the kernel was
    /// applied or a parameter that the viewer keeps, other than the pan
    /// offset, has changed.
    pub open spec fn stale_after(
        self,
        stale: bool,
        before: ImageDisplay,
        source: (u32, u32),
        limit: u32,
    ) -> bool {
        stale || self.update_kernel || !self.admitted(source, limit).same_beyond_pan(before)
    }

    /// Whether the kernel has to be encoded again: it was applied, the
    /// defaults were restored, or a weight has changed.
    pub open spec fn encodes_kernel(self, before: ImageDisplay) -> bool {
        self.update_kernel || self.reset_default || !same_numbers(self.settled().kernel@, before.kernel@)
    }
}

/// One dimension of the destination: `floor(n * scale)`, at most `limit` and
/// at least 1.
pub open spec fn extent(n: u32, scale: Scalar, limit: u32) -> u32 {
    let product = scale.floor_product(n as nat);
    let capped = if product > limit {
        limit as nat
    } else {
        product
    };
    if capped < 1 {
        1u32
    } else {
        capped as u32
    }
}

/// The words of the kernel image: one texel of four channels for each
/// weight, the weight in the first channel and zero in the others.
pub open spec fn kernel_words(data: [Scalar; 25]) -> Seq<u32> {
    Seq::new(
        KERNEL_WORDS as nat,
        |i: int|
            if i % 4 == 0 {
                data[i / 4].bits
            } else {
                0u32
            },
    )
}

/// Bit pattern of the single-precision number 0.001, the least scale factor.
pub const MIN_SCALE_BITS: u32 = 0x3a83_126f;

/// The greater of the two sides of the source image.
pub open spec fn greater_side(source: (u32, u32)) -> u32 {
    if source.0 >= source.1 {
        source.0
    } else {
        source.1
    }
}

/// The scale factor is one that the viewer keeps: at least the least scale
/// factor, and at most the greatest one, which is the device's greatest
/// dimension divided by the greater side of the source image.
pub open spec fn scale_in_range(scale: Scalar, source: (u32, u32), limit: u32) -> bool {
    &&& scale.bits >= MIN_SCALE_BITS
    &&& scale.product_at_most(greater_side(source) as nat, limit as nat)
}

/// The greatest scale factor for the source image on the device: the
/// device's greatest dimension divided by the greater side of the source,
/// rounded down to a single-precision number.
pub open spec fn greatest_scale(source: (u32, u32), limit: u32) -> Scalar {
    Scalar::greatest_within(greater_side(source) as nat, limit as nat)
}

/// The scale factor brought into the range that the viewer keeps: one in the
/// range stays; one that is too small, negative or no number becomes the
/// least scale factor; one that is too great becomes the greatest. Where the
/// greatest scale factor lies below the least, it is taken.
pub open spec fn clamped_scale(scale: Scalar, source: (u32, u32), limit: u32) -> Scalar {
    let greatest = greatest_scale(source, limit);
    if scale_in_range(scale, source, limit) {
        scale
    } else if (scale.is_nan() || scale.is_negative() || scale.bits < MIN_SCALE_BITS)
        && MIN_SCALE_BITS <= greatest.bits {
        Scalar { bits: MIN_SCALE_BITS }
    } else {
        greatest
    }
}

/// A scale factor that was brought into the range is never above the
/// greatest, and it is in the range wherever the least scale factor is not
/// above the greatest. One that was in the range stays as it was.
pub proof fn lemma_clamped_scale_in_range(scale: Scalar, source: (u32, u32), limit: u32)
    ensures
        clamped_scale(scale, source, limit).product_at_most(
            greater_side(source) as nat,
            limit as nat,
        ),
        MIN_SCALE_BITS <= greatest_scale(source, limit).bits ==> scale_in_range(
            clamped_scale(scale, source, limit),
            source,
            limit,
        ),
        scale_in_range(scale, source, limit) ==> clamped_scale(scale, source, limit) == scale,
{
    let greatest = greatest_scale(source, limit);
    lemma_greatest_within_exists(greater_side(source) as nat, limit as nat);
    if MIN_SCALE_BITS <= greatest.bits {
        lemma_product_at_most_follows_bits(
            Scalar { bits: MIN_SCALE_BITS },
            greatest,
            greater_side(source) as nat,
            limit as nat,
        );
    }
}

/// Where the source image fits the device, the scale factor 1 is in the
/// range, so that every scale factor that was brought into the range is in
/// it.
pub proof fn lemma_fitting_source_has_range(scale: Scalar, source: (u32, u32), limit: u32)
    requires
        source.0 <= limit,
        source.1 <= limit,
    ensures
        scale_in_range(Scalar { bits: 0x3f80_0000 }, source, limit),
        MIN_SCALE_BITS <= greatest_scale(source, limit).bits,
        scale_in_range(clamped_scale(scale, source, limit), source, limit),
{
    lemma_units_of_one();
    let unit = pow2(unit_exponent()) as int;
    assert(greater_side(source) * unit <= limit * unit) by (nonlinear_arith)
        requires
            greater_side(source) <= limit,
            unit >= 0,
    ;
    lemma_greatest_within_exists(greater_side(source) as nat, limit as nat);
    lemma_clamped_scale_in_range(scale, source, limit);
}

/// The greatest scale factor for the source image on the device.
pub fn greatest_scale_of(source: (u32, u32), limit: u32) -> (r: Scalar)
    ensures
        r == greatest_scale(source, limit),
        r.is_greatest_within(greater_side(source) as nat, limit as nat),
{
    let side: u32 = if source.0 >= source.1 {
        source.0
    } else {
        source.1
    };
    Scalar::greatest_within_of(side, limit)
}

/// Brings a scale factor into the range that the viewer keeps.
pub fn clamp_scale(scale: Scalar, source: (u32, u32), limit: u32) -> (r: Scalar)
    ensures
        r == clamped_scale(scale, source, limit),
        r.product_at_most(greater_side(source) as nat, limit as nat),
        scale_in_range(scale, source, limit) ==> r == scale,
        MIN_SCALE_BITS <= greatest_scale(source, limit).bits ==> scale_in_range(r, source, limit),
{
    let side: u32 = if source.0 >= source.1 {
        source.0
    } else {
        source.1
    };
    let greatest = greatest_scale_of(source, limit);
    proof {
        lemma_clamped_scale_in_range(scale, source, limit);
    }
    if scale.bits >= MIN_SCALE_BITS && scale.at_most(side, limit) {
        scale
    } else if (scale.nan() || scale.bits >= 0x8000_0000 || scale.bits < MIN_SCALE_BITS)
        && MIN_SCALE_BITS <= greatest.bits {
        Scalar { bits: MIN_SCALE_BITS }
    } else {
        greatest
    }
}

/// The destination does not shrink when the scale factor grows: of two
/// finite scale factors that are not negative, the greater gives the greater
/// or the same extent.
pub proof fn lemma_extent_monotone(n: u32, smaller: Scalar, greater: Scalar, limit: u32)
    requires
        !smaller.is_negative(),
        !greater.is_negative(),
        smaller.exponent_field() < 0xff,
        greater.exponent_field() < 0xff,
        smaller.units() <= greater.units(),
    ensures
        extent(n, smaller, limit) <= extent(n, greater, limit),
{
    lemma_floor_product_monotone(smaller, greater, n as nat);
}

/// While the scale factor is at most the greatest one, which is the device's
/// greatest dimension divided by the greater dimension of the source, each
/// dimension of the destination is the source's times the scale factor,
/// rounded down, or 1 where that is 0.
pub proof fn lemma_extent_within_max_scale(width: u32, height: u32, scale: Scalar, limit: u32)
    requires
        !scale.is_negative(),
        scale.exponent_field() < 0xff,
        width * scale.units() <= limit * pow2(unit_exponent()),
        height * scale.units() <= limit * pow2(unit_exponent()),
    ensures
        extent(width, scale, limit) == if scale.exact_floor_product(width as nat) < 1 {
            1
        } else {
            scale.exact_floor_product(width as nat)
        },
        extent(height, scale, limit) == if scale.exact_floor_product(height as nat) < 1 {
            1
        } else {
            scale.exact_floor_product(height as nat)
        },
{
    let unit = pow2(unit_exponent()) as int;
    lemma_pow2_pos(unit_exponent());
    lemma_div_is_ordered((width * scale.units()) as int, limit * unit, unit);
    lemma_div_is_ordered((height * scale.units()) as int, limit * unit, unit);
    lemma_div_by_multiple(limit as int, unit);
}

/// With a scale factor in the range the destination is not capped: each of
/// its dimensions is the source's times the scale factor, rounded down, or 1
/// where that is 0, and none exceeds the device's greatest dimension.
pub proof fn lemma_scale_in_range_fits_device(scale: Scalar, source: (u32, u32), limit: u32)
    requires
        scale_in_range(scale, source, limit),
    ensures
        extent(source.0, scale, limit) == if scale.exact_floor_product(source.0 as nat) < 1 {
            1
        } else {
            scale.exact_floor_product(source.0 as nat)
        },
        extent(source.1, scale, limit) == if scale.exact_floor_product(source.1 as nat) < 1 {
            1
        } else {
            scale.exact_floor_product(source.1 as nat)
        },
        limit >= 1 ==> extent(source.0, scale, limit) <= limit && extent(source.1, scale, limit)
            <= limit,
{
    let side = greater_side(source);
    assert(source.0 * scale.units() <= side * scale.units() && source.1 * scale.units() <= side
        * scale.units()) by (nonlinear_arith)
        requires
            source.0 <= side,
            source.1 <= side,
            scale.units() >= 0,
    ;
    lemma_extent_within_max_scale(source.0, source.1, scale, limit);
}

/// None of the numbers that decide whether the filter chain is stale is a
/// NaN, which differs even from itself.
pub open spec fn comparable(parameters: ImageDisplay) -> bool {
    &&& forall|i: int| 0 <= i < 2 ==> !(#[trigger] parameters.window_size[i]).is_nan()
    &&& !parameters.size.is_nan()
    &&& !parameters.gamma.is_nan()
    &&& forall|i: int| 0 <= i < 4 ==> !(#[trigger] parameters.background_colour[i]).is_nan()
    &&& forall|i: int| 0 <= i < 25 ==> !(#[trigger] parameters.kernel[i]).is_nan()
}

/// A frame of the panel in which the controls left `edited` and no button
/// was clicked.
pub open spec fn plain_edit(edited: ImageDisplay, pointer_over_ui: bool) -> UiFrame {
    UiFrame { edited, update_kernel: false, reset_default: false, pointer_over_ui }
}

/// Switching cross-correlation on and then off again, with nothing else
/// changed, makes the filter chain stale exactly twice. Each time the next
/// frame runs the whole chain, the first time with the passes of
/// cross-correlation and the second time without, and leaves the chain
/// valid; a frame of the panel that changes nothing leaves it valid.
pub proof fn lemma_toggle_cross_correlation(
    parameters: ImageDisplay,
    over_ui: bool,
    source: (u32, u32),
    limit: u32,
)
    requires
        comparable(parameters),
        scale_in_range(parameters.size, source, limit),
        !parameters.cross_correlation,
    ensures
        ({
            let on = ImageDisplay { cross_correlation: true, ..parameters };
            let background = parameters.background_colour;
            &&& plain_edit(on, over_ui).admitted(source, limit) == on
            &&& plain_edit(parameters, over_ui).admitted(source, limit) == parameters
            &&& plain_edit(on, over_ui).stale_after(false, parameters, source, limit)
            &&& planned(true, on.cross_correlation, background) == chain(true).push(
                output_pass(background),
            )
            &&& !plain_edit(on, over_ui).stale_after(false, on, source, limit)
            &&& plain_edit(parameters, over_ui).stale_after(false, on, source, limit)
            &&& planned(true, parameters.cross_correlation, background) == chain(false).push(
                output_pass(background),
            )
            &&& !plain_edit(parameters, over_ui).stale_after(false, parameters, source, limit)
            &&& planned(false, parameters.cross_correlation, background) == seq![
                output_pass(background),
            ]
        }),
{
    let on = ImageDisplay { cross_correlation: true, ..parameters };
    lemma_same_as_itself(parameters);
    lemma_same_as_itself(on);
    assert(planned(false, false, parameters.background_colour) =~= seq![
        output_pass(parameters.background_colour),
    ]);
}

/// Parameters without a NaN are the same as themselves.
pub proof fn lemma_same_as_itself(parameters: ImageDisplay)
    requires
        comparable(parameters),
    ensures
        parameters.same_beyond_pan(parameters),
{
    assert(same_numbers(parameters.window_size@, parameters.window_size@));
    assert(same_numbers(parameters.background_colour@, parameters.background_colour@));
    assert(same_numbers(parameters.kernel@, parameters.kernel@));
}

/// A change of the pan offset alone leaves the filter chain as it is.
pub proof fn lemma_pan_keeps_chain(
    parameters: ImageDisplay,
    pos: [Scalar; 2],
    over_ui: bool,
    source: (u32, u32),
    limit: u32,
)
    requires
        comparable(parameters),
        scale_in_range(parameters.size, source, limit),
    ensures
        !plain_edit(ImageDisplay { pos, ..parameters }, over_ui).stale_after(
            false,
            parameters,
            source,
            limit,
        ),
{
    lemma_same_as_itself(parameters);
    let moved = ImageDisplay { pos, ..parameters };
    assert(same_numbers(moved.window_size@, parameters.window_size@));
    assert(same_numbers(moved.background_colour@, parameters.background_colour@));
    assert(same_numbers(moved.kernel@, parameters.kernel@));
}

/// Whatever the settings panel leaves, the scale factor that the viewer
/// keeps is never above the greatest, and where the source image fits the
/// device it is in the range.
pub proof fn lemma_panel_keeps_scale_in_range(ui: UiFrame, source: (u32, u32), limit: u32)
    ensures
        ui.admitted(source, limit).size.product_at_most(greater_side(source) as nat, limit as nat),
        source.0 <= limit && source.1 <= limit ==> scale_in_range(
            ui.admitted(source, limit).size,
            source,
            limit,
        ),
{
    lemma_clamped_scale_in_range(ui.settled().size, source, limit);
    if source.0 <= limit && source.1 <= limit {
        lemma_fitting_source_has_range(ui.settled().size, source, limit);
    }
}

/// The state of the viewer.
#[derive(Debug)]
pub struct GraphicsContext {
    pub config: SurfaceSize,
    pub output_format: StageFormat,
    /// The greatest width and height of an image on the device.
    pub max_texture_dimension: u32,
    pub pipelines: Pipelines,
    pub stages: RenderStages,
    pub image_display: ImageDisplayWithBuffers,
    pub input: InputContext,
    /// Width and height of the source image, once one is loaded.
    pub source_size: Option<(u32, u32)>,
}

impl GraphicsContext {
    /// The invariant of the state: the render targets are all there or none
    /// is, and the filter chain counts as valid only while they are there.
    pub open spec fn wf(self) -> bool {
        &&& self.stages.wf()
        &&& (self.image_display.changed || self.stages.allocated())
    }

    /// Whether the invariant of the state holds.
    pub fn is_well_formed(&self) -> (r: bool)
        ensures
            r == self.wf(),
    {
        self.stages.is_well_formed() && (self.image_display.changed || self.stages.is_allocated())
    }

    /// The size of the source image, or one texel by one while there is no
    /// source image.
    pub open spec fn source_or_unit(self) -> (u32, u32) {
        match self.source_size {
            Some(size) => size,
            None => (1u32, 1u32),
        }
    }

    /// The resolution at which the source image is processed: each of its
    /// dimensions times the scale factor, rounded down, at most the greatest
    /// dimension that the device allows and at least 1.
    pub open spec fn scaled_size(self) -> (u32, u32)
        recommends
            self.source_size is Some,
    {
        (
            extent(
                self.source_size->Some_0.0,
                self.image_display.internal.size,
                self.max_texture_dimension,
            ),
            extent(
                self.source_size->Some_0.1,
                self.image_display.internal.size,
                self.max_texture_dimension,
            ),
        )
    }

    /// The state at startup: the default parameters in a window of the given
    /// size, no render target, no source image, the filter chain stale.
    pub fn new(
        width: u32,
        height: u32,
        max_texture_dimension: u32,
        output_format: StageFormat,
    ) -> (context: GraphicsContext)
        ensures
            context.wf(),
            context.pipelines.wf(output_format),
            context.config == (SurfaceSize { width, height }),
            context.output_format == output_format,
            context.max_texture_dimension == max_texture_dimension,
            context.stages.is_empty(),
            context.image_display.internal == ImageDisplay::with_window(
                window_numbers(width, height),
            ),
            context.image_display.changed,
            context.image_display.buffer@ == context.image_display.internal.raw().bytes(),
            context.input.last_mouse_pos == [Scalar { bits: 0 }, Scalar { bits: 0 }],
            !context.input.mouse_pressed,
            !context.input.mouse_over_ui,
            context.source_size is None,
    {
        GraphicsContext {
            config: SurfaceSize { width, height },
            output_format,
            max_texture_dimension,
            pipelines: Pipelines::new(output_format),
            stages: RenderStages::new(),
            image_display: ImageDisplayWithBuffers::from_window(width, height),
            input: InputContext::default(),
            source_size: None,
        }
    }

    /// Which of the formats that the presentation surface offers is taken,
    /// where `srgb` says of each, in the order of the offer, whether it is an
    /// sRGB format: the first sRGB format, or the first format where none is.
    pub fn choose_surface_format(srgb: &[bool]) -> (index: usize)
        requires
            srgb@.len() > 0,
        ensures
            index < srgb@.len(),
            forall|j: int| 0 <= j < index ==> !srgb@[j],
            srgb@[index as int] || (index == 0 && forall|j: int| 0 <= j < srgb@.len() ==> !srgb@[j]),
    {
        let mut i: usize = 0;
        while i < srgb.len()
            invariant
                i <= srgb@.len(),
                forall|j: int| 0 <= j < i ==> !srgb@[j],
            decreases srgb@.len() - i,
        {
            if srgb[i] {
                return i;
            }
            i = i + 1;
        }
        0
    }

    /// The bytes of the kernel image for the given weights: five rows of
    /// five texels, each weight stored as it is, with no loss of precision,
    /// in the first of the four 32-bit channels of its texel.
    pub fn write_kernel_texture(data: &[Scalar; 25]) -> (bytes: Vec<u8>)
        ensures
            bytes@ == words_le_bytes(kernel_words(*data)),
            bytes@.len() == KERNEL_BYTES_PER_ROW * KERNEL_SIDE,
    {
        let mut words: Vec<u32> = Vec::new();
        let mut i: usize = 0;
        while i < 25
            invariant
                i <= 25,
                words@.len() == 4 * i,
                forall|j: int| 0 <= j < 4 * i ==> words@[j] == kernel_words(*data)[j],
            decreases 25 - i,
        {
            words.push(data[i].bits);
            words.push(0);
            words.push(0);
            words.push(0);
            i = i + 1;
        }
        assert(words@ =~= kernel_words(*data));
        encode_words(&words)
    }

    /// Takes note of a new size of the window. A size with a zero dimension
    /// is ignored.
    pub fn resize(&mut self, width: u32, height: u32)
        ensures
            old(self).wf() ==> final(self).wf(),
            width > 0 && height > 0 ==> *final(self) == (GraphicsContext {
                config: SurfaceSize { width, height },
                image_display: ImageDisplayWithBuffers {
                    internal: ImageDisplay {
                        window_size: window_numbers(width, height),
                        ..old(self).image_display.internal
                    },
                    ..old(self).image_display
                },
                ..*old(self)
            }),
            !(width > 0 && height > 0) ==> *final(self) == *old(self),
    {
        if width > 0 && height > 0 {
            self.config.width = width;
            self.config.height = height;
            self.image_display.internal.window_size = [
                Scalar::from_u32(width),
                Scalar::from_u32(height),
            ];
        }
    }

    /// The display parameters.
    pub fn image_display(&self) -> (display: &ImageDisplay)
        ensures
            *display == self.image_display.internal,
    {
        &self.image_display.internal
    }

    /// The display parameters, to be changed.
    pub fn image_display_mut(&mut self) -> (display: &mut ImageDisplay)
        ensures
            *display == old(self).image_display.internal,
            *final(self) == (GraphicsContext {
                image_display: ImageDisplayWithBuffers {
                    internal: *final(display),
                    ..old(self).image_display
                },
                ..*old(self)
            }),
    {
        &mut self.image_display.internal
    }

    /// The resolution at which the source image is processed.
    pub fn scaled_texture_size(&self) -> (dims: (u32, u32))
        requires
            self.source_size is Some,
        ensures
            dims == self.scaled_size(),
            dims.0 >= 1,
            dims.1 >= 1,
    {
        let source_size = self.source_size.unwrap();
        let scale = self.image_display.internal.size;
        (
            GraphicsContext::scaled_extent(source_size.0, scale, self.max_texture_dimension),
            GraphicsContext::scaled_extent(source_size.1, scale, self.max_texture_dimension),
        )
    }

    /// One dimension of the destination.
    pub fn scaled_extent(n: u32, scale: Scalar, limit: u32) -> (e: u32)
        ensures
            e == extent(n, scale, limit),
            e >= 1,
    {
        let product = scale.floor_times(n);
        let capped = if product > limit {
            limit
        } else {
            product
        };
        if capped < 1 {
            1
        } else {
            capped
        }
    }

    /// The size of the source image, or one texel by one while there is no
    /// source image.
    pub fn source_size_or_unit(&self) -> (size: (u32, u32))
        ensures
            size == self.source_or_unit(),
    {
        match self.source_size {
            Some(size) => size,
            None => (1, 1),
        }
    }

    /// The greatest scale factor for the source image on the device: the
    /// device's greatest dimension divided by the greater side of the source
    /// image, rounded down to a single-precision number.
    pub fn max_scale(&self) -> (scale: Scalar)
        ensures
            scale == greatest_scale(self.source_or_unit(), self.max_texture_dimension),
            scale.is_greatest_within(
                greater_side(self.source_or_unit()) as nat,
                self.max_texture_dimension as nat,
            ),
    {
        greatest_scale_of(self.source_size_or_unit(), self.max_texture_dimension)
    }

    /// Sets the scale factor, brought into the range for the source image on
    /// the device, and marks the filter chain as stale.
    pub fn set_scale(&mut self, scale: Scalar)
        ensures
            old(self).wf() ==> final(self).wf(),
            *final(self) == (GraphicsContext {
                image_display: ImageDisplayWithBuffers {
                    internal: ImageDisplay {
                        size: clamped_scale(
                            scale,
                            old(self).source_or_unit(),
                            old(self).max_texture_dimension,
                        ),
                        ..old(self).image_display.internal
                    },
                    changed: true,
                    ..old(self).image_display
                },
                ..*old(self)
            }),
            final(self).image_display.internal.size.product_at_most(
                greater_side(old(self).source_or_unit()) as nat,
                old(self).max_texture_dimension as nat,
            ),
            old(self).source_or_unit().0 <= old(self).max_texture_dimension && old(
                self,
            ).source_or_unit().1 <= old(self).max_texture_dimension ==> scale_in_range(
                final(self).image_display.internal.size,
                old(self).source_or_unit(),
                old(self).max_texture_dimension,
            ),
    {
        proof {
            let source = self.source_or_unit();
            if source.0 <= self.max_texture_dimension && source.1 <= self.max_texture_dimension {
                lemma_fitting_source_has_range(scale, source, self.max_texture_dimension);
            }
        }
        self.image_display.internal.size = clamp_scale(
            scale,
            self.source_size_or_unit(),
            self.max_texture_dimension,
        );
        self.image_display.set_changed();
    }

    /// Makes `texture` the source image: its size counts from now on, the
    /// scale factor is brought into the range for it, and the filter chain is
    /// stale. The render targets stay as they are until the next frame asks
    /// for its resolution.
    pub fn set_source(&mut self, texture: &Texture)
        ensures
            old(self).wf() ==> final(self).wf(),
            *final(self) == (GraphicsContext {
                source_size: Some((texture.width, texture.height)),
                image_display: ImageDisplayWithBuffers {
                    internal: ImageDisplay {
                        size: clamped_scale(
                            old(self).image_display.internal.size,
                            (texture.width, texture.height),
                            old(self).max_texture_dimension,
                        ),
                        ..old(self).image_display.internal
                    },
                    changed: true,
                    ..old(self).image_display
                },
                ..*old(self)
            }),
            texture.width <= old(self).max_texture_dimension && texture.height <= old(
                self,
            ).max_texture_dimension ==> scale_in_range(
                final(self).image_display.internal.size,
                (texture.width, texture.height),
                old(self).max_texture_dimension,
            ),
    {
        let size = texture.size();
        proof {
            if size.0 <= self.max_texture_dimension && size.1 <= self.max_texture_dimension {
                lemma_fitting_source_has_range(
                    self.image_display.internal.size,
                    size,
                    self.max_texture_dimension,
                );
            }
        }
        self.source_size = Some(size);
        self.image_display.internal.size = clamp_scale(
            self.image_display.internal.size,
            size,
            self.max_texture_dimension,
        );
        self.image_display.set_changed();
    }

    /// Decodes the bytes of an image file and makes the result the source
    /// image, with the scale factor brought into the range for it. Where the
    /// bytes give no image that the device can hold, the error says why and
    /// the state stays as it was, with the source image it had.
    pub fn load_texture(&mut self, bytes: &[u8]) -> (r: Result<Texture, LoadError>)
        ensures
            old(self).wf() ==> final(self).wf(),
            Texture::loads(r, bytes@, old(self).max_texture_dimension),
            !(r matches Err(LoadError::Malformed)),
            match r {
                Ok(texture) => {
                    &&& *final(self) == (GraphicsContext {
                        source_size: Some((texture.width, texture.height)),
                        image_display: ImageDisplayWithBuffers {
                            internal: ImageDisplay {
                                size: clamped_scale(
                                    old(self).image_display.internal.size,
                                    (texture.width, texture.height),
                                    old(self).max_texture_dimension,
                                ),
                                ..old(self).image_display.internal
                            },
                            changed: true,
                            ..old(self).image_display
                        },
                        ..*old(self)
                    })
                    &&& scale_in_range(
                        final(self).image_display.internal.size,
                        (texture.width, texture.height),
                        old(self).max_texture_dimension,
                    )
                },
                Err(_) => *final(self) == *old(self),
            },
    {
        let loaded = Texture::from_bytes(bytes, self.max_texture_dimension);
        match loaded {
            Ok(texture) => {
                self.set_source(&texture);
                Ok(texture)
            },
            Err(e) => Err(e),
        }
    }

    /// Takes note of an event of the pointer and says what it asks to be
    /// done to the display parameters. A turn of the wheel makes the filter
    /// chain stale; a move of the pointer does not.
    pub fn process_input(&mut self, event: CursorEvent) -> (action: InputAction)
        ensures
            old(self).wf() ==> final(self).wf(),
            action == old(self).input.action(event),
            *final(self) == (GraphicsContext {
                input: old(self).input.after(event),
                image_display: ImageDisplayWithBuffers {
                    changed: old(self).image_display.changed || event is Scroll,
                    ..old(self).image_display
                },
                ..*old(self)
            }),
    {
        let action = self.input.handle(event);
        match event {
            CursorEvent::Scroll(_) => {
                self.image_display.set_changed();
            },
            _ => {},
        }
        action
    }

    /// Takes over what the settings panel did in one frame: the parameters
    /// as the controls left them, or the defaults where they were asked for,
    /// with the scale factor brought into the range for the source image on
    /// the device. The filter chain becomes stale where the kernel was
    /// applied or a parameter other than the pan offset has changed. Returns
    /// the bytes of the kernel image where it has to be written again.
    pub fn render_egui(&mut self, ui: UiFrame) -> (kernel: Option<Vec<u8>>)
        ensures
            old(self).wf() ==> final(self).wf(),
            *final(self) == (GraphicsContext {
                input: InputContext { mouse_over_ui: ui.pointer_over_ui, ..old(self).input },
                image_display: ImageDisplayWithBuffers {
                    internal: ui.admitted(
                        old(self).source_or_unit(),
                        old(self).max_texture_dimension,
                    ),
                    changed: ui.stale_after(
                        old(self).image_display.changed,
                        old(self).image_display.internal,
                        old(self).source_or_unit(),
                        old(self).max_texture_dimension,
                    ),
                    ..old(self).image_display
                },
                ..*old(self)
            }),
            final(self).image_display.internal.size.product_at_most(
                greater_side(old(self).source_or_unit()) as nat,
                old(self).max_texture_dimension as nat,
            ),
            old(self).source_or_unit().0 <= old(self).max_texture_dimension && old(
                self,
            ).source_or_unit().1 <= old(self).max_texture_dimension ==> scale_in_range(
                final(self).image_display.internal.size,
                old(self).source_or_unit(),
                old(self).max_texture_dimension,
            ),
            kernel is Some == ui.encodes_kernel(old(self).image_display.internal),
            kernel is Some ==> kernel->Some_0@ == words_le_bytes(kernel_words(ui.settled().kernel)),
    {
        proof {
            lemma_panel_keeps_scale_in_range(
                ui,
                self.source_or_unit(),
                self.max_texture_dimension,
            );
        }
        let before = self.image_display.internal;
        self.image_display.internal = ui.edited;
        if ui.update_kernel {
            self.image_display.set_changed();
        }
        if ui.reset_default {
            self.image_display.internal.reset_default();
        }
        self.image_display.internal.size = clamp_scale(
            self.image_display.internal.size,
            self.source_size_or_unit(),
            self.max_texture_dimension,
        );
        self.input.mouse_over_ui = ui.pointer_over_ui;
        if self.image_display.internal.invalidates(&before) {
            self.image_display.set_changed();
        }
        let weights_differ = !numbers_eq(&self.image_display.internal.kernel, &before.kernel);
        if ui.update_kernel || ui.reset_default || weights_differ {
            Some(GraphicsContext::write_kernel_texture(&self.image_display.internal.kernel))
        } else {
            None
        }
    }

    /// Describes one pass: `pass` renders to `target` with `bindings` bound
    /// to its slots. With `clear` the target is first cleared to the
    /// background colour; without, it keeps what it holds.
    pub fn render_pass(&self, pass: Pass, target: Target, bindings: Vec<Binding>, clear: bool) -> (r:
        RenderPass)
        ensures
            r@ == (PassModel {
                pass,
                target,
                bindings: bindings@,
                clear: if clear {
                    Some(self.image_display.internal.background_colour)
                } else {
                    None
                },
            }),
    {
        RenderPass {
            pass,
            target,
            bindings,
            clear: if clear {
                Some(self.image_display.internal.background_colour)
            } else {
                None
            },
        }
    }

    /// Decides what one frame does. The record of the parameters is bound,
    /// and uploaded where it is not the one that was bound last.
    /// Where the filter chain is stale, the render targets are brought to the
    /// resolution that the scale factor asks for and the chain runs:
    /// resampling, the gamma lookup table, cross-correlation where it is on,
    /// gamma correction; after that the chain is valid. The output pass runs
    /// in every frame.
    pub fn render(&mut self) -> (frame: Frame)
        requires
            old(self).wf(),
            old(self).source_size is Some,
        ensures
            final(self).wf(),
            *final(self) == (GraphicsContext {
                stages: if old(self).image_display.changed {
                    old(self).stages.updated(old(self).scaled_size())
                } else {
                    old(self).stages
                },
                image_display: ImageDisplayWithBuffers {
                    changed: false,
                    buffer: final(self).image_display.buffer,
                    ..old(self).image_display
                },
                ..*old(self)
            }),
            final(self).image_display.buffer@ == old(self).image_display.internal.raw().bytes(),
            final(self).image_display.buffer@.len() == RECORD_BYTES,
            frame.upload == (old(self).image_display.buffer@
                != old(self).image_display.internal.raw().bytes()),
            final(self).stages.allocated(),
            frame.created@ == if old(self).image_display.changed {
                old(self).stages.allocations_for(old(self).scaled_size())
            } else {
                Seq::<Allocation>::empty()
            },
            frame.plan() == planned(
                old(self).image_display.changed,
                old(self).image_display.internal.cross_correlation,
                old(self).image_display.internal.background_colour,
            ),
    {
        let upload = self.image_display.bind();
        let texture_dims = self.scaled_texture_size();
        let mut created: Vec<Allocation> = Vec::new();
        let mut passes: Vec<RenderPass> = Vec::new();
        let primary = StageRole::Interpolated;
        if self.image_display.changed {
            created = self.stages.update_resolution(texture_dims);

            // Resample the source image.
            let mut bindings: Vec<Binding> = Vec::new();
            bindings.push(Binding(0, Resource::Source));
            bindings.push(Binding(1, Resource::Parameters));
            passes.push(self.render_pass(Pass::Interpolation, Target::Stage(primary), bindings, false));

            // Generate the lookup table.
            let mut bindings: Vec<Binding> = Vec::new();
            bindings.push(Binding(0, Resource::Parameters));
            passes.push(
                self.render_pass(Pass::GammaLut, Target::Stage(StageRole::GammaLut), bindings, false),
            );

            if self.image_display.internal.cross_correlation {
                // Apply the kernel to the resampled image.
                let mut bindings: Vec<Binding> = Vec::new();
                bindings.push(Binding(0, Resource::Stage(primary)));
                bindings.push(Binding(1, Resource::Parameters));
                bindings.push(Binding(2, Resource::KernelWeights));
                passes.push(
                    self.render_pass(
                        Pass::Kernel,
                        Target::Stage(StageRole::Kerneled),
                        bindings,
                        false,
                    ),
                );

                // Find the extrema of the convolved image.
                let mut bindings: Vec<Binding> = Vec::new();
                bindings.push(Binding(0, Resource::Stage(StageRole::Kerneled)));
                bindings.push(Binding(1, Resource::Parameters));
                bindings.push(Binding(2, Resource::KernelWeights));
                passes.push(
                    self.render_pass(
                        Pass::MinMax,
                        Target::Stage(StageRole::MinMaxAccumulator),
                        bindings,
                        false,
                    ),
                );

                // Normalize the convolved image between the extrema found.
                let mut bindings: Vec<Binding> = Vec::new();
                bindings.push(Binding(0, Resource::Stage(StageRole::Kerneled)));
                bindings.push(Binding(1, Resource::Parameters));
                bindings.push(Binding(2, Resource::Stage(StageRole::MinMaxAccumulator)));
                passes.push(self.render_pass(Pass::Normalize, Target::Stage(primary), bindings, false));
            }
            // Correct the gamma.

            let mut bindings: Vec<Binding> = Vec::new();
            bindings.push(Binding(0, Resource::Stage(primary)));
            bindings.push(Binding(1, Resource::Parameters));
            bindings.push(Binding(2, Resource::Stage(StageRole::GammaLut)));
            passes.push(
                self.render_pass(Pass::Gamma, Target::Stage(StageRole::GammaCorrected), bindings, false),
            );

            self.image_display.clear_changed();
        }
        // Draw the finished image on the presentation surface.

        let mut bindings: Vec<Binding> = Vec::new();
        bindings.push(Binding(0, Resource::Stage(StageRole::GammaCorrected)));
        bindings.push(Binding(1, Resource::Parameters));
        passes.push(self.render_pass(Pass::Output, Target::Surface, bindings, true));

        let frame = Frame { upload, created, passes };
        proof {
            let expected = planned(
                old(self).image_display.changed,
                old(self).image_display.internal.cross_correlation,
                old(self).image_display.internal.background_colour,
            );
            assert(frame.plan().len() == expected.len());
            assert forall|i: int| 0 <= i < expected.len() implies frame.plan()[i] == expected[i] by {
                assert(frame.plan()[i].bindings =~= expected[i].bindings);
            }
            assert(frame.plan() =~= expected);
        }
        frame
    }
}

} // verus!
