//! The fixed set of shader programs, one per pass, and what each expects to
//! find bound to it.

use vstd::prelude::*;
use crate::stages::{StageFormat, StageRole};

verus! {

/// One program of the pipeline.
#[derive(Debug, Clone, Copy, PartialEq, Eq, Structural)]
pub enum Pass {
    Interpolation,
    Kernel,
    MinMax,
    Normalize,
    GammaLut,
    Gamma,
    Output,
}

/// What a program expects in one of its binding slots.
#[derive(Debug, Clone, Copy, PartialEq, Eq, Structural)]
pub enum BindingLayout {
    /// A sampled image of a filterable format, with a filtering sampler.
    FilteredTexture,
    /// A sampled image of the high-precision format, which cannot be
    /// filtered, with a non-filtering sampler.
    UnfilteredTexture,
    /// The record of the display parameters.
    Parameters,
}

impl StageFormat {
    /// The layout of the bind group of a render target of this format: one
    /// of the high-precision format cannot be filtered.
    pub open spec fn layout_spec(self) -> BindingLayout {
        match self {
            StageFormat::Hdr => BindingLayout::UnfilteredTexture,
            StageFormat::Display => BindingLayout::FilteredTexture,
        }
    }

    /// The layout of the bind group of a render target of this format.
    #[verifier::when_used_as_spec(layout_spec)]
    pub fn layout(self) -> (layout: BindingLayout)
        ensures
            layout == self.layout_spec(),
    {
        match self {
            StageFormat::Hdr => BindingLayout::UnfilteredTexture,
            StageFormat::Display => BindingLayout::FilteredTexture,
        }
    }
}

/// Something that can be bound to a slot of a program.
#[derive(Debug, Clone, Copy, PartialEq, Eq, Structural)]
pub enum Resource {
    /// The source image as it was loaded.
    Source,
    /// The weights of the kernel.
    KernelWeights,
    /// The record of the display parameters.
    Parameters,
    /// An intermediate render target.
    Stage(StageRole),
}

impl Resource {
    /// The layout of the bind group of this resource.
    pub open spec fn layout_spec(self) -> BindingLayout {
        match self {
            Resource::Source => BindingLayout::FilteredTexture,
            Resource::KernelWeights => BindingLayout::UnfilteredTexture,
            Resource::Parameters => BindingLayout::Parameters,
            Resource::Stage(_) => BindingLayout::UnfilteredTexture,
        }
    }

    /// The layout of the bind group of this resource.
    #[verifier::when_used_as_spec(layout_spec)]
    pub fn layout(self) -> (layout: BindingLayout)
        ensures
            layout == self.layout_spec(),
    {
        match self {
            Resource::Source => BindingLayout::FilteredTexture,
            Resource::KernelWeights => BindingLayout::UnfilteredTexture,
            Resource::Parameters => BindingLayout::Parameters,
            Resource::Stage(_) => BindingLayout::UnfilteredTexture,
        }
    }
}

/// Binds a resource to the slot with the given index.
#[derive(Debug, Clone, Copy, PartialEq, Eq, Structural)]
pub struct Binding(pub u32, pub Resource);

/// The layout of a bind group that holds one sampled image and its sampler.
#[derive(Debug, Clone, Copy, PartialEq, Eq, Structural)]
pub struct TextureLayout {
    /// Whether the image can be sampled with filtering, and the sampler
    /// filters.
    pub filterable: bool,
}

/// The two layouts of image bind groups.
#[derive(Debug, Clone, Copy, PartialEq, Eq, Structural)]
pub struct TextureBindGroupLayouts {
    /// For the source image, in an 8-bit sRGB format.
    pub bgra8unormsrgb: TextureLayout,
    /// For images of the high-precision format.
    pub rgba32float: TextureLayout,
}

impl TextureBindGroupLayouts {
    /// The layouts for filtered and for unfiltered images.
    pub fn create() -> (layouts: TextureBindGroupLayouts)
        ensures
            layouts.bgra8unormsrgb.filterable,
            !layouts.rgba32float.filterable,
    {
        TextureBindGroupLayouts {
            bgra8unormsrgb: TextureLayout { filterable: true },
            rgba32float: TextureLayout { filterable: false },
        }
    }
}

/// One program: its shader, the layouts of its binding slots in the order of
/// their indices, the format it renders to, and whether it blends.
#[derive(Debug, Clone)]
pub struct Pipeline {
    pub pass: Pass,
    /// Path of the shader source.
    pub shader: &'static str,
    pub label: &'static str,
    pub layout: Vec<BindingLayout>,
    pub target_format: StageFormat,
    /// Whether the program replaces the target's colour through a blend
    /// state. Targets of the high-precision format cannot blend.
    pub blend: bool,
}

impl Pass {
    /// Path of the shader source of this program.
    pub open spec fn shader_spec(self) -> Seq<char> {
        match self {
            Pass::Interpolation => "./src/shader/interpolation.wgsl"@,
            Pass::Kernel => "./src/shader/kernel.wgsl"@,
            Pass::MinMax => "./src/shader/min_max.wgsl"@,
            Pass::Normalize => "./src/shader/normalize.wgsl"@,
            Pass::GammaLut => "./src/shader/gamma_lookup.wgsl"@,
            Pass::Gamma => "./src/shader/gamma_correction.wgsl"@,
            Pass::Output => "./src/shader/output.wgsl"@,
        }
    }

    /// Label of this program.
    pub open spec fn label_spec(self) -> Seq<char> {
        match self {
            Pass::Interpolation => "interpolation"@,
            Pass::Kernel => "kernel"@,
            Pass::MinMax => "min_max"@,
            Pass::Normalize => "normalize"@,
            Pass::GammaLut => "gamma_lut"@,
            Pass::Gamma => "gamma"@,
            Pass::Output => "output"@,
        }
    }

    /// The binding signature of this program: what it expects in slot 0, in
    /// slot 1 and so on. Every program that samples an image has it in slot
    /// 0 and the parameters in slot 1; a second image comes in slot 2.
    pub open spec fn signature(self) -> Seq<BindingLayout> {
        match self {
            Pass::Interpolation => seq![BindingLayout::FilteredTexture, BindingLayout::Parameters],
            Pass::GammaLut => seq![BindingLayout::Parameters],
            Pass::Output => seq![BindingLayout::UnfilteredTexture, BindingLayout::Parameters],
            _ => seq![
                BindingLayout::UnfilteredTexture,
                BindingLayout::Parameters,
                BindingLayout::UnfilteredTexture,
            ],
        }
    }

    /// The format this program renders to: the output program renders to the
    /// presentation surface, every other one to a high-precision target.
    pub open spec fn target_format(self, output_format: StageFormat) -> StageFormat {
        match self {
            Pass::Output => output_format,
            _ => StageFormat::Hdr,
        }
    }

    /// Path of the shader source of this program.
    pub fn shader(self) -> (path: &'static str)
        ensures
            path@ == self.shader_spec(),
    {
        match self {
            Pass::Interpolation => "./src/shader/interpolation.wgsl",
            Pass::Kernel => "./src/shader/kernel.wgsl",
            Pass::MinMax => "./src/shader/min_max.wgsl",
            Pass::Normalize => "./src/shader/normalize.wgsl",
            Pass::GammaLut => "./src/shader/gamma_lookup.wgsl",
            Pass::Gamma => "./src/shader/gamma_correction.wgsl",
            Pass::Output => "./src/shader/output.wgsl",
        }
    }

    /// Label of this program.
    pub fn label(self) -> (label: &'static str)
        ensures
            label@ == self.label_spec(),
    {
        match self {
            Pass::Interpolation => "interpolation",
            Pass::Kernel => "kernel",
            Pass::MinMax => "min_max",
            Pass::Normalize => "normalize",
            Pass::GammaLut => "gamma_lut",
            Pass::Gamma => "gamma",
            Pass::Output => "output",
        }
    }

    /// The layouts of the binding slots of this program.
    pub fn layout(self) -> (layout: Vec<BindingLayout>)
        ensures
            layout@ == self.signature(),
    {
        let mut layout: Vec<BindingLayout> = Vec::new();
        match self {
            Pass::Interpolation => {
                layout.push(BindingLayout::FilteredTexture);
                layout.push(BindingLayout::Parameters);
            },
            Pass::GammaLut => {
                layout.push(BindingLayout::Parameters);
            },
            Pass::Output => {
                layout.push(BindingLayout::UnfilteredTexture);
                layout.push(BindingLayout::Parameters);
            },
            _ => {
                layout.push(BindingLayout::UnfilteredTexture);
                layout.push(BindingLayout::Parameters);
                layout.push(BindingLayout::UnfilteredTexture);
            },
        }
        assert(layout@ =~= self.signature());
        layout
    }
}

impl Pipeline {
    /// Whether this is the program of `pass` as it is built for a
    /// presentation surface of format `output_format`.
    pub open spec fn describes(self, pass: Pass, output_format: StageFormat) -> bool {
        &&& self.pass == pass
        &&& self.shader@ == pass.shader_spec()
        &&& self.label@ == pass.label_spec()
        &&& self.layout@ == pass.signature()
        &&& self.target_format == pass.target_format(output_format)
        &&& self.blend == (self.target_format != StageFormat::Hdr)
    }
}

/// The programs, one per pass. They are built once and never change.
#[derive(Debug, Clone)]
pub struct Pipelines {
    pub bind_group_layouts: TextureBindGroupLayouts,
    pub interpolation: Pipeline,
    pub kernel: Pipeline,
    pub min_max: Pipeline,
    pub normalize: Pipeline,
    pub gamma_lut: Pipeline,
    pub gamma: Pipeline,
    pub output: Pipeline,
}

impl Pipelines {
    /// Every program is the one of its pass.
    pub open spec fn wf(self, output_format: StageFormat) -> bool {
        &&& self.bind_group_layouts.bgra8unormsrgb.filterable
        &&& !self.bind_group_layouts.rgba32float.filterable
        &&& self.interpolation.describes(Pass::Interpolation, output_format)
        &&& self.kernel.describes(Pass::Kernel, output_format)
        &&& self.min_max.describes(Pass::MinMax, output_format)
        &&& self.normalize.describes(Pass::Normalize, output_format)
        &&& self.gamma_lut.describes(Pass::GammaLut, output_format)
        &&& self.gamma.describes(Pass::Gamma, output_format)
        &&& self.output.describes(Pass::Output, output_format)
    }

    /// The program of the given pass.
    pub open spec fn pipeline(self, pass: Pass) -> Pipeline {
        match pass {
            Pass::Interpolation => self.interpolation,
            Pass::Kernel => self.kernel,
            Pass::MinMax => self.min_max,
            Pass::Normalize => self.normalize,
            Pass::GammaLut => self.gamma_lut,
            Pass::Gamma => self.gamma,
            Pass::Output => self.output,
        }
    }

    /// The programs for a presentation surface of format `output_format`.
    pub fn new(output_format: StageFormat) -> (pipelines: Pipelines)
        ensures
            pipelines.wf(output_format),
    {
        Pipelines {
            bind_group_layouts: TextureBindGroupLayouts::create(),
            interpolation: Pipelines::create_pipeline(Pass::Interpolation, StageFormat::Hdr),
            kernel: Pipelines::create_pipeline(Pass::Kernel, StageFormat::Hdr),
            min_max: Pipelines::create_pipeline(Pass::MinMax, StageFormat::Hdr),
            normalize: Pipelines::create_pipeline(Pass::Normalize, StageFormat::Hdr),
            gamma_lut: Pipelines::create_pipeline(Pass::GammaLut, StageFormat::Hdr),
            gamma: Pipelines::create_pipeline(Pass::Gamma, StageFormat::Hdr),
            output: Pipelines::create_pipeline(Pass::Output, output_format),
        }
    }

    /// The program of `pass` that renders to a target of the given format.
    /// It blends unless the target has the high-precision format.
    pub fn create_pipeline(pass: Pass, target_format: StageFormat) -> (pipeline: Pipeline)
        ensures
            pipeline.pass == pass,
            pipeline.shader@ == pass.shader_spec(),
            pipeline.label@ == pass.label_spec(),
            pipeline.layout@ == pass.signature(),
            pipeline.target_format == target_format,
            pipeline.blend == (target_format != StageFormat::Hdr),
    {
        Pipeline {
            pass,
            shader: pass.shader(),
            label: pass.label(),
            layout: pass.layout(),
            target_format,
            blend: match target_format {
                StageFormat::Hdr => false,
                StageFormat::Display => true,
            },
        }
    }
}

} // verus!
