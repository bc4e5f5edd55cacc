//! The intermediate render targets and the resolution they are kept at.

use vstd::prelude::*;

verus! {

/// Side of the square accumulator of the min/max reduction. It does not
/// depend on the size of the image.
pub const MIN_MAX_SIDE: u32 = 8;

/// Number of entries of the gamma lookup table, which is one texel high.
pub const GAMMA_LUT_ENTRIES: u32 = 256;

/// Pixel format of a render target.
#[derive(Debug, Clone, Copy, PartialEq, Eq, Structural)]
pub enum StageFormat {
    /// Four 32-bit floating-point channels: no banding over repeated passes.
    Hdr,
    /// The display-native format of the presentation surface.
    Display,
}

/// The role of an intermediate render target.
#[derive(Debug, Clone, Copy, PartialEq, Eq, Structural)]
pub enum StageRole {
    Interpolated,
    Kerneled,
    MinMaxAccumulator,
    GammaLut,
    GammaCorrected,
    OutputStaging,
}

/// One render target: an image of a given size and format that a pass
/// renders into and later passes sample.
#[derive(Debug, Clone, Copy, PartialEq, Eq, Structural)]
pub struct RenderGroup {
    pub width: u32,
    pub height: u32,
    pub format: StageFormat,
}

impl RenderGroup {
    /// A render target of the given size and format.
    pub fn new(dims: (u32, u32), format: StageFormat) -> (group: RenderGroup)
        ensures
            group == (RenderGroup { width: dims.0, height: dims.1, format }),
    {
        RenderGroup { width: dims.0, height: dims.1, format }
    }

    /// Width and height of the target.
    pub fn size(&self) -> (s: (u32, u32))
        ensures
            s == (self.width, self.height),
    {
        (self.width, self.height)
    }
}

/// A render target that has to be created, in place of the one that had the
/// role before, if there was one.
#[derive(Debug, Clone, Copy, PartialEq, Eq, Structural)]
pub struct Allocation {
    pub role: StageRole,
    pub group: RenderGroup,
}

/// The render targets of one resolution. They are created together when the
/// resolution changes and never resized in place.
#[derive(Debug, Clone, Copy)]
pub struct RenderStages {
    pub target_res: (u32, u32),
    pub interpolation: Option<RenderGroup>,
    pub kerneled: Option<RenderGroup>,
    pub min_max: Option<RenderGroup>,
    pub gamma_lut: Option<RenderGroup>,
    pub gamma: Option<RenderGroup>,
    pub output_staging: Option<RenderGroup>,
}

/// A target of the high-precision format at resolution `dims`.
pub open spec fn hdr(dims: (u32, u32)) -> RenderGroup {
    RenderGroup { width: dims.0, height: dims.1, format: StageFormat::Hdr }
}

/// The accumulator of the min/max reduction.
pub open spec fn min_max_group() -> RenderGroup {
    hdr((MIN_MAX_SIDE, MIN_MAX_SIDE))
}

/// The gamma lookup table.
pub open spec fn gamma_lut_group() -> RenderGroup {
    hdr((GAMMA_LUT_ENTRIES, 1u32))
}

impl RenderStages {
    /// No target exists yet.
    pub open spec fn is_empty(self) -> bool {
        &&& self.target_res == (0u32, 0u32)
        &&& self.interpolation is None
        &&& self.kerneled is None
        &&& self.min_max is None
        &&& self.gamma_lut is None
        &&& self.gamma is None
        &&& self.output_staging is None
    }

    /// Every target exists: those that depend on the resolution all have the
    /// target resolution, which has no zero dimension, and the high-precision
    /// format; the accumulator and the lookup table have their fixed sizes.
    pub open spec fn allocated(self) -> bool {
        &&& self.target_res.0 >= 1
        &&& self.target_res.1 >= 1
        &&& self.interpolation == Some(hdr(self.target_res))
        &&& self.kerneled == Some(hdr(self.target_res))
        &&& self.min_max == Some(min_max_group())
        &&& self.gamma_lut == Some(gamma_lut_group())
        &&& self.gamma == Some(hdr(self.target_res))
        &&& self.output_staging == Some(hdr(self.target_res))
    }

    /// The invariant of the set: it is empty, or every target exists.
    pub open spec fn wf(self) -> bool {
        self.is_empty() || self.allocated()
    }

    /// The target that has the given role, if it exists.
    pub open spec fn stage(self, role: StageRole) -> Option<RenderGroup> {
        match role {
            StageRole::Interpolated => self.interpolation,
            StageRole::Kerneled => self.kerneled,
            StageRole::MinMaxAccumulator => self.min_max,
            StageRole::GammaLut => self.gamma_lut,
            StageRole::GammaCorrected => self.gamma,
            StageRole::OutputStaging => self.output_staging,
        }
    }

    /// The set in which every target exists at resolution `dims`.
    pub open spec fn at(dims: (u32, u32)) -> RenderStages {
        RenderStages {
            target_res: dims,
            interpolation: Some(hdr(dims)),
            kerneled: Some(hdr(dims)),
            min_max: Some(min_max_group()),
            gamma_lut: Some(gamma_lut_group()),
            gamma: Some(hdr(dims)),
            output_staging: Some(hdr(dims)),
        }
    }

    /// The set after a request for resolution `dims`: unchanged where it has
    /// that resolution already; else every target that depends on the
    /// resolution is new, and the accumulator and the lookup table are kept
    /// where they exist.
    pub open spec fn updated(self, dims: (u32, u32)) -> RenderStages {
        if self.target_res == dims {
            self
        } else {
            RenderStages {
                target_res: dims,
                interpolation: Some(hdr(dims)),
                kerneled: Some(hdr(dims)),
                min_max: if self.min_max is None {
                    Some(min_max_group())
                } else {
                    self.min_max
                },
                gamma_lut: if self.gamma_lut is None {
                    Some(gamma_lut_group())
                } else {
                    self.gamma_lut
                },
                gamma: Some(hdr(dims)),
                output_staging: Some(hdr(dims)),
            }
        }
    }

    /// The targets that a change to resolution `dims` creates, in the order
    /// of their creation: all those that depend on the resolution, and the
    /// accumulator and the lookup table only where they do not exist yet.
    pub open spec fn allocations_for(self, dims: (u32, u32)) -> Seq<Allocation> {
        if self.target_res == dims {
            Seq::<Allocation>::empty()
        } else {
            seq![
                Allocation { role: StageRole::Interpolated, group: hdr(dims) },
                Allocation { role: StageRole::Kerneled, group: hdr(dims) },
            ] + (if self.min_max is None {
                seq![Allocation { role: StageRole::MinMaxAccumulator, group: min_max_group() }]
            } else {
                Seq::<Allocation>::empty()
            }) + (if self.gamma_lut is None {
                seq![Allocation { role: StageRole::GammaLut, group: gamma_lut_group() }]
            } else {
                Seq::<Allocation>::empty()
            }) + seq![
                Allocation { role: StageRole::GammaCorrected, group: hdr(dims) },
                Allocation { role: StageRole::OutputStaging, group: hdr(dims) },
            ]
        }
    }

    /// Whether the invariant of the set holds.
    pub fn is_well_formed(&self) -> (r: bool)
        ensures
            r == self.wf(),
    {
        let nothing = self.target_res.0 == 0 && self.target_res.1 == 0
            && self.interpolation.is_none() && self.kerneled.is_none() && self.min_max.is_none()
            && self.gamma_lut.is_none() && self.gamma.is_none() && self.output_staging.is_none();
        nothing || self.is_allocated()
    }

    /// Whether every target exists, at the target resolution.
    pub fn is_allocated(&self) -> (r: bool)
        ensures
            r == self.allocated(),
    {
        let sized = Some(RenderGroup::new(self.target_res, StageFormat::Hdr));
        let accumulator = Some(RenderGroup::new((MIN_MAX_SIDE, MIN_MAX_SIDE), StageFormat::Hdr));
        let table = Some(RenderGroup::new((GAMMA_LUT_ENTRIES, 1), StageFormat::Hdr));
        self.target_res.0 >= 1 && self.target_res.1 >= 1 && self.interpolation == sized
            && self.kerneled == sized && self.min_max == accumulator && self.gamma_lut == table
            && self.gamma == sized && self.output_staging == sized
    }

    /// The empty set.
    pub fn new() -> (stages: RenderStages)
        ensures
            stages.is_empty(),
    {
        RenderStages {
            target_res: (0, 0),
            interpolation: None,
            kerneled: None,
            min_max: None,
            gamma_lut: None,
            gamma: None,
            output_staging: None,
        }
    }

    /// Makes sure that every target exists at resolution `dims`, and returns
    /// the targets that have to be created for it. Where the set already has
    /// that resolution nothing changes and nothing is created.
    pub fn update_resolution(&mut self, dims: (u32, u32)) -> (created: Vec<Allocation>)
        requires
            old(self).wf(),
            dims.0 >= 1,
            dims.1 >= 1,
        ensures
            *final(self) == old(self).updated(dims),
            *final(self) == RenderStages::at(dims),
            created@ == old(self).allocations_for(dims),
    {
        let mut created: Vec<Allocation> = Vec::new();
        if self.target_res.0 != dims.0 || self.target_res.1 != dims.1 {
            let group = RenderGroup::new(dims, StageFormat::Hdr);
            self.target_res = dims;
            self.interpolation = Some(group);
            created.push(Allocation { role: StageRole::Interpolated, group });
            self.kerneled = Some(group);
            created.push(Allocation { role: StageRole::Kerneled, group });
            if self.min_max.is_none() {
                let accumulator = RenderGroup::new((MIN_MAX_SIDE, MIN_MAX_SIDE), StageFormat::Hdr);
                self.min_max = Some(accumulator);
                created.push(Allocation { role: StageRole::MinMaxAccumulator, group: accumulator });
            }
            if self.gamma_lut.is_none() {
                let table = RenderGroup::new((GAMMA_LUT_ENTRIES, 1), StageFormat::Hdr);
                self.gamma_lut = Some(table);
                created.push(Allocation { role: StageRole::GammaLut, group: table });
            }
            self.gamma = Some(group);
            created.push(Allocation { role: StageRole::GammaCorrected, group });
            self.output_staging = Some(group);
            created.push(Allocation { role: StageRole::OutputStaging, group });
        }
        assert(created@ =~= old(self).allocations_for(dims));
        created
    }

    /// The target of the interpolation pass.
    pub fn interpolation(&self) -> (group: &RenderGroup)
        requires
            self.allocated(),
        ensures
            *group == hdr(self.target_res),
    {
        self.interpolation.as_ref().unwrap()
    }

    /// The target of the kernel pass.
    pub fn kerneled(&self) -> (group: &RenderGroup)
        requires
            self.allocated(),
        ensures
            *group == hdr(self.target_res),
    {
        self.kerneled.as_ref().unwrap()
    }

    /// The accumulator of the min/max reduction.
    pub fn min_max(&self) -> (group: &RenderGroup)
        requires
            self.allocated(),
        ensures
            *group == min_max_group(),
    {
        self.min_max.as_ref().unwrap()
    }

    /// The gamma lookup table.
    pub fn gamma_lut(&self) -> (group: &RenderGroup)
        requires
            self.allocated(),
        ensures
            *group == gamma_lut_group(),
    {
        self.gamma_lut.as_ref().unwrap()
    }

    /// The target of the gamma pass.
    pub fn gamma(&self) -> (group: &RenderGroup)
        requires
            self.allocated(),
        ensures
            *group == hdr(self.target_res),
    {
        self.gamma.as_ref().unwrap()
    }

    /// The staging target of the output.
    pub fn output_staging(&self) -> (group: &RenderGroup)
        requires
            self.allocated(),
        ensures
            *group == hdr(self.target_res),
    {
        self.output_staging.as_ref().unwrap()
    }
}

impl Default for RenderStages {
    /// The empty set.
    fn default() -> (stages: RenderStages)
        ensures
            stages.is_empty(),
    {
        RenderStages::new()
    }
}

/// Asking twice for the same resolution creates nothing the second time and
/// leaves every target as the first request left it.
pub proof fn lemma_update_resolution_idempotent(stages: RenderStages, dims: (u32, u32))
    requires
        stages.wf(),
        dims.0 >= 1,
        dims.1 >= 1,
    ensures
        stages.updated(dims).allocations_for(dims) == Seq::<Allocation>::empty(),
        stages.updated(dims).updated(dims) == stages.updated(dims),
        forall|role: StageRole|
            stages.updated(dims).updated(dims).stage(role) == #[trigger] stages.updated(dims).stage(
                role,
            ),
{
}

/// After a request for a resolution every target exists, whatever the set
/// held before.
pub proof fn lemma_update_resolution_allocates(stages: RenderStages, dims: (u32, u32))
    requires
        stages.wf(),
        dims.0 >= 1,
        dims.1 >= 1,
    ensures
        stages.updated(dims) == RenderStages::at(dims),
        stages.updated(dims).allocated(),
        stages.updated(dims).target_res == dims,
{
}

} // verus!
