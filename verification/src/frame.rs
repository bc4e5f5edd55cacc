//! The passes of one frame, in the order in which they are issued.
//!
//! The filter chain resamples the source image, applies the kernel and
//! normalizes where cross-correlation is on, and corrects gamma. It runs only
//! when its cached output is stale. The tail, which composes the output on
//! the presentation surface, runs every frame.

use vstd::prelude::*;
use crate::pipelines::{Binding, Pass, Resource};
use crate::scalar::Scalar;
use crate::stages::{Allocation, StageRole};

verus! {

/// Where a pass renders to.
#[derive(Debug, Clone, Copy, PartialEq, Eq, Structural)]
pub enum Target {
    /// An intermediate render target.
    Stage(StageRole),
    /// The presentation surface.
    Surface,
}

/// One pass: the program that runs, the target it renders to, what is bound
/// to its slots, and the colour to which the target is cleared first, if it
/// is cleared.
#[derive(Debug, Clone)]
pub struct RenderPass {
    pub pass: Pass,
    pub target: Target,
    pub bindings: Vec<Binding>,
    pub clear: Option<[Scalar; 4]>,
}

/// A pass as a mathematical value.
pub struct PassModel {
    pub pass: Pass,
    pub target: Target,
    pub bindings: Seq<Binding>,
    pub clear: Option<[Scalar; 4]>,
}

impl View for RenderPass {
    type V = PassModel;

    open spec fn view(&self) -> PassModel {
        PassModel {
            pass: self.pass,
            target: self.target,
            bindings: self.bindings@,
            clear: self.clear,
        }
    }
}

/// What has to be done for one frame: the record of the parameters to
/// upload where it has changed, the render targets to create, then the
/// passes to record, in this order.
#[derive(Debug)]
pub struct Frame {
    /// The record of the parameters is not the one that was bound last.
    pub upload: bool,
    pub created: Vec<Allocation>,
    pub passes: Vec<RenderPass>,
}

impl Frame {
    /// The passes of the frame as mathematical values.
    pub open spec fn plan(self) -> Seq<PassModel> {
        Seq::new(self.passes@.len(), |i: int| self.passes@[i]@)
    }
}

/// The stage that carries the image from the resampling to the gamma
/// correction. Normalization writes back into it.
pub open spec fn primary() -> StageRole {
    StageRole::Interpolated
}

/// Resamples the source image into the primary stage.
pub open spec fn interpolation_pass() -> PassModel {
    PassModel {
        pass: Pass::Interpolation,
        target: Target::Stage(primary()),
        bindings: seq![Binding(0, Resource::Source), Binding(1, Resource::Parameters)],
        clear: None,
    }
}

/// Regenerates the gamma lookup table.
pub open spec fn gamma_lut_pass() -> PassModel {
    PassModel {
        pass: Pass::GammaLut,
        target: Target::Stage(StageRole::GammaLut),
        bindings: seq![Binding(0, Resource::Parameters)],
        clear: None,
    }
}

/// Convolves the primary stage with the kernel.
pub open spec fn kernel_pass() -> PassModel {
    PassModel {
        pass: Pass::Kernel,
        target: Target::Stage(StageRole::Kerneled),
        bindings: seq![
            Binding(0, Resource::Stage(primary())),
            Binding(1, Resource::Parameters),
            Binding(2, Resource::KernelWeights),
        ],
        clear: None,
    }
}

/// Reduces the convolved image to its least and its greatest sample.
pub open spec fn min_max_pass() -> PassModel {
    PassModel {
        pass: Pass::MinMax,
        target: Target::Stage(StageRole::MinMaxAccumulator),
        bindings: seq![
            Binding(0, Resource::Stage(StageRole::Kerneled)),
            Binding(1, Resource::Parameters),
            Binding(2, Resource::KernelWeights),
        ],
        clear: None,
    }
}

/// Maps the convolved image from between its extrema to between 0 and 1,
/// back into the primary stage.
pub open spec fn normalize_pass() -> PassModel {
    PassModel {
        pass: Pass::Normalize,
        target: Target::Stage(primary()),
        bindings: seq![
            Binding(0, Resource::Stage(StageRole::Kerneled)),
            Binding(1, Resource::Parameters),
            Binding(2, Resource::Stage(StageRole::MinMaxAccumulator)),
        ],
        clear: None,
    }
}

/// Corrects the gamma of the primary stage through the lookup table.
pub open spec fn gamma_pass() -> PassModel {
    PassModel {
        pass: Pass::Gamma,
        target: Target::Stage(StageRole::GammaCorrected),
        bindings: seq![
            Binding(0, Resource::Stage(primary())),
            Binding(1, Resource::Parameters),
            Binding(2, Resource::Stage(StageRole::GammaLut)),
        ],
        clear: None,
    }
}

/// Clears the presentation surface to the background colour and draws the
/// gamma-corrected image on it.
pub open spec fn output_pass(background: [Scalar; 4]) -> PassModel {
    PassModel {
        pass: Pass::Output,
        target: Target::Surface,
        bindings: seq![
            Binding(0, Resource::Stage(StageRole::GammaCorrected)),
            Binding(1, Resource::Parameters),
        ],
        clear: Some(background),
    }
}

/// The three passes of cross-correlation: convolve, reduce, normalize.
pub open spec fn cross_correlation_passes() -> Seq<PassModel> {
    seq![kernel_pass(), min_max_pass(), normalize_pass()]
}

/// The filter chain: resampling and the lookup table, cross-correlation
/// where it is on, then gamma correction.
pub open spec fn chain(cross_correlation: bool) -> Seq<PassModel> {
    seq![interpolation_pass(), gamma_lut_pass()] + (if cross_correlation {
        cross_correlation_passes()
    } else {
        Seq::<PassModel>::empty()
    }) + seq![gamma_pass()]
}

/// The passes of a frame: the filter chain where it is stale, then the
/// output.
pub open spec fn planned(stale: bool, cross_correlation: bool, background: [Scalar; 4]) -> Seq<
    PassModel,
> {
    (if stale {
        chain(cross_correlation)
    } else {
        Seq::<PassModel>::empty()
    }).push(output_pass(background))
}

impl PassModel {
    /// What is bound to the slots of the pass is what its program expects:
    /// slot by slot, in the order of the indices, with nothing missing.
    pub open spec fn matches_signature(self) -> bool {
        &&& self.bindings.len() == self.pass.signature().len()
        &&& forall|k: int|
            0 <= k < self.bindings.len() ==> {
                &&& (#[trigger] self.bindings[k]).0 == k
                &&& self.bindings[k].1.layout_spec() == self.pass.signature()[k]
            }
    }

    /// The pass samples the stage with the given role.
    pub open spec fn samples(self, role: StageRole) -> bool {
        exists|k: int|
            0 <= k < self.bindings.len() && (#[trigger] self.bindings[k]).1 == Resource::Stage(role)
    }

    /// The output program, and it alone, renders to the presentation
    /// surface.
    pub open spec fn targets_its_format(self) -> bool {
        (self.target == Target::Surface) <==> (self.pass == Pass::Output)
    }
}

/// Some pass before the one at `index` renders to the stage with the given
/// role.
pub open spec fn rendered_before(plan: Seq<PassModel>, index: int, role: StageRole) -> bool {
    exists|j: int| 0 <= j < index && (#[trigger] plan[j]).target == Target::Stage(role)
}

/// Every pass of a frame binds what its program expects, and only the output
/// program renders to the presentation surface.
pub proof fn lemma_planned_matches_signatures(
    stale: bool,
    cross_correlation: bool,
    background: [Scalar; 4],
)
    ensures
        forall|i: int|
            0 <= i < planned(stale, cross_correlation, background).len() ==> {
                &&& (#[trigger] planned(stale, cross_correlation, background)[i]).matches_signature()
                &&& planned(stale, cross_correlation, background)[i].targets_its_format()
            },
{
    let plan = planned(stale, cross_correlation, background);
    assert(interpolation_pass().matches_signature());
    assert(gamma_lut_pass().matches_signature());
    assert(kernel_pass().matches_signature());
    assert(min_max_pass().matches_signature());
    assert(normalize_pass().matches_signature());
    assert(gamma_pass().matches_signature());
    assert(output_pass(background).matches_signature());
    assert forall|i: int| 0 <= i < plan.len() implies {
        &&& (#[trigger] plan[i]).matches_signature()
        &&& plan[i].targets_its_format()
    } by {
        lemma_planned_passes(stale, cross_correlation, background);
    }
}

/// The passes of a frame, spelled out.
pub proof fn lemma_planned_passes(stale: bool, cross_correlation: bool, background: [Scalar; 4])
    ensures
        !stale ==> planned(stale, cross_correlation, background) == seq![output_pass(background)],
        stale && !cross_correlation ==> planned(stale, cross_correlation, background) == seq![
            interpolation_pass(),
            gamma_lut_pass(),
            gamma_pass(),
            output_pass(background),
        ],
        stale && cross_correlation ==> planned(stale, cross_correlation, background) == seq![
            interpolation_pass(),
            gamma_lut_pass(),
            kernel_pass(),
            min_max_pass(),
            normalize_pass(),
            gamma_pass(),
            output_pass(background),
        ],
{
    let plan = planned(stale, cross_correlation, background);
    if !stale {
        assert(plan =~= seq![output_pass(background)]);
    } else if !cross_correlation {
        assert(plan =~= seq![
            interpolation_pass(),
            gamma_lut_pass(),
            gamma_pass(),
            output_pass(background),
        ]);
    } else {
        assert(plan =~= seq![
            interpolation_pass(),
            gamma_lut_pass(),
            kernel_pass(),
            min_max_pass(),
            normalize_pass(),
            gamma_pass(),
            output_pass(background),
        ]);
    }
}

/// In a frame that runs the filter chain, every stage that a pass samples
/// was rendered by an earlier pass of the same frame, and no pass samples
/// the stage it renders to. So normalization comes after the reduction whose
/// result it reads, and that after the convolution.
pub proof fn lemma_chain_order(cross_correlation: bool, background: [Scalar; 4])
    ensures
        forall|i: int, role: StageRole|
            0 <= i < planned(true, cross_correlation, background).len() && #[trigger] planned(
                true,
                cross_correlation,
                background,
            )[i].samples(role) ==> {
                &&& rendered_before(planned(true, cross_correlation, background), i, role)
                &&& planned(true, cross_correlation, background)[i].target != Target::Stage(role)
            },
{
    let plan = planned(true, cross_correlation, background);
    lemma_planned_passes(true, cross_correlation, background);
    assert forall|i: int, role: StageRole| 0 <= i < plan.len() && #[trigger] plan[i].samples(
        role,
    ) implies rendered_before(plan, i, role) && plan[i].target != Target::Stage(role) by {
        let k = choose|k: int|
            0 <= k < plan[i].bindings.len() && (#[trigger] plan[i].bindings[k]).1
                == Resource::Stage(role);
        if cross_correlation {
            if role == StageRole::Interpolated {
                assert(plan[0].target == Target::Stage(role));
            } else if role == StageRole::GammaLut {
                assert(plan[1].target == Target::Stage(role));
            } else if role == StageRole::Kerneled {
                assert(plan[2].target == Target::Stage(role));
            } else if role == StageRole::MinMaxAccumulator {
                assert(plan[3].target == Target::Stage(role));
            } else if role == StageRole::GammaCorrected {
                assert(plan[5].target == Target::Stage(role));
            }
        } else {
            if role == StageRole::Interpolated {
                assert(plan[0].target == Target::Stage(role));
            } else if role == StageRole::GammaLut {
                assert(plan[1].target == Target::Stage(role));
            } else if role == StageRole::GammaCorrected {
                assert(plan[2].target == Target::Stage(role));
            }
        }
    }
}

/// A frame whose filter chain is valid runs the output pass and nothing
/// else; one whose chain is stale runs the whole chain first.
pub proof fn lemma_tail_always_runs(stale: bool, cross_correlation: bool, background: [Scalar; 4])
    ensures
        planned(stale, cross_correlation, background).last() == output_pass(background),
        planned(stale, cross_correlation, background).len() == if !stale {
            1nat
        } else if cross_correlation {
            7nat
        } else {
            4nat
        },
{
    lemma_planned_passes(stale, cross_correlation, background);
}

} // verus!
