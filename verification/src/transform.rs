//! The multi-stage transformation pipeline: an ordered list of
//! independent visual mutations, composed at construction time and
//! applied to an image strictly in insertion order.

use vstd::prelude::*;
use crate::avatar_image::{
    crop_and_resize, fits_in_memory, hue_rotate_avatar, invert_avatar, random_in_range, Avatar,
};

verus! {

/// One visual mutation. Each stage is stateless: applying it depends
/// only on the current image and, for `RandomHue`, on fresh randomness.
#[derive(Clone, Copy, Debug, PartialEq, Eq, Structural)]
pub enum TransformationStage {
    /// Cut the largest centered square and scale it to this side length.
    CropResize { size: u32 },
    /// Rotate every pixel's hue by this many degrees.
    HueRotate { degrees: i32 },
    /// Rotate every pixel's hue by a number of degrees drawn uniformly
    /// from this inclusive range, fresh on every application.
    RandomHue { min_degrees: i32, max_degrees: i32 },
    /// Invert every pixel's channels.
    Invert,
}

/// A stage whose parameters can be applied to any image.
pub open spec fn stage_wf(stage: TransformationStage) -> bool {
    match stage {
        TransformationStage::CropResize { size } => fits_in_memory(size, size),
        TransformationStage::HueRotate { .. } => true,
        TransformationStage::RandomHue { min_degrees, max_degrees } => min_degrees <= max_degrees,
        TransformationStage::Invert => true,
    }
}

/// The dimensions a stage leaves an image with: cropping fixes them,
/// every other stage keeps them.
pub open spec fn stage_dims(stage: TransformationStage, width: u32, height: u32) -> (u32, u32) {
    match stage {
        TransformationStage::CropResize { size } => (size, size),
        _ => (width, height),
    }
}

/// The dimensions after applying the stages in order, first to last:
/// the left fold of `stage_dims`, so a permuted order generally gives
/// different dimensions.
pub open spec fn pipeline_dims(stages: Seq<TransformationStage>, width: u32, height: u32) -> (
    u32,
    u32,
)
    decreases stages.len(),
{
    if stages.len() == 0 {
        (width, height)
    } else {
        let first = stage_dims(stages[0], width, height);
        pipeline_dims(stages.drop_first(), first.0, first.1)
    }
}

/// Composition appends at the end and never reorders: running the
/// stages with one more appended is running the original stages first
/// and the appended stage on their output, exactly as a caller applying
/// the stages manually, one after another, would.
pub proof fn lemma_pipeline_composes(
    stages: Seq<TransformationStage>,
    last: TransformationStage,
    width: u32,
    height: u32,
)
    ensures
        pipeline_dims(stages.push(last), width, height) == ({
            let mid = pipeline_dims(stages, width, height);
            stage_dims(last, mid.0, mid.1)
        }),
    decreases stages.len(),
{
    let appended = stages.push(last);
    if stages.len() == 0 {
        let f = stage_dims(last, width, height);
        assert(appended[0] == last);
        assert(appended.drop_first() =~= stages);
        assert(pipeline_dims(appended, width, height) == pipeline_dims(stages, f.0, f.1));
        assert(pipeline_dims(stages, f.0, f.1) == f);
    } else {
        let first = stage_dims(stages[0], width, height);
        assert(appended[0] == stages[0]);
        assert(appended.drop_first() =~= stages.drop_first().push(last));
        assert(pipeline_dims(appended, width, height) == pipeline_dims(
            stages.drop_first().push(last),
            first.0,
            first.1,
        ));
        lemma_pipeline_composes(stages.drop_first(), last, first.0, first.1);
        assert(pipeline_dims(stages, width, height) == pipeline_dims(
            stages.drop_first(),
            first.0,
            first.1,
        ));
    }
}

/// Applies one stage to the image.
pub fn apply_stage(stage: &TransformationStage, av: &mut Avatar)
    requires
        stage_wf(*stage),
    ensures
        (final(av).width(), final(av).height()) == stage_dims(*stage, old(av).width(), old(av).height()),
{
    match stage {
        TransformationStage::CropResize { size } => {
            *av = crop_and_resize(av, *size);
        },
        TransformationStage::HueRotate { degrees } => {
            *av = hue_rotate_avatar(av, *degrees);
        },
        TransformationStage::RandomHue { min_degrees, max_degrees } => {
            let degrees = random_in_range(*min_degrees, *max_degrees);
            *av = hue_rotate_avatar(av, degrees);
        },
        TransformationStage::Invert => {
            invert_avatar(av);
        },
    }
}

/// An ordered sequence of stages, composed once at construction and
/// immutable thereafter. `transform` applies every stage exactly once,
/// in insertion order, never skipping, reordering or parallelizing:
/// applying the pipeline is the same as applying its stages one by one.
#[derive(Debug)]
pub struct TransformationPipeline {
    stages: Vec<TransformationStage>,
}

impl TransformationPipeline {
    /// The stages, in the order they are applied.
    pub closed spec fn stages(&self) -> Seq<TransformationStage> {
        self.stages@
    }

    /// Every stage's parameters are applicable.
    pub open spec fn wf(&self) -> bool {
        forall|i: int| 0 <= i < self.stages().len() ==> stage_wf(#[trigger] self.stages()[i])
    }

    /// An empty pipeline: applying it changes nothing.
    pub fn new() -> (r: Self)
        ensures
            r.wf(),
            r.stages() == Seq::<TransformationStage>::empty(),
    {
        TransformationPipeline { stages: Vec::new() }
    }

    /// Appends a stage; it will run after every stage already present.
    pub fn add_stage(&mut self, stage: TransformationStage)
        requires
            old(self).wf(),
            stage_wf(stage),
        ensures
            final(self).wf(),
            final(self).stages() == old(self).stages().push(stage),
    {
        self.stages.push(stage);
    }

    /// Applies every stage to the image, in insertion order. The image
    /// ends with the dimensions of the in-order fold over the stages,
    /// exactly as it would after one `apply_stage` call per stage, first
    /// to last.
    pub fn transform(&self, av: &mut Avatar)
        requires
            self.wf(),
        ensures
            (final(av).width(), final(av).height()) == pipeline_dims(
                self.stages(),
                old(av).width(),
                old(av).height(),
            ),
    {
        let ghost all = self.stages();
        proof {
            assert(all.subrange(0, all.len() as int) =~= all);
        }
        let mut k: usize = 0;
        while k < self.stages.len()
            invariant
                self.wf(),
                all == self.stages(),
                0 <= k <= all.len(),
                pipeline_dims(all, old(av).width(), old(av).height()) == pipeline_dims(
                    all.subrange(k as int, all.len() as int),
                    av.width(),
                    av.height(),
                ),
            decreases all.len() - k,
        {
            let stage = self.stages[k];
            proof {
                let rest = all.subrange(k as int, all.len() as int);
                assert(rest[0] == all[k as int]);
                assert(rest.drop_first() =~= all.subrange(k as int + 1, all.len() as int));
            }
            apply_stage(&stage, av);
            k += 1;
        }
        proof {
            assert(all.subrange(all.len() as int, all.len() as int) =~= Seq::<
                TransformationStage,
            >::empty());
        }
    }
}

} // verus!
