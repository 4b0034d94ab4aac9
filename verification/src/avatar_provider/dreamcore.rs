//! The synthetic-composite provider: a background image fetched from a
//! flaky upstream (retried outside the library, forever, at a fixed
//! pause), normalized to a square and run through the transformation
//! pipeline.

use vstd::prelude::*;
use crate::avatar_image::{crop_and_resize, fits_in_memory, Avatar};
use crate::transform::{pipeline_dims, TransformationPipeline, TransformationStage};

verus! {

/// How long to pause between attempts of the inner background fetch.
/// That loop is unbounded: the upstream is known-flaky and a retry is
/// always worthwhile, unlike the bounded per-cycle fetch budget.
pub const BACKGROUND_FETCH_RETRY_SECS: u64 = 1;

/// The side length every composite avatar is normalized to.
pub const COMPOSITE_SIZE: u32 = 512;

/// A provider that composes its avatar: a fetched background, cropped
/// and resized to a fixed square, then run through an ordered pipeline
/// of visual effects. Its only outside need is the background image,
/// which the caller fetches and hands in.
#[derive(Debug)]
pub struct DreamcoreProvider {
    pub pipeline: TransformationPipeline,
    pub query: String,
}

impl Default for DreamcoreProvider {
    /// The stock composite: a dreamcore-landscape background, its hue
    /// jittered and its colors inverted, in that order.
    fn default() -> (r: Self)
        ensures
            r.wf(),
            r.query@ == "dreamcore landscape"@,
            r.pipeline.stages() == seq![
                TransformationStage::RandomHue { min_degrees: -60i32, max_degrees: 60i32 },
                TransformationStage::Invert,
            ],
    {
        let mut pipeline = TransformationPipeline::new();
        pipeline.add_stage(TransformationStage::RandomHue { min_degrees: -60, max_degrees: 60 });
        pipeline.add_stage(TransformationStage::Invert);
        proof {
            assert(pipeline.stages() =~= seq![
                TransformationStage::RandomHue { min_degrees: -60i32, max_degrees: 60i32 },
                TransformationStage::Invert,
            ]);
        }
        DreamcoreProvider { pipeline, query: "dreamcore landscape".to_owned() }
    }
}

impl DreamcoreProvider {
    pub open spec fn wf(&self) -> bool {
        self.pipeline.wf()
    }

    /// Builds the avatar out of a fetched background: normalizes it to
    /// the fixed square, then applies every pipeline stage in order.
    pub fn compose_avatar(&self, background: Avatar) -> (r: Avatar)
        requires
            self.wf(),
        ensures
            (r.width(), r.height()) == pipeline_dims(
                self.pipeline.stages(),
                COMPOSITE_SIZE,
                COMPOSITE_SIZE,
            ),
    {
        proof {
            assert(fits_in_memory(COMPOSITE_SIZE, COMPOSITE_SIZE)) by {
                assert(crate::avatar_image::MAX_BYTES_PER_PIXEL * (COMPOSITE_SIZE as nat) * (
                COMPOSITE_SIZE as nat) == 4194304) by (nonlinear_arith);
            }
        }
        let mut av = crop_and_resize(&background, COMPOSITE_SIZE);
        self.pipeline.transform(&mut av);
        av
    }
}

} // verus!
