//! The transformation pipeline: applying a pipeline equals applying its
//! stages one by one, in insertion order, and order is load-bearing.

use tg_avatar_changer_bot::avatar_image::{encode_jpeg, solid_avatar, Rgba};
use tg_avatar_changer_bot::avatar_provider::dreamcore::{
    DreamcoreProvider, BACKGROUND_FETCH_RETRY_SECS, COMPOSITE_SIZE,
};
use tg_avatar_changer_bot::transform::{apply_stage, TransformationPipeline, TransformationStage};

fn test_color() -> Rgba {
    Rgba { r: 40, g: 120, b: 200, a: 255 }
}

#[test]
fn pipeline_equals_manual_stage_application() {
    let stages = [
        TransformationStage::HueRotate { degrees: 90 },
        TransformationStage::Invert,
        TransformationStage::CropResize { size: 64 },
    ];

    let mut pipeline = TransformationPipeline::new();
    for s in stages.iter() {
        pipeline.add_stage(*s);
    }

    let mut through_pipeline = solid_avatar(100, &test_color());
    pipeline.transform(&mut through_pipeline);

    let mut by_hand = solid_avatar(100, &test_color());
    for s in stages.iter() {
        apply_stage(s, &mut by_hand);
    }

    assert_eq!(through_pipeline.width(), 64);
    assert_eq!(through_pipeline.height(), 64);
    assert_eq!(by_hand.width(), 64);
    assert_eq!(by_hand.height(), 64);
    assert_eq!(
        encode_jpeg(&through_pipeline).unwrap(),
        encode_jpeg(&by_hand).unwrap()
    );
}

#[test]
fn pipeline_order_is_not_permuted() {
    let mut first_then_second = TransformationPipeline::new();
    first_then_second.add_stage(TransformationStage::CropResize { size: 50 });
    first_then_second.add_stage(TransformationStage::CropResize { size: 30 });
    let mut av = solid_avatar(100, &test_color());
    first_then_second.transform(&mut av);
    assert_eq!((av.width(), av.height()), (30, 30));

    let mut second_then_first = TransformationPipeline::new();
    second_then_first.add_stage(TransformationStage::CropResize { size: 30 });
    second_then_first.add_stage(TransformationStage::CropResize { size: 50 });
    let mut av = solid_avatar(100, &test_color());
    second_then_first.transform(&mut av);
    assert_eq!((av.width(), av.height()), (50, 50));
}

#[test]
fn empty_pipeline_changes_nothing() {
    let pipeline = TransformationPipeline::new();
    let mut av = solid_avatar(48, &test_color());
    let plain = solid_avatar(48, &test_color());
    pipeline.transform(&mut av);
    assert_eq!((av.width(), av.height()), (48, 48));
    assert_eq!(encode_jpeg(&av).unwrap(), encode_jpeg(&plain).unwrap());
}

#[test]
fn dreamcore_composes_to_fixed_square() {
    let provider = DreamcoreProvider::default();
    assert_eq!(provider.query, "dreamcore landscape");
    assert_eq!(BACKGROUND_FETCH_RETRY_SECS, 1);
    assert_eq!(COMPOSITE_SIZE, 512);
    let background = solid_avatar(800, &test_color());
    let composed = provider.compose_avatar(background);
    assert_eq!((composed.width(), composed.height()), (512, 512));

    // a wide background is normalized just the same
    let background = solid_avatar(97, &test_color());
    let composed = provider.compose_avatar(background);
    assert_eq!((composed.width(), composed.height()), (512, 512));
}
