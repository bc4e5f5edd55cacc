use image_viewer::stages::{Allocation, RenderGroup, RenderStages, StageFormat, StageRole};

fn hdr(width: u32, height: u32) -> RenderGroup {
    RenderGroup { width, height, format: StageFormat::Hdr }
}

#[test]
fn render_group_reports_its_size() {
    let group = RenderGroup::new((640, 480), StageFormat::Display);
    assert_eq!(group.size(), (640, 480));
    assert_eq!(group.format, StageFormat::Display);
}

#[test]
fn new_stages_are_empty() {
    let stages = RenderStages::new();
    assert_eq!(stages.target_res, (0, 0));
    assert!(stages.interpolation.is_none());
    assert!(stages.kerneled.is_none());
    assert!(stages.min_max.is_none());
    assert!(stages.gamma_lut.is_none());
    assert!(stages.gamma.is_none());
    assert!(stages.output_staging.is_none());
    let default = RenderStages::default();
    assert_eq!(default.target_res, (0, 0));
    assert!(default.gamma.is_none());
}

#[test]
fn first_request_creates_every_target() {
    let mut stages = RenderStages::new();
    let created = stages.update_resolution((100, 50));
    assert_eq!(
        created,
        vec![
            Allocation { role: StageRole::Interpolated, group: hdr(100, 50) },
            Allocation { role: StageRole::Kerneled, group: hdr(100, 50) },
            Allocation { role: StageRole::MinMaxAccumulator, group: hdr(8, 8) },
            Allocation { role: StageRole::GammaLut, group: hdr(256, 1) },
            Allocation { role: StageRole::GammaCorrected, group: hdr(100, 50) },
            Allocation { role: StageRole::OutputStaging, group: hdr(100, 50) },
        ]
    );
    assert_eq!(stages.target_res, (100, 50));
    assert_eq!(*stages.interpolation(), hdr(100, 50));
    assert_eq!(*stages.kerneled(), hdr(100, 50));
    assert_eq!(*stages.min_max(), hdr(8, 8));
    assert_eq!(*stages.gamma_lut(), hdr(256, 1));
    assert_eq!(*stages.gamma(), hdr(100, 50));
    assert_eq!(*stages.output_staging(), hdr(100, 50));
}

#[test]
fn same_resolution_twice_creates_nothing() {
    let mut stages = RenderStages::new();
    stages.update_resolution((100, 100));
    let before = stages;
    let created = stages.update_resolution((100, 100));
    assert!(created.is_empty());
    assert_eq!(stages.target_res, before.target_res);
    assert_eq!(stages.interpolation, before.interpolation);
    assert_eq!(stages.kerneled, before.kerneled);
    assert_eq!(stages.min_max, before.min_max);
    assert_eq!(stages.gamma_lut, before.gamma_lut);
    assert_eq!(stages.gamma, before.gamma);
    assert_eq!(stages.output_staging, before.output_staging);
}

#[test]
fn new_resolution_keeps_the_fixed_targets() {
    let mut stages = RenderStages::new();
    stages.update_resolution((100, 100));
    let created = stages.update_resolution((50, 25));
    assert_eq!(
        created,
        vec![
            Allocation { role: StageRole::Interpolated, group: hdr(50, 25) },
            Allocation { role: StageRole::Kerneled, group: hdr(50, 25) },
            Allocation { role: StageRole::GammaCorrected, group: hdr(50, 25) },
            Allocation { role: StageRole::OutputStaging, group: hdr(50, 25) },
        ]
    );
    assert_eq!(stages.target_res, (50, 25));
    assert_eq!(*stages.interpolation(), hdr(50, 25));
    assert_eq!(*stages.min_max(), hdr(8, 8));
    assert_eq!(*stages.gamma_lut(), hdr(256, 1));
}

#[test]
fn one_dimension_changed_is_a_new_resolution() {
    let mut stages = RenderStages::new();
    stages.update_resolution((100, 100));
    assert_eq!(stages.update_resolution((100, 99)).len(), 4);
    assert_eq!(stages.update_resolution((99, 99)).len(), 4);
    assert_eq!(stages.update_resolution((99, 99)).len(), 0);
    assert_eq!(stages.update_resolution((1, 1)).len(), 4);
    assert_eq!(*stages.gamma(), hdr(1, 1));
}
