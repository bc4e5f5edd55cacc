use image_viewer::pipelines::{
    BindingLayout, Pass, Pipelines, Resource, TextureBindGroupLayouts,
};
use image_viewer::stages::{StageFormat, StageRole};

#[test]
fn texture_layouts_differ_in_filtering() {
    let layouts = TextureBindGroupLayouts::create();
    assert!(layouts.bgra8unormsrgb.filterable);
    assert!(!layouts.rgba32float.filterable);
}

#[test]
fn every_pass_has_its_shader_and_label() {
    assert_eq!(Pass::Interpolation.shader(), "./src/shader/interpolation.wgsl");
    assert_eq!(Pass::Kernel.shader(), "./src/shader/kernel.wgsl");
    assert_eq!(Pass::MinMax.shader(), "./src/shader/min_max.wgsl");
    assert_eq!(Pass::Normalize.shader(), "./src/shader/normalize.wgsl");
    assert_eq!(Pass::GammaLut.shader(), "./src/shader/gamma_lookup.wgsl");
    assert_eq!(Pass::Gamma.shader(), "./src/shader/gamma_correction.wgsl");
    assert_eq!(Pass::Output.shader(), "./src/shader/output.wgsl");
    assert_eq!(Pass::Interpolation.label(), "interpolation");
    assert_eq!(Pass::Kernel.label(), "kernel");
    assert_eq!(Pass::MinMax.label(), "min_max");
    assert_eq!(Pass::Normalize.label(), "normalize");
    assert_eq!(Pass::GammaLut.label(), "gamma_lut");
    assert_eq!(Pass::Gamma.label(), "gamma");
    assert_eq!(Pass::Output.label(), "output");
}

#[test]
fn binding_signatures() {
    let image = BindingLayout::UnfilteredTexture;
    let parameters = BindingLayout::Parameters;
    assert_eq!(Pass::Interpolation.layout(), vec![BindingLayout::FilteredTexture, parameters]);
    assert_eq!(Pass::Kernel.layout(), vec![image, parameters, image]);
    assert_eq!(Pass::MinMax.layout(), vec![image, parameters, image]);
    assert_eq!(Pass::Normalize.layout(), vec![image, parameters, image]);
    assert_eq!(Pass::GammaLut.layout(), vec![parameters]);
    assert_eq!(Pass::Gamma.layout(), vec![image, parameters, image]);
    assert_eq!(Pass::Output.layout(), vec![image, parameters]);
}

#[test]
fn resources_have_the_layout_of_their_bind_group() {
    assert_eq!(Resource::Source.layout(), BindingLayout::FilteredTexture);
    assert_eq!(Resource::KernelWeights.layout(), BindingLayout::UnfilteredTexture);
    assert_eq!(Resource::Parameters.layout(), BindingLayout::Parameters);
    for role in [
        StageRole::Interpolated,
        StageRole::Kerneled,
        StageRole::MinMaxAccumulator,
        StageRole::GammaLut,
        StageRole::GammaCorrected,
        StageRole::OutputStaging,
    ] {
        assert_eq!(Resource::Stage(role).layout(), BindingLayout::UnfilteredTexture);
    }
}

#[test]
fn pipelines_for_a_display_surface() {
    let pipelines = Pipelines::new(StageFormat::Display);
    let all = [
        (&pipelines.interpolation, Pass::Interpolation),
        (&pipelines.kernel, Pass::Kernel),
        (&pipelines.min_max, Pass::MinMax),
        (&pipelines.normalize, Pass::Normalize),
        (&pipelines.gamma_lut, Pass::GammaLut),
        (&pipelines.gamma, Pass::Gamma),
        (&pipelines.output, Pass::Output),
    ];
    for (pipeline, pass) in all {
        assert_eq!(pipeline.pass, pass);
        assert_eq!(pipeline.shader, pass.shader());
        assert_eq!(pipeline.label, pass.label());
        assert_eq!(pipeline.layout, pass.layout());
        if pass == Pass::Output {
            assert_eq!(pipeline.target_format, StageFormat::Display);
            assert!(pipeline.blend);
        } else {
            assert_eq!(pipeline.target_format, StageFormat::Hdr);
            assert!(!pipeline.blend);
        }
    }
    assert!(pipelines.bind_group_layouts.bgra8unormsrgb.filterable);
    assert!(!pipelines.bind_group_layouts.rgba32float.filterable);
}

#[test]
fn high_precision_targets_do_not_blend() {
    let output = Pipelines::create_pipeline(Pass::Output, StageFormat::Hdr);
    assert_eq!(output.target_format, StageFormat::Hdr);
    assert!(!output.blend);
    let pipelines = Pipelines::new(StageFormat::Hdr);
    assert!(!pipelines.output.blend);
    let gamma = Pipelines::create_pipeline(Pass::Gamma, StageFormat::Display);
    assert!(gamma.blend);
    assert_eq!(gamma.label, "gamma");
}
