use image_viewer::context::{
    GraphicsContext, Recovery, SurfaceError, SurfaceSize, UiFrame, KERNEL_BYTES_PER_ROW,
    KERNEL_SIDE,
};
use image_viewer::frame::{RenderPass, Target};
use image_viewer::image_display::{laplacian, ImageDisplay, ScalingMode};
use image_viewer::input::{CursorEvent, InputAction, InputContext};
use image_viewer::pipelines::{Binding, Pass, Resource};
use image_viewer::scalar::Scalar;
use image_viewer::stages::{Allocation, RenderGroup, StageFormat, StageRole};
use image_viewer::texture::{LoadError, Texture};

fn s(x: f32) -> Scalar {
    Scalar::from_bits(x.to_bits())
}

fn floats(values: &[Scalar]) -> Vec<f32> {
    values.iter().map(|v| f32::from_bits(v.bits)).collect()
}

fn source(width: u32, height: u32) -> Texture {
    Texture::from_image(width, height, vec![7; (4 * width * height) as usize], 8192).unwrap()
}

fn viewer(width: u32, height: u32) -> GraphicsContext {
    let mut context =
        GraphicsContext::new(1000, 1000, 8192, StageFormat::Display);
    context.set_source(&source(width, height));
    context
}

fn passes_of(passes: &[RenderPass]) -> Vec<Pass> {
    passes.iter().map(|p| p.pass).collect()
}

fn quiet(edited: ImageDisplay) -> UiFrame {
    UiFrame { edited, update_kernel: false, reset_default: false, pointer_over_ui: false }
}

fn hdr(width: u32, height: u32) -> RenderGroup {
    RenderGroup { width, height, format: StageFormat::Hdr }
}

#[test]
fn new_context_starts_stale_and_empty() {
    let context = GraphicsContext::new(640, 480, 4096, StageFormat::Display);
    assert_eq!(context.config, SurfaceSize { width: 640, height: 480 });
    assert_eq!(context.output_format, StageFormat::Display);
    assert_eq!(context.max_texture_dimension, 4096);
    assert_eq!(context.stages.target_res, (0, 0));
    assert!(context.stages.gamma.is_none());
    assert!(context.image_display.changed);
    assert!(*context.image_display() == ImageDisplay::from_window(640, 480));
    assert_eq!(context.image_display.buffer.len(), 160);
    assert!(context.source_size.is_none());
    assert!(!context.input.mouse_pressed);
    assert!(!context.input.mouse_over_ui);
    assert_eq!(floats(&context.input.last_mouse_pos), vec![0.0, 0.0]);
    assert_eq!(context.pipelines.output.target_format, StageFormat::Display);
}

#[test]
fn scale_one_keeps_the_size() {
    let mut context = viewer(100, 100);
    assert_eq!(context.scaled_texture_size(), (100, 100));
    let frame = context.render();
    assert_eq!(context.stages.target_res, (100, 100));
    assert_eq!(*context.stages.interpolation(), hdr(100, 100));
    assert_eq!(*context.stages.gamma(), hdr(100, 100));
    assert_eq!(
        passes_of(&frame.passes),
        vec![Pass::Interpolation, Pass::GammaLut, Pass::Gamma, Pass::Output]
    );
    // Scale 1, no pan, gamma 1 and no cross-correlation are what the shaders read.
    let record = &context.image_display.buffer;
    assert_eq!(&record[8..12], &0.0f32.to_le_bytes());
    assert_eq!(&record[12..16], &0.0f32.to_le_bytes());
    assert_eq!(&record[16..20], &1.0f32.to_le_bytes());
    assert_eq!(&record[20..24], &1.0f32.to_le_bytes());
    assert_eq!(&record[28..32], &0u32.to_le_bytes());
}

#[test]
fn half_scale_halves_the_size() {
    let mut context = viewer(100, 100);
    context.image_display_mut().size = s(0.5);
    context.image_display_mut().scaling_mode = ScalingMode::NearestNeighbour;
    assert_eq!(context.scaled_texture_size(), (50, 50));
    let frame = context.render();
    assert_eq!(context.stages.target_res, (50, 50));
    assert_eq!(frame.created[0], Allocation { role: StageRole::Interpolated, group: hdr(50, 50) });
    let record = &context.image_display.buffer;
    assert_eq!(&record[16..20], &0.5f32.to_le_bytes());
    assert_eq!(&record[24..28], &0u32.to_le_bytes());
}

#[test]
fn scaled_size_rounds_down_each_dimension() {
    let mut context = viewer(101, 33);
    context.image_display_mut().size = s(0.5);
    assert_eq!(context.scaled_texture_size(), (50, 16));
    context.image_display_mut().size = s(1.5);
    assert_eq!(context.scaled_texture_size(), (151, 49));
    context.image_display_mut().size = s(3.0);
    assert_eq!(context.scaled_texture_size(), (303, 99));
}

#[test]
fn scaled_size_is_at_least_one() {
    let mut context = viewer(100, 3);
    context.image_display_mut().size = s(0.001);
    assert_eq!(context.scaled_texture_size(), (1, 1));
    context.image_display_mut().size = s(0.0);
    assert_eq!(context.scaled_texture_size(), (1, 1));
    context.image_display_mut().size = s(-2.0);
    assert_eq!(context.scaled_texture_size(), (1, 1));
    context.image_display_mut().size = s(f32::NAN);
    assert_eq!(context.scaled_texture_size(), (1, 1));
    context.image_display_mut().size = s(0.1);
    assert_eq!(context.scaled_texture_size(), (10, 1));
}

#[test]
fn scaled_size_is_clamped_to_the_device_limit() {
    let mut context = viewer(100, 50);
    context.image_display_mut().size = s(81.92);
    assert_eq!(context.scaled_texture_size(), (8191, 4095));
    context.image_display_mut().size = s(82.0);
    assert_eq!(context.scaled_texture_size(), (8192, 4100));
    context.image_display_mut().size = s(1000.0);
    assert_eq!(context.scaled_texture_size(), (8192, 8192));
    context.image_display_mut().size = s(f32::INFINITY);
    assert_eq!(context.scaled_texture_size(), (8192, 8192));
    assert_eq!(GraphicsContext::scaled_extent(100, s(2.0), 150), 150);
    assert_eq!(GraphicsContext::scaled_extent(100, s(2.0), 0), 1);
    assert_eq!(GraphicsContext::scaled_extent(100, s(2.0), 200), 200);
    assert_eq!(GraphicsContext::scaled_extent(100, s(2.0), 201), 200);
}

#[test]
fn scaled_size_grows_with_the_scale() {
    let mut context = viewer(640, 480);
    let mut last = (0, 0);
    for scale in [0.0f32, 0.0001, 0.01, 0.3, 0.5, 0.9999, 1.0, 1.0001, 2.0, 12.7, 12.8, 13.0, 500.0]
    {
        context.image_display_mut().size = s(scale);
        let now = context.scaled_texture_size();
        assert!(last.0 <= now.0 && last.1 <= now.1);
        last = now;
    }
    assert_eq!(last, (8192, 8192));
}

#[test]
fn first_frame_creates_the_targets_and_runs_the_chain() {
    let mut context = viewer(100, 100);
    let frame = context.render();
    assert_eq!(frame.created.len(), 6);
    assert_eq!(frame.passes.len(), 4);
    assert!(!context.image_display.changed);

    let interpolation = &frame.passes[0];
    assert_eq!(interpolation.pass, Pass::Interpolation);
    assert_eq!(interpolation.target, Target::Stage(StageRole::Interpolated));
    assert_eq!(
        interpolation.bindings,
        vec![Binding(0, Resource::Source), Binding(1, Resource::Parameters)]
    );
    assert!(interpolation.clear.is_none());

    let lut = &frame.passes[1];
    assert_eq!(lut.pass, Pass::GammaLut);
    assert_eq!(lut.target, Target::Stage(StageRole::GammaLut));
    assert_eq!(lut.bindings, vec![Binding(0, Resource::Parameters)]);
    assert!(lut.clear.is_none());

    let gamma = &frame.passes[2];
    assert_eq!(gamma.pass, Pass::Gamma);
    assert_eq!(gamma.target, Target::Stage(StageRole::GammaCorrected));
    assert_eq!(
        gamma.bindings,
        vec![
            Binding(0, Resource::Stage(StageRole::Interpolated)),
            Binding(1, Resource::Parameters),
            Binding(2, Resource::Stage(StageRole::GammaLut)),
        ]
    );
    assert!(gamma.clear.is_none());

    let output = &frame.passes[3];
    assert_eq!(output.pass, Pass::Output);
    assert_eq!(output.target, Target::Surface);
    assert_eq!(
        output.bindings,
        vec![
            Binding(0, Resource::Stage(StageRole::GammaCorrected)),
            Binding(1, Resource::Parameters),
        ]
    );
    assert_eq!(floats(&output.clear.unwrap()), vec![0.0, 0.0, 0.0, 1.0]);
}

#[test]
fn cross_correlation_adds_three_passes_in_order() {
    let mut context = viewer(100, 100);
    context.image_display_mut().cross_correlation = true;
    let frame = context.render();
    assert_eq!(
        passes_of(&frame.passes),
        vec![
            Pass::Interpolation,
            Pass::GammaLut,
            Pass::Kernel,
            Pass::MinMax,
            Pass::Normalize,
            Pass::Gamma,
            Pass::Output,
        ]
    );
    let kernel = &frame.passes[2];
    assert_eq!(kernel.target, Target::Stage(StageRole::Kerneled));
    assert_eq!(
        kernel.bindings,
        vec![
            Binding(0, Resource::Stage(StageRole::Interpolated)),
            Binding(1, Resource::Parameters),
            Binding(2, Resource::KernelWeights),
        ]
    );
    let min_max = &frame.passes[3];
    assert_eq!(min_max.target, Target::Stage(StageRole::MinMaxAccumulator));
    assert_eq!(
        min_max.bindings,
        vec![
            Binding(0, Resource::Stage(StageRole::Kerneled)),
            Binding(1, Resource::Parameters),
            Binding(2, Resource::KernelWeights),
        ]
    );
    let normalize = &frame.passes[4];
    assert_eq!(normalize.target, Target::Stage(StageRole::Interpolated));
    assert_eq!(
        normalize.bindings,
        vec![
            Binding(0, Resource::Stage(StageRole::Kerneled)),
            Binding(1, Resource::Parameters),
            Binding(2, Resource::Stage(StageRole::MinMaxAccumulator)),
        ]
    );
    for pass in &frame.passes[..6] {
        assert!(pass.clear.is_none());
    }
}

#[test]
fn every_pass_binds_what_its_program_expects() {
    for cross_correlation in [false, true] {
        let mut context = viewer(64, 64);
        context.image_display_mut().cross_correlation = cross_correlation;
        let frame = context.render();
        for pass in &frame.passes {
            let signature = pass.pass.layout();
            assert_eq!(pass.bindings.len(), signature.len());
            for (slot, binding) in pass.bindings.iter().enumerate() {
                assert_eq!(binding.0 as usize, slot);
                assert_eq!(binding.1.layout(), signature[slot]);
            }
            assert_eq!(pass.target == Target::Surface, pass.pass == Pass::Output);
        }
    }
}

#[test]
fn every_sampled_stage_was_rendered_before() {
    let mut context = viewer(64, 64);
    context.image_display_mut().cross_correlation = true;
    let frame = context.render();
    for (i, pass) in frame.passes.iter().enumerate() {
        for binding in &pass.bindings {
            if let Resource::Stage(role) = binding.1 {
                assert!(frame.passes[..i].iter().any(|p| p.target == Target::Stage(role)));
                assert!(pass.target != Target::Stage(role));
            }
        }
    }
}

#[test]
fn an_idle_frame_only_composes_the_output() {
    let mut context = viewer(100, 100);
    context.render();
    let stages = context.stages;
    for _ in 0..3 {
        let frame = context.render();
        assert!(frame.created.is_empty());
        assert_eq!(passes_of(&frame.passes), vec![Pass::Output]);
        assert!(!context.image_display.changed);
        assert_eq!(context.stages.target_res, stages.target_res);
        assert_eq!(context.stages.interpolation, stages.interpolation);
    }
}

#[test]
fn output_clears_to_the_background_colour() {
    let mut context = viewer(10, 10);
    context.image_display_mut().background_colour = [s(0.25), s(0.5), s(0.75), s(1.0)];
    let frame = context.render();
    assert_eq!(floats(&frame.passes.last().unwrap().clear.unwrap()), vec![0.25, 0.5, 0.75, 1.0]);
    context.image_display_mut().background_colour = [s(1.0), s(0.0), s(0.0), s(1.0)];
    let frame = context.render();
    assert_eq!(frame.passes.len(), 1);
    assert_eq!(floats(&frame.passes[0].clear.unwrap()), vec![1.0, 0.0, 0.0, 1.0]);
}

#[test]
fn the_record_is_uploaded_only_when_it_changed() {
    let mut context = viewer(10, 10);
    assert!(!context.render().upload);
    assert!(!context.render().upload);
    context.image_display_mut().gamma = s(2.0);
    context.image_display.set_changed();
    assert!(context.render().upload);
    assert!(!context.render().upload);
    context.image_display_mut().pos[1] = s(1.0);
    assert!(context.render().upload);
    context.image_display_mut().pos[1] = s(1.0);
    assert!(!context.render().upload);
    context.image_display.buffer[0] ^= 1;
    assert!(context.render().upload);
    assert!(!context.render().upload);
}

#[test]
fn render_binds_the_current_record() {
    let mut context = viewer(10, 10);
    context.render();
    context.image_display_mut().pos = [s(5.0), s(-6.0)];
    let frame = context.render();
    assert!(frame.upload);
    assert_eq!(frame.passes.len(), 1);
    assert_eq!(context.image_display.buffer, context.image_display().into_raw().to_bytes());
    assert_eq!(&context.image_display.buffer[8..12], &5.0f32.to_le_bytes());
    assert_eq!(&context.image_display.buffer[12..16], &(-6.0f32).to_le_bytes());
}

#[test]
fn a_new_scale_recreates_only_the_sized_targets() {
    let mut context = viewer(100, 100);
    context.render();
    context.image_display_mut().size = s(2.0);
    context.image_display.set_changed();
    let frame = context.render();
    assert_eq!(
        frame.created,
        vec![
            Allocation { role: StageRole::Interpolated, group: hdr(200, 200) },
            Allocation { role: StageRole::Kerneled, group: hdr(200, 200) },
            Allocation { role: StageRole::GammaCorrected, group: hdr(200, 200) },
            Allocation { role: StageRole::OutputStaging, group: hdr(200, 200) },
        ]
    );
    assert_eq!(frame.passes.len(), 4);
}

#[test]
fn a_new_source_of_the_same_size_reuses_the_targets() {
    let mut context = viewer(100, 100);
    context.render();
    context.set_source(&source(100, 100));
    assert!(context.image_display.changed);
    let frame = context.render();
    assert!(frame.created.is_empty());
    assert_eq!(frame.passes.len(), 4);
    context.set_source(&source(30, 20));
    let frame = context.render();
    assert_eq!(frame.created.len(), 4);
    assert_eq!(context.stages.target_res, (30, 20));
}

#[test]
fn toggling_cross_correlation_recomputes_exactly_twice() {
    let mut context = viewer(100, 100);
    context.render();
    let mut recomputes = 0;

    let mut on = *context.image_display();
    on.cross_correlation = true;
    assert!(context.render_egui(quiet(on)).is_none());
    assert!(context.image_display.changed);
    let frame = context.render();
    if frame.passes.len() > 1 {
        recomputes += 1;
    }
    assert_eq!(frame.passes.len(), 7);

    let frame = context.render();
    if frame.passes.len() > 1 {
        recomputes += 1;
    }

    let mut off = *context.image_display();
    off.cross_correlation = false;
    assert!(context.render_egui(quiet(off)).is_none());
    assert!(context.image_display.changed);
    let frame = context.render();
    if frame.passes.len() > 1 {
        recomputes += 1;
    }
    assert_eq!(frame.passes.len(), 4);

    for _ in 0..3 {
        let same = *context.image_display();
        assert!(context.render_egui(quiet(same)).is_none());
        assert!(!context.image_display.changed);
        let frame = context.render();
        if frame.passes.len() > 1 {
            recomputes += 1;
        }
    }
    assert_eq!(recomputes, 2);
}

#[test]
fn panel_edits_make_the_chain_stale() {
    let mut context = viewer(100, 100);
    context.render();
    let mut edited = *context.image_display();
    edited.gamma = s(1.8);
    let kernel = context.render_egui(UiFrame {
        edited,
        update_kernel: false,
        reset_default: false,
        pointer_over_ui: true,
    });
    assert!(kernel.is_none());
    assert!(context.image_display.changed);
    assert!(context.input.mouse_over_ui);
    assert_eq!(f32::from_bits(context.image_display().gamma.bits), 1.8);
    context.render();
    context.render_egui(quiet(edited));
    assert!(!context.image_display.changed);
    assert!(!context.input.mouse_over_ui);
}

#[test]
fn panning_in_the_panel_keeps_the_chain() {
    let mut context = viewer(100, 100);
    context.render();
    let mut edited = *context.image_display();
    edited.pos = [s(12.0), s(-3.0)];
    assert!(context.render_egui(quiet(edited)).is_none());
    assert!(!context.image_display.changed);
    assert_eq!(floats(&context.image_display().pos), vec![12.0, -3.0]);
    assert_eq!(context.render().passes.len(), 1);
}

#[test]
fn an_edited_kernel_is_encoded_again() {
    let mut context = viewer(100, 100);
    context.render();
    let mut edited = *context.image_display();
    edited.kernel[12] = s(5.0);
    let kernel = context.render_egui(quiet(edited)).unwrap();
    assert_eq!(kernel, GraphicsContext::write_kernel_texture(&edited.kernel));
    assert_eq!(&kernel[16 * 12..16 * 12 + 4], &5.0f32.to_le_bytes());
    assert!(context.image_display.changed);
}

#[test]
fn applying_the_kernel_encodes_it_and_makes_the_chain_stale() {
    let mut context = viewer(100, 100);
    context.render();
    let same = *context.image_display();
    let kernel = context.render_egui(UiFrame {
        edited: same,
        update_kernel: true,
        reset_default: false,
        pointer_over_ui: false,
    });
    assert_eq!(kernel.unwrap(), GraphicsContext::write_kernel_texture(&laplacian()));
    assert!(context.image_display.changed);
}

#[test]
fn restoring_the_defaults_resets_and_encodes_the_kernel() {
    let mut context = viewer(100, 100);
    let mut current = *context.image_display();
    current.size = s(2.0);
    current.kernel = [s(1.0); 25];
    context.render_egui(quiet(current));
    context.render();
    let mut edited = current;
    edited.gamma = s(0.3);
    let kernel = context.render_egui(UiFrame {
        edited,
        update_kernel: false,
        reset_default: true,
        pointer_over_ui: false,
    });
    assert!(*context.image_display() == ImageDisplay::default());
    assert_eq!(kernel.unwrap(), GraphicsContext::write_kernel_texture(&laplacian()));
    assert!(context.image_display.changed);
    let frame = context.render();
    assert_eq!(context.stages.target_res, (100, 100));
    assert_eq!(frame.created.len(), 4);
}

#[test]
fn restoring_defaults_that_are_in_place_keeps_the_chain() {
    let mut context =
        GraphicsContext::new(1000, 1000, 8192, StageFormat::Display);
    context.set_source(&source(10, 10));
    context.render();
    let same = *context.image_display();
    let kernel = context.render_egui(UiFrame {
        edited: same,
        update_kernel: false,
        reset_default: true,
        pointer_over_ui: false,
    });
    assert!(kernel.is_some());
    assert!(!context.image_display.changed);
}

#[test]
fn kernel_image_holds_each_weight_in_the_first_channel() {
    let mut weights = [s(0.0); 25];
    for i in 0..25 {
        weights[i] = s(i as f32 * 0.5 - 300.0);
    }
    let bytes = GraphicsContext::write_kernel_texture(&weights);
    assert_eq!(KERNEL_SIDE, 5);
    assert_eq!(KERNEL_BYTES_PER_ROW, 4 * 4 * 5);
    assert_eq!(bytes.len(), (KERNEL_BYTES_PER_ROW * KERNEL_SIDE) as usize);
    for i in 0..25 {
        let texel = &bytes[16 * i..16 * i + 16];
        assert_eq!(&texel[..4], &(i as f32 * 0.5 - 300.0).to_le_bytes());
        assert_eq!(&texel[4..], &[0u8; 12]);
    }
}

#[test]
fn resize_takes_the_new_size() {
    let mut context = viewer(10, 10);
    context.render();
    context.resize(800, 600);
    assert_eq!(context.config, SurfaceSize { width: 800, height: 600 });
    assert_eq!(floats(&context.image_display().window_size), vec![800.0, 600.0]);
    assert!(!context.image_display.changed);
}

#[test]
fn resize_ignores_a_zero_dimension() {
    let mut context = viewer(10, 10);
    context.resize(0, 600);
    context.resize(800, 0);
    context.resize(0, 0);
    assert_eq!(context.config, SurfaceSize { width: 1000, height: 1000 });
    assert_eq!(floats(&context.image_display().window_size), vec![1000.0, 1000.0]);
}

#[test]
fn load_texture_installs_the_decoded_image() {
    let buffer = image::RgbaImage::from_raw(6, 4, vec![9; 96]).unwrap();
    let mut file = std::io::Cursor::new(Vec::new());
    image::DynamicImage::ImageRgba8(buffer)
        .write_to(&mut file, image::ImageOutputFormat::Png)
        .unwrap();
    let mut context = viewer(100, 100);
    context.render();
    let texture = context.load_texture(&file.into_inner()).unwrap();
    assert_eq!(texture.size(), (6, 4));
    assert_eq!(texture.pixels, vec![9; 96]);
    assert_eq!(context.source_size, Some((6, 4)));
    assert!(context.image_display.changed);
    assert_eq!(context.stages.target_res, (100, 100));
    let frame = context.render();
    assert_eq!(context.stages.target_res, (6, 4));
    assert_eq!(frame.passes.len(), 4);
}

#[test]
fn a_failed_load_keeps_the_source() {
    let mut context = viewer(100, 100);
    context.render();
    assert!(matches!(context.load_texture(b"garbage").unwrap_err(), LoadError::Decode(_)));
    assert_eq!(context.source_size, Some((100, 100)));
    assert!(!context.image_display.changed);
    assert_eq!(context.render().passes.len(), 1);
}

#[test]
fn a_press_starts_a_pan_unless_over_the_panel() {
    let mut context = viewer(10, 10);
    context.render();
    assert!(matches!(context.process_input(CursorEvent::Position([s(5.0), s(5.0)])), InputAction::Nothing));
    assert!(matches!(context.process_input(CursorEvent::ButtonPressed), InputAction::Nothing));
    assert!(context.input.mouse_pressed);
    match context.process_input(CursorEvent::Position([s(8.0), s(1.0)])) {
        InputAction::Pan { from, to } => {
            assert_eq!(floats(&from), vec![5.0, 5.0]);
            assert_eq!(floats(&to), vec![8.0, 1.0]);
        }
        _ => panic!("a move with the button held pans"),
    }
    assert_eq!(floats(&context.input.last_mouse_pos), vec![8.0, 1.0]);
    assert!(!context.image_display.changed);
    assert!(matches!(context.process_input(CursorEvent::ButtonReleased), InputAction::Nothing));
    assert!(!context.input.mouse_pressed);
    assert!(matches!(context.process_input(CursorEvent::Position([s(9.0), s(9.0)])), InputAction::Nothing));

    context.input.mouse_over_ui = true;
    context.process_input(CursorEvent::ButtonPressed);
    assert!(!context.input.mouse_pressed);
    assert!(matches!(context.process_input(CursorEvent::Position([s(1.0), s(1.0)])), InputAction::Nothing));
}

#[test]
fn a_scroll_zooms_and_makes_the_chain_stale() {
    let mut context = viewer(10, 10);
    context.render();
    match context.process_input(CursorEvent::Scroll(s(-1.0))) {
        InputAction::Zoom { scroll } => assert_eq!(f32::from_bits(scroll.bits), -1.0),
        _ => panic!("a turn of the wheel zooms"),
    }
    assert!(context.image_display.changed);
    assert_eq!(context.render().passes.len(), 4);
}

#[test]
fn input_context_handles_events() {
    let mut input = InputContext::default();
    assert!(!input.mouse_pressed);
    assert!(!input.mouse_over_ui);
    assert_eq!(floats(&input.last_mouse_pos), vec![0.0, 0.0]);
    assert!(matches!(input.handle(CursorEvent::ButtonPressed), InputAction::Nothing));
    assert!(input.mouse_pressed);
    assert!(matches!(input.handle(CursorEvent::Scroll(s(1.0))), InputAction::Zoom { .. }));
    assert!(input.mouse_pressed);
    match input.handle(CursorEvent::Position([s(2.0), s(3.0)])) {
        InputAction::Pan { from, to } => {
            assert_eq!(floats(&from), vec![0.0, 0.0]);
            assert_eq!(floats(&to), vec![2.0, 3.0]);
        }
        _ => panic!("a move with the button held pans"),
    }
    input.handle(CursorEvent::ButtonReleased);
    assert!(!input.mouse_pressed);
    assert_eq!(floats(&input.last_mouse_pos), vec![2.0, 3.0]);
}

#[test]
fn surface_errors_are_transient_or_fatal() {
    assert_eq!(SurfaceError::Lost.recovery(), Recovery::Reconfigure);
    assert_eq!(SurfaceError::Outdated.recovery(), Recovery::Reconfigure);
    assert_eq!(SurfaceError::Timeout.recovery(), Recovery::Reconfigure);
    assert_eq!(SurfaceError::OutOfMemory.recovery(), Recovery::Abort);
}

#[test]
fn render_pass_describes_one_pass() {
    let context = viewer(10, 10);
    let pass = context.render_pass(
        Pass::Output,
        Target::Surface,
        vec![Binding(0, Resource::Stage(StageRole::GammaCorrected))],
        true,
    );
    assert_eq!(pass.pass, Pass::Output);
    assert_eq!(pass.target, Target::Surface);
    assert_eq!(pass.bindings, vec![Binding(0, Resource::Stage(StageRole::GammaCorrected))]);
    assert_eq!(floats(&pass.clear.unwrap()), vec![0.0, 0.0, 0.0, 1.0]);
    let pass = context.render_pass(Pass::Gamma, Target::Stage(StageRole::GammaCorrected), vec![], false);
    assert!(pass.clear.is_none());
    assert!(pass.bindings.is_empty());
}
