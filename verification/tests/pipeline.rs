use cloudpipe::coordinator::FrameAction;
use cloudpipe::coordinator::ResizeCoordinator;
use cloudpipe::material::AlphaMode;
use cloudpipe::material::ColorRgba;
use cloudpipe::material::CompositeMaterial;
use cloudpipe::material::VolumetricMaterial;
use cloudpipe::noise::NoiseFieldGenerator;
use cloudpipe::noise::NOISE_ONE;
use cloudpipe::target::descriptor_for_viewport;
use cloudpipe::target::OffscreenTarget;
use cloudpipe::target::PixelFormat;
use cloudpipe::target::RenderTargetDescriptor;
use cloudpipe::target::ResourceIds;
use cloudpipe::target::TargetError;
use cloudpipe::target::UsageMask;
use cloudpipe::target::ViewportSize;
use cloudpipe::target::CLOUD_DOWNSAMPLE;

fn offscreen_descriptor(width: u32, height: u32) -> RenderTargetDescriptor {
    RenderTargetDescriptor {
        width,
        height,
        format: PixelFormat::Bgra8UnormSrgb,
        usage: UsageMask::offscreen(),
    }
}

#[test]
fn generate_returns_extent_cubed_values_in_unit_interval() {
    let mut generator = NoiseFieldGenerator::from_seed(12345);
    for extent in [1usize, 2, 5, 10] {
        let field = generator.generate(extent);
        assert_eq!(field.extent, extent);
        assert_eq!(field.cells.len(), extent * extent * extent);
        for &cell in &field.cells {
            assert!(cell < NOISE_ONE);
            let scalar = (cell as f64) / (NOISE_ONE as f64);
            assert!(0.0 <= scalar && scalar < 1.0);
        }
    }
}

#[test]
fn consecutive_fields_each_satisfy_bounds() {
    let mut generator = NoiseFieldGenerator::from_seed(99);
    let first = generator.generate(5);
    let second = generator.generate(5);
    assert_eq!(first.cells.len(), 125);
    assert_eq!(second.cells.len(), 125);
    for &cell in first.cells.iter().chain(second.cells.iter()) {
        assert!(cell < NOISE_ONE);
    }
}

#[test]
fn same_seed_replays_the_stream_and_draws_advance_it() {
    let mut a = NoiseFieldGenerator::from_seed(7);
    let mut b = NoiseFieldGenerator::from_seed(7);
    let fa = a.generate(3);
    let fb = b.generate(3);
    assert_eq!(fa.cells, fb.cells);
    assert_eq!(a.state, b.state);
    let fa2 = a.generate(3);
    assert_eq!(fa2.cells.len(), 27);
    assert_ne!(a.state, b.state);
}

#[test]
fn cube_indexing_is_row_major() {
    let mut generator = NoiseFieldGenerator::from_seed(31);
    let field = generator.generate(3);
    for slice in 0..3usize {
        for row in 0..3usize {
            for col in 0..3usize {
                let flat = (slice * 3 + row) * 3 + col;
                assert_eq!(field.cell_at(slice, row, col), field.cells[flat]);
            }
        }
    }
}

#[test]
fn downsample_is_floor_division_by_power_of_two() {
    let usage = UsageMask::offscreen();
    let d = descriptor_for_viewport(
        ViewportSize { width: 1920, height: 1080 },
        2,
        PixelFormat::Bgra8UnormSrgb,
        usage,
    );
    assert_eq!((d.width, d.height), (480, 270));
    let d = descriptor_for_viewport(
        ViewportSize { width: 384, height: 216 },
        CLOUD_DOWNSAMPLE,
        PixelFormat::Bgra8UnormSrgb,
        usage,
    );
    assert_eq!((d.width, d.height), (96, 54));
    // floor, not rounding: 1923 / 4 = 480 remainder 3
    let d = descriptor_for_viewport(
        ViewportSize { width: 1923, height: 1081 },
        2,
        PixelFormat::Bgra8UnormSrgb,
        usage,
    );
    assert_eq!((d.width, d.height), (480, 270));
    // exponent zero keeps the viewport size
    let d = descriptor_for_viewport(
        ViewportSize { width: 640, height: 480 },
        0,
        PixelFormat::Bgra8UnormSrgb,
        usage,
    );
    assert_eq!((d.width, d.height), (640, 480));
}

#[test]
fn create_refuses_incomplete_usage_mask() {
    let mut ids = ResourceIds::new();
    let descriptor = RenderTargetDescriptor {
        width: 96,
        height: 54,
        format: PixelFormat::Bgra8UnormSrgb,
        usage: UsageMask { sampled: true, copy_dst: false, render_attachment: true },
    };
    match OffscreenTarget::create(&mut ids, descriptor) {
        Err(TargetError::UnsupportedUsage) => {}
        Ok(_) => panic!("creation must be refused without the full usage mask"),
    }
    match ResizeCoordinator::build(&mut ids, descriptor, CLOUD_DOWNSAMPLE) {
        Err(TargetError::UnsupportedUsage) => {}
        Ok(_) => panic!("build must be refused without the full usage mask"),
    }
}

#[test]
fn resize_keeps_handle_and_reallocates_only_on_change() {
    let mut ids = ResourceIds::new();
    let mut target = OffscreenTarget::create(&mut ids, offscreen_descriptor(96, 54)).unwrap();
    let handle = target.handle;
    let generation = target.generation;

    // same descriptor: a no-op that touches nothing
    target.resize(&mut ids, offscreen_descriptor(96, 54));
    assert_eq!(target.handle, handle);
    assert_eq!(target.generation, generation);

    // new descriptor: same handle, fresh physical allocation
    target.resize(&mut ids, offscreen_descriptor(192, 108));
    assert_eq!(target.handle, handle);
    assert_ne!(target.generation, generation);
    assert_eq!((target.descriptor.width, target.descriptor.height), (192, 108));
}

#[test]
fn resize_coordinator_is_idempotent_per_viewport_size() {
    let mut ids = ResourceIds::new();
    let mut coordinator =
        ResizeCoordinator::build(&mut ids, offscreen_descriptor(96, 54), CLOUD_DOWNSAMPLE).unwrap();
    let viewport = Some(ViewportSize { width: 1920, height: 1080 });

    let first = coordinator.run_frame(&mut ids, viewport);
    assert_eq!(first, FrameAction::Resized);
    let generation = coordinator.target.generation;

    let second = coordinator.run_frame(&mut ids, viewport);
    assert_eq!(second, FrameAction::Unchanged);
    assert_eq!(coordinator.target.generation, generation);

    let third = coordinator.run_frame(&mut ids, viewport);
    assert_eq!(third, FrameAction::Unchanged);
    assert_eq!(coordinator.target.generation, generation);
}

#[test]
fn rebind_happens_in_the_same_step_as_the_resize() {
    // viewport starts at 384x216 under exponent 2, then grows to 768x432
    let mut ids = ResourceIds::new();
    let mut coordinator =
        ResizeCoordinator::build(&mut ids, offscreen_descriptor(96, 54), 2).unwrap();

    let action = coordinator.run_frame(&mut ids, Some(ViewportSize { width: 384, height: 216 }));
    assert_eq!(action, FrameAction::Resized);
    assert_eq!(
        (coordinator.target.descriptor.width, coordinator.target.descriptor.height),
        (96, 54)
    );
    assert_eq!(
        (coordinator.composite.bound_width, coordinator.composite.bound_height),
        (96, 54)
    );

    let action = coordinator.run_frame(&mut ids, Some(ViewportSize { width: 768, height: 432 }));
    assert_eq!(action, FrameAction::Resized);
    assert_eq!(
        (coordinator.target.descriptor.width, coordinator.target.descriptor.height),
        (192, 108)
    );
    // the stable handle the composite holds resolves to the new descriptor
    let resolved = coordinator.target.resolve(coordinator.composite.texture).unwrap();
    assert_eq!((resolved.width, resolved.height), (192, 108));
    // the compositing binding already resolves to the new dimensions and the
    // new allocation, within the same frame
    assert_eq!(
        (coordinator.composite.bound_width, coordinator.composite.bound_height),
        (192, 108)
    );
    assert_eq!(coordinator.composite.bound_generation, coordinator.target.generation);
    assert_eq!(coordinator.composite.texture, coordinator.target.handle);
}

#[test]
fn missing_viewport_skips_and_keeps_last_known_size() {
    let mut ids = ResourceIds::new();
    let mut coordinator =
        ResizeCoordinator::build(&mut ids, offscreen_descriptor(96, 54), CLOUD_DOWNSAMPLE).unwrap();
    assert_eq!(coordinator.last_viewport, None);

    let action = coordinator.run_frame(&mut ids, Some(ViewportSize { width: 640, height: 360 }));
    assert_eq!(action, FrameAction::Resized);
    let generation = coordinator.target.generation;

    // headless for several consecutive frames: skipped entirely, retried next
    // frame, never an error
    for _ in 0..5 {
        let action = coordinator.run_frame(&mut ids, None);
        assert_eq!(action, FrameAction::SkippedNoViewport);
        assert_eq!(
            coordinator.last_viewport,
            Some(ViewportSize { width: 640, height: 360 })
        );
        assert_eq!(coordinator.target.generation, generation);
    }
}

#[test]
fn two_materials_carry_independent_fields() {
    let mut generator = NoiseFieldGenerator::from_seed(2024);
    let mut ids = ResourceIds::new();
    let color = ColorRgba { red: 255, green: 255, blue: 255, alpha: 255 };

    let first = VolumetricMaterial::new(&mut generator, &mut ids, 5, color);
    let second = VolumetricMaterial::new(&mut generator, &mut ids, 5, color);

    // distinct buffer allocations, never aliased
    assert_ne!(first.buffer_id, second.buffer_id);
    assert_eq!(first.field.cells.len(), 125);
    assert_eq!(second.field.cells.len(), 125);
    for &cell in first.field.cells.iter().chain(second.field.cells.iter()) {
        assert!(cell < NOISE_ONE);
    }
}

#[test]
fn materials_declare_their_shaders_and_blend_modes() {
    let mut generator = NoiseFieldGenerator::from_seed(1);
    let mut ids = ResourceIds::new();
    let color = ColorRgba { red: 200, green: 200, blue: 230, alpha: 255 };
    let volumetric = VolumetricMaterial::new(&mut generator, &mut ids, 2, color);
    assert_eq!(volumetric.fragment_shader(), "shaders/cloud.wgsl");
    assert_eq!(volumetric.alpha_mode(), AlphaMode::Blend);
    assert_eq!(volumetric.color, color);

    let target = OffscreenTarget::create(&mut ids, offscreen_descriptor(96, 54)).unwrap();
    let composite = CompositeMaterial::new(&target);
    assert_eq!(composite.fragment_shader(), "shaders/screen_space.wgsl");
    assert_eq!(composite.alpha_mode(), AlphaMode::Premultiplied);
    assert_eq!(composite.texture, target.handle);
}

#[test]
fn binding_slots_match_declared_shader_inputs() {
    assert_eq!(cloudpipe::material::COLOR_BINDING_SLOT, 100);
    assert_eq!(cloudpipe::material::NOISE_BINDING_SLOT, 0);
    assert_eq!(cloudpipe::material::COMPOSITE_TEXTURE_SLOT, 0);
    assert_eq!(cloudpipe::material::COMPOSITE_SAMPLER_SLOT, 1);
}

#[test]
fn fresh_ids_never_repeat() {
    let mut ids = ResourceIds::new();
    assert_eq!(ids.fresh(), 0);
    assert_eq!(ids.fresh(), 1);
    assert_eq!(ids.fresh(), 2);
}
