use nvngx::evaluation::UNIT_SCALE_BITS;
use nvngx::resource::ResourceVk;
use nvngx::{
    Error, EvaluationAggregate, Extent2D, Feature, FeatureParameters, FeatureType, ImageSubresourceRange,
    NgxResult, OptimalSettingsReply, PerfQuality, RayReconstructionCreateParameters,
    RayReconstructionEvaluationParameters, RayReconstructionFeature, ReleaseCall, ResourceSlot,
    SuperSamplingCreateParameters, SuperSamplingEvaluationParameters, SuperSamplingFeature,
    SuperSamplingOptimalSettings, VkImageResourceDescription, VkResourceMode,
};

fn image(view: u64, width: u32, height: u32) -> VkImageResourceDescription {
    VkImageResourceDescription {
        image_view: view,
        image: view + 1,
        subresource_range: ImageSubresourceRange {
            aspect_mask: 1,
            base_mip_level: 0,
            level_count: 1,
            base_array_layer: 0,
            layer_count: 1,
        },
        format: 97,
        width,
        height,
        mode: VkResourceMode::default(),
    }
}

fn parameters(raw: u64) -> FeatureParameters {
    FeatureParameters::new(NgxResult::Success, raw).unwrap()
}

fn check_pointers(aggregate: &EvaluationAggregate) {
    let params = aggregate.params();
    for (field, slot) in [
        (params.color, ResourceSlot::InputColor),
        (params.output, ResourceSlot::OutputColor),
        (params.depth, ResourceSlot::Depth),
        (params.motion_vectors, ResourceSlot::MotionVectors),
    ] {
        if let Some(pointed) = field {
            assert_eq!(pointed, slot);
        }
    }
}

#[test]
fn a_resource_struct_copies_the_description() {
    let mut d = image(10, 640, 480);
    let r = ResourceVk::from(d);
    assert_eq!(r.image_view_info.image_view.address, 10);
    assert_eq!(r.image_view_info.image.address, 11);
    assert_eq!(r.image_view_info.format, 97);
    assert_eq!((r.image_view_info.width, r.image_view_info.height), (640, 480));
    assert!(!r.read_write);
    d.set_writable();
    assert_eq!(d.mode, VkResourceMode::Writable);
    assert!(ResourceVk::from(d).read_write);
}

#[test]
fn pointers_refer_to_the_aggregate_own_fields() {
    let mut e = SuperSamplingEvaluationParameters::new();
    check_pointers(e.get_dlss_evaluation_parameters());
    assert_eq!(e.get_dlss_evaluation_parameters().params().color, None);
    let mut output = image(20, 1920, 1080);
    output.set_writable();
    e.set_color_input(image(10, 960, 540));
    e.set_color_output(output);
    e.set_depth_buffer(image(30, 960, 540));
    e.set_motions_vectors(image(40, 960, 540), None);
    let a = e.get_dlss_evaluation_parameters();
    check_pointers(a);
    assert_eq!(a.params().color, Some(ResourceSlot::InputColor));
    assert_eq!(*a.resolve(ResourceSlot::InputColor), ResourceVk::from(image(10, 960, 540)));
    assert_eq!(*a.resolve(ResourceSlot::OutputColor), ResourceVk::from(output));
    assert_eq!(a.resolve(ResourceSlot::Depth).image_view_info.image_view.address, 30);
    assert_eq!(a.resolve(ResourceSlot::MotionVectors).image_view_info.image_view.address, 40);
    assert_eq!(a.params().mv_scale_x_bits, 1.0f32.to_bits());
    assert_eq!(a.params().mv_scale_y_bits, UNIT_SCALE_BITS);
}

#[test]
fn resetting_a_field_replaces_what_it_points_at() {
    let mut e = RayReconstructionEvaluationParameters::new();
    e.set_color_input(image(10, 960, 540));
    e.set_color_input(image(50, 800, 600));
    let a = e.get_rr_evaluation_parameters();
    check_pointers(a);
    assert_eq!(a.resolve(ResourceSlot::InputColor).image_view_info.image_view.address, 50);
    assert_eq!(a.params().output, None);
}

#[test]
fn scalar_settings() {
    let mut e = SuperSamplingEvaluationParameters::new();
    e.set_motions_vectors(image(40, 10, 10), Some([2.0f32.to_bits(), (-1.5f32).to_bits()]));
    e.set_jitter_offsets(0.25f32.to_bits(), (-0.25f32).to_bits());
    e.set_reset(true);
    e.set_rendering_dimensions([8, 16], [1280, 720]);
    let p = *e.get_dlss_evaluation_parameters().params();
    assert_eq!(f32::from_bits(p.mv_scale_x_bits), 2.0);
    assert_eq!(f32::from_bits(p.mv_scale_y_bits), -1.5);
    assert_eq!(f32::from_bits(p.jitter_offset_x_bits), 0.25);
    assert_eq!(f32::from_bits(p.jitter_offset_y_bits), -0.25);
    assert_eq!(p.reset, 1);
    for base in [p.color_subrect_base, p.depth_subrect_base, p.translucency_subrect_base, p.mv_subrect_base] {
        assert_eq!((base.x, base.y), (8, 16));
    }
    assert_eq!((p.render_subrect_dimensions.width, p.render_subrect_dimensions.height), (1280, 720));
    e.set_reset(false);
    assert_eq!(e.get_dlss_evaluation_parameters().params().reset, 0);
}

fn reply(render_width: u32, render_height: u32) -> OptimalSettingsReply {
    OptimalSettingsReply {
        render_width,
        render_height,
        dynamic_max_render_width: 1920,
        dynamic_max_render_height: 1080,
        dynamic_min_render_width: 960,
        dynamic_min_render_height: 540,
    }
}

#[test]
fn optimal_settings_refuse_a_zero_render_size() {
    for (w, h) in [(0, 626), (1114, 0), (0, 0)] {
        let r = SuperSamplingOptimalSettings::get_optimal_settings(1920, 1080, PerfQuality::UltraQuality, NgxResult::Success, reply(w, h));
        match r {
            Err(Error::Other(message)) => assert_eq!(
                message,
                "The requested quality level isn't supported: NVSDK_NGX_PerfQuality_Value_UltraQuality"
            ),
            other => panic!("unexpected {other:?}"),
        }
    }
    let r = SuperSamplingOptimalSettings::get_optimal_settings(1920, 1080, PerfQuality::Balanced, NgxResult::FailNotInitialized, reply(1114, 626));
    assert!(matches!(r, Err(Error::Internal(NgxResult::FailNotInitialized))));
}

#[test]
fn create_parameters_defaults() {
    let c = SuperSamplingCreateParameters::new(960, 540, 1920, 1080, None, None);
    assert_eq!(c.perf_quality_value, PerfQuality::MaxPerf);
    assert_eq!(c.feature_create_flags, 0);
    let r = RayReconstructionCreateParameters::new(960, 540, 1920, 1080, Some(PerfQuality::Dlaa), None, None, None);
    assert_eq!(r.perf_quality_value, PerfQuality::Dlaa);
    assert_eq!(r.denoise_mode, nvngx::ray_reconstruction::DenoiseMode::DlUnified);
    assert_eq!(r.roughness_mode, nvngx::ray_reconstruction::RoughnessMode::Unpacked);
    assert_eq!(r.depth_type, nvngx::ray_reconstruction::DepthType::Linear);
    assert_eq!(PerfQuality::Balanced.native_value(), 1);
    assert_eq!(PerfQuality::Dlaa.native_value(), 5);
}

#[test]
fn wrappers_refuse_a_feature_of_another_kind() {
    let f = Feature::new(NgxResult::Success, 0xA, FeatureType::FrameGeneration, parameters(0xB)).unwrap();
    let r = SuperSamplingFeature::new(f, Extent2D { width: 1, height: 1 }, Extent2D { width: 2, height: 2 });
    match r {
        Err(failure) => {
            assert!(matches!(failure.error, Error::Other(ref m) if m == "Attempt to create a super sampling feature with another feature."));
            assert_eq!(failure.release, vec![ReleaseCall::ReleaseFeature(0xA), ReleaseCall::DestroyParameters(0xB)]);
        }
        _ => panic!("a frame generation feature must be refused"),
    }
    let f = Feature::new(NgxResult::Success, 0xA, FeatureType::SuperSampling, parameters(0xB)).unwrap();
    let r = RayReconstructionFeature::new(f, Extent2D { width: 1, height: 1 }, Extent2D { width: 2, height: 2 });
    match r {
        Err(failure) => {
            assert!(matches!(failure.error, Error::Other(ref m) if m == "Attempt to create a ray reconstruction feature with another feature."));
            assert_eq!(failure.release, vec![ReleaseCall::ReleaseFeature(0xA), ReleaseCall::DestroyParameters(0xB)]);
        }
        _ => panic!("a super sampling feature must be refused"),
    }
}

#[test]
fn ray_reconstruction_feature_from_creation() {
    let create = RayReconstructionCreateParameters::new(960, 540, 1920, 1080, None, None, None, None);
    let mut rr = Feature::new_ray_reconstruction(NgxResult::Success, 0xC, parameters(0xD), create).unwrap();
    assert!(rr.get_inner().is_ray_reconstruction());
    assert_eq!(rr.get_rendering_resolution(), Extent2D { width: 960, height: 540 });
    assert_eq!(rr.get_target_resolution(), Extent2D { width: 1920, height: 1080 });
    assert!(rr.is_initialised(&Ok(true)));
    rr.get_evaluation_parameters_mut().set_reset(true);
    assert_eq!(rr.get_evaluation_parameters_mut().get_rr_evaluation_parameters().params().reset, 1);
    assert_eq!(rr.get_inner_mut().release(), vec![ReleaseCall::ReleaseFeature(0xC), ReleaseCall::DestroyParameters(0xD)]);
    let failed = Feature::new_ray_reconstruction(NgxResult::FailDenied, 0xC, parameters(0xD), create).unwrap_err();
    assert!(matches!(failed.error, Error::Internal(NgxResult::FailDenied)));
    assert_eq!(failed.release, vec![ReleaseCall::DestroyParameters(0xD)]);
    let create = SuperSamplingCreateParameters::new(960, 540, 1920, 1080, None, None);
    let failed = Feature::new_super_sampling(NgxResult::FailOutOfDate, 0xC, parameters(0xE), create).unwrap_err();
    assert!(matches!(failed.error, Error::Internal(NgxResult::FailOutOfDate)));
    assert_eq!(failed.release, vec![ReleaseCall::DestroyParameters(0xE)]);
}

#[test]
fn end_to_end_upscaling() {
    // A capability map is allocated.
    let capabilities = FeatureParameters::get_capability_parameters(NgxResult::Success, 0x100).unwrap();
    // Optimal settings for 1920x1080 at the balanced tier.
    let settings = SuperSamplingOptimalSettings::get_optimal_settings(
        1920,
        1080,
        PerfQuality::Balanced,
        NgxResult::Success,
        reply(1114, 626),
    )
    .unwrap();
    assert!(settings.render_width != 0 && settings.render_width <= 1920);
    assert!(settings.render_height != 0 && settings.render_height <= 1080);
    // An upscaling feature is created from those settings.
    let create = SuperSamplingCreateParameters::from(settings);
    assert_eq!(create.feature_create_flags, 0x42);
    assert_eq!(create.perf_quality_value, PerfQuality::Balanced);
    let mut dlss = Feature::new_super_sampling(NgxResult::Success, 0x200, capabilities, create).unwrap();
    assert!(dlss.get_inner().is_super_sampling());
    assert_eq!(dlss.get_rendering_resolution(), Extent2D { width: 1114, height: 626 });
    assert_eq!(dlss.get_target_resolution(), Extent2D { width: 1920, height: 1080 });
    // The evaluation parameters are filled in place.
    let e = dlss.get_evaluation_parameters_mut();
    e.set_color_input(image(1, 1114, 626));
    let mut output = image(2, 1920, 1080);
    output.set_writable();
    e.set_color_output(output);
    e.set_depth_buffer(image(3, 1114, 626));
    e.set_motions_vectors(image(4, 1114, 626), None);
    e.set_jitter_offsets(0.0f32.to_bits(), 0.0f32.to_bits());
    e.set_rendering_dimensions([0, 0], [1114, 626]);
    check_pointers(e.get_dlss_evaluation_parameters());
    assert!(NgxResult::Success.into_result().is_ok());
    // Dropping the feature releases it once, then destroys its map once.
    let calls = dlss.get_inner_mut().release();
    assert_eq!(calls, vec![ReleaseCall::ReleaseFeature(0x200), ReleaseCall::DestroyParameters(0x100)]);
    assert!(dlss.get_inner_mut().release().is_empty());
}

#[test]
fn defaults_are_zeroed() {
    let e = SuperSamplingEvaluationParameters::default();
    let p = *e.get_dlss_evaluation_parameters().params();
    assert_eq!((p.color, p.output, p.depth, p.motion_vectors), (None, None, None, None));
    assert_eq!((p.reset, p.mv_scale_x_bits, p.jitter_offset_x_bits), (0, 0, 0));
    let r = RayReconstructionEvaluationParameters::default();
    assert_eq!(r.get_rr_evaluation_parameters().params().depth, None);
    assert!(nvngx::FeatureHandle::default().is_null());
    let a = e.get_dlss_evaluation_parameters();
    for slot in [ResourceSlot::InputColor, ResourceSlot::OutputColor, ResourceSlot::Depth, ResourceSlot::MotionVectors] {
        assert_eq!(*a.resolve(slot), ResourceVk::zeroed());
    }
}
