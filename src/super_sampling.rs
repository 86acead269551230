//! The super sampling ("DLSS") feature: optimal settings, create parameters,
//! evaluation parameters and the feature wrapper.
use vstd::prelude::*;
use crate::evaluation::{
    color_input_set, color_output_set, depth_buffer_set, jitter_offsets_set, motion_vectors_set,
    rendering_dimensions_set, reset_set, EvalParams, EvaluationAggregate, ResourceSlot,
};
use crate::feature::{creation_failure, spec_release_calls, Failure, Feature, FeatureHandle, FeatureType};
use crate::parameters::FeatureParameters;
use crate::resource::{Extent2D, ResourceVk, VkImageResourceDescription};
use crate::result::{Error, NgxResult, Result};

verus! {

/// A quality tier of the upscalers.
#[derive(Debug, Clone, Copy, PartialEq, Eq, Structural)]
pub enum PerfQuality {
    MaxPerf,
    Balanced,
    MaxQuality,
    UltraPerformance,
    UltraQuality,
    Dlaa,
}

impl PerfQuality {
    /// The value of the tier in the native SDK.
    pub open spec fn spec_native_value(self) -> u32 {
        match self {
            PerfQuality::MaxPerf => 0,
            PerfQuality::Balanced => 1,
            PerfQuality::MaxQuality => 2,
            PerfQuality::UltraPerformance => 3,
            PerfQuality::UltraQuality => 4,
            PerfQuality::Dlaa => 5,
        }
    }

    /// The value of the tier in the native SDK.
    pub fn native_value(&self) -> (r: u32)
        ensures
            r == self.spec_native_value(),
    {
        match *self {
            PerfQuality::MaxPerf => 0,
            PerfQuality::Balanced => 1,
            PerfQuality::MaxQuality => 2,
            PerfQuality::UltraPerformance => 3,
            PerfQuality::UltraQuality => 4,
            PerfQuality::Dlaa => 5,
        }
    }

    /// The name of the tier as the SDK's headers spell it.
    pub open spec fn spec_name(self) -> Seq<char> {
        match self {
            PerfQuality::MaxPerf => "NVSDK_NGX_PerfQuality_Value_MaxPerf"@,
            PerfQuality::Balanced => "NVSDK_NGX_PerfQuality_Value_Balanced"@,
            PerfQuality::MaxQuality => "NVSDK_NGX_PerfQuality_Value_MaxQuality"@,
            PerfQuality::UltraPerformance => "NVSDK_NGX_PerfQuality_Value_UltraPerformance"@,
            PerfQuality::UltraQuality => "NVSDK_NGX_PerfQuality_Value_UltraQuality"@,
            PerfQuality::Dlaa => "NVSDK_NGX_PerfQuality_Value_DLAA"@,
        }
    }

    /// The name of the tier as the SDK's headers spell it.
    pub fn name(&self) -> (r: &'static str)
        ensures
            r@ == self.spec_name(),
    {
        match *self {
            PerfQuality::MaxPerf => "NVSDK_NGX_PerfQuality_Value_MaxPerf",
            PerfQuality::Balanced => "NVSDK_NGX_PerfQuality_Value_Balanced",
            PerfQuality::MaxQuality => "NVSDK_NGX_PerfQuality_Value_MaxQuality",
            PerfQuality::UltraPerformance => "NVSDK_NGX_PerfQuality_Value_UltraPerformance",
            PerfQuality::UltraQuality => "NVSDK_NGX_PerfQuality_Value_UltraQuality",
            PerfQuality::Dlaa => "NVSDK_NGX_PerfQuality_Value_DLAA",
        }
    }
}

/// The create flag that lets the feature compute the exposure itself.
pub const DLSS_FEATURE_FLAGS_AUTO_EXPOSURE: i32 = 64;

/// The create flag for motion vectors at render resolution.
pub const DLSS_FEATURE_FLAGS_MV_LOW_RES: i32 = 2;

/// What the native optimal-settings query wrote.
#[derive(Debug, Clone, Copy, PartialEq, Eq, Structural)]
pub struct OptimalSettingsReply {
    pub render_width: u32,
    pub render_height: u32,
    pub dynamic_max_render_width: u32,
    pub dynamic_max_render_height: u32,
    pub dynamic_min_render_width: u32,
    pub dynamic_min_render_height: u32,
}

/// Optimal settings for the DLSS based on the desired quality level and
/// resolution.
#[derive(Debug, Clone, Copy, PartialEq, Eq, Structural)]
pub struct SuperSamplingOptimalSettings {
    /// The render width which the renderer must render to before
    /// upscaling.
    pub render_width: u32,
    /// The render height which the renderer must render to before
    /// upscaling.
    pub render_height: u32,
    /// The target width desired, to which the SuperSampling feature
    /// will upscale to.
    pub target_width: u32,
    /// The target height desired, to which the SuperSampling feature
    /// will upscale to.
    pub target_height: u32,
    /// The requested quality level.
    pub desired_quality_level: PerfQuality,
    /// The smallest render width that dynamic resolution may use.
    pub dynamic_min_render_width: u32,
    /// The largest render width that dynamic resolution may use.
    pub dynamic_max_render_width: u32,
    /// The smallest render height that dynamic resolution may use.
    pub dynamic_min_render_height: u32,
    /// The largest render height that dynamic resolution may use.
    pub dynamic_max_render_height: u32,
}

/// The message of a quality tier that the SDK does not offer at a target
/// resolution.
pub open spec fn unsupported_quality_message(quality: PerfQuality) -> Seq<char> {
    "The requested quality level isn't supported: "@ + quality.spec_name()
}

impl SuperSamplingOptimalSettings {
    /// The settings that a successful query for the target and the tier gave.
    pub open spec fn spec_from_reply(
        target_width: u32,
        target_height: u32,
        desired_quality_level: PerfQuality,
        reply: OptimalSettingsReply,
    ) -> SuperSamplingOptimalSettings {
        SuperSamplingOptimalSettings {
            render_width: reply.render_width,
            render_height: reply.render_height,
            target_width,
            target_height,
            desired_quality_level,
            dynamic_min_render_width: reply.dynamic_min_render_width,
            dynamic_max_render_width: reply.dynamic_max_render_width,
            dynamic_min_render_height: reply.dynamic_min_render_height,
            dynamic_max_render_height: reply.dynamic_max_render_height,
        }
    }

    /// The optimal settings for a target resolution and a quality tier, from
    /// the status and the values of the native query. The query reports
    /// success even for a tier it does not offer at that resolution, and then
    /// gives a zero render size: that is an error, not a setting.
    pub fn get_optimal_settings(
        target_width: u32,
        target_height: u32,
        desired_quality_level: PerfQuality,
        status: NgxResult,
        reply: OptimalSettingsReply,
    ) -> (r: Result<SuperSamplingOptimalSettings>)
        ensures
            status != NgxResult::Success ==> r == Err::<SuperSamplingOptimalSettings, Error>(Error::Internal(status)),
            status == NgxResult::Success && (reply.render_width == 0 || reply.render_height == 0)
                ==> crate::parameters::is_other_error(r, unsupported_quality_message(desired_quality_level)),
            status == NgxResult::Success && reply.render_width != 0 && reply.render_height != 0
                ==> r == Ok::<SuperSamplingOptimalSettings, Error>(
                Self::spec_from_reply(target_width, target_height, desired_quality_level, reply),
            ),
    {
        if !status.is_success() {
            return Err(Error::Internal(status));
        }
        if reply.render_height == 0 || reply.render_width == 0 {
            let mut message = String::from_str("The requested quality level isn't supported: ");
            message.append(desired_quality_level.name());
            return Err(Error::Other(message));
        }
        Ok(SuperSamplingOptimalSettings {
            render_width: reply.render_width,
            render_height: reply.render_height,
            target_width,
            target_height,
            desired_quality_level,
            dynamic_min_render_width: reply.dynamic_min_render_width,
            dynamic_max_render_width: reply.dynamic_max_render_width,
            dynamic_min_render_height: reply.dynamic_min_render_height,
            dynamic_max_render_height: reply.dynamic_max_render_height,
        })
    }
}

/// Settings that came out of `get_optimal_settings` never have a zero render
/// size, whatever the query reported; and when the SDK's render size lies
/// within the target, so does theirs.
pub proof fn lemma_optimal_settings_nonzero(
    target_width: u32,
    target_height: u32,
    quality: PerfQuality,
    reply: OptimalSettingsReply,
    settings: SuperSamplingOptimalSettings,
)
    requires
        reply.render_width != 0,
        reply.render_height != 0,
        settings == SuperSamplingOptimalSettings::spec_from_reply(target_width, target_height, quality, reply),
    ensures
        settings.render_width != 0 && settings.render_height != 0,
        settings.target_width == target_width && settings.target_height == target_height,
        reply.render_width <= target_width ==> 0 < settings.render_width <= target_width,
        reply.render_height <= target_height ==> 0 < settings.render_height <= target_height,
{
}

/// Create parameters for the SuperSampling feature.
#[derive(Debug, Clone, Copy, PartialEq, Eq, Structural)]
pub struct SuperSamplingCreateParameters {
    pub render_width: u32,
    pub render_height: u32,
    pub target_width: u32,
    pub target_height: u32,
    pub perf_quality_value: PerfQuality,
    pub feature_create_flags: i32,
    pub enable_output_subrects: bool,
}

impl SuperSamplingCreateParameters {
    /// Creates a new set of create parameters for the SuperSampling
    /// feature. Without a quality tier the native default (max performance)
    /// is used; without flags none is set.
    pub fn new(
        render_width: u32,
        render_height: u32,
        target_width: u32,
        target_height: u32,
        quality_value: Option<PerfQuality>,
        flags: Option<i32>,
    ) -> (r: SuperSamplingCreateParameters)
        ensures
            r == (SuperSamplingCreateParameters {
                render_width,
                render_height,
                target_width,
                target_height,
                perf_quality_value: if quality_value is Some { quality_value->Some_0 } else { PerfQuality::MaxPerf },
                feature_create_flags: if flags is Some { flags->Some_0 } else { 0i32 },
                enable_output_subrects: false,
            }),
    {
        let perf_quality_value = match quality_value {
            Some(q) => q,
            None => PerfQuality::MaxPerf,
        };
        let feature_create_flags: i32 = match flags {
            Some(f) => f,
            None => 0,
        };
        SuperSamplingCreateParameters {
            render_width,
            render_height,
            target_width,
            target_height,
            perf_quality_value,
            feature_create_flags,
            enable_output_subrects: false,
        }
    }

    /// The resolution that the renderer renders at.
    pub open spec fn spec_rendering_resolution(self) -> Extent2D {
        Extent2D { width: self.render_width, height: self.render_height }
    }

    /// The resolution that the feature upscales to.
    pub open spec fn spec_target_resolution(self) -> Extent2D {
        Extent2D { width: self.target_width, height: self.target_height }
    }
}

impl From<SuperSamplingOptimalSettings> for SuperSamplingCreateParameters {
    /// Create parameters for the sizes and the tier of optimal settings, with
    /// automatic exposure and render-resolution motion vectors.
    fn from(value: SuperSamplingOptimalSettings) -> (r: SuperSamplingCreateParameters) {
        assert(64i32 | 2i32 == 66i32) by (bit_vector);
        Self::new(
            value.render_width,
            value.render_height,
            value.target_width,
            value.target_height,
            Some(value.desired_quality_level),
            Some(DLSS_FEATURE_FLAGS_AUTO_EXPOSURE | DLSS_FEATURE_FLAGS_MV_LOW_RES),
        )
    }
}

impl vstd::std_specs::convert::FromSpecImpl<SuperSamplingOptimalSettings> for SuperSamplingCreateParameters {
    open spec fn obeys_from_spec() -> bool {
        true
    }

    open spec fn from_spec(v: SuperSamplingOptimalSettings) -> SuperSamplingCreateParameters {
        SuperSamplingCreateParameters {
            render_width: v.render_width,
            render_height: v.render_height,
            target_width: v.target_width,
            target_height: v.target_height,
            perf_quality_value: v.desired_quality_level,
            feature_create_flags: 66,
            enable_output_subrects: false,
        }
    }
}

/// The SuperSampling evaluation parameters.
#[derive(Debug)]
pub struct SuperSamplingEvaluationParameters {
    aggregate: EvaluationAggregate,
}

impl Default for SuperSamplingEvaluationParameters {
    /// The zeroed evaluation parameters: no pointer set.
    fn default() -> (r: SuperSamplingEvaluationParameters)
        ensures
            r.wf(),
            r.spec_aggregate().spec_params() == EvalParams::spec_zeroed(),
            forall|slot: ResourceSlot| #[trigger] r.spec_aggregate().spec_resolve(slot) == ResourceVk::spec_zeroed(),
    {
        SuperSamplingEvaluationParameters::new()
    }
}

impl SuperSamplingEvaluationParameters {
    /// The aggregate of resource structs and native parameters.
    pub closed spec fn spec_aggregate(&self) -> EvaluationAggregate {
        self.aggregate
    }

    /// Every pointer field refers to its own resource struct.
    pub open spec fn wf(&self) -> bool {
        self.spec_aggregate().wf()
    }

    /// Creates a new, zeroed set of evaluation parameters.
    pub fn new() -> (r: SuperSamplingEvaluationParameters)
        ensures
            r.wf(),
            r.spec_aggregate().spec_params() == EvalParams::spec_zeroed(),
            forall|slot: ResourceSlot| #[trigger] r.spec_aggregate().spec_resolve(slot) == ResourceVk::spec_zeroed(),
    {
        SuperSamplingEvaluationParameters { aggregate: EvaluationAggregate::new() }
    }

    /// The aggregate, for building the native struct at evaluation.
    pub fn get_dlss_evaluation_parameters(&self) -> (r: &EvaluationAggregate)
        ensures
            *r == self.spec_aggregate(),
    {
        &self.aggregate
    }

    /// Sets the color input parameter (the image to upscale).
    pub fn set_color_input(&mut self, description: VkImageResourceDescription)
        requires
            old(self).wf(),
        ensures
            color_input_set(old(self).spec_aggregate(), final(self).spec_aggregate(), description),
    {
        self.aggregate.set_color_input(description);
    }

    /// Sets the color output (the upscaled image) information.
    pub fn set_color_output(&mut self, description: VkImageResourceDescription)
        requires
            old(self).wf(),
        ensures
            color_output_set(old(self).spec_aggregate(), final(self).spec_aggregate(), description),
    {
        self.aggregate.set_color_output(description);
    }

    /// Sets the motion vectors, with their per-axis scale as IEEE-754 bits;
    /// without a scale, `1.0` is used on both axes.
    pub fn set_motions_vectors(&mut self, description: VkImageResourceDescription, scale_bits: Option<[u32; 2]>)
        requires
            old(self).wf(),
        ensures
            motion_vectors_set(old(self).spec_aggregate(), final(self).spec_aggregate(), description, scale_bits),
    {
        self.aggregate.set_motions_vectors(description, scale_bits);
    }

    /// Sets the depth buffer.
    pub fn set_depth_buffer(&mut self, description: VkImageResourceDescription)
        requires
            old(self).wf(),
        ensures
            depth_buffer_set(old(self).spec_aggregate(), final(self).spec_aggregate(), description),
    {
        self.aggregate.set_depth_buffer(description);
    }

    /// Sets the jitter offsets (like TAA), as IEEE-754 bits.
    pub fn set_jitter_offsets(&mut self, x_bits: u32, y_bits: u32)
        requires
            old(self).wf(),
        ensures
            jitter_offsets_set(old(self).spec_aggregate(), final(self).spec_aggregate(), x_bits, y_bits),
    {
        self.aggregate.set_jitter_offsets(x_bits, y_bits);
    }

    /// Sets/unsets the reset flag.
    pub fn set_reset(&mut self, should_reset: bool)
        requires
            old(self).wf(),
        ensures
            reset_set(old(self).spec_aggregate(), final(self).spec_aggregate(), should_reset),
    {
        self.aggregate.set_reset(should_reset);
    }

    /// Sets the rendering dimensions.
    pub fn set_rendering_dimensions(&mut self, rendering_offset: [u32; 2], rendering_size: [u32; 2])
        requires
            old(self).wf(),
        ensures
            rendering_dimensions_set(
                old(self).spec_aggregate(),
                final(self).spec_aggregate(),
                rendering_offset,
                rendering_size,
            ),
    {
        self.aggregate.set_rendering_dimensions(rendering_offset, rendering_size);
    }
}

/// The message of a wrapper built around a feature of another kind.
pub open spec fn super_sampling_mismatch_message() -> Seq<char> {
    "Attempt to create a super sampling feature with another feature."@
}

/// A helpful type alias to quickly mention "DLSS".
pub type DlssFeature = SuperSamplingFeature;

/// A SuperSampling (or "DLSS") feature.
#[derive(Debug)]
pub struct SuperSamplingFeature {
    feature: Feature,
    parameters: SuperSamplingEvaluationParameters,
    rendering_resolution: Extent2D,
    target_resolution: Extent2D,
}

impl SuperSamplingFeature {
    /// The feature wrapped.
    pub closed spec fn spec_feature(&self) -> Feature {
        self.feature
    }

    /// The evaluation parameters.
    pub closed spec fn spec_parameters(&self) -> SuperSamplingEvaluationParameters {
        self.parameters
    }

    /// The resolution rendered at.
    pub closed spec fn spec_rendering_resolution(&self) -> Extent2D {
        self.rendering_resolution
    }

    /// The resolution upscaled to.
    pub closed spec fn spec_target_resolution(&self) -> Extent2D {
        self.target_resolution
    }

    /// The wrapper is built on a super sampling feature, with well-formed
    /// evaluation parameters.
    pub open spec fn wf(&self) -> bool {
        &&& self.spec_feature().feature_type == FeatureType::SuperSampling
        &&& self.spec_parameters().wf()
    }

    /// Creates a new Super Sampling feature. A feature of another kind is
    /// refused, and nothing else is done.
    pub fn new(feature: Feature, rendering_resolution: Extent2D, target_resolution: Extent2D) -> (r: core::result::Result<SuperSamplingFeature, Failure>)
        ensures
            r is Ok <==> feature.feature_type == FeatureType::SuperSampling,
            r is Err ==> crate::parameters::is_other_message(r->Err_0.error, super_sampling_mismatch_message())
                && r->Err_0.release@ == spec_release_calls(feature.handle.spec_raw(), feature.parameters.spec_raw()),
            r is Ok ==> r->Ok_0.wf() && r->Ok_0.spec_feature() == feature
                && r->Ok_0.spec_rendering_resolution() == rendering_resolution
                && r->Ok_0.spec_target_resolution() == target_resolution
                && r->Ok_0.spec_parameters().spec_aggregate().spec_params() == EvalParams::spec_zeroed(),
    {
        let mut feature = feature;
        if !feature.is_super_sampling() {
            let release = feature.release();
            return Err(Failure {
                error: Error::Other(String::from_str("Attempt to create a super sampling feature with another feature.")),
                release,
            });
        }
        Ok(SuperSamplingFeature {
            feature,
            parameters: SuperSamplingEvaluationParameters::new(),
            rendering_resolution,
            target_resolution,
        })
    }

    /// Returns the inner feature object.
    pub fn get_inner(&self) -> (r: &Feature)
        ensures
            *r == self.spec_feature(),
    {
        &self.feature
    }

    /// Returns the inner feature object (mutable). Its kind stays that of a
    /// super sampling feature.
    pub fn get_inner_mut(&mut self) -> (r: &mut Feature)
        ensures
            *r == old(self).spec_feature(),
            final(self).spec_feature() == *final(r),
            final(self).spec_parameters() == old(self).spec_parameters(),
            final(self).spec_rendering_resolution() == old(self).spec_rendering_resolution(),
            final(self).spec_target_resolution() == old(self).spec_target_resolution(),
    {
        &mut self.feature
    }

    /// Returns the rendering resolution (input resolution) of the image that
    /// needs to be upscaled to the target resolution.
    pub fn get_rendering_resolution(&self) -> (r: Extent2D)
        ensures
            r == self.spec_rendering_resolution(),
    {
        self.rendering_resolution
    }

    /// Returns the target resolution (output resolution) that the rendered
    /// image is upscaled to.
    pub fn get_target_resolution(&self) -> (r: Extent2D)
        ensures
            r == self.spec_target_resolution(),
    {
        self.target_resolution
    }

    /// Whether the parameter map reports super sampling as initialised, from
    /// the native read of its init-result entry.
    pub fn is_initialised(&self, init_result: &Result<bool>) -> (r: bool)
        ensures
            r == (*init_result == Ok::<bool, Error>(true)),
    {
        FeatureParameters::is_super_sampling_initialised(init_result)
    }

    /// Returns the evaluation parameters.
    pub fn get_evaluation_parameters_mut(&mut self) -> (r: &mut SuperSamplingEvaluationParameters)
        ensures
            *r == old(self).spec_parameters(),
            final(self).spec_parameters() == *final(r),
            final(self).spec_feature() == old(self).spec_feature(),
            final(self).spec_rendering_resolution() == old(self).spec_rendering_resolution(),
            final(self).spec_target_resolution() == old(self).spec_target_resolution(),
    {
        &mut self.parameters
    }
}

impl Feature {
    /// Builds the super sampling feature that the native DLSS creation call
    /// produced from `create_parameters`: its resolutions are those of the
    /// create parameters.
    pub fn new_super_sampling(
        status: NgxResult,
        raw: u64,
        parameters: FeatureParameters,
        create_parameters: SuperSamplingCreateParameters,
    ) -> (r: core::result::Result<SuperSamplingFeature, Failure>)
        ensures
            status == NgxResult::Success <==> r is Ok,
            r is Err ==> r->Err_0.error == Error::Internal(status)
                && r->Err_0.release@ == spec_release_calls(0, parameters.spec_raw()),
            r is Ok ==> r->Ok_0.wf()
                && r->Ok_0.spec_feature().handle.spec_raw() == raw
                && r->Ok_0.spec_feature().parameters.spec_raw() == parameters.spec_raw()
                && r->Ok_0.spec_rendering_resolution() == create_parameters.spec_rendering_resolution()
                && r->Ok_0.spec_target_resolution() == create_parameters.spec_target_resolution(),
    {
        let rendering_resolution = Extent2D {
            width: create_parameters.render_width,
            height: create_parameters.render_height,
        };
        let target_resolution = Extent2D {
            width: create_parameters.target_width,
            height: create_parameters.target_height,
        };
        if !status.is_success() {
            return Err(creation_failure(status, parameters));
        }
        let feature = Feature {
            handle: FeatureHandle::from_raw(raw),
            feature_type: FeatureType::SuperSampling,
            parameters,
        };
        SuperSamplingFeature::new(feature, rendering_resolution, target_resolution)
    }
}

} // verus!
