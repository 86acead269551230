//! The ray reconstruction ("DLSS-RR") feature: create parameters, evaluation
//! parameters and the feature wrapper.
use vstd::prelude::*;
use crate::evaluation::{
    color_input_set, color_output_set, depth_buffer_set, jitter_offsets_set, motion_vectors_set,
    rendering_dimensions_set, reset_set, EvalParams, EvaluationAggregate, ResourceSlot,
};
use crate::feature::{creation_failure, spec_release_calls, Failure, Feature, FeatureHandle, FeatureType};
use crate::parameters::FeatureParameters;
use crate::resource::{Extent2D, ResourceVk, VkImageResourceDescription};
use crate::result::{Error, NgxResult, Result};
use crate::super_sampling::{PerfQuality, SuperSamplingOptimalSettings};

verus! {

/// How the feature denoises.
#[derive(Debug, Clone, Copy, PartialEq, Eq, Structural)]
pub enum DenoiseMode {
    Off,
    DlUnified,
}

/// How the roughness input is laid out.
#[derive(Debug, Clone, Copy, PartialEq, Eq, Structural)]
pub enum RoughnessMode {
    /// Roughness in its own resource.
    Unpacked,
    /// Roughness packed into the normals resource.
    Packed,
}

/// The kind of depth that the depth input holds.
#[derive(Debug, Clone, Copy, PartialEq, Eq, Structural)]
pub enum DepthType {
    Linear,
    Hardware,
}

/// Create parameters for the Ray Reconstruction feature.
#[derive(Debug, Clone, Copy, PartialEq, Eq, Structural)]
pub struct RayReconstructionCreateParameters {
    pub render_width: u32,
    pub render_height: u32,
    pub target_width: u32,
    pub target_height: u32,
    pub perf_quality_value: PerfQuality,
    pub denoise_mode: DenoiseMode,
    pub roughness_mode: RoughnessMode,
    pub depth_type: DepthType,
    pub feature_create_flags: i32,
    pub enable_output_subrects: bool,
}

impl RayReconstructionCreateParameters {
    /// Creates a new set of create parameters for the Ray Reconstruction
    /// feature. Without a quality tier the native default (max performance)
    /// is used; the modes default to unified denoising, unpacked roughness and
    /// linear depth.
    pub fn new(
        render_width: u32,
        render_height: u32,
        target_width: u32,
        target_height: u32,
        quality_value: Option<PerfQuality>,
        denoise_mode: Option<DenoiseMode>,
        roughness_mode: Option<RoughnessMode>,
        depth_type: Option<DepthType>,
    ) -> (r: RayReconstructionCreateParameters)
        ensures
            r == (RayReconstructionCreateParameters {
                render_width,
                render_height,
                target_width,
                target_height,
                perf_quality_value: if quality_value is Some { quality_value->Some_0 } else { PerfQuality::MaxPerf },
                denoise_mode: if denoise_mode is Some { denoise_mode->Some_0 } else { DenoiseMode::DlUnified },
                roughness_mode: if roughness_mode is Some { roughness_mode->Some_0 } else { RoughnessMode::Unpacked },
                depth_type: if depth_type is Some { depth_type->Some_0 } else { DepthType::Linear },
                feature_create_flags: 0i32,
                enable_output_subrects: false,
            }),
    {
        let perf_quality_value = match quality_value {
            Some(q) => q,
            None => PerfQuality::MaxPerf,
        };
        let denoise_mode = match denoise_mode {
            Some(m) => m,
            None => DenoiseMode::DlUnified,
        };
        let roughness_mode = match roughness_mode {
            Some(m) => m,
            None => RoughnessMode::Unpacked,
        };
        let depth_type = match depth_type {
            Some(d) => d,
            None => DepthType::Linear,
        };
        RayReconstructionCreateParameters {
            render_width,
            render_height,
            target_width,
            target_height,
            perf_quality_value,
            denoise_mode,
            roughness_mode,
            depth_type,
            feature_create_flags: 0,
            enable_output_subrects: false,
        }
    }

    /// The resolution that the renderer renders at.
    pub open spec fn spec_rendering_resolution(self) -> Extent2D {
        Extent2D { width: self.render_width, height: self.render_height }
    }

    /// The resolution that the feature upscales to.
    pub open spec fn spec_target_resolution(self) -> Extent2D {
        Extent2D { width: self.target_width, height: self.target_height }
    }
}

impl From<SuperSamplingOptimalSettings> for RayReconstructionCreateParameters {
    /// Create parameters for the sizes and the tier of optimal settings, with
    /// the default modes.
    fn from(value: SuperSamplingOptimalSettings) -> (r: RayReconstructionCreateParameters) {
        Self::new(
            value.render_width,
            value.render_height,
            value.target_width,
            value.target_height,
            Some(value.desired_quality_level),
            None,
            None,
            None,
        )
    }
}

impl vstd::std_specs::convert::FromSpecImpl<SuperSamplingOptimalSettings> for RayReconstructionCreateParameters {
    open spec fn obeys_from_spec() -> bool {
        true
    }

    open spec fn from_spec(v: SuperSamplingOptimalSettings) -> RayReconstructionCreateParameters {
        RayReconstructionCreateParameters {
            render_width: v.render_width,
            render_height: v.render_height,
            target_width: v.target_width,
            target_height: v.target_height,
            perf_quality_value: v.desired_quality_level,
            denoise_mode: DenoiseMode::DlUnified,
            roughness_mode: RoughnessMode::Unpacked,
            depth_type: DepthType::Linear,
            feature_create_flags: 0,
            enable_output_subrects: false,
        }
    }
}

/// The Ray Reconstruction evaluation parameters.
#[derive(Debug)]
pub struct RayReconstructionEvaluationParameters {
    aggregate: EvaluationAggregate,
}

impl Default for RayReconstructionEvaluationParameters {
    /// The zeroed evaluation parameters: no pointer set.
    fn default() -> (r: RayReconstructionEvaluationParameters)
        ensures
            r.wf(),
            r.spec_aggregate().spec_params() == EvalParams::spec_zeroed(),
            forall|slot: ResourceSlot| #[trigger] r.spec_aggregate().spec_resolve(slot) == ResourceVk::spec_zeroed(),
    {
        RayReconstructionEvaluationParameters::new()
    }
}

impl RayReconstructionEvaluationParameters {
    /// The aggregate of resource structs and native parameters.
    pub closed spec fn spec_aggregate(&self) -> EvaluationAggregate {
        self.aggregate
    }

    /// Every pointer field refers to its own resource struct.
    pub open spec fn wf(&self) -> bool {
        self.spec_aggregate().wf()
    }

    /// Creates a new, zeroed set of evaluation parameters.
    pub fn new() -> (r: RayReconstructionEvaluationParameters)
        ensures
            r.wf(),
            r.spec_aggregate().spec_params() == EvalParams::spec_zeroed(),
            forall|slot: ResourceSlot| #[trigger] r.spec_aggregate().spec_resolve(slot) == ResourceVk::spec_zeroed(),
    {
        RayReconstructionEvaluationParameters { aggregate: EvaluationAggregate::new() }
    }

    /// The aggregate, for building the native struct at evaluation.
    pub fn get_rr_evaluation_parameters(&self) -> (r: &EvaluationAggregate)
        ensures
            *r == self.spec_aggregate(),
    {
        &self.aggregate
    }

    /// Sets the color input parameter (the image to denoise and upscale).
    pub fn set_color_input(&mut self, description: VkImageResourceDescription)
        requires
            old(self).wf(),
        ensures
            color_input_set(old(self).spec_aggregate(), final(self).spec_aggregate(), description),
    {
        self.aggregate.set_color_input(description);
    }

    /// Sets the color output (the processed image) information.
    pub fn set_color_output(&mut self, description: VkImageResourceDescription)
        requires
            old(self).wf(),
        ensures
            color_output_set(old(self).spec_aggregate(), final(self).spec_aggregate(), description),
    {
        self.aggregate.set_color_output(description);
    }

    /// Sets the motion vectors, with their per-axis scale as IEEE-754 bits;
    /// without a scale, `1.0` is used on both axes.
    pub fn set_motions_vectors(&mut self, description: VkImageResourceDescription, scale_bits: Option<[u32; 2]>)
        requires
            old(self).wf(),
        ensures
            motion_vectors_set(old(self).spec_aggregate(), final(self).spec_aggregate(), description, scale_bits),
    {
        self.aggregate.set_motions_vectors(description, scale_bits);
    }

    /// Sets the depth buffer.
    pub fn set_depth_buffer(&mut self, description: VkImageResourceDescription)
        requires
            old(self).wf(),
        ensures
            depth_buffer_set(old(self).spec_aggregate(), final(self).spec_aggregate(), description),
    {
        self.aggregate.set_depth_buffer(description);
    }

    /// Sets the jitter offsets (like TAA), as IEEE-754 bits.
    pub fn set_jitter_offsets(&mut self, x_bits: u32, y_bits: u32)
        requires
            old(self).wf(),
        ensures
            jitter_offsets_set(old(self).spec_aggregate(), final(self).spec_aggregate(), x_bits, y_bits),
    {
        self.aggregate.set_jitter_offsets(x_bits, y_bits);
    }

    /// Sets/unsets the reset flag.
    pub fn set_reset(&mut self, should_reset: bool)
        requires
            old(self).wf(),
        ensures
            reset_set(old(self).spec_aggregate(), final(self).spec_aggregate(), should_reset),
    {
        self.aggregate.set_reset(should_reset);
    }

    /// Sets the rendering dimensions.
    pub fn set_rendering_dimensions(&mut self, rendering_offset: [u32; 2], rendering_size: [u32; 2])
        requires
            old(self).wf(),
        ensures
            rendering_dimensions_set(
                old(self).spec_aggregate(),
                final(self).spec_aggregate(),
                rendering_offset,
                rendering_size,
            ),
    {
        self.aggregate.set_rendering_dimensions(rendering_offset, rendering_size);
    }
}

/// The message of a wrapper built around a feature of another kind.
pub open spec fn ray_reconstruction_mismatch_message() -> Seq<char> {
    "Attempt to create a ray reconstruction feature with another feature."@
}

/// A helpful type alias to quickly mention "DLSS-RR".
pub type RRFeature = RayReconstructionFeature;

/// A Ray Reconstruction (or "DLSS-RR") feature.
#[derive(Debug)]
pub struct RayReconstructionFeature {
    feature: Feature,
    parameters: RayReconstructionEvaluationParameters,
    rendering_resolution: Extent2D,
    target_resolution: Extent2D,
}

impl RayReconstructionFeature {
    /// The feature wrapped.
    pub closed spec fn spec_feature(&self) -> Feature {
        self.feature
    }

    /// The evaluation parameters.
    pub closed spec fn spec_parameters(&self) -> RayReconstructionEvaluationParameters {
        self.parameters
    }

    /// The resolution rendered at.
    pub closed spec fn spec_rendering_resolution(&self) -> Extent2D {
        self.rendering_resolution
    }

    /// The resolution upscaled to.
    pub closed spec fn spec_target_resolution(&self) -> Extent2D {
        self.target_resolution
    }

    /// The wrapper is built on a ray reconstruction feature, with well-formed
    /// evaluation parameters.
    pub open spec fn wf(&self) -> bool {
        &&& self.spec_feature().feature_type == FeatureType::RayReconstruction
        &&& self.spec_parameters().wf()
    }

    /// Creates a new Ray Reconstruction feature. A feature of another kind is
    /// refused, and nothing else is done.
    pub fn new(feature: Feature, rendering_resolution: Extent2D, target_resolution: Extent2D) -> (r: core::result::Result<RayReconstructionFeature, Failure>)
        ensures
            r is Ok <==> feature.feature_type == FeatureType::RayReconstruction,
            r is Err ==> crate::parameters::is_other_message(r->Err_0.error, ray_reconstruction_mismatch_message())
                && r->Err_0.release@ == spec_release_calls(feature.handle.spec_raw(), feature.parameters.spec_raw()),
            r is Ok ==> r->Ok_0.wf() && r->Ok_0.spec_feature() == feature
                && r->Ok_0.spec_rendering_resolution() == rendering_resolution
                && r->Ok_0.spec_target_resolution() == target_resolution
                && r->Ok_0.spec_parameters().spec_aggregate().spec_params() == EvalParams::spec_zeroed(),
    {
        let mut feature = feature;
        if !feature.is_ray_reconstruction() {
            let release = feature.release();
            return Err(Failure {
                error: Error::Other(String::from_str("Attempt to create a ray reconstruction feature with another feature.")),
                release,
            });
        }
        Ok(RayReconstructionFeature {
            feature,
            parameters: RayReconstructionEvaluationParameters::new(),
            rendering_resolution,
            target_resolution,
        })
    }

    /// Returns the inner feature object.
    pub fn get_inner(&self) -> (r: &Feature)
        ensures
            *r == self.spec_feature(),
    {
        &self.feature
    }

    /// Returns the inner feature object (mutable). 
    pub fn get_inner_mut(&mut self) -> (r: &mut Feature)
        ensures
            *r == old(self).spec_feature(),
            final(self).spec_feature() == *final(r),
            final(self).spec_parameters() == old(self).spec_parameters(),
            final(self).spec_rendering_resolution() == old(self).spec_rendering_resolution(),
            final(self).spec_target_resolution() == old(self).spec_target_resolution(),
    {
        &mut self.feature
    }

    /// Returns the rendering resolution (input resolution) of the image that
    /// needs to be upscaled to the target resolution.
    pub fn get_rendering_resolution(&self) -> (r: Extent2D)
        ensures
            r == self.spec_rendering_resolution(),
    {
        self.rendering_resolution
    }

    /// Returns the target resolution (output resolution) that the rendered
    /// image is upscaled to.
    pub fn get_target_resolution(&self) -> (r: Extent2D)
        ensures
            r == self.spec_target_resolution(),
    {
        self.target_resolution
    }

    /// Whether the parameter map reports the feature as initialised, from the
    /// native read of its init-result entry.
    pub fn is_initialised(&self, init_result: &Result<bool>) -> (r: bool)
        ensures
            r == (*init_result == Ok::<bool, Error>(true)),
    {
        FeatureParameters::is_ray_reconstruction_initialised(init_result)
    }

    /// Returns the evaluation parameters.
    pub fn get_evaluation_parameters_mut(&mut self) -> (r: &mut RayReconstructionEvaluationParameters)
        ensures
            *r == old(self).spec_parameters(),
            final(self).spec_parameters() == *final(r),
            final(self).spec_feature() == old(self).spec_feature(),
            final(self).spec_rendering_resolution() == old(self).spec_rendering_resolution(),
            final(self).spec_target_resolution() == old(self).spec_target_resolution(),
    {
        &mut self.parameters
    }
}

impl Feature {
    /// Builds the ray reconstruction feature that the native DLSS-RR creation
    /// call produced from `create_parameters`: its resolutions are those of
    /// the create parameters.
    pub fn new_ray_reconstruction(
        status: NgxResult,
        raw: u64,
        parameters: FeatureParameters,
        create_parameters: RayReconstructionCreateParameters,
    ) -> (r: core::result::Result<RayReconstructionFeature, Failure>)
        ensures
            status == NgxResult::Success <==> r is Ok,
            r is Err ==> r->Err_0.error == Error::Internal(status)
                && r->Err_0.release@ == spec_release_calls(0, parameters.spec_raw()),
            r is Ok ==> r->Ok_0.wf()
                && r->Ok_0.spec_feature().handle.spec_raw() == raw
                && r->Ok_0.spec_feature().parameters.spec_raw() == parameters.spec_raw()
                && r->Ok_0.spec_rendering_resolution() == create_parameters.spec_rendering_resolution()
                && r->Ok_0.spec_target_resolution() == create_parameters.spec_target_resolution(),
    {
        let rendering_resolution = Extent2D {
            width: create_parameters.render_width,
            height: create_parameters.render_height,
        };
        let target_resolution = Extent2D {
            width: create_parameters.target_width,
            height: create_parameters.target_height,
        };
        if !status.is_success() {
            return Err(creation_failure(status, parameters));
        }
        let feature = Feature {
            handle: FeatureHandle::from_raw(raw),
            feature_type: FeatureType::RayReconstruction,
            parameters,
        };
        RayReconstructionFeature::new(feature, rendering_resolution, target_resolution)
    }
}

} // verus!
