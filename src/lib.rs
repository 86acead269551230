//! A verified model of the lifecycle and parameter-marshalling layer that sits
//! between an application and the NVIDIA NGX feature-evaluation SDK on Vulkan.
//!
//! The native SDK is reached through its C entry points, which live outside
//! this crate. Everything that decides what to hand to those entry points, and
//! what their replies mean, is here and carries a contract: which status is an
//! error, when a native resource is released and in which order, how typed
//! values and resources are encoded, and how the self-referential evaluation
//! parameters stay consistent.
pub mod bridge;
pub mod evaluation;
pub mod feature;
pub mod parameters;
pub mod ray_reconstruction;
pub mod resource;
pub mod result;
pub mod super_sampling;
pub mod system;
pub mod text;

pub use evaluation::{EvalParams, EvaluationAggregate, ResourceSlot};
pub use feature::{Feature, FeatureHandle, FeatureRequirement, FeatureType, ReleaseCall};
pub use parameters::{FeatureParameters, SupportKeys, SupportReadout};
pub use ray_reconstruction::{
    RayReconstructionCreateParameters, RayReconstructionEvaluationParameters, RayReconstructionFeature,
};
pub use resource::{
    Extent2D, ImageSubresourceRange, VkBufferResourceDescription, VkImageResourceDescription, VkResourceMode,
};
pub use result::{Error, NgxResult, Result};
pub use super_sampling::{
    OptimalSettingsReply, PerfQuality, SuperSamplingCreateParameters, SuperSamplingEvaluationParameters,
    SuperSamplingFeature, SuperSamplingOptimalSettings,
};
pub use system::RequiredExtensions;
