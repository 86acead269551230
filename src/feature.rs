//! NGX features: their kinds, their native handles and their teardown.
use vstd::prelude::*;
use crate::bridge::{spec_take, NativeHandle};
use crate::parameters::FeatureParameters;
use crate::result::{spec_read, Error, NgxResult, Result};

verus! {

/// The kind of a feature.
#[derive(Debug, Clone, Copy, PartialEq, Eq, Structural)]
pub enum FeatureType {
    /// Upscaling ("DLSS").
    SuperSampling,
    /// Frame generation.
    FrameGeneration,
    /// Denoising together with upscaling ("DLSS-RR").
    RayReconstruction,
}

impl FeatureType {
    /// The identifier of the kind in the native SDK.
    pub open spec fn spec_native_id(self) -> u32 {
        match self {
            FeatureType::SuperSampling => 1,
            FeatureType::FrameGeneration => 11,
            FeatureType::RayReconstruction => 13,
        }
    }

    /// The identifier of the kind in the native SDK.
    pub fn native_id(&self) -> (r: u32)
        ensures
            r == self.spec_native_id(),
    {
        match *self {
            FeatureType::SuperSampling => 1,
            FeatureType::FrameGeneration => 11,
            FeatureType::RayReconstruction => 13,
        }
    }
}

/// The owner of one native feature instance. It is released by exactly one
/// native call, made with the handle that `release` hands out, and only if a
/// feature was ever created into it.
#[derive(Debug)]
pub struct FeatureHandle {
    handle: NativeHandle,
}

impl Default for FeatureHandle {
    /// A handle that holds no feature yet.
    fn default() -> (r: FeatureHandle)
        ensures
            r.spec_raw() == 0,
    {
        FeatureHandle::new()
    }
}

impl FeatureHandle {
    /// The raw handle held; zero when none.
    pub closed spec fn spec_raw(&self) -> u64 {
        self.handle.spec_raw()
    }

    /// A handle that holds no feature yet.
    pub fn new() -> (r: FeatureHandle)
        ensures
            r.spec_raw() == 0,
    {
        FeatureHandle { handle: NativeHandle::null() }
    }

    /// Takes ownership of a feature instance that the native SDK created.
    pub fn from_raw(raw: u64) -> (r: FeatureHandle)
        ensures
            r.spec_raw() == raw,
    {
        FeatureHandle { handle: NativeHandle::from_raw(raw) }
    }

    /// The raw handle, for passing it to the native SDK.
    pub fn raw(&self) -> (r: u64)
        ensures
            r == self.spec_raw(),
    {
        self.handle.raw()
    }

    /// Whether no feature is held.
    pub fn is_null(&self) -> (r: bool)
        ensures
            r == (self.spec_raw() == 0),
    {
        self.handle.is_null()
    }

    /// Hands out the handle for the one native call that releases the feature,
    /// and leaves this value holding nothing. A null handle hands out nothing.
    pub fn release(&mut self) -> (r: Option<u64>)
        ensures
            r == spec_take(old(self).spec_raw()).0,
            final(self).spec_raw() == spec_take(old(self).spec_raw()).1,
    {
        self.handle.take()
    }
}

/// A native call that frees a resource.
#[derive(Debug, Clone, Copy, PartialEq, Eq, Structural)]
pub enum ReleaseCall {
    /// Release the feature instance with this handle.
    ReleaseFeature(u64),
    /// Destroy the parameter map with this handle.
    DestroyParameters(u64),
}

/// The native calls that free a feature and its parameter map: the feature
/// first, then the map; none for a handle that is null.
pub open spec fn spec_release_calls(feature_raw: u64, parameters_raw: u64) -> Seq<ReleaseCall> {
    (if feature_raw != 0 {
        seq![ReleaseCall::ReleaseFeature(feature_raw)]
    } else {
        Seq::<ReleaseCall>::empty()
    }) + (if parameters_raw != 0 {
        seq![ReleaseCall::DestroyParameters(parameters_raw)]
    } else {
        Seq::<ReleaseCall>::empty()
    })
}

/// Describes a single NGX feature.
#[derive(Debug)]
pub struct Feature {
    /// The feature handle.
    pub handle: FeatureHandle,
    /// The type of the feature.
    pub feature_type: FeatureType,
    /// The parameters of the feature.
    pub parameters: FeatureParameters,
}

/// Why a constructor failed, and the native calls that free what it was
/// given: the caller still owes them, once each, in this order.
#[derive(Debug)]
pub struct Failure {
    pub error: Error,
    pub release: Vec<ReleaseCall>,
}

/// A failure of a native creation call: the status is the error, and the
/// parameter map that was handed over must still be destroyed.
pub fn creation_failure(status: NgxResult, parameters: FeatureParameters) -> (r: Failure)
    ensures
        r.error == Error::Internal(status),
        r.release@ == spec_release_calls(0, parameters.spec_raw()),
{
    let mut parameters = parameters;
    let mut release: Vec<ReleaseCall> = Vec::new();
    match parameters.release() {
        Some(raw) => release.push(ReleaseCall::DestroyParameters(raw)),
        None => {},
    }
    Failure { error: Error::Internal(status), release }
}

impl Feature {
    /// Builds the feature that a native creation call produced. `status` and
    /// `raw` are the status and the handle that the call returned; the feature
    /// exists only when it succeeded. On failure no feature is owned, and the
    /// destruction of the parameter map is handed back to the caller.
    pub fn new(status: NgxResult, raw: u64, feature_type: FeatureType, parameters: FeatureParameters) -> (r: core::result::Result<Feature, Failure>)
        ensures
            status == NgxResult::Success <==> r is Ok,
            r is Err ==> r->Err_0.error == Error::Internal(status)
                && r->Err_0.release@ == spec_release_calls(0, parameters.spec_raw()),
            r is Ok ==> r->Ok_0.handle.spec_raw() == raw && r->Ok_0.feature_type == feature_type
                && r->Ok_0.parameters.spec_raw() == parameters.spec_raw(),
    {
        if status.is_success() {
            Ok(Feature { handle: FeatureHandle::from_raw(raw), feature_type, parameters })
        } else {
            Err(creation_failure(status, parameters))
        }
    }

    /// Builds the frame generation feature that a native creation call
    /// produced; as `new`.
    pub fn new_frame_generation(status: NgxResult, raw: u64, parameters: FeatureParameters) -> (r: core::result::Result<Feature, Failure>)
        ensures
            status == NgxResult::Success <==> r is Ok,
            r is Err ==> r->Err_0.error == Error::Internal(status)
                && r->Err_0.release@ == spec_release_calls(0, parameters.spec_raw()),
            r is Ok ==> r->Ok_0.handle.spec_raw() == raw && r->Ok_0.feature_type == FeatureType::FrameGeneration
                && r->Ok_0.parameters.spec_raw() == parameters.spec_raw(),
    {
        Self::new(status, raw, FeatureType::FrameGeneration, parameters)
    }

    /// Returns the parameters associated with this feature.
    pub fn get_parameters(&self) -> (r: &FeatureParameters)
        ensures
            r == &self.parameters,
    {
        &self.parameters
    }

    /// Returns the parameters associated with this feature.
    pub fn get_parameters_mut(&mut self) -> (r: &mut FeatureParameters)
        ensures
            *r == old(self).parameters,
            final(self).parameters == *final(r),
            final(self).handle == old(self).handle,
            final(self).feature_type == old(self).feature_type,
    {
        &mut self.parameters
    }

    /// Returns the type of this feature.
    pub fn get_feature_type(&self) -> (r: FeatureType)
        ensures
            r == self.feature_type,
    {
        self.feature_type
    }

    /// Returns `true` if this feature is the super sampling one.
    pub fn is_super_sampling(&self) -> (r: bool)
        ensures
            r == (self.feature_type == FeatureType::SuperSampling),
    {
        self.feature_type == FeatureType::SuperSampling
    }

    /// Returns `true` if this feature is the frame generation one.
    pub fn is_frame_generation(&self) -> (r: bool)
        ensures
            r == (self.feature_type == FeatureType::FrameGeneration),
    {
        self.feature_type == FeatureType::FrameGeneration
    }

    /// Returns `true` if this feature is the ray reconstruction one.
    pub fn is_ray_reconstruction(&self) -> (r: bool)
        ensures
            r == (self.feature_type == FeatureType::RayReconstruction),
    {
        self.feature_type == FeatureType::RayReconstruction
    }

    /// The scratch buffer size, in bytes, that the native query reported; zero
    /// is a valid size. A failed query is passed on.
    pub fn get_scratch_buffer_size(status: NgxResult, size: usize) -> (r: Result<usize>)
        ensures
            r == spec_read(status, size),
    {
        crate::result::read_result(status, size)
    }

    /// Hands out the native calls that free this feature, in the order in
    /// which they must be made: the feature instance before its parameter map.
    /// Afterwards the feature holds nothing, so no call can be made twice.
    pub fn release(&mut self) -> (r: Vec<ReleaseCall>)
        ensures
            r@ == spec_release_calls(old(self).handle.spec_raw(), old(self).parameters.spec_raw()),
            final(self).handle.spec_raw() == 0,
            final(self).parameters.spec_raw() == 0,
            final(self).feature_type == old(self).feature_type,
    {
        let mut calls: Vec<ReleaseCall> = Vec::new();
        match self.handle.release() {
            Some(raw) => calls.push(ReleaseCall::ReleaseFeature(raw)),
            None => {},
        }
        match self.parameters.release() {
            Some(raw) => calls.push(ReleaseCall::DestroyParameters(raw)),
            None => {},
        }
        proof {
            let h = old(self).handle.spec_raw();
            let p = old(self).parameters.spec_raw();
            assert(calls@ =~= spec_release_calls(h, p));
        }
        calls
    }
}

/// Tearing down a feature whose handle and map are both live makes exactly
/// one release of the feature and then one destruction of the map; tearing it
/// down again makes no call at all.
pub proof fn lemma_teardown_order(feature_raw: u64, parameters_raw: u64)
    requires
        feature_raw != 0,
        parameters_raw != 0,
    ensures
        spec_release_calls(feature_raw, parameters_raw) == seq![
            ReleaseCall::ReleaseFeature(feature_raw),
            ReleaseCall::DestroyParameters(parameters_raw),
        ],
        spec_release_calls(0, 0).len() == 0,
{
    assert(spec_release_calls(feature_raw, parameters_raw) =~= seq![
        ReleaseCall::ReleaseFeature(feature_raw),
        ReleaseCall::DestroyParameters(parameters_raw),
    ]);
    assert(spec_release_calls(0, 0) =~= Seq::<ReleaseCall>::empty());
}

/// The requirements of a feature, as the native feature-discovery query
/// reports them.
#[derive(Debug, Clone)]
pub struct FeatureRequirement {
    /// The raw support result of the query.
    pub feature_supported: u32,
    /// The lowest GPU architecture that runs the feature.
    pub min_hw_architecture: u32,
    /// The lowest operating system version that runs the feature.
    pub min_os_version: String,
}

} // verus!
