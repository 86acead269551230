//! The parameter map of the native SDK: its ownership, the encoding of typed
//! values, and the capability checks made on it.
use vstd::prelude::*;
use crate::bridge::{spec_take, NativeHandle};
use crate::result::{spec_read, Error, NgxResult, Result};
use crate::text::{append_decimal, decimal};

verus! {

/// The names of the capability entries that the checks of one feature read.
#[derive(Debug, Clone, Copy)]
pub struct SupportKeys {
    /// Set when the feature needs a newer driver than the installed one.
    pub needs_updated_driver: &'static str,
    /// The major part of the lowest driver version that runs the feature.
    pub min_driver_version_major: &'static str,
    /// The minor part of the lowest driver version that runs the feature.
    pub min_driver_version_minor: &'static str,
    /// Set when the feature is available on this platform.
    pub available: &'static str,
    /// Set once the feature has been initialised.
    pub init_result: &'static str,
}

/// What the native getters gave back for the capability entries of one
/// feature, each read with its own status.
#[derive(Debug)]
pub struct SupportReadout {
    pub needs_updated_driver: Result<bool>,
    pub min_driver_version_major: Result<u32>,
    pub min_driver_version_minor: Result<u32>,
    pub available: Result<bool>,
}

/// The message of a feature that needs a driver update.
pub open spec fn driver_update_message(feature: Seq<char>, major: u32, minor: u32) -> Seq<char> {
    "The "@ + feature
        + " feature requires a driver update. The driver version required should be higher or equal to "@
        + decimal(major as nat) + "."@ + decimal(minor as nat)
}

/// The message of a feature that the platform does not offer.
pub open spec fn unsupported_message(feature: Seq<char>) -> Seq<char> {
    "The "@ + feature + " feature isn't supported on this platform."@
}

/// Whether `e` is an error of the crate's own with the given message.
pub open spec fn is_other_message(e: Error, message: Seq<char>) -> bool {
    e is Other && e->Other_0@ == message
}

/// Whether `r` is an error of the crate's own with the given message.
pub open spec fn is_other_error<T>(r: Result<T>, message: Seq<char>) -> bool {
    r is Err && is_other_message(r->Err_0, message)
}

/// The outcome of the capability check of `feature` on a readout: a failed
/// read is passed on; a feature that needs a newer driver is refused with the
/// version it needs; otherwise the feature is supported exactly when it is
/// available.
pub open spec fn is_support_outcome(feature: Seq<char>, readout: SupportReadout, r: Result<()>) -> bool {
    match readout.needs_updated_driver {
        Err(e) => r == Err::<(), Error>(e),
        Ok(true) => match readout.min_driver_version_major {
            Err(e) => r == Err::<(), Error>(e),
            Ok(major) => match readout.min_driver_version_minor {
                Err(e) => r == Err::<(), Error>(e),
                Ok(minor) => is_other_error(r, driver_update_message(feature, major, minor)),
            },
        },
        Ok(false) => match readout.available {
            Err(e) => r == Err::<(), Error>(e),
            Ok(true) => r == Ok::<(), Error>(()),
            Ok(false) => is_other_error(r, unsupported_message(feature)),
        },
    }
}

/// The integer that stands for a boolean in the native map.
pub open spec fn spec_encode_bool(value: bool) -> i32 {
    if value {
        1
    } else {
        0
    }
}

/// The boolean that an integer of the native map stands for: only `1` is true.
pub open spec fn spec_decode_bool(raw: i32) -> bool {
    raw == 1
}

fn support_check(feature: &str, readout: &SupportReadout) -> (r: Result<()>)
    ensures
        is_support_outcome(feature@, *readout, r),
{
    match &readout.needs_updated_driver {
        Err(e) => Err(e.clone_error()),
        Ok(true) => {
            let major = match &readout.min_driver_version_major {
                Err(e) => {
                    return Err(e.clone_error());
                },
                Ok(major) => *major,
            };
            let minor = match &readout.min_driver_version_minor {
                Err(e) => {
                    return Err(e.clone_error());
                },
                Ok(minor) => *minor,
            };
            let mut message = String::from_str("The ");
            message.append(feature);
            message.append(
                " feature requires a driver update. The driver version required should be higher or equal to ",
            );
            append_decimal(&mut message, major);
            message.append(".");
            append_decimal(&mut message, minor);
            Err(Error::Other(message))
        },
        Ok(false) => match &readout.available {
            Err(e) => Err(e.clone_error()),
            Ok(true) => Ok(()),
            Ok(false) => {
                let mut message = String::from_str("The ");
                message.append(feature);
                message.append(" feature isn't supported on this platform.");
                Err(Error::Other(message))
            },
        },
    }
}

/// The parameter map of the native SDK that this value owns. The map is
/// destroyed by exactly one native call, made with the handle that `release`
/// hands out.
#[derive(Debug)]
pub struct FeatureParameters {
    handle: NativeHandle,
}

impl FeatureParameters {
    /// The raw handle of the map owned.
    pub closed spec fn spec_raw(&self) -> u64 {
        self.handle.spec_raw()
    }

    /// Takes ownership of a map that the native SDK allocated. The status is
    /// that of the allocating call; the map is only owned when it succeeded.
    pub fn new(status: NgxResult, raw: u64) -> (r: Result<FeatureParameters>)
        ensures
            status == NgxResult::Success ==> r is Ok && r->Ok_0.spec_raw() == raw,
            status != NgxResult::Success ==> r == Err::<FeatureParameters, Error>(Error::Internal(status)),
    {
        if status.is_success() {
            Ok(FeatureParameters { handle: NativeHandle::from_raw(raw) })
        } else {
            Err(Error::Internal(status))
        }
    }

    /// Takes ownership of a map that the native capability query produced,
    /// pre-populated with the SDK's capabilities. The status is that of the
    /// query; the map is only owned when it succeeded.
    pub fn get_capability_parameters(status: NgxResult, raw: u64) -> (r: Result<FeatureParameters>)
        ensures
            status == NgxResult::Success ==> r is Ok && r->Ok_0.spec_raw() == raw,
            status != NgxResult::Success ==> r == Err::<FeatureParameters, Error>(Error::Internal(status)),
    {
        Self::new(status, raw)
    }

    /// The raw handle, for passing it to the native SDK.
    pub fn raw(&self) -> (r: u64)
        ensures
            r == self.spec_raw(),
    {
        self.handle.raw()
    }

    /// Hands out the handle for the one native call that destroys the map, and
    /// leaves this value owning nothing.
    pub fn release(&mut self) -> (r: Option<u64>)
        ensures
            r == spec_take(old(self).spec_raw()).0,
            final(self).spec_raw() == spec_take(old(self).spec_raw()).1,
    {
        self.handle.take()
    }

    /// The integer that the native map stores for a boolean: `1` for true and
    /// `0` for false.
    pub fn encode_bool(value: bool) -> (r: i32)
        ensures
            r == spec_encode_bool(value),
    {
        if value {
            1
        } else {
            0
        }
    }

    /// The boolean that a native integer read stands for, or the status of a
    /// failed read.
    pub fn decode_bool(status: NgxResult, raw: i32) -> (r: Result<bool>)
        ensures
            r == spec_read(status, spec_decode_bool(raw)),
    {
        crate::result::read_result(status, raw == 1)
    }

    /// The capability entries that the super sampling checks read.
    pub fn super_sampling_keys() -> (r: SupportKeys)
        ensures
            r.needs_updated_driver@ == "SuperSampling.NeedsUpdatedDriver"@,
            r.min_driver_version_major@ == "SuperSampling.MinDriverVersionMajor"@,
            r.min_driver_version_minor@ == "SuperSampling.MinDriverVersionMinor"@,
            r.available@ == "SuperSampling.Available"@,
            r.init_result@ == "SuperSampling.FeatureInitResult"@,
    {
        SupportKeys {
            needs_updated_driver: "SuperSampling.NeedsUpdatedDriver",
            min_driver_version_major: "SuperSampling.MinDriverVersionMajor",
            min_driver_version_minor: "SuperSampling.MinDriverVersionMinor",
            available: "SuperSampling.Available",
            init_result: "SuperSampling.FeatureInitResult",
        }
    }

    /// The capability entries that the ray reconstruction checks read.
    pub fn ray_reconstruction_keys() -> (r: SupportKeys)
        ensures
            r.needs_updated_driver@ == "SuperSamplingDenoising.NeedsUpdatedDriver"@,
            r.min_driver_version_major@ == "SuperSamplingDenoising.MinDriverVersionMajor"@,
            r.min_driver_version_minor@ == "SuperSamplingDenoising.MinDriverVersionMinor"@,
            r.available@ == "SuperSamplingDenoising.Available"@,
            r.init_result@ == "SuperSamplingDenoising.FeatureInitResult"@,
    {
        SupportKeys {
            needs_updated_driver: "SuperSamplingDenoising.NeedsUpdatedDriver",
            min_driver_version_major: "SuperSamplingDenoising.MinDriverVersionMajor",
            min_driver_version_minor: "SuperSamplingDenoising.MinDriverVersionMinor",
            available: "SuperSamplingDenoising.Available",
            init_result: "SuperSamplingDenoising.FeatureInitResult",
        }
    }

    /// `Ok` when the capability entries read from the map claim support for
    /// the super sampling feature; otherwise why not.
    pub fn supports_super_sampling(readout: &SupportReadout) -> (r: Result<()>)
        ensures
            is_support_outcome("SuperSampling"@, *readout, r),
    {
        support_check("SuperSampling", readout)
    }

    /// `Ok` when the capability entries read from the map claim support for
    /// the ray reconstruction feature; otherwise why not.
    pub fn supports_ray_reconstruction(readout: &SupportReadout) -> (r: Result<()>)
        ensures
            is_support_outcome("Ray Reconstruction"@, *readout, r),
    {
        support_check("Ray Reconstruction", readout)
    }

    /// The capability check of super sampling on a freshly queried capability
    /// map: a failed query is passed on.
    pub fn supports_super_sampling_static(capabilities: Result<SupportReadout>) -> (r: Result<()>)
        ensures
            capabilities is Err ==> r == Err::<(), Error>(capabilities->Err_0),
            capabilities is Ok ==> is_support_outcome("SuperSampling"@, capabilities->Ok_0, r),
    {
        match capabilities {
            Err(e) => Err(e),
            Ok(readout) => Self::supports_super_sampling(&readout),
        }
    }

    /// The capability check of ray reconstruction on a freshly queried
    /// capability map: a failed query is passed on.
    pub fn supports_ray_reconstruction_static(capabilities: Result<SupportReadout>) -> (r: Result<()>)
        ensures
            capabilities is Err ==> r == Err::<(), Error>(capabilities->Err_0),
            capabilities is Ok ==> is_support_outcome("Ray Reconstruction"@, capabilities->Ok_0, r),
    {
        match capabilities {
            Err(e) => Err(e),
            Ok(readout) => Self::supports_ray_reconstruction(&readout),
        }
    }

    /// Whether the map reports super sampling as initialised: a failed read
    /// counts as not initialised.
    pub fn is_super_sampling_initialised(init_result: &Result<bool>) -> (r: bool)
        ensures
            r == (*init_result == Ok::<bool, Error>(true)),
    {
        match init_result {
            Ok(value) => *value,
            Err(_) => false,
        }
    }

    /// Whether the map reports ray reconstruction as initialised: a failed
    /// read counts as not initialised.
    pub fn is_ray_reconstruction_initialised(init_result: &Result<bool>) -> (r: bool)
        ensures
            r == (*init_result == Ok::<bool, Error>(true)),
    {
        match init_result {
            Ok(value) => *value,
            Err(_) => false,
        }
    }
}

/// A boolean written to the map and read back is the boolean written; an
/// integer of the map reads back as true exactly when it is `1`.
pub proof fn lemma_bool_round_trip(value: bool, raw: i32)
    ensures
        spec_read(NgxResult::Success, spec_decode_bool(spec_encode_bool(value))) == Ok::<bool, Error>(value),
        spec_decode_bool(raw) <==> raw == 1,
{
}

/// A value that a successful native read wrote comes back unchanged, whatever
/// its type.
pub proof fn lemma_read_round_trip<T>(value: T)
    ensures
        spec_read(NgxResult::Success, value) == Ok::<T, Error>(value),
{
}

} // verus!
