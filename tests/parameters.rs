use nvngx::result::read_result;
use nvngx::{Error, FeatureParameters, NgxResult, SupportReadout};

fn readout(
    needs_updated_driver: nvngx::Result<bool>,
    major: nvngx::Result<u32>,
    minor: nvngx::Result<u32>,
    available: nvngx::Result<bool>,
) -> SupportReadout {
    SupportReadout {
        needs_updated_driver,
        min_driver_version_major: major,
        min_driver_version_minor: minor,
        available,
    }
}

fn other_message<T: std::fmt::Debug>(r: nvngx::Result<T>) -> String {
    match r {
        Err(Error::Other(message)) => message,
        other => panic!("expected an error of the crate's own, got {other:?}"),
    }
}

#[test]
fn mod_features() {
    let parameters = FeatureParameters::get_capability_parameters(NgxResult::Success, 0x1000).unwrap();
    assert_eq!(parameters.raw(), 0x1000);
    let available = readout(Ok(false), Ok(0), Ok(0), Ok(true));
    assert!(FeatureParameters::supports_super_sampling(&available).is_ok());
}

#[test]
fn vk_features() {
    let failed = FeatureParameters::get_capability_parameters(NgxResult::FailNotInitialized, 0);
    assert!(matches!(failed, Err(Error::Internal(NgxResult::FailNotInitialized))));
    let missing = FeatureParameters::supports_ray_reconstruction_static(Err(Error::Internal(
        NgxResult::FailNotInitialized,
    )));
    assert!(matches!(missing, Err(Error::Internal(NgxResult::FailNotInitialized))));
}

#[test]
fn driver_update_names_the_required_version() {
    let r = FeatureParameters::supports_super_sampling(&readout(Ok(true), Ok(535), Ok(98), Ok(true)));
    assert_eq!(
        other_message(r),
        "The SuperSampling feature requires a driver update. The driver version required should be higher or equal to 535.98"
    );
    let r = FeatureParameters::supports_ray_reconstruction(&readout(Ok(true), Ok(0), Ok(10), Ok(false)));
    assert_eq!(
        other_message(r),
        "The Ray Reconstruction feature requires a driver update. The driver version required should be higher or equal to 0.10"
    );
}

#[test]
fn unavailable_feature_is_refused() {
    let r = FeatureParameters::supports_super_sampling(&readout(Ok(false), Ok(1), Ok(1), Ok(false)));
    assert_eq!(other_message(r), "The SuperSampling feature isn't supported on this platform.");
    let r = FeatureParameters::supports_ray_reconstruction_static(Ok(readout(Ok(false), Ok(1), Ok(1), Ok(false))));
    assert_eq!(other_message(r), "The Ray Reconstruction feature isn't supported on this platform.");
}

fn fail<T>() -> nvngx::Result<T> {
    Err(Error::Internal(NgxResult::FailInvalidParameter))
}

#[test]
fn failed_reads_are_passed_on() {
    let r = FeatureParameters::supports_super_sampling(&readout(fail(), Ok(1), Ok(1), Ok(true)));
    assert!(matches!(r, Err(Error::Internal(NgxResult::FailInvalidParameter))));
    let r = FeatureParameters::supports_super_sampling(&readout(Ok(true), fail(), Ok(1), Ok(true)));
    assert!(matches!(r, Err(Error::Internal(NgxResult::FailInvalidParameter))));
    let r = FeatureParameters::supports_super_sampling(&readout(Ok(true), Ok(1), fail(), Ok(true)));
    assert!(matches!(r, Err(Error::Internal(NgxResult::FailInvalidParameter))));
    let r = FeatureParameters::supports_super_sampling(&readout(Ok(false), Ok(1), Ok(1), fail()));
    assert!(matches!(r, Err(Error::Internal(NgxResult::FailInvalidParameter))));
}

#[test]
fn initialised_only_on_a_true_read() {
    assert!(FeatureParameters::is_super_sampling_initialised(&Ok(true)));
    assert!(!FeatureParameters::is_super_sampling_initialised(&Ok(false)));
    assert!(!FeatureParameters::is_ray_reconstruction_initialised(&Err(Error::Internal(NgxResult::Fail))));
}

#[test]
fn bool_values_round_trip_through_the_integer_encoding() {
    for value in [true, false] {
        let raw = FeatureParameters::encode_bool(value);
        assert_eq!(FeatureParameters::decode_bool(NgxResult::Success, raw).unwrap(), value);
    }
    assert_eq!(FeatureParameters::encode_bool(true), 1);
    assert_eq!(FeatureParameters::encode_bool(false), 0);
    assert!(!FeatureParameters::decode_bool(NgxResult::Success, 2).unwrap());
    assert!(FeatureParameters::decode_bool(NgxResult::FailInvalidParameter, 1).is_err());
}

#[test]
fn typed_values_come_back_unchanged() {
    assert_eq!(read_result(NgxResult::Success, i32::MIN).unwrap(), i32::MIN);
    assert_eq!(read_result(NgxResult::Success, u32::MAX).unwrap(), u32::MAX);
    assert_eq!(read_result(NgxResult::Success, u64::MAX).unwrap(), u64::MAX);
    let bits = (-0.5f32).to_bits();
    assert_eq!(f32::from_bits(read_result(NgxResult::Success, bits).unwrap()), -0.5f32);
    let bits = 1.0e300f64.to_bits();
    assert_eq!(f64::from_bits(read_result(NgxResult::Success, bits).unwrap()), 1.0e300f64);
}

#[test]
fn capability_keys() {
    let keys = FeatureParameters::super_sampling_keys();
    assert_eq!(keys.available, "SuperSampling.Available");
    assert_eq!(keys.needs_updated_driver, "SuperSampling.NeedsUpdatedDriver");
    let keys = FeatureParameters::ray_reconstruction_keys();
    assert_eq!(keys.min_driver_version_minor, "SuperSamplingDenoising.MinDriverVersionMinor");
    assert_eq!(keys.init_result, "SuperSamplingDenoising.FeatureInitResult");
}
