use nvngx::bridge::{handle_to_pointer, pointer_to_handle, NativeHandle};
use nvngx::{Error, Feature, FeatureHandle, FeatureParameters, FeatureType, NgxResult, ReleaseCall};

fn parameters(raw: u64) -> FeatureParameters {
    FeatureParameters::new(NgxResult::Success, raw).unwrap()
}

#[test]
fn handles_survive_the_pointer_encoding() {
    for raw in [0u64, 1, 0xdead_beef, u64::MAX] {
        let pointer = handle_to_pointer(raw);
        assert_eq!(pointer.address, raw);
        assert_eq!(pointer_to_handle(pointer), raw);
    }
}

#[test]
fn a_handle_is_released_once() {
    let mut handle = FeatureHandle::from_raw(0x42);
    assert!(!handle.is_null());
    assert_eq!(handle.release(), Some(0x42));
    assert!(handle.is_null());
    assert_eq!(handle.release(), None);
    assert_eq!(handle.release(), None);
}

#[test]
fn a_null_handle_is_never_released() {
    let mut handle = FeatureHandle::new();
    assert!(handle.is_null());
    assert_eq!(handle.raw(), 0);
    assert_eq!(handle.release(), None);
    let mut cell = NativeHandle::null();
    assert_eq!(cell.take(), None);
}

#[test]
fn a_parameter_map_is_destroyed_once() {
    let mut map = parameters(0x77);
    assert_eq!(map.release(), Some(0x77));
    for _ in 0..5 {
        assert_eq!(map.release(), None);
    }
    assert_eq!(map.raw(), 0);
}

#[test]
fn failed_allocation_owns_nothing() {
    assert!(matches!(
        FeatureParameters::new(NgxResult::FailOutOfGPUMemory, 0x5),
        Err(Error::Internal(NgxResult::FailOutOfGPUMemory))
    ));
}

#[test]
fn feature_teardown_releases_the_feature_before_its_map() {
    let mut feature = Feature::new(NgxResult::Success, 0xA, FeatureType::FrameGeneration, parameters(0xB)).unwrap();
    let calls = feature.release();
    assert_eq!(calls, vec![ReleaseCall::ReleaseFeature(0xA), ReleaseCall::DestroyParameters(0xB)]);
    assert!(feature.release().is_empty());
}

#[test]
fn feature_teardown_skips_a_null_handle() {
    let mut feature = Feature::new(NgxResult::Success, 0, FeatureType::SuperSampling, parameters(0xB)).unwrap();
    assert_eq!(feature.release(), vec![ReleaseCall::DestroyParameters(0xB)]);
}

#[test]
fn failed_creation_is_an_internal_error() {
    let failure = Feature::new_frame_generation(NgxResult::FailFeatureNotFound, 0xA, parameters(0xB)).unwrap_err();
    assert!(matches!(failure.error, Error::Internal(NgxResult::FailFeatureNotFound)));
    assert_eq!(failure.release, vec![ReleaseCall::DestroyParameters(0xB)]);
    let feature = Feature::new_frame_generation(NgxResult::Success, 0xA, parameters(0xB)).unwrap();
    assert_eq!(feature.get_feature_type(), FeatureType::FrameGeneration);
    assert!(feature.is_frame_generation());
    assert!(!feature.is_super_sampling());
    assert!(!feature.is_ray_reconstruction());
    assert_eq!(feature.get_parameters().raw(), 0xB);
    assert_eq!(feature.handle.raw(), 0xA);
}

#[test]
fn feature_kinds_have_native_ids() {
    assert_eq!(FeatureType::SuperSampling.native_id(), 1);
    assert_eq!(FeatureType::FrameGeneration.native_id(), 11);
    assert_eq!(FeatureType::RayReconstruction.native_id(), 13);
}

#[test]
fn scratch_buffer_size() {
    assert_eq!(Feature::get_scratch_buffer_size(NgxResult::Success, 0).unwrap(), 0);
    assert_eq!(Feature::get_scratch_buffer_size(NgxResult::Success, 4096).unwrap(), 4096);
    assert!(Feature::get_scratch_buffer_size(NgxResult::FailNotInitialized, 4096).is_err());
}

#[test]
fn parameters_can_be_reached_mutably() {
    let mut feature = Feature::new(NgxResult::Success, 0xA, FeatureType::SuperSampling, parameters(0xB)).unwrap();
    assert_eq!(feature.get_parameters_mut().release(), Some(0xB));
    assert_eq!(feature.release(), vec![ReleaseCall::ReleaseFeature(0xA)]);
}

#[test]
fn failed_creation_hands_back_one_destroy_of_the_map() {
    let failure = Feature::new(NgxResult::FailOutOfGPUMemory, 0, FeatureType::SuperSampling, parameters(0x9)).unwrap_err();
    assert!(matches!(failure.error, Error::Internal(NgxResult::FailOutOfGPUMemory)));
    assert_eq!(failure.release, vec![ReleaseCall::DestroyParameters(0x9)]);
    let failure = Feature::new(NgxResult::Fail, 0x5, FeatureType::RayReconstruction, parameters(0)).unwrap_err();
    assert!(failure.release.is_empty());
}
