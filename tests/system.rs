use nvngx::system::{c_string, convert_slice_of_strings_to_cstrings, project_id_text, wide_path};
use nvngx::{Error, RequiredExtensions};

#[test]
fn extension_names_become_c_strings() {
    let extensions = RequiredExtensions {
        device: vec!["VK_KHR_push_descriptor".to_string(), "VK_NVX_binary_import".to_string()],
        instance: vec![],
    };
    let device = extensions.get_device_extensions_c_strings().unwrap();
    assert_eq!(device.len(), 2);
    assert_eq!(device[0], b"VK_KHR_push_descriptor\0".to_vec());
    assert_eq!(device[1], b"VK_NVX_binary_import\0".to_vec());
    assert!(extensions.get_instance_extensions_c_strings().unwrap().is_empty());
}

#[test]
fn a_nul_in_an_extension_name_is_refused() {
    let data = vec!["fine".to_string(), "bro\0ken".to_string()];
    match convert_slice_of_strings_to_cstrings(&data) {
        Err(Error::Other(m)) => assert_eq!(m, "Couldn't convert the extensions to CStrings."),
        other => panic!("unexpected {other:?}"),
    }
    assert_eq!(c_string("é"), Some(vec![0xc3, 0xa9, 0]));
    assert_eq!(c_string(""), Some(vec![0]));
    assert_eq!(c_string("a\0"), None);
}

#[test]
fn project_id_is_hyphenated() {
    let bytes = [0x67, 0xe5, 0x50, 0x44, 0x10, 0xb1, 0x42, 0x6f, 0x92, 0x47, 0xbb, 0x68, 0x0e, 0x5f, 0xe0, 0xc8];
    assert_eq!(project_id_text(Some(bytes)), "67e55044-10b1-426f-9247-bb680e5fe0c8");
    let random = project_id_text(None);
    assert_eq!(random.len(), 36);
    assert_eq!(&random[14..15], "4");
    assert!(["8", "9", "a", "b"].contains(&&random[19..20]));
}

#[test]
fn data_path_is_a_nul_terminated_wide_string() {
    assert_eq!(wide_path("/tmp/ngx"), vec![47, 116, 109, 112, 47, 110, 103, 120, 0]);
    assert_eq!(wide_path("ü"), vec![0xfc, 0]);
    assert_eq!(wide_path(""), vec![0]);
}
