use rzem_mj_lora::file_ops::{load_project, FileOpsError};
use rzem_mj_lora::image_utils::{
    encode_image_bytes, get_mime_type, is_valid_image, ImageFormatError,
};
use rzem_mj_lora::text::u64_to_string;

#[test]
fn test_load_project_round_trip_content() {
    // What save wrote is handed back byte-identical when it is valid JSON.
    let data = "{\"test\": \"data\"}".to_string();
    let loaded = load_project("/p/test.json", Some(data.clone())).unwrap();
    assert_eq!(loaded, data);
}

#[test]
fn test_load_project_rejects_non_json() {
    let r = load_project("/p/test.json", Some("this is not json".to_string()));
    assert_eq!(r, Err(FileOpsError::NotJson));
    let e = FileOpsError::NotJson;
    assert_eq!(e.message(), "Project file is not valid JSON");
}

#[test]
fn test_load_project_missing_file() {
    let r = load_project("/p/absent.json", None);
    match r {
        Err(FileOpsError::NotFound { path }) => {
            assert_eq!(path, "/p/absent.json");
            let e = FileOpsError::NotFound { path };
            assert_eq!(e.message(), "Project file does not exist: /p/absent.json");
        }
        other => panic!("expected NotFound, got {:?}", other),
    }
}

#[test]
fn test_get_mime_type() {
    assert_eq!(get_mime_type("test.jpg").unwrap(), "image/jpeg");
    assert_eq!(get_mime_type("test.png").unwrap(), "image/png");
    assert_eq!(get_mime_type("test.webp").unwrap(), "image/webp");
    assert!(get_mime_type("test.txt").is_err());
}

#[test]
fn test_get_mime_type_details() {
    // Case-insensitive, last extension wins, directories are ignored.
    assert_eq!(get_mime_type("TEST.JPG").unwrap(), "image/jpeg");
    assert_eq!(get_mime_type("/a.png/b/c.tar.Gif").unwrap(), "image/gif");
    assert_eq!(get_mime_type("photo.jpeg").unwrap(), "image/jpeg");
    assert!(get_mime_type("noextension").is_err());
    assert!(get_mime_type(".hidden").is_err());
    assert!(get_mime_type("trailingdot.").is_err());
    match get_mime_type("doc.TXT") {
        Err(ImageFormatError::UnsupportedFormat { extension }) => {
            assert_eq!(extension, "txt");
            let e = ImageFormatError::UnsupportedFormat { extension };
            assert_eq!(e.message(), "Unsupported image format: txt");
        }
        other => panic!("expected UnsupportedFormat, got {:?}", other),
    }
}

#[test]
fn test_is_valid_image() {
    assert!(is_valid_image("x.gif"));
    assert!(is_valid_image("x.webp"));
    assert!(!is_valid_image("x.bmp"));
    assert!(!is_valid_image("x"));
}

#[test]
fn test_encode_image_bytes_standard_base64() {
    // The real encoder must agree: "hello" -> "aGVsbG8=".
    let bytes = vec![104u8, 101, 108, 108, 111];
    assert_eq!(encode_image_bytes(&bytes), "aGVsbG8=");
    let empty: Vec<u8> = vec![];
    assert_eq!(encode_image_bytes(&empty), "");
    let one = vec![0u8];
    assert_eq!(encode_image_bytes(&one), "AA==");
    assert_eq!(encode_image_bytes(&one).len(), 4);
}

#[test]
fn test_u64_rendering() {
    assert_eq!(u64_to_string(0), "0");
    assert_eq!(u64_to_string(7), "7");
    assert_eq!(u64_to_string(1234567890), "1234567890");
    assert_eq!(u64_to_string(u64::MAX), "18446744073709551615");
}
