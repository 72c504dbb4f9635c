use taitan::file::UploadBatch;
use taitan::error::Error;
use taitan::file::{
    check_etag, check_upload_size, get_origin_file_name, join_path, path_is_valid, save_etag,
    simple_hex, upload_file_name, upload_path, upload_prefix, SINGLE_FILE_MAX_SIZE,
    stored_file_name, is_uuid_field,
};

fn reference_origin(file_name: &str) -> String {
    if !file_name.ends_with(".xseg") {
        return file_name.to_owned();
    }
    let mut splits: Vec<&str> = file_name.split('.').collect();
    let splits_len = splits.len();
    if splits_len <= 2 {
        return file_name.to_owned();
    }
    splits.truncate(splits_len - 2);
    splits.join(".")
}

fn reference_path_is_valid(path: &str) -> bool {
    let path = std::path::Path::new(path);
    let mut components = path.components().peekable();
    if let Some(first) = components.peek() {
        if !matches!(first, std::path::Component::Normal(_)) {
            return false;
        }
    }
    components.count() == 1
}

const NAMES: &[&str] = &[
    "",
    "a",
    "report.pdf",
    "report.pdf.001.xseg",
    "a.b.c.002.xseg",
    "x.xseg",
    ".xseg",
    "..xseg",
    "xseg",
    "a.xseg.b",
    "a..xseg",
    "no.ext.XSEG",
];

#[test]
fn origin_file_name_examples() {
    assert_eq!(get_origin_file_name("report.pdf.001.xseg"), "report.pdf");
    assert_eq!(get_origin_file_name("report.pdf"), "report.pdf");
    assert_eq!(get_origin_file_name("x.xseg"), "x.xseg");
    assert_eq!(get_origin_file_name("movie.mp4.017.xseg"), "movie.mp4");
}

#[test]
fn origin_file_name_agrees_with_split_and_join() {
    for n in NAMES {
        assert_eq!(get_origin_file_name(n), reference_origin(n), "name {:?}", n);
    }
}

#[test]
fn etag_stubs() {
    assert_eq!(check_etag("f", "t"), Ok(true));
    assert_eq!(save_etag("f", "t"), Ok(()));
}

const PATHS: &[&str] = &[
    "",
    "a",
    "a.txt",
    "/a",
    "/",
    "./a",
    ".",
    "..",
    "../a",
    "a/",
    "a//",
    "a/.",
    "a/./",
    "a/b",
    "a/..",
    "./",
    ".a",
    "..a",
    "a/./b",
    "//a",
    "a//b",
    ".//a",
    "...",
    "a/../b",
];

#[test]
fn path_is_valid_agrees_with_std_components() {
    for p in PATHS {
        assert_eq!(path_is_valid(p), reference_path_is_valid(p), "path {:?}", p);
    }
}

#[test]
fn path_is_valid_examples() {
    assert!(path_is_valid("photo.png"));
    assert!(!path_is_valid("../etc/passwd"));
    assert!(!path_is_valid("/etc/passwd"));
    assert!(!path_is_valid("dir/photo.png"));
    assert!(!path_is_valid(""));
}

#[test]
fn join_path_agrees_with_std_join() {
    let dirs = ["", "uploads", "uploads/", "/var", "/"];
    let names = ["a.txt", "/abs", "", "b/c"];
    for d in dirs {
        for n in names {
            let expect = std::path::Path::new(d).join(n);
            assert_eq!(join_path(d, n), expect.to_str().unwrap(), "dir {:?} name {:?}", d, n);
        }
    }
}

#[test]
fn upload_names_and_paths() {
    assert_eq!(upload_file_name("abc", "a.txt"), "abc.a.txt");
    assert_eq!(upload_file_name("", "a.txt"), ".a.txt");
    assert_eq!(upload_path("", "x.a.txt"), Ok("x.a.txt".to_string()));
    assert_eq!(
        upload_path("uploads", "x.a.txt"),
        Err(Error::LogicError("invalid path".to_string()))
    );
    assert_eq!(
        upload_path("", ".."),
        Err(Error::LogicError("invalid path".to_string()))
    );
}

#[test]
fn upload_size_limits() {
    assert_eq!(
        check_upload_size(None),
        Err(Error::LogicError("file size not known".to_string()))
    );
    assert_eq!(check_upload_size(Some(0)), Ok(()));
    assert_eq!(check_upload_size(Some(SINGLE_FILE_MAX_SIZE)), Ok(()));
    assert_eq!(
        check_upload_size(Some(SINGLE_FILE_MAX_SIZE + 1)),
        Err(Error::LogicError("file size larger than 5MB".to_string()))
    );
    assert_eq!(SINGLE_FILE_MAX_SIZE, 5 * 1024 * 1024);
}

#[test]
fn simple_hex_digits() {
    assert_eq!(simple_hex(0), "00000000000000000000000000000000");
    assert_eq!(simple_hex(u128::MAX), "ffffffffffffffffffffffffffffffff");
    assert_eq!(
        simple_hex(0xa1a2a3a4b1b2c1c2d1d2d3d4d5d6d7d8),
        "a1a2a3a4b1b2c1c2d1d2d3d4d5d6d7d8"
    );
}

#[test]
fn upload_prefix_reads_a_uuid() {
    assert_eq!(
        upload_prefix(b"550e8400-e29b-41d4-a716-446655440000".to_vec()),
        Ok("550e8400e29b41d4a716446655440000".to_string())
    );
    assert_eq!(
        upload_prefix(b"{550E8400-E29B-41D4-A716-446655440000}".to_vec()),
        Ok("550e8400e29b41d4a716446655440000".to_string())
    );
    assert!(matches!(upload_prefix(b"not a uuid".to_vec()), Err(Error::UuidError(_))));
    assert!(matches!(upload_prefix(vec![0xff, 0xfe]), Err(Error::FromUtf8Error(_))));
}

#[test]
fn upload_prefix_matches_uuid_simple_form() {
    let text = "936da01f-9abd-4d9d-80c7-02af85c822a8";
    let expect = uuid::Uuid::parse_str(text).unwrap().as_simple().to_string();
    assert_eq!(upload_prefix(text.as_bytes().to_vec()), Ok(expect));
}

#[test]
fn upload_batch_records_accepted_files() {
    let mut b = UploadBatch::new();
    assert_eq!(b.accept("p.a.txt".to_string(), Some(10)), Ok(()));
    assert_eq!(
        b.accept("p.big".to_string(), Some(SINGLE_FILE_MAX_SIZE + 1)),
        Err(Error::LogicError("file size larger than 5MB".to_string()))
    );
    assert_eq!(
        b.accept("p.unknown".to_string(), None),
        Err(Error::LogicError("file size not known".to_string()))
    );
    assert_eq!(b.accept("p.b.txt".to_string(), Some(SINGLE_FILE_MAX_SIZE)), Ok(()));
    assert_eq!(b.into_files(), vec!["p.a.txt".to_string(), "p.b.txt".to_string()]);
}

#[test]
fn upload_field_decisions() {
    assert_eq!(stored_file_name("p", Some("a.txt")), Some("p.a.txt".to_string()));
    assert_eq!(stored_file_name("", Some("a.txt")), Some(".a.txt".to_string()));
    assert_eq!(stored_file_name("p", None), None);
    assert!(is_uuid_field(Some("uuid"), "uuid"));
    assert!(!is_uuid_field(Some("uuid2"), "uuid"));
    assert!(!is_uuid_field(Some(""), "uuid"));
    assert!(!is_uuid_field(None, "uuid"));
}
