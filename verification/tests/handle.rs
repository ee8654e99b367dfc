use formdata::uploaded_file::CleanupAction;
use formdata::uploaded_file::StorageError;
use formdata::uploaded_file::UploadedFile;
use std::path::Path;

fn is_urlsafe(c: char) -> bool {
    c.is_ascii_alphanumeric() || c == '-' || c == '_'
}

#[test]
fn create_stages_empty_upload() {
    let h = UploadedFile::new(String::from("text/plain")).unwrap();
    assert_eq!(h.size, 0);
    assert_eq!(h.filename, None);
    assert_eq!(h.content_type, "text/plain");
    assert!(!h.released);
    // The container directory exists; the file itself is not created until
    // the parser streams bytes into it.
    assert!(Path::new(&h.temp_container).is_dir());
    assert!(!Path::new(&h.path).exists());
}

#[test]
fn path_is_container_plus_random_token() {
    let h = UploadedFile::new(String::from("image/png")).unwrap();
    let prefix = format!("{}/", h.temp_container);
    assert!(h.path.starts_with(&prefix));
    let token = &h.path[prefix.len()..];
    assert_eq!(token.chars().count(), 32);
    assert!(token.chars().all(is_urlsafe));
}

#[test]
fn handles_are_unique() {
    let handles: Vec<UploadedFile> = (0..5)
        .map(|_| UploadedFile::new(String::from("text/plain")).unwrap())
        .collect();
    for i in 0..handles.len() {
        for j in 0..handles.len() {
            if i != j {
                assert_ne!(handles[i].temp_container, handles[j].temp_container);
                assert_ne!(handles[i].path, handles[j].path);
            }
        }
    }
}

#[test]
fn filename_is_metadata_only() {
    let mut h = UploadedFile::new(String::from("text/plain")).unwrap();
    let path_before = h.path.clone();
    let container_before = h.temp_container.clone();
    h.set_filename(String::from("../../etc/passwd"));
    assert_eq!(h.filename.as_deref(), Some("../../etc/passwd"));
    assert_eq!(h.path, path_before);
    assert_eq!(h.temp_container, container_before);
    // The traversal attempt changed nothing outside the container.
    assert!(Path::new(&h.temp_container).is_dir());
}

#[test]
fn record_size_tracks_growth() {
    let mut h = UploadedFile::new(String::from("text/plain")).unwrap();
    h.record_size(10);
    assert_eq!(h.size, 10);
    h.record_size(25);
    assert_eq!(h.size, 25);
}

#[test]
fn release_plan_is_ordered_file_then_dir() {
    let mut h = UploadedFile::new(String::from("text/plain")).unwrap();
    let plan = h.release();
    assert_eq!(plan.len(), 2);
    match &plan[0] {
        CleanupAction::RemoveFile(p) => assert_eq!(p, &h.path),
        other => panic!("first step must remove the file, got {:?}", name_of(other)),
    }
    match &plan[1] {
        CleanupAction::RemoveDir(d) => assert_eq!(d, &h.temp_container),
        other => panic!("second step must remove the directory, got {:?}", name_of(other)),
    }
}

fn name_of(a: &CleanupAction) -> &'static str {
    match a {
        CleanupAction::RemoveFile(_) => "RemoveFile",
        CleanupAction::RemoveDir(_) => "RemoveDir",
    }
}

#[test]
fn release_is_exactly_once() {
    let mut h = UploadedFile::new(String::from("text/plain")).unwrap();
    assert!(!h.is_released());
    let first = h.release();
    assert_eq!(first.len(), 2);
    assert!(h.is_released());
    let second = h.release();
    assert!(second.is_empty());
    let third = h.release();
    assert!(third.is_empty());
}

#[test]
fn create_in_denied_root_leaves_nothing() {
    let root = "/formdata-no-such-root/uploads";
    let r = UploadedFile::new_in(root, String::from("text/plain"));
    match r {
        Err(StorageError::TempDirCreation(_)) => {}
        Err(StorageError::TokenGeneration(_)) => panic!("wrong error kind"),
        Ok(_) => panic!("creation must fail under a missing root"),
    }
    assert!(!Path::new("/formdata-no-such-root").exists());
}

#[test]
fn equal_fields_is_structural() {
    let a = UploadedFile::new(String::from("text/plain")).unwrap();
    let b = UploadedFile::new(String::from("text/plain")).unwrap();
    // Two live handles never share a path, so they always differ.
    assert!(!a.equal_fields(&b));
    let copy = UploadedFile {
        path: a.path.clone(),
        filename: a.filename.clone(),
        content_type: a.content_type.clone(),
        size: a.size,
        temp_container: a.temp_container.clone(),
        released: true,
    };
    // The released flag is cleanup state, not part of the descriptive record.
    assert!(a.equal_fields(&copy));
}
