use formdata::record::Field;
use formdata::record::FieldValue;
use formdata::record::SchemaError;
use formdata::uploaded_file::UploadedFile;
use std::path::Path;

fn text(name: &str, v: &str) -> Field {
    Field { name: String::from(name), value: FieldValue::Text(String::from(v)) }
}

fn opt_text(name: &str, v: Option<&str>) -> Field {
    Field { name: String::from(name), value: FieldValue::OptText(v.map(String::from)) }
}

fn count(name: &str, v: usize) -> Field {
    Field { name: String::from(name), value: FieldValue::Count(v) }
}

fn sample_record() -> Vec<Field> {
    vec![
        text("path", "/tmp/formdata-x/tok"),
        opt_text("filename", Some("notes.txt")),
        text("content_type", "text/plain"),
        count("size", 42),
        text("temp_container", "/tmp/formdata-x"),
    ]
}

#[test]
fn round_trip_preserves_all_five_fields() {
    let mut h = UploadedFile::new(String::from("application/octet-stream")).unwrap();
    h.set_filename(String::from("cat video.mp4"));
    h.record_size(1337);
    let fields = h.to_fields();
    let h2 = UploadedFile::from_fields(&fields).unwrap();
    assert!(h.equal_fields(&h2));
    assert_eq!(h2.path, h.path);
    assert_eq!(h2.filename, h.filename);
    assert_eq!(h2.content_type, h.content_type);
    assert_eq!(h2.size, h.size);
    assert_eq!(h2.temp_container, h.temp_container);
    // Reconstruction rebuilds the descriptive value only: it creates no
    // filesystem entries (the file was never written here).
    assert!(!Path::new(&h2.path).exists());
}

#[test]
fn round_trip_keeps_absent_filename() {
    let h = UploadedFile::new(String::from("text/html")).unwrap();
    let h2 = UploadedFile::from_fields(&h.to_fields()).unwrap();
    assert_eq!(h2.filename, None);
    assert!(h.equal_fields(&h2));
}

#[test]
fn serialized_record_has_stable_schema() {
    let h = UploadedFile::new(String::from("text/plain")).unwrap();
    let fields = h.to_fields();
    let names: Vec<&str> = fields.iter().map(|f| f.name.as_str()).collect();
    assert_eq!(names, vec!["path", "filename", "content_type", "size", "temp_container"]);
}

#[test]
fn missing_size_is_rejected_by_name() {
    let mut fields = sample_record();
    fields.retain(|f| f.name != "size");
    match UploadedFile::from_fields(&fields) {
        Err(SchemaError::MissingField(name)) => assert_eq!(name, "size"),
        _ => panic!("a record without size must be rejected"),
    }
}

#[test]
fn unknown_field_is_rejected_by_name() {
    let mut fields = sample_record();
    fields.push(text("bogus", "whatever"));
    match UploadedFile::from_fields(&fields) {
        Err(SchemaError::UnexpectedField(name)) => assert_eq!(name, "bogus"),
        _ => panic!("a record with an extra field must be rejected"),
    }
}

#[test]
fn wrong_shape_is_rejected_by_name() {
    let mut fields = sample_record();
    fields[3] = text("size", "42");
    match UploadedFile::from_fields(&fields) {
        Err(SchemaError::WrongType(name)) => assert_eq!(name, "size"),
        _ => panic!("a size field holding text must be rejected"),
    }
}

#[test]
fn empty_record_misses_path_first() {
    let fields: Vec<Field> = Vec::new();
    match UploadedFile::from_fields(&fields) {
        Err(SchemaError::MissingField(name)) => assert_eq!(name, "path"),
        _ => panic!("an empty record must be rejected"),
    }
}

#[test]
fn unknown_field_reported_before_missing_ones() {
    let fields = vec![text("bogus", "x")];
    match UploadedFile::from_fields(&fields) {
        Err(SchemaError::UnexpectedField(name)) => assert_eq!(name, "bogus"),
        _ => panic!("the stray field comes first in record order"),
    }
}

#[test]
fn repeated_field_keeps_last_value() {
    let mut fields = sample_record();
    fields.push(count("size", 99));
    let h = UploadedFile::from_fields(&fields).unwrap();
    assert_eq!(h.size, 99);
    assert_eq!(h.path, "/tmp/formdata-x/tok");
}

#[test]
fn reconstructed_handle_starts_unreleased() {
    let h = UploadedFile::from_fields(&sample_record()).unwrap();
    assert!(!h.released);
    assert_eq!(h.filename.as_deref(), Some("notes.txt"));
    assert_eq!(h.content_type, "text/plain");
    assert_eq!(h.size, 42);
    assert_eq!(h.temp_container, "/tmp/formdata-x");
}

#[test]
fn field_order_is_not_significant() {
    let mut fields = sample_record();
    fields.reverse();
    let h = UploadedFile::from_fields(&fields).unwrap();
    assert_eq!(h.path, "/tmp/formdata-x/tok");
    assert_eq!(h.size, 42);
}
