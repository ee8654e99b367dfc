//! The serialization contract: a handle's stable five-field record, and
//! its strict-schema reconstruction.
//!
//! Reconstructing a handle rebuilds only the descriptive value — it does
//! not recreate the file or the container directory. A reconstructed
//! handle that is later released will hand out a cleanup plan for whatever
//! currently exists at the recorded paths.

use vstd::prelude::*;

use crate::uploaded_file::HandleView;
use crate::uploaded_file::UploadedFile;

verus! {

/// A value carried by one field of the serialized record.
pub enum FieldValue {
    /// A mandatory string field.
    Text(String),
    /// An optional string field.
    OptText(Option<String>),
    /// An unsigned integer field.
    Count(usize),
}

/// Model of a field value.
pub enum ValueView {
    Text(Seq<char>),
    OptText(Option<Seq<char>>),
    Count(nat),
}

impl View for FieldValue {
    type V = ValueView;

    open spec fn view(&self) -> ValueView {
        match self {
            FieldValue::Text(s) => ValueView::Text(s@),
            FieldValue::OptText(o) => ValueView::OptText(
                match o {
                    Some(s) => Some(s@),
                    None => None,
                },
            ),
            FieldValue::Count(n) => ValueView::Count(*n as nat),
        }
    }
}

/// One named field of the serialized record.
pub struct Field {
    pub name: String,
    pub value: FieldValue,
}

/// Model of a named field.
pub struct FieldView {
    pub name: Seq<char>,
    pub value: ValueView,
}

impl View for Field {
    type V = FieldView;

    open spec fn view(&self) -> FieldView {
        FieldView { name: self.name@, value: self.value@ }
    }
}

/// A serialized record violated the strict schema; reconstruction aborts
/// and no partial handle is produced.
#[derive(Debug)]
pub enum SchemaError {
    /// The named required field was absent.
    MissingField(String),
    /// The named field is not part of the schema.
    UnexpectedField(String),
    /// The named schema field carried a value of the wrong shape.
    WrongType(String),
}

/// Model of a schema violation.
pub enum SchemaErrorView {
    MissingField(Seq<char>),
    UnexpectedField(Seq<char>),
    WrongType(Seq<char>),
}

impl View for SchemaError {
    type V = SchemaErrorView;

    open spec fn view(&self) -> SchemaErrorView {
        match self {
            SchemaError::MissingField(n) => SchemaErrorView::MissingField(n@),
            SchemaError::UnexpectedField(n) => SchemaErrorView::UnexpectedField(n@),
            SchemaError::WrongType(n) => SchemaErrorView::WrongType(n@),
        }
    }
}

/// The models of a sequence of fields.
pub open spec fn field_views(fields: Seq<Field>) -> Seq<FieldView> {
    fields.map_values(|f: Field| f@)
}

/// The name belongs to the schema.
pub open spec fn known_field(name: Seq<char>) -> bool {
    ||| name == "path"@
    ||| name == "filename"@
    ||| name == "content_type"@
    ||| name == "size"@
    ||| name == "temp_container"@
}

/// A schema field carries the value shape the schema assigns to it.
pub open spec fn value_fits(f: FieldView) -> bool {
    &&& f.name == "path"@ ==> f.value is Text
    &&& f.name == "filename"@ ==> f.value is OptText
    &&& f.name == "content_type"@ ==> f.value is Text
    &&& f.name == "size"@ ==> f.value is Count
    &&& f.name == "temp_container"@ ==> f.value is Text
}

/// The violation one field exhibits on its own, if any.
pub open spec fn pair_error(f: FieldView) -> Option<SchemaErrorView> {
    if !known_field(f.name) {
        Some(SchemaErrorView::UnexpectedField(f.name))
    } else if !value_fits(f) {
        Some(SchemaErrorView::WrongType(f.name))
    } else {
        None
    }
}

/// The first per-field violation, in record order.
pub open spec fn first_pair_error(fields: Seq<FieldView>) -> Option<SchemaErrorView>
    decreases fields.len(),
{
    if fields.len() == 0 {
        None
    } else if pair_error(fields[0]) is Some {
        pair_error(fields[0])
    } else {
        first_pair_error(fields.drop_first())
    }
}

/// The value of the last field named `name`, if any (a repeated field
/// overwrites the earlier value, as a map-shaped record would).
pub open spec fn last_value(fields: Seq<FieldView>, name: Seq<char>) -> Option<ValueView>
    decreases fields.len(),
{
    if fields.len() == 0 {
        None
    } else if fields.last().name == name {
        Some(fields.last().value)
    } else {
        last_value(fields.drop_last(), name)
    }
}

/// The first absent required field, in schema order.
pub open spec fn missing_field(fields: Seq<FieldView>) -> Option<Seq<char>> {
    if last_value(fields, "path"@) is None {
        Some("path"@)
    } else if last_value(fields, "filename"@) is None {
        Some("filename"@)
    } else if last_value(fields, "content_type"@) is None {
        Some("content_type"@)
    } else if last_value(fields, "size"@) is None {
        Some("size"@)
    } else if last_value(fields, "temp_container"@) is None {
        Some("temp_container"@)
    } else {
        None
    }
}

/// The strict-schema verdict on a record: the first per-field violation,
/// else the first absent required field, else nothing.
pub open spec fn schema_check(fields: Seq<FieldView>) -> Option<SchemaErrorView> {
    if first_pair_error(fields) is Some {
        first_pair_error(fields)
    } else {
        match missing_field(fields) {
            Some(n) => Some(SchemaErrorView::MissingField(n)),
            None => None,
        }
    }
}

/// The serialized record of a handle: its five descriptive fields, in the
/// stable schema order.
pub open spec fn record_of(v: HandleView) -> Seq<FieldView> {
    seq![
        FieldView { name: "path"@, value: ValueView::Text(v.path) },
        FieldView { name: "filename"@, value: ValueView::OptText(v.filename) },
        FieldView { name: "content_type"@, value: ValueView::Text(v.content_type) },
        FieldView { name: "size"@, value: ValueView::Count(v.size) },
        FieldView { name: "temp_container"@, value: ValueView::Text(v.temp_container) },
    ]
}

/// The characters a mandatory string field carries.
pub open spec fn text_of(v: Option<ValueView>) -> Seq<char> {
    match v {
        Some(ValueView::Text(s)) => s,
        _ => Seq::empty(),
    }
}

/// The characters the optional string field carries, if named at all.
pub open spec fn opt_text_of(v: Option<ValueView>) -> Option<Seq<char>> {
    match v {
        Some(ValueView::OptText(o)) => o,
        _ => None,
    }
}

/// The number the unsigned integer field carries.
pub open spec fn count_of(v: Option<ValueView>) -> nat {
    match v {
        Some(ValueView::Count(n)) => n,
        _ => 0,
    }
}

/// The handle a schema-clean record describes: each descriptive field is
/// the value of the last record field of that name, and the handle starts
/// unreleased.
pub open spec fn parsed_handle(fields: Seq<FieldView>) -> HandleView {
    HandleView {
        path: text_of(last_value(fields, "path"@)),
        filename: opt_text_of(last_value(fields, "filename"@)),
        content_type: text_of(last_value(fields, "content_type"@)),
        size: count_of(last_value(fields, "size"@)),
        temp_container: text_of(last_value(fields, "temp_container"@)),
        released: false,
    }
}

/// The five schema names are pairwise distinct character sequences.
proof fn lemma_distinct_names()
    ensures
        "path"@ != "filename"@,
        "path"@ != "content_type"@,
        "path"@ != "size"@,
        "path"@ != "temp_container"@,
        "filename"@ != "content_type"@,
        "filename"@ != "size"@,
        "filename"@ != "temp_container"@,
        "content_type"@ != "size"@,
        "content_type"@ != "temp_container"@,
        "size"@ != "temp_container"@,
{
    reveal_strlit("path");
    reveal_strlit("filename");
    reveal_strlit("content_type");
    reveal_strlit("size");
    reveal_strlit("temp_container");
    assert("path"@.len() == 4);
    assert("filename"@.len() == 8);
    assert("content_type"@.len() == 12);
    assert("size"@.len() == 4);
    assert("temp_container"@.len() == 14);
    assert("path"@[0] == 'p');
    assert("size"@[0] == 's');
}

proof fn lemma_last_value_push(s: Seq<FieldView>, f: FieldView, name: Seq<char>)
    ensures
        last_value(s.push(f), name) == (if f.name == name {
            Some(f.value)
        } else {
            last_value(s, name)
        }),
{
    let t = s.push(f);
    assert(t.last() == f);
    assert(t.drop_last() =~= s);
}

proof fn lemma_first_pair_error_extend(s: Seq<FieldView>, t: Seq<FieldView>)
    ensures
        first_pair_error(s) is Some ==> first_pair_error(s + t) == first_pair_error(s),
        first_pair_error(s) is None ==> first_pair_error(s + t) == first_pair_error(t),
    decreases s.len(),
{
    if s.len() == 0 {
        assert(s + t =~= t);
    } else {
        assert((s + t)[0] == s[0]);
        assert((s + t).drop_first() =~= s.drop_first() + t);
        lemma_first_pair_error_extend(s.drop_first(), t);
    }
}

impl UploadedFile {
    /// Serializes this handle into its five-field record, every field
    /// verbatim (including `path` and `temp_container`).
    pub fn to_fields(&self) -> (r: Vec<Field>)
        ensures
            field_views(r@) == record_of(self@),
    {
        let filename: Option<String> = match &self.filename {
            Some(s) => Some(s.clone()),
            None => None,
        };
        let mut r: Vec<Field> = Vec::new();
        r.push(Field { name: "path".to_owned(), value: FieldValue::Text(self.path.clone()) });
        r.push(Field { name: "filename".to_owned(), value: FieldValue::OptText(filename) });
        r.push(
            Field {
                name: "content_type".to_owned(),
                value: FieldValue::Text(self.content_type.clone()),
            },
        );
        r.push(Field { name: "size".to_owned(), value: FieldValue::Count(self.size) });
        r.push(
            Field {
                name: "temp_container".to_owned(),
                value: FieldValue::Text(self.temp_container.clone()),
            },
        );
        proof {
            assert(field_views(r@) =~= record_of(self@));
        }
        r
    }

    /// Reconstructs a handle from a serialized record under the strict
    /// schema: the first field outside the schema or of the wrong shape is
    /// reported, then the first absent required field, each by name;
    /// otherwise the described handle is produced, with no file or
    /// directory created.
    pub fn from_fields(fields: &Vec<Field>) -> (r: Result<UploadedFile, SchemaError>)
        ensures
            match r {
                Ok(h) => schema_check(field_views(fields@)) is None && h@ == parsed_handle(
                    field_views(fields@),
                ),
                Err(e) => Some(e@) == schema_check(field_views(fields@)),
            },
    {
        let ghost all = field_views(fields@);
        let k_path: String = "path".to_owned();
        let k_filename: String = "filename".to_owned();
        let k_content_type: String = "content_type".to_owned();
        let k_size: String = "size".to_owned();
        let k_temp_container: String = "temp_container".to_owned();

        let mut path_v: Option<String> = None;
        let mut filename_v: Option<Option<String>> = None;
        let mut content_type_v: Option<String> = None;
        let mut size_v: Option<usize> = None;
        let mut container_v: Option<String> = None;

        let mut i: usize = 0;
        while i < fields.len()
            invariant
                i <= fields.len(),
                all == field_views(fields@),
                k_path@ == "path"@,
                k_filename@ == "filename"@,
                k_content_type@ == "content_type"@,
                k_size@ == "size"@,
                k_temp_container@ == "temp_container"@,
                first_pair_error(all.take(i as int)) is None,
                text_slot(path_v) == last_value(all.take(i as int), "path"@),
                opt_text_slot(filename_v) == last_value(all.take(i as int), "filename"@),
                text_slot(content_type_v) == last_value(all.take(i as int), "content_type"@),
                count_slot(size_v) == last_value(all.take(i as int), "size"@),
                text_slot(container_v) == last_value(all.take(i as int), "temp_container"@),
            decreases fields.len() - i,
        {
            proof {
                lemma_distinct_names();
                assert(all[i as int] == fields@[i as int]@);
                assert(all.take(i as int + 1) =~= all.take(i as int) + seq![all[i as int]]);
                lemma_first_pair_error_extend(all.take(i as int), seq![all[i as int]]);
                assert(seq![all[i as int]].drop_first() =~= Seq::<FieldView>::empty());
                assert(first_pair_error(Seq::<FieldView>::empty()) is None);
                assert(all.take(i as int).push(all[i as int]) =~= all.take(i as int + 1));
                lemma_last_value_push(all.take(i as int), all[i as int], "path"@);
                lemma_last_value_push(all.take(i as int), all[i as int], "filename"@);
                lemma_last_value_push(all.take(i as int), all[i as int], "content_type"@);
                lemma_last_value_push(all.take(i as int), all[i as int], "size"@);
                lemma_last_value_push(all.take(i as int), all[i as int], "temp_container"@);
            }
            let f = &fields[i];
            if f.name == k_path {
                match &f.value {
                    FieldValue::Text(s) => {
                        path_v = Some(s.clone());
                    },
                    _ => {
                        proof {
                            lemma_first_pair_error_extend(
                                all.take(i as int + 1),
                                all.skip(i as int + 1),
                            );
                            assert(all.take(i as int + 1) + all.skip(i as int + 1) =~= all);
                        }
                        return Err(SchemaError::WrongType(f.name.clone()));
                    },
                }
            } else if f.name == k_filename {
                match &f.value {
                    FieldValue::OptText(o) => {
                        filename_v = Some(
                            match o {
                                Some(s) => Some(s.clone()),
                                None => None,
                            },
                        );
                    },
                    _ => {
                        proof {
                            lemma_first_pair_error_extend(
                                all.take(i as int + 1),
                                all.skip(i as int + 1),
                            );
                            assert(all.take(i as int + 1) + all.skip(i as int + 1) =~= all);
                        }
                        return Err(SchemaError::WrongType(f.name.clone()));
                    },
                }
            } else if f.name == k_content_type {
                match &f.value {
                    FieldValue::Text(s) => {
                        content_type_v = Some(s.clone());
                    },
                    _ => {
                        proof {
                            lemma_first_pair_error_extend(
                                all.take(i as int + 1),
                                all.skip(i as int + 1),
                            );
                            assert(all.take(i as int + 1) + all.skip(i as int + 1) =~= all);
                        }
                        return Err(SchemaError::WrongType(f.name.clone()));
                    },
                }
            } else if f.name == k_size {
                match &f.value {
                    FieldValue::Count(n) => {
                        size_v = Some(*n);
                    },
                    _ => {
                        proof {
                            lemma_first_pair_error_extend(
                                all.take(i as int + 1),
                                all.skip(i as int + 1),
                            );
                            assert(all.take(i as int + 1) + all.skip(i as int + 1) =~= all);
                        }
                        return Err(SchemaError::WrongType(f.name.clone()));
                    },
                }
            } else if f.name == k_temp_container {
                match &f.value {
                    FieldValue::Text(s) => {
                        container_v = Some(s.clone());
                    },
                    _ => {
                        proof {
                            lemma_first_pair_error_extend(
                                all.take(i as int + 1),
                                all.skip(i as int + 1),
                            );
                            assert(all.take(i as int + 1) + all.skip(i as int + 1) =~= all);
                        }
                        return Err(SchemaError::WrongType(f.name.clone()));
                    },
                }
            } else {
                proof {
                    lemma_first_pair_error_extend(all.take(i as int + 1), all.skip(i as int + 1));
                    assert(all.take(i as int + 1) + all.skip(i as int + 1) =~= all);
                }
                return Err(SchemaError::UnexpectedField(f.name.clone()));
            }
            i += 1;
        }
        proof {
            assert(all.take(fields@.len() as int) =~= all);
        }
        if path_v.is_none() {
            return Err(SchemaError::MissingField(k_path));
        }
        if filename_v.is_none() {
            return Err(SchemaError::MissingField(k_filename));
        }
        if content_type_v.is_none() {
            return Err(SchemaError::MissingField(k_content_type));
        }
        if size_v.is_none() {
            return Err(SchemaError::MissingField(k_size));
        }
        if container_v.is_none() {
            return Err(SchemaError::MissingField(k_temp_container));
        }
        let h = UploadedFile {
            path: path_v.unwrap(),
            filename: filename_v.unwrap(),
            content_type: content_type_v.unwrap(),
            size: size_v.unwrap(),
            temp_container: container_v.unwrap(),
            released: false,
        };
        Ok(h)
    }
}

/// Where `from_fields` stands while scanning: the value seen so far for a
/// mandatory string field.
pub open spec fn text_slot(o: Option<String>) -> Option<ValueView> {
    match o {
        Some(s) => Some(ValueView::Text(s@)),
        None => None,
    }
}

/// As `text_slot`, for the optional string field.
pub open spec fn opt_text_slot(o: Option<Option<String>>) -> Option<ValueView> {
    match o {
        Some(Some(s)) => Some(ValueView::OptText(Some(s@))),
        Some(None) => Some(ValueView::OptText(None)),
        None => None,
    }
}

/// As `text_slot`, for the unsigned integer field.
pub open spec fn count_slot(o: Option<usize>) -> Option<ValueView> {
    match o {
        Some(n) => Some(ValueView::Count(n as nat)),
        None => None,
    }
}

/// Round-trip fidelity: the record of any handle is schema-clean, and
/// parsing it back reproduces the handle in all five descriptive fields;
/// only the cleanup state is reset, as a reconstructed value starts
/// unreleased.
pub proof fn lemma_record_round_trip(v: HandleView)
    ensures
        schema_check(record_of(v)) is None,
        parsed_handle(record_of(v)) == (HandleView { released: false, ..v }),
{
    lemma_distinct_names();
    let r = record_of(v);
    assert(first_pair_error(r) is None) by {
        reveal_with_fuel(first_pair_error, 7);
    }
    assert(last_value(r, "path"@) == Some(ValueView::Text(v.path))) by {
        reveal_with_fuel(last_value, 7);
    }
    assert(last_value(r, "filename"@) == Some(ValueView::OptText(v.filename))) by {
        reveal_with_fuel(last_value, 7);
    }
    assert(last_value(r, "content_type"@) == Some(ValueView::Text(v.content_type))) by {
        reveal_with_fuel(last_value, 7);
    }
    assert(last_value(r, "size"@) == Some(ValueView::Count(v.size))) by {
        reveal_with_fuel(last_value, 7);
    }
    assert(last_value(r, "temp_container"@) == Some(ValueView::Text(v.temp_container))) by {
        reveal_with_fuel(last_value, 7);
    }
}

} // verus!
