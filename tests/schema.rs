use wasmedge_vdb_sdk::common::{DataType, FieldState};
use wasmedge_vdb_sdk::error::{Error, SchemaError};
use wasmedge_vdb_sdk::schema::{CollectionSchema, FieldSchema, FieldType};

#[test]
fn test_field_schema() {
    let field = FieldSchema::new("test", FieldType::Int64(true, true), Some("This is a test"));
    println!("{:?}", field);
    assert_eq!(
        field.describe(),
        "name: test, description: This is a test, dtype: Int64, is_primary: true, auto_id: true"
    );
}

fn scenario_fields(name_is_key: bool) -> Vec<FieldSchema> {
    vec![
        FieldSchema::new("id", FieldType::Int64(true, true), None),
        FieldSchema::new("name", FieldType::VarChar(200, name_is_key, false), None),
        FieldSchema::new("vec", FieldType::FloatVector(1536), None),
    ]
}

#[test]
fn scenario_schema_with_one_key_is_built() {
    let schema = CollectionSchema::new("books", scenario_fields(false), Some("a shelf")).unwrap();
    assert_eq!(schema.name(), "books");
    assert_eq!(schema.description(), "a shelf");
    let names: Vec<&str> = schema.fields().iter().map(|f| f.name()).collect();
    assert_eq!(names, vec!["id", "name", "vec"]);
    assert!(schema.fields()[0].is_primary_key());
    assert!(schema.fields()[0].auto_id());
}

#[test]
fn scenario_schema_with_two_keys_names_both() {
    match CollectionSchema::new("books", scenario_fields(true), None) {
        Err(SchemaError::DuplicatePrimaryKey(a, b)) => {
            assert_eq!(a, "id");
            assert_eq!(b, "name");
        }
        other => panic!("unexpected {:?}", other),
    }
}

#[test]
fn schema_without_key_is_refused() {
    let fields = vec![
        FieldSchema::new("a", FieldType::Int64(false, false), None),
        FieldSchema::new("b", FieldType::FloatVector(8), None),
    ];
    assert!(matches!(
        CollectionSchema::new("c", fields, None),
        Err(SchemaError::NoPrimaryKey)
    ));
}

#[test]
fn schema_of_no_fields_is_refused() {
    assert!(matches!(
        CollectionSchema::new("c", Vec::new(), None),
        Err(SchemaError::NoPrimaryKey)
    ));
}

#[test]
fn schema_with_three_keys_names_the_first_two() {
    let fields = vec![
        FieldSchema::new("x", FieldType::Bool, None),
        FieldSchema::new("k1", FieldType::VarChar(10, true, false), None),
        FieldSchema::new("k2", FieldType::Int64(true, false), None),
        FieldSchema::new("k3", FieldType::Int64(true, false), None),
    ];
    match CollectionSchema::new("c", fields, None) {
        Err(SchemaError::DuplicatePrimaryKey(a, b)) => {
            assert_eq!(a, "k1");
            assert_eq!(b, "k2");
        }
        other => panic!("unexpected {:?}", other),
    }
}

#[test]
fn schema_description_defaults_to_empty() {
    let fields = vec![FieldSchema::new("k", FieldType::VarChar(20, true, false), None)];
    let schema = CollectionSchema::new("c", fields, None).unwrap();
    assert_eq!(schema.description(), "");
}

#[test]
fn field_schema_reports_its_type() {
    let f = FieldSchema::new("v", FieldType::VarChar(64, false, true), Some("text"));
    assert_eq!(f.name(), "v");
    assert_eq!(f.description(), "text");
    assert_eq!(f.data_type(), DataType::VarChar);
    assert_eq!(f.field_type().max_length(), Some(64));
    assert_eq!(f.field_type().dim(), None);
    assert!(!f.is_primary_key());
    // an automatic id without a primary key does not count
    assert!(!f.auto_id());
    assert_eq!(f.field_id(), 0);
    assert_eq!(f.state(), FieldState::FieldCreated);

    let v = FieldSchema::new("emb", FieldType::BinaryVector(256), None);
    assert_eq!(v.data_type(), DataType::BinaryVector);
    assert_eq!(v.field_type().dim(), Some(256));
    assert_eq!(v.description(), "");
}

#[test]
fn field_type_from_parts_keeps_parameters() {
    let t = FieldType::from_parts(DataType::VarChar, true, true, 99, 0).unwrap();
    assert_eq!(t, FieldType::VarChar(99, true, true));
    let t = FieldType::from_parts(DataType::FloatVector, false, false, 0, 768).unwrap();
    assert_eq!(t, FieldType::FloatVector(768));
    let t = FieldType::from_parts(DataType::Int64, false, false, 0, 0).unwrap();
    assert_eq!(t, FieldType::Int64(false, false));
    let t = FieldType::from_parts(DataType::Bool, false, false, -4, -4).unwrap();
    assert_eq!(t, FieldType::Bool);
}

#[test]
fn field_type_from_parts_refuses_invalid_types() {
    assert!(matches!(
        FieldType::from_parts(DataType::Int64, false, true, 0, 0),
        Err(SchemaError::AutoIdWithoutPrimaryKey)
    ));
    assert!(matches!(
        FieldType::from_parts(DataType::VarChar, false, false, 0, 0),
        Err(SchemaError::InvalidMaxLength(0))
    ));
    assert!(matches!(
        FieldType::from_parts(DataType::FloatVector, false, false, 0, -3),
        Err(SchemaError::InvalidDimension(-3))
    ));
    assert!(matches!(
        FieldType::from_parts(DataType::Double, true, true, 0, 0),
        Err(SchemaError::UnsupportedPrimaryKey(DataType::Double))
    ));
}

#[test]
fn try_new_checks_the_type() {
    let f = FieldSchema::try_new("id", FieldType::Int64(true, true), Some("key")).unwrap();
    assert_eq!(f.name(), "id");
    assert!(f.auto_id());
    assert!(matches!(
        FieldSchema::try_new("n", FieldType::Int64(false, true), None),
        Err(SchemaError::AutoIdWithoutPrimaryKey)
    ));
    assert!(matches!(
        FieldSchema::try_new("s", FieldType::VarChar(-1, false, false), None),
        Err(SchemaError::InvalidMaxLength(-1))
    ));
    assert!(matches!(
        FieldSchema::try_new("v", FieldType::BinaryVector(0), None),
        Err(SchemaError::InvalidDimension(0))
    ));
    assert!(FieldType::FloatVector(8).check().is_ok());
}

#[test]
fn field_type_from_parts_refuses_float_key() {
    assert!(matches!(
        FieldType::from_parts(DataType::Float, true, false, 0, 0),
        Err(SchemaError::UnsupportedPrimaryKey(DataType::Float))
    ));
}

fn params(pairs: &[(&str, &str)]) -> Vec<(String, String)> {
    pairs.iter().map(|(k, v)| (k.to_string(), v.to_string())).collect()
}

#[test]
fn field_schema_from_wire_decodes_codes() {
    let f = FieldSchema::from_wire(7, "id".to_string(), "key".to_string(), 5, true, true, &params(&[]), 0)
        .unwrap();
    assert_eq!(f.field_id(), 7);
    assert_eq!(f.name(), "id");
    assert_eq!(f.description(), "key");
    assert_eq!(*f.field_type(), FieldType::Int64(true, true));
    assert_eq!(f.state(), FieldState::FieldCreated);

    let p = params(&[("metric", "L2"), ("dim", "4"), ("dim", "9")]);
    let f = FieldSchema::from_wire(8, "e".to_string(), String::new(), 101, false, false, &p, 2)
        .unwrap();
    assert_eq!(*f.field_type(), FieldType::FloatVector(4));
    assert_eq!(f.state(), FieldState::FieldDropping);

    let p = params(&[("max_length", "+0200")]);
    let f = FieldSchema::from_wire(9, "t".to_string(), String::new(), 21, false, false, &p, 0)
        .unwrap();
    assert_eq!(*f.field_type(), FieldType::VarChar(200, false, false));
}

#[test]
fn field_schema_from_wire_refuses_unknown_codes() {
    let none = params(&[]);
    assert!(matches!(
        FieldSchema::from_wire(1, "a".to_string(), String::new(), 6, false, false, &none, 0),
        Err(Error::MalformedResponse(_))
    ));
    assert!(matches!(
        FieldSchema::from_wire(1, "a".to_string(), String::new(), 5, false, false, &none, 9),
        Err(Error::MalformedResponse(_))
    ));
    assert!(matches!(
        FieldSchema::from_wire(1, "a".to_string(), String::new(), 1, true, false, &none, 0),
        Err(Error::Schema(SchemaError::UnsupportedPrimaryKey(DataType::Bool)))
    ));
    assert!(matches!(
        FieldSchema::from_wire(1, "a".to_string(), String::new(), 5, false, true, &none, 0),
        Err(Error::Schema(SchemaError::AutoIdWithoutPrimaryKey))
    ));
}

#[test]
fn field_schema_from_wire_needs_valid_parameters() {
    for bad in [
        params(&[]),
        params(&[("dim", "")]),
        params(&[("dim", "-")]),
        params(&[("dim", "0")]),
        params(&[("dim", "-3")]),
        params(&[("dim", "12a")]),
        params(&[("dim", "99999999999999999999")]),
        params(&[("dimension", "8")]),
    ] {
        assert!(matches!(
            FieldSchema::from_wire(1, "v".to_string(), String::new(), 100, false, false, &bad, 0),
            Err(Error::MalformedResponse(_))
        ));
    }
    let too_long = params(&[("max_length", "2147483648")]);
    assert!(matches!(
        FieldSchema::from_wire(1, "s".to_string(), String::new(), 21, false, false, &too_long, 0),
        Err(Error::MalformedResponse(_))
    ));
    let widest = params(&[("max_length", "2147483647")]);
    let f = FieldSchema::from_wire(1, "s".to_string(), String::new(), 21, false, false, &widest, 0)
        .unwrap();
    assert_eq!(f.field_type().max_length(), Some(i32::MAX));
    let big = params(&[("dim", "9223372036854775807")]);
    let f = FieldSchema::from_wire(1, "v".to_string(), String::new(), 101, false, false, &big, 0)
        .unwrap();
    assert_eq!(f.field_type().dim(), Some(i64::MAX));
}

#[test]
fn type_params_are_written_in_decimal() {
    assert_eq!(
        FieldType::VarChar(200, true, false).type_params(),
        params(&[("max_length", "200")])
    );
    assert_eq!(FieldType::FloatVector(1536).type_params(), params(&[("dim", "1536")]));
    assert_eq!(FieldType::BinaryVector(-2).type_params(), params(&[("dim", "-2")]));
    assert!(FieldType::Int64(true, true).type_params().is_empty());
}

#[test]
fn type_params_round_trip_through_the_wire() {
    for ty in [
        FieldType::VarChar(1, false, false),
        FieldType::VarChar(65535, true, true),
        FieldType::FloatVector(128),
        FieldType::BinaryVector(i64::MAX),
    ] {
        let f = FieldSchema::from_wire(
            3,
            "f".to_string(),
            String::new(),
            ty.data_type().code(),
            ty.is_primary(),
            ty.auto_id(),
            &ty.type_params(),
            0,
        )
        .unwrap();
        assert_eq!(*f.field_type(), ty);
    }
}

#[test]
fn field_description_text() {
    let f = FieldSchema::new("test", FieldType::Int64(true, true), Some("This is a test"));
    assert_eq!(
        f.describe(),
        "name: test, description: This is a test, dtype: Int64, is_primary: true, auto_id: true"
    );
    let f = FieldSchema::new("book_name", FieldType::VarChar(200, false, false), None);
    assert_eq!(
        f.describe(),
        "name: book_name, description: , dtype: Varchar, max_length: 200, is_primary: false, auto_id: false"
    );
    let f = FieldSchema::new("intro", FieldType::FloatVector(1536), Some("emb"));
    assert_eq!(f.describe(), "name: intro, description: emb, dtype: FloatVector, dimension: 1536");
    let f = FieldSchema::new("b", FieldType::BinaryVector(0), None);
    assert_eq!(f.describe(), "name: b, description: , dtype: BinaryVector, dimension: 0");
    let f = FieldSchema::new("m", FieldType::FloatVector(i64::MIN), None);
    assert_eq!(
        f.describe(),
        "name: m, description: , dtype: FloatVector, dimension: -9223372036854775808"
    );
    let f = FieldSchema::new("n", FieldType::NoType, None);
    assert_eq!(f.describe(), "name: n, description: , dtype: None");
}

#[test]
fn schema_names_its_primary_field() {
    let schema = CollectionSchema::new("books", scenario_fields(false), None).unwrap();
    assert_eq!(schema.primary_field().name(), "id");
    assert!(schema.auto_id());
    let copy = schema.clone();
    assert_eq!(copy.primary_field().name(), "id");
    assert_eq!(copy.name(), "books");
    assert_eq!(copy.fields().len(), 3);
    assert_eq!(*copy.fields()[2].field_type(), FieldType::FloatVector(1536));

    let fields = vec![
        FieldSchema::new("v", FieldType::FloatVector(4), None),
        FieldSchema::new("k", FieldType::VarChar(16, true, false), None),
    ];
    let schema = CollectionSchema::new("c", fields, None).unwrap();
    assert_eq!(schema.primary_field().name(), "k");
    assert!(!schema.auto_id());
}

#[test]
fn schema_refuses_fields_with_invalid_types() {
    let fields = vec![
        FieldSchema::new("id", FieldType::Int64(true, false), None),
        FieldSchema::new("n", FieldType::Int64(false, true), None),
        FieldSchema::new("v", FieldType::FloatVector(0), None),
    ];
    assert!(matches!(
        CollectionSchema::new("c", fields, None),
        Err(SchemaError::AutoIdWithoutPrimaryKey)
    ));
    let fields = vec![
        FieldSchema::new("id", FieldType::VarChar(0, true, false), None),
        FieldSchema::new("v", FieldType::FloatVector(0), None),
    ];
    assert!(matches!(
        CollectionSchema::new("c", fields, None),
        Err(SchemaError::InvalidMaxLength(0))
    ));
    let fields = vec![
        FieldSchema::new("id", FieldType::Int64(true, true), None),
        FieldSchema::new("v", FieldType::BinaryVector(-8), None),
    ];
    assert!(matches!(
        CollectionSchema::new("c", fields, None),
        Err(SchemaError::InvalidDimension(-8))
    ));
    // the primary-key rule is checked first
    let fields = vec![FieldSchema::new("v", FieldType::FloatVector(0), None)];
    assert!(matches!(
        CollectionSchema::new("c", fields, None),
        Err(SchemaError::NoPrimaryKey)
    ));
}
