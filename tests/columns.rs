use wasmedge_vdb_sdk::column::{
    Field, FieldData, ScalarField, ScalarFieldData, VectorField, VectorFieldData,
};
use wasmedge_vdb_sdk::common::DataType;
use wasmedge_vdb_sdk::error::Error;

#[test]
fn long_column_round_trip() {
    for n in [0usize, 1, 2, 17, 999] {
        let v: Vec<i64> = (0..n as i64).map(|i| i * 7919 - 3_000_000_000).collect();
        let col = ScalarField::new(ScalarFieldData::from(v.clone()));
        assert_eq!(col.num_rows() as usize, n);
        assert_eq!(col.dtype(), DataType::Int64);
        assert_eq!(col.data, Some(ScalarFieldData::LongData(v)));
    }
}

#[test]
fn every_scalar_type_round_trips() {
    let bools = vec![true, false, true];
    let c = ScalarField::new(bools.clone().into());
    assert_eq!(c.dtype(), DataType::Bool);
    assert_eq!(c.data, Some(ScalarFieldData::BoolData(bools)));

    let ints = vec![i32::MIN, -1, 0, i32::MAX];
    let c = ScalarField::new(ints.clone().into());
    assert_eq!(c.dtype(), DataType::Int32);
    assert_eq!(c.num_rows(), 4);
    assert_eq!(c.data, Some(ScalarFieldData::IntData(ints)));

    let floats: Vec<f32> = vec![1.5, -0.0, f32::INFINITY];
    let bits: Vec<u32> = floats.iter().map(|x| x.to_bits()).collect();
    let c = ScalarField::new(ScalarFieldData::FloatData(bits.clone()));
    assert_eq!(c.dtype(), DataType::Float);
    match c.data {
        Some(ScalarFieldData::FloatData(back)) => {
            let back: Vec<f32> = back.into_iter().map(f32::from_bits).collect();
            assert_eq!(back[0], 1.5);
            assert!(back[1] == 0.0 && back[1].is_sign_negative());
            assert_eq!(back[2], f32::INFINITY);
        }
        other => panic!("unexpected {:?}", other),
    }

    let doubles: Vec<u64> = vec![2.25f64.to_bits(), f64::NAN.to_bits()];
    let c = ScalarField::new(ScalarFieldData::DoubleData(doubles.clone()));
    assert_eq!(c.dtype(), DataType::Double);
    assert_eq!(c.data, Some(ScalarFieldData::DoubleData(doubles)));

    let strings = vec!["héllo".to_string(), String::new(), "b".to_string()];
    let c = ScalarField::new(strings.clone().into());
    assert_eq!(c.dtype(), DataType::String);
    assert_eq!(c.num_rows(), 3);
    assert_eq!(c.data, Some(ScalarFieldData::StringData(strings)));

    let bytes = vec![vec![0u8, 255], vec![]];
    let c = ScalarField::new(bytes.clone().into());
    assert_eq!(c.dtype(), DataType::BinaryVector);
    assert_eq!(c.data, Some(ScalarFieldData::BytesData(bytes)));
}

#[test]
fn empty_scalar_field_has_no_rows() {
    let c = ScalarField { data: None };
    assert_eq!(c.num_rows(), 0);
    assert_eq!(c.dtype(), DataType::NoType);
}

#[test]
fn vector_row_count_is_ceiling() {
    let f = VectorField::new(128, VectorFieldData::FloatVec(vec![0u32; 256]));
    assert_eq!(f.num_rows(), 2);
    let f = VectorField::new(128, VectorFieldData::FloatVec(vec![0u32; 130]));
    assert_eq!(f.num_rows(), 2);
    assert!(!f.is_well_formed());
    let f = VectorField::new(3, VectorFieldData::BinaryVec(vec![1u8; 7]));
    assert_eq!(f.num_rows(), 3);
    assert_eq!(f.dtype(), DataType::BinaryVector);
    let f = VectorField::new(4, VectorFieldData::FloatVec(Vec::new()));
    assert_eq!(f.num_rows(), 0);
    assert_eq!(f.dtype(), DataType::FloatVector);
    let f = VectorField { dim: 0, data: None };
    assert_eq!(f.num_rows(), 0);
    assert_eq!(f.dtype(), DataType::NoType);
}

#[test]
fn vector_from_wire_needs_whole_vectors() {
    let f = VectorField::from_wire(2, Some(VectorFieldData::FloatVec(vec![1, 2, 3, 4]))).unwrap();
    assert_eq!(f.num_rows(), 2);
    assert!(f.is_well_formed());
    assert!(matches!(
        VectorField::from_wire(2, Some(VectorFieldData::FloatVec(vec![1, 2, 3]))),
        Err(Error::MalformedResponse(_))
    ));
    assert!(matches!(
        VectorField::from_wire(0, Some(VectorFieldData::BinaryVec(vec![]))),
        Err(Error::MalformedResponse(_))
    ));
    assert!(matches!(
        VectorField::from_wire(-8, None),
        Err(Error::MalformedResponse(_))
    ));
}

#[test]
fn field_data_counts_rows_of_its_payload() {
    let scalars = Field::Scalars(ScalarField::new(vec![1i64, 2, 3].into()));
    assert_eq!(scalars.num_rows(), 3);
    assert_eq!(scalars.dtype(), DataType::Int64);
    let d = FieldData::new("id", DataType::Int64, Some(scalars));
    assert_eq!(d.field_name, "id");
    assert_eq!(d.field_id, 0);
    assert_eq!(d.num_rows(), 3);
    assert_eq!(d.dtype(), DataType::Int64);

    let vectors = Field::Vectors(VectorField::new(2, VectorFieldData::FloatVec(vec![0; 6])));
    let d = FieldData::new("vec", DataType::FloatVector, Some(vectors));
    assert_eq!(d.num_rows(), 3);

    let d = FieldData::new("none", DataType::Bool, None);
    assert_eq!(d.num_rows(), 0);
}

#[test]
fn field_data_from_wire_checks_the_tag() {
    let d = FieldData::from_wire(21, "title".to_string(), 101, None).unwrap();
    assert_eq!(d.dtype(), DataType::VarChar);
    assert_eq!(d.field_id, 101);
    assert!(matches!(
        FieldData::from_wire(99, "x".to_string(), 1, None),
        Err(Error::MalformedResponse(_))
    ));
}

#[test]
fn string_column_from_str_slices() {
    let d = ScalarFieldData::from_strs(&["a", "", "ünï"]);
    assert_eq!(
        d,
        ScalarFieldData::StringData(vec!["a".to_string(), String::new(), "ünï".to_string()])
    );
    assert_eq!(d.len(), 3);
    assert_eq!(d.dtype(), DataType::String);
    assert_eq!(ScalarFieldData::from_strs(&[]).len(), 0);
}
