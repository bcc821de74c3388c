use wasmedge_vdb_sdk::column::{Field, FieldData, ScalarField, ScalarFieldData};
use wasmedge_vdb_sdk::common::DataType;
use wasmedge_vdb_sdk::error::Error;
use wasmedge_vdb_sdk::results::{
    collection_infos, columns_from_wire, partition_infos, Id, IdField, QueryResult,
    SearchResultData, WireColumn,
};

fn strings(v: &[&str]) -> Vec<String> {
    v.iter().map(|s| s.to_string()).collect()
}

#[test]
fn collection_listing_is_zipped_by_position() {
    let infos = collection_infos(
        &strings(&["c1", "c2"]),
        &vec![11, 12],
        &vec![100, 200],
        &vec![1000, 2000],
        &vec![50, 100],
        &vec![false, true],
    )
    .unwrap();
    assert_eq!(infos.len(), 2);
    assert_eq!(infos[0].name, "c1");
    assert_eq!(infos[0].id, 11);
    assert_eq!(infos[0].created_timestamp, 100);
    assert_eq!(infos[1].name, "c2");
    assert_eq!(infos[1].created_utc_timestamp, 2000);
    assert_eq!(infos[1].in_memory_percentage, 100);
    assert!(infos[1].query_service_available);
}

#[test]
fn collection_listing_with_short_column_is_malformed() {
    let r = collection_infos(
        &strings(&["c1", "c2"]),
        &vec![11],
        &vec![100, 200],
        &vec![1000, 2000],
        &vec![50, 60],
        &vec![false, true],
    );
    assert!(matches!(r, Err(Error::MalformedResponse(_))));
    let r = collection_infos(
        &strings(&["c1", "c2"]),
        &vec![11, 12],
        &vec![100, 200],
        &vec![1000],
        &vec![],
        &vec![],
    );
    assert!(matches!(r, Err(Error::MalformedResponse(_))));
}

#[test]
fn collection_listing_without_load_columns_reads_defaults() {
    let infos = collection_infos(
        &strings(&["c1", "c2"]),
        &vec![11, 12],
        &vec![100, 200],
        &vec![1000, 2000],
        &vec![50],
        &vec![],
    )
    .unwrap();
    assert_eq!(infos.len(), 2);
    assert_eq!(infos[0].in_memory_percentage, 50);
    assert_eq!(infos[1].in_memory_percentage, 0);
    assert!(!infos[0].query_service_available);
    assert!(!infos[1].query_service_available);
    assert_eq!(infos[1].name, "c2");
    assert_eq!(infos[1].id, 12);
}

#[test]
fn empty_collection_listing() {
    let r = collection_infos(&Vec::new(), &vec![], &vec![], &vec![], &vec![], &vec![]).unwrap();
    assert!(r.is_empty());
}

#[test]
fn partition_listing_is_zipped_by_position() {
    let infos = partition_infos(
        &strings(&["_default", "recent"]),
        &vec![1, 2],
        &vec![3, 4],
        &vec![5, 6],
        &vec![7, 8],
    )
    .unwrap();
    assert_eq!(infos[1].name, "recent");
    assert_eq!(infos[1].id, 2);
    assert_eq!(infos[1].in_memory_percentage, 8);
    let r = partition_infos(&strings(&["p"]), &vec![], &vec![3], &vec![5], &vec![7]);
    assert!(matches!(r, Err(Error::MalformedResponse(_))));
    let infos =
        partition_infos(&strings(&["p", "q"]), &vec![1, 2], &vec![3, 4], &vec![5, 6], &vec![])
            .unwrap();
    assert_eq!(infos[0].in_memory_percentage, 0);
    assert_eq!(infos[1].created_utc_timestamp, 6);
}

#[test]
fn search_scores_must_match_hit_counts() {
    let scores: Vec<u32> = [0.9f32, 0.8, 0.5].iter().map(|x| x.to_bits()).collect();
    let ok = SearchResultData::new(2, 2, Vec::new(), scores.clone(), None, vec![2, 1]).unwrap();
    assert_eq!(ok.topks, vec![2, 1]);
    assert_eq!(ok.scores, scores);

    let too_many_hits = SearchResultData::new(2, 2, Vec::new(), scores.clone(), None, vec![2, 2]);
    assert!(matches!(too_many_hits, Err(Error::MalformedResponse(_))));
    let too_few_hits = SearchResultData::new(2, 2, Vec::new(), scores.clone(), None, vec![1, 1]);
    assert!(matches!(too_few_hits, Err(Error::MalformedResponse(_))));
    let negative = SearchResultData::new(2, 2, Vec::new(), scores, None, vec![4, -1]);
    assert!(matches!(negative, Err(Error::MalformedResponse(_))));
    let empty = SearchResultData::new(0, 0, Vec::new(), Vec::new(), None, Vec::new());
    assert!(empty.is_ok());
}

#[test]
fn query_result_keeps_field_order() {
    let names = ["title", "id", "vec", "year"];
    let columns: Vec<FieldData> = names
        .iter()
        .map(|n| {
            FieldData::new(
                n,
                DataType::Int64,
                Some(Field::Scalars(ScalarField::new(ScalarFieldData::LongData(vec![1])))),
            )
        })
        .collect();
    let q = QueryResult::new(columns, "books".to_string());
    assert_eq!(q.fields_data.len(), 4);
    assert_eq!(q.field_names(), strings(&names));
    assert_eq!(q.collection_name, "books");
}

#[test]
fn ids_count_their_keys() {
    let id = Id::new(Some(IdField::StrId(strings(&["a", "b", "c"]))));
    assert_eq!(id.len(), 3);
    assert!(matches!(id.id_field(), Some(IdField::StrId(_))));
    assert_eq!(Id::new(None).len(), 0);
    assert_eq!(Id::new(Some(IdField::IntId(vec![5]))).len(), 1);
}

fn wire(type_code: i32, name: &str, id: i64) -> WireColumn {
    WireColumn {
        type_code,
        field_name: name.to_string(),
        field_id: id,
        field: Some(Field::Scalars(ScalarField::new(ScalarFieldData::LongData(vec![id])))),
    }
}

#[test]
fn query_result_from_wire_keeps_requested_order() {
    let names = ["year", "id", "title"];
    let columns: Vec<WireColumn> =
        names.iter().enumerate().map(|(i, n)| wire(5, n, i as i64 + 100)).collect();
    let q = QueryResult::from_wire(columns, "books".to_string()).unwrap();
    assert_eq!(q.fields_data.len(), 3);
    assert_eq!(q.field_names(), strings(&names));
    for (i, d) in q.fields_data.iter().enumerate() {
        assert_eq!(d.field_id, i as i64 + 100);
        assert_eq!(d.dtype(), DataType::Int64);
        assert_eq!(d.num_rows(), 1);
    }
    let empty = QueryResult::from_wire(Vec::new(), "books".to_string()).unwrap();
    assert!(empty.fields_data.is_empty());
}

#[test]
fn wire_columns_with_unknown_tag_are_malformed() {
    let columns = vec![wire(5, "a", 1), wire(7, "b", 2), wire(21, "c", 3)];
    assert!(matches!(columns_from_wire(columns), Err(Error::MalformedResponse(_))));
    let columns = vec![wire(1, "a", 1), wire(101, "b", 2)];
    let decoded = columns_from_wire(columns).unwrap();
    assert_eq!(decoded[0].dtype(), DataType::Bool);
    assert_eq!(decoded[1].dtype(), DataType::FloatVector);
    assert_eq!(decoded[1].field_name, "b");
}

#[test]
fn search_result_from_wire_checks_columns_and_scores() {
    let scores: Vec<u32> = [0.5f32, 0.25].iter().map(|x| x.to_bits()).collect();
    let ok = SearchResultData::from_wire(1, 2, vec![wire(5, "id", 9)], scores.clone(), None, vec![2])
        .unwrap();
    assert_eq!(ok.fields_data[0].field_name, "id");
    assert_eq!(ok.scores, scores);
    let bad_tag = SearchResultData::from_wire(1, 2, vec![wire(8, "id", 9)], scores.clone(), None, vec![2]);
    assert!(matches!(bad_tag, Err(Error::MalformedResponse(_))));
    let bad_count = SearchResultData::from_wire(1, 2, vec![wire(5, "id", 9)], scores, None, vec![3]);
    assert!(matches!(bad_count, Err(Error::MalformedResponse(_))));
}
