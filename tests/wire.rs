use wasmedge_vdb_sdk::auth::AuthInterceptor;
use wasmedge_vdb_sdk::common::{
    CompactionState, ConsistencyLevel, DataType, DslType, FieldState, ImportState,
    OperatePrivilegeType, OperateUserRoleType, SegmentState, ShowType, StateCode,
};
use wasmedge_vdb_sdk::error::Error;
use wasmedge_vdb_sdk::options::CreateCollectionOptions;
use wasmedge_vdb_sdk::utils::{get_gts, new_msg, status_to_result, MsgBase, MsgType, Status};

#[test]
fn type_codes_are_stable() {
    assert_eq!(DataType::Int64.code(), 5);
    assert_eq!(DataType::VarChar.code(), 21);
    assert_eq!(DataType::FloatVector.code(), 101);
    let all = [
        (DataType::NoType, 0),
        (DataType::Bool, 1),
        (DataType::Int8, 2),
        (DataType::Int16, 3),
        (DataType::Int32, 4),
        (DataType::Int64, 5),
        (DataType::Float, 10),
        (DataType::Double, 11),
        (DataType::String, 20),
        (DataType::VarChar, 21),
        (DataType::BinaryVector, 100),
        (DataType::FloatVector, 101),
    ];
    for (t, c) in all {
        assert_eq!(t.code(), c);
        assert_eq!(DataType::from_i32(c), Some(t));
    }
    assert_eq!(DataType::from_i32(6), None);
    assert_eq!(DataType::from_i32(-1), None);
    assert_eq!(DataType::default(), DataType::NoType);
}

#[test]
fn other_codes_decode() {
    assert_eq!(ConsistencyLevel::from_i32(2), Some(ConsistencyLevel::Bounded));
    assert_eq!(ConsistencyLevel::Customized.code(), 4);
    assert_eq!(ConsistencyLevel::from_i32(5), None);
    assert_eq!(ConsistencyLevel::default(), ConsistencyLevel::Session);
    assert_eq!(FieldState::from_i32(3), Some(FieldState::FieldDropped));
    assert_eq!(FieldState::default(), FieldState::FieldCreated);
    assert_eq!(ShowType::InMemory.code(), 1);
    assert_eq!(SegmentState::from_i32(7), Some(SegmentState::Importing));
    assert_eq!(SegmentState::from_i32(0), Some(SegmentState::NoState));
    assert_eq!(StateCode::from_i32(3), Some(StateCode::StandBy));
    assert_eq!(CompactionState::from_i32(3), None);
    assert_eq!(ImportState::from_i32(5), Some(ImportState::ImportPersisted));
    assert_eq!(ImportState::from_i32(3), None);
    assert_eq!(ImportState::ImportFailedAndCleaned.code(), 7);
    assert_eq!(OperateUserRoleType::RemoveUserFromRole.code(), 1);
    assert_eq!(OperatePrivilegeType::from_i32(0), Some(OperatePrivilegeType::Grant));
    assert_eq!(DslType::BoolExprV1.code(), 1);
}

#[test]
fn new_msg_fills_only_the_kind() {
    let m = new_msg(MsgType::CreateCollection);
    assert_eq!(
        m,
        MsgBase { msg_type: 100, msg_id: 0, timestamp: 0, source_id: 0, target_id: 0 }
    );
    assert_eq!(new_msg(MsgType::Retrieve).msg_type, 506);
    assert_eq!(new_msg(MsgType::SelectGrant).msg_type, 1607);
}

#[test]
fn status_success_is_ok() {
    let s = Some(Status { error_code: 0, reason: String::new() });
    assert!(status_to_result(&s).is_ok());
}

#[test]
fn status_error_carries_code_and_reason() {
    let s = Some(Status { error_code: 4, reason: "collection not found".to_string() });
    match status_to_result(&s) {
        Err(Error::Server(code, reason)) => {
            assert_eq!(code, 4);
            assert_eq!(reason, "collection not found");
        }
        other => panic!("unexpected {:?}", other),
    }
}

#[test]
fn status_missing_or_unknown_is_an_error() {
    assert!(matches!(status_to_result(&None), Err(Error::Unexpected(_))));
    let s = Some(Status { error_code: 6, reason: String::new() });
    match status_to_result(&s) {
        Err(Error::Unexpected(m)) => assert_eq!(m, "unknown error code 6"),
        other => panic!("unexpected {:?}", other),
    }
    let s = Some(Status { error_code: -17, reason: String::new() });
    match status_to_result(&s) {
        Err(Error::Unexpected(m)) => assert_eq!(m, "unknown error code -17"),
        other => panic!("unexpected {:?}", other),
    }
    match status_to_result(&None) {
        Err(Error::Unexpected(m)) => assert_eq!(m, "no status"),
        other => panic!("unexpected {:?}", other),
    }
    let s = Some(Status { error_code: 100, reason: "x".to_string() });
    assert!(matches!(status_to_result(&s), Err(Error::Server(100, _))));
}

#[test]
fn guarantee_timestamps_by_level() {
    assert_eq!(get_gts(ConsistencyLevel::Strong), 0);
    assert_eq!(get_gts(ConsistencyLevel::Bounded), 2);
    assert_eq!(get_gts(ConsistencyLevel::Eventually), 1);
    assert_eq!(get_gts(ConsistencyLevel::Customized), 0);
}

#[test]
fn create_collection_options() {
    let d = CreateCollectionOptions::default();
    assert_eq!(d.shard_num(), 2);
    assert_eq!(*d.consistency_level(), ConsistencyLevel::Session);
    let o = CreateCollectionOptions::new(4, ConsistencyLevel::Strong);
    assert_eq!(o.shard_num(), 4);
    assert_eq!(*o.consistency_level(), ConsistencyLevel::Strong);
}

#[test]
fn credential_is_base64_of_user_and_password() {
    let a = AuthInterceptor::new(Some("root".to_string()), Some("Milvus".to_string()));
    assert_eq!(a.token(), Some("cm9vdDpNaWx2dXM="));
    let a = AuthInterceptor::new(Some("user".to_string()), Some("päss".to_string()));
    assert_eq!(a.token(), Some("dXNlcjpww6Rzcw=="));
}

#[test]
fn no_credential_without_both_parts() {
    assert_eq!(AuthInterceptor::new(None, Some("p".to_string())).token(), None);
    assert_eq!(AuthInterceptor::new(Some("u".to_string()), None).token(), None);
    assert_eq!(AuthInterceptor::new(None, None).token(), None);
}
