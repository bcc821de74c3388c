//! Request headers, reply statuses and the read timestamps of the
//! consistency levels.
use vstd::prelude::*;

use crate::common::ConsistencyLevel;
use crate::error::Error;
use crate::text::{append_decimal, decimal_text};

verus! {

/// Guarantee timestamp that asks for strong consistency.
pub const STRONG_TIMESTAMP: u64 = 0;

/// Guarantee timestamp that asks for bounded staleness.
pub const BOUNDED_TIMESTAMP: u64 = 2;

/// Guarantee timestamp that asks for eventual consistency.
pub const EVENTUALLY_TIMESTAMP: u64 = 1;

/// Kind of a request, as its header names it.
#[derive(Debug, Clone, Copy, PartialEq, Eq, Structural)]
pub enum MsgType {
    Undefined,
    CreateCollection,
    DropCollection,
    HasCollection,
    DescribeCollection,
    ShowCollections,
    LoadCollection,
    ReleaseCollection,
    CreateAlias,
    DropAlias,
    AlterAlias,
    AlterCollection,
    CreatePartition,
    DropPartition,
    HasPartition,
    ShowPartitions,
    LoadPartitions,
    ReleasePartitions,
    ShowSegments,
    LoadBalanceSegments,
    CreateIndex,
    DescribeIndex,
    DropIndex,
    Insert,
    Delete,
    Flush,
    Search,
    GetIndexState,
    GetIndexBuildProgress,
    GetCollectionStatistics,
    GetPartitionStatistics,
    Retrieve,
    GetReplicas,
    SegmentInfo,
    CreateCredential,
    DeleteCredential,
    UpdateCredential,
    ListCredUsernames,
    CreateRole,
    DropRole,
    OperateUserRole,
    SelectRole,
    SelectUser,
    OperatePrivilege,
    SelectGrant,
}

impl MsgType {
    /// The numeric code of this kind on the wire.
    pub open spec fn wire_code(self) -> i32 {
        match self {
            MsgType::Undefined => 0,
            MsgType::CreateCollection => 100,
            MsgType::DropCollection => 101,
            MsgType::HasCollection => 102,
            MsgType::DescribeCollection => 103,
            MsgType::ShowCollections => 104,
            MsgType::LoadCollection => 106,
            MsgType::ReleaseCollection => 107,
            MsgType::CreateAlias => 108,
            MsgType::DropAlias => 109,
            MsgType::AlterAlias => 110,
            MsgType::AlterCollection => 111,
            MsgType::CreatePartition => 200,
            MsgType::DropPartition => 201,
            MsgType::HasPartition => 202,
            MsgType::ShowPartitions => 204,
            MsgType::LoadPartitions => 205,
            MsgType::ReleasePartitions => 206,
            MsgType::ShowSegments => 250,
            MsgType::LoadBalanceSegments => 255,
            MsgType::CreateIndex => 300,
            MsgType::DescribeIndex => 301,
            MsgType::DropIndex => 302,
            MsgType::Insert => 400,
            MsgType::Delete => 401,
            MsgType::Flush => 402,
            MsgType::Search => 500,
            MsgType::GetIndexState => 502,
            MsgType::GetIndexBuildProgress => 503,
            MsgType::GetCollectionStatistics => 504,
            MsgType::GetPartitionStatistics => 505,
            MsgType::Retrieve => 506,
            MsgType::GetReplicas => 515,
            MsgType::SegmentInfo => 600,
            MsgType::CreateCredential => 1500,
            MsgType::DeleteCredential => 1502,
            MsgType::UpdateCredential => 1503,
            MsgType::ListCredUsernames => 1504,
            MsgType::CreateRole => 1600,
            MsgType::DropRole => 1601,
            MsgType::OperateUserRole => 1602,
            MsgType::SelectRole => 1603,
            MsgType::SelectUser => 1604,
            MsgType::OperatePrivilege => 1606,
            MsgType::SelectGrant => 1607,
        }
    }

    pub fn code(&self) -> (r: i32)
        ensures
            r == self.wire_code(),
    {
        match self {
            MsgType::Undefined => 0,
            MsgType::CreateCollection => 100,
            MsgType::DropCollection => 101,
            MsgType::HasCollection => 102,
            MsgType::DescribeCollection => 103,
            MsgType::ShowCollections => 104,
            MsgType::LoadCollection => 106,
            MsgType::ReleaseCollection => 107,
            MsgType::CreateAlias => 108,
            MsgType::DropAlias => 109,
            MsgType::AlterAlias => 110,
            MsgType::AlterCollection => 111,
            MsgType::CreatePartition => 200,
            MsgType::DropPartition => 201,
            MsgType::HasPartition => 202,
            MsgType::ShowPartitions => 204,
            MsgType::LoadPartitions => 205,
            MsgType::ReleasePartitions => 206,
            MsgType::ShowSegments => 250,
            MsgType::LoadBalanceSegments => 255,
            MsgType::CreateIndex => 300,
            MsgType::DescribeIndex => 301,
            MsgType::DropIndex => 302,
            MsgType::Insert => 400,
            MsgType::Delete => 401,
            MsgType::Flush => 402,
            MsgType::Search => 500,
            MsgType::GetIndexState => 502,
            MsgType::GetIndexBuildProgress => 503,
            MsgType::GetCollectionStatistics => 504,
            MsgType::GetPartitionStatistics => 505,
            MsgType::Retrieve => 506,
            MsgType::GetReplicas => 515,
            MsgType::SegmentInfo => 600,
            MsgType::CreateCredential => 1500,
            MsgType::DeleteCredential => 1502,
            MsgType::UpdateCredential => 1503,
            MsgType::ListCredUsernames => 1504,
            MsgType::CreateRole => 1600,
            MsgType::DropRole => 1601,
            MsgType::OperateUserRole => 1602,
            MsgType::SelectRole => 1603,
            MsgType::SelectUser => 1604,
            MsgType::OperatePrivilege => 1606,
            MsgType::SelectGrant => 1607,
        }
    }
}

/// Header of a request.
#[derive(Debug, Clone, PartialEq, Eq, Structural)]
pub struct MsgBase {
    pub msg_type: i32,
    pub msg_id: i64,
    pub timestamp: u64,
    pub source_id: i64,
    pub target_id: i64,
}

/// Status of a reply: an error code, 0 for success, and a reason.
#[derive(Debug, Clone)]
pub struct Status {
    pub error_code: i32,
    pub reason: String,
}

/// The header of a request of kind `mtype`; every other part is 0, for the
/// service to fill in.
pub fn new_msg(mtype: MsgType) -> (r: MsgBase)
    ensures
        r == (MsgBase { msg_type: mtype.wire_code(), msg_id: 0, timestamp: 0, source_id: 0, target_id: 0 }),
{
    MsgBase { msg_type: mtype.code(), msg_id: 0, timestamp: 0, source_id: 0, target_id: 0 }
}

/// Whether the protocol defines the error code `code`.
pub open spec fn is_defined_error_code(code: i32) -> bool {
    (0 <= code <= 62 && code != 6) || code == 100 || code == 1000
}

pub fn error_code_defined(code: i32) -> (r: bool)
    ensures
        r == is_defined_error_code(code),
{
    (0 <= code && code <= 62 && code != 6) || code == 100 || code == 1000
}

/// The outcome that a reply's status reports: success for code 0; the
/// service's error, with its code and reason, for another defined code; and
/// an error of the library where the status is missing or its code undefined.
pub fn status_to_result(status: &Option<Status>) -> (r: Result<(), Error>)
    ensures
        match status {
            None => r matches Err(Error::Unexpected(m)) && m@ == "no status"@,
            Some(s) => if s.error_code == 0 {
                r is Ok
            } else if is_defined_error_code(s.error_code) {
                r matches Err(Error::Server(code, reason)) && code == s.error_code && reason@ == s.reason@
            } else {
                r matches Err(Error::Unexpected(m)) && m@ == "unknown error code "@ + decimal_text(
                    s.error_code as int,
                )
            },
        },
{
    match status {
        None => Err(Error::Unexpected(String::from_str("no status"))),
        Some(s) => {
            if s.error_code == 0 {
                Ok(())
            } else if error_code_defined(s.error_code) {
                Err(Error::Server(s.error_code, s.reason.clone()))
            } else {
                let mut message = String::from_str("unknown error code ");
                append_decimal(&mut message, s.error_code as i64);
                Err(Error::Unexpected(message))
            }
        },
    }
}

/// The guarantee timestamp that a read at `level` sends. A customized level
/// sends 0 and leaves the timestamp to the caller; the session level has none.
pub open spec fn spec_gts(level: ConsistencyLevel) -> u64 {
    match level {
        ConsistencyLevel::Strong => STRONG_TIMESTAMP,
        ConsistencyLevel::Bounded => BOUNDED_TIMESTAMP,
        ConsistencyLevel::Eventually => EVENTUALLY_TIMESTAMP,
        ConsistencyLevel::Session => 0,
        ConsistencyLevel::Customized => 0,
    }
}

pub fn get_gts(level: ConsistencyLevel) -> (r: u64)
    requires
        level != ConsistencyLevel::Session,
    ensures
        r == spec_gts(level),
{
    match level {
        ConsistencyLevel::Strong => STRONG_TIMESTAMP,
        ConsistencyLevel::Bounded => BOUNDED_TIMESTAMP,
        ConsistencyLevel::Eventually => EVENTUALLY_TIMESTAMP,
        ConsistencyLevel::Session => 0,
        ConsistencyLevel::Customized => 0,
    }
}

} // verus!
