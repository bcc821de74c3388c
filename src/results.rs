//! The shapes of the service's replies, and the checks that turn a reply's
//! parallel columns and counts into them.
use std::collections::HashMap;
use vstd::prelude::*;

use crate::column::{Field, FieldData};
use crate::common::{
    CompactionState, ConsistencyLevel, DataType, ImportState, SegmentState, StateCode,
};
use crate::error::Error;
use crate::schema::CollectionSchema;

verus! {

/// What the service records of a collection.
#[derive(Debug, Clone)]
pub struct CollectionMetadata {
    pub name: String,
    pub id: i64,
    /// The collection's schema.
    pub schema: Option<CollectionSchema>,
    /// Hybrid timestamp of the creation.
    pub created_timestamp: u64,
    /// The creation's UTC time, derived from `created_timestamp`.
    pub created_utc_timestamp: u64,
    pub shards_num: i32,
    pub aliases: Vec<String>,
    pub consistency_level: ConsistencyLevel,
}

/// One entry of a listing of collections.
#[derive(Debug, Clone)]
pub struct CollectionInfo {
    pub name: String,
    pub id: i64,
    pub created_timestamp: u64,
    pub created_utc_timestamp: u64,
    /// Share of the collection that is loaded, in percent.
    pub in_memory_percentage: i64,
    /// Whether the collection can be queried.
    pub query_service_available: bool,
}

/// One entry of a listing of partitions.
#[derive(Debug, Clone)]
pub struct PartitionInfo {
    pub name: String,
    pub id: i64,
    pub created_timestamp: u64,
    pub created_utc_timestamp: u64,
    pub in_memory_percentage: i64,
}

/// Whether columns of the lengths `lens` have an entry for each of `n` items.
pub open spec fn columns_cover(n: nat, lens: Seq<nat>) -> bool {
    forall|k: int| 0 <= k < lens.len() ==> n <= #[trigger] lens[k]
}

/// The `i`-th entry of `column`, or `default` where the column is shorter.
pub open spec fn entry_or<T>(column: Seq<T>, i: int, default: T) -> T {
    if i < column.len() {
        column[i]
    } else {
        default
    }
}

/// The collections of a listing reply, which gives each property as a column
/// with one entry per collection. Rejected where the id or a timestamp
/// column is shorter than the column of names. The in-memory percentages and
/// the availability flags are filled only for some listings: a missing entry
/// reads as 0 and `false`. Entries past the last name are not read.
pub fn collection_infos(
    names: &Vec<String>,
    ids: &Vec<i64>,
    created_timestamps: &Vec<u64>,
    created_utc_timestamps: &Vec<u64>,
    in_memory_percentages: &Vec<i64>,
    query_service_available: &Vec<bool>,
) -> (r: Result<Vec<CollectionInfo>, Error>)
    ensures
        match r {
            Ok(infos) => {
                &&& columns_cover(
                    names@.len(),
                    seq![ids@.len(), created_timestamps@.len(), created_utc_timestamps@.len()],
                )
                &&& infos@.len() == names@.len()
                &&& forall|i: int|
                    0 <= i < infos@.len() ==> {
                        let info = #[trigger] infos@[i];
                        &&& info.name@ == names@[i]@
                        &&& info.id == ids@[i]
                        &&& info.created_timestamp == created_timestamps@[i]
                        &&& info.created_utc_timestamp == created_utc_timestamps@[i]
                        &&& info.in_memory_percentage == entry_or(in_memory_percentages@, i, 0)
                        &&& info.query_service_available == entry_or(
                            query_service_available@,
                            i,
                            false,
                        )
                    }
            },
            Err(e) => e is MalformedResponse && !columns_cover(
                names@.len(),
                seq![ids@.len(), created_timestamps@.len(), created_utc_timestamps@.len()],
            ),
        },
{
    let n = names.len();
    let ghost lens: Seq<nat> = seq![
        ids@.len(),
        created_timestamps@.len(),
        created_utc_timestamps@.len(),
    ];
    if ids.len() < n || created_timestamps.len() < n || created_utc_timestamps.len() < n {
        proof {
            if ids.len() < n {
                assert(!(n <= lens[0]));
            } else if created_timestamps.len() < n {
                assert(!(n <= lens[1]));
            } else {
                assert(!(n <= lens[2]));
            }
        }
        return Err(
            Error::MalformedResponse(String::from_str("collection listing columns differ in length")),
        );
    }
    let mut infos: Vec<CollectionInfo> = Vec::new();
    let mut i: usize = 0;
    while i < n
        invariant
            n == names@.len(),
            n <= ids@.len(),
            n <= created_timestamps@.len(),
            n <= created_utc_timestamps@.len(),
            i <= n,
            infos@.len() == i,
            forall|j: int|
                0 <= j < i ==> {
                    let info = #[trigger] infos@[j];
                    &&& info.name@ == names@[j]@
                    &&& info.id == ids@[j]
                    &&& info.created_timestamp == created_timestamps@[j]
                    &&& info.created_utc_timestamp == created_utc_timestamps@[j]
                    &&& info.in_memory_percentage == entry_or(in_memory_percentages@, j, 0)
                    &&& info.query_service_available == entry_or(
                        query_service_available@,
                        j,
                        false,
                    )
                },
        decreases n - i,
    {
        let in_memory_percentage = if i < in_memory_percentages.len() {
            in_memory_percentages[i]
        } else {
            0
        };
        let available = if i < query_service_available.len() {
            query_service_available[i]
        } else {
            false
        };
        infos.push(
            CollectionInfo {
                name: names[i].clone(),
                id: ids[i],
                created_timestamp: created_timestamps[i],
                created_utc_timestamp: created_utc_timestamps[i],
                in_memory_percentage,
                query_service_available: available,
            },
        );
        i = i + 1;
    }
    Ok(infos)
}

/// The partitions of a listing reply, which gives each property as a column
/// with one entry per partition. Rejected where the id or a timestamp column
/// is shorter than the column of names. The in-memory percentages are filled
/// only for some listings: a missing entry reads as 0. Entries past the last
/// name are not read.
pub fn partition_infos(
    names: &Vec<String>,
    ids: &Vec<i64>,
    created_timestamps: &Vec<u64>,
    created_utc_timestamps: &Vec<u64>,
    in_memory_percentages: &Vec<i64>,
) -> (r: Result<Vec<PartitionInfo>, Error>)
    ensures
        match r {
            Ok(infos) => {
                &&& columns_cover(
                    names@.len(),
                    seq![ids@.len(), created_timestamps@.len(), created_utc_timestamps@.len()],
                )
                &&& infos@.len() == names@.len()
                &&& forall|i: int|
                    0 <= i < infos@.len() ==> {
                        let info = #[trigger] infos@[i];
                        &&& info.name@ == names@[i]@
                        &&& info.id == ids@[i]
                        &&& info.created_timestamp == created_timestamps@[i]
                        &&& info.created_utc_timestamp == created_utc_timestamps@[i]
                        &&& info.in_memory_percentage == entry_or(in_memory_percentages@, i, 0)
                    }
            },
            Err(e) => e is MalformedResponse && !columns_cover(
                names@.len(),
                seq![ids@.len(), created_timestamps@.len(), created_utc_timestamps@.len()],
            ),
        },
{
    let n = names.len();
    let ghost lens: Seq<nat> = seq![
        ids@.len(),
        created_timestamps@.len(),
        created_utc_timestamps@.len(),
    ];
    if ids.len() < n || created_timestamps.len() < n || created_utc_timestamps.len() < n {
        proof {
            if ids.len() < n {
                assert(!(n <= lens[0]));
            } else if created_timestamps.len() < n {
                assert(!(n <= lens[1]));
            } else {
                assert(!(n <= lens[2]));
            }
        }
        return Err(
            Error::MalformedResponse(String::from_str("partition listing columns differ in length")),
        );
    }
    let mut infos: Vec<PartitionInfo> = Vec::new();
    let mut i: usize = 0;
    while i < n
        invariant
            n == names@.len(),
            n <= ids@.len(),
            n <= created_timestamps@.len(),
            n <= created_utc_timestamps@.len(),
            i <= n,
            infos@.len() == i,
            forall|j: int|
                0 <= j < i ==> {
                    let info = #[trigger] infos@[j];
                    &&& info.name@ == names@[j]@
                    &&& info.id == ids@[j]
                    &&& info.created_timestamp == created_timestamps@[j]
                    &&& info.created_utc_timestamp == created_utc_timestamps@[j]
                    &&& info.in_memory_percentage == entry_or(in_memory_percentages@, j, 0)
                },
        decreases n - i,
    {
        let in_memory_percentage = if i < in_memory_percentages.len() {
            in_memory_percentages[i]
        } else {
            0
        };
        infos.push(
            PartitionInfo {
                name: names[i].clone(),
                id: ids[i],
                created_timestamp: created_timestamps[i],
                created_utc_timestamp: created_utc_timestamps[i],
                in_memory_percentage,
            },
        );
        i = i + 1;
    }
    Ok(infos)
}

/// Description of an index.
#[derive(Debug, Clone)]
pub struct IndexInfo {
    pub index_name: String,
    pub index_id: i64,
    pub params: HashMap<String, String>,
    pub field_name: String,
    pub indexed_rows: i64,
    pub total_rows: i64,
    pub state: i32,
    pub index_state_fail_reason: String,
}

/// State of an index build.
#[derive(Debug, Clone)]
pub struct IndexState {
    pub state: i32,
    pub fail_reason: String,
}

/// Progress of an index build.
#[derive(Debug, Clone)]
pub struct IndexProgress {
    pub indexed_rows: i64,
    pub total_rows: i64,
}

/// Outcome of an insert, delete or upsert. The counts are passed on as the
/// service reports them.
#[derive(Debug, Clone)]
pub struct MutationResult {
    /// Primary keys of the affected rows.
    pub id: Option<Id>,
    pub succ_index: Vec<u32>,
    pub err_index: Vec<u32>,
    pub acknowledged: bool,
    pub insert_cnt: i64,
    pub delete_cnt: i64,
    pub upsert_cnt: i64,
    /// The service's timestamp of the operation.
    pub timestamp: u64,
}

/// A list of primary keys, which may be absent.
#[derive(Debug, Clone)]
pub struct Id {
    id_field: Option<IdField>,
}

/// Primary keys, integer or string.
#[derive(Debug, Clone)]
pub enum IdField {
    IntId(Vec<i64>),
    StrId(Vec<String>),
}

impl IdField {
    pub open spec fn spec_len(&self) -> nat {
        match self {
            IdField::IntId(v) => v@.len(),
            IdField::StrId(v) => v@.len(),
        }
    }

    pub fn len(&self) -> (r: usize)
        ensures
            r == self.spec_len(),
    {
        match self {
            IdField::IntId(v) => v.len(),
            IdField::StrId(v) => v.len(),
        }
    }
}

impl Id {
    pub closed spec fn spec_id_field(&self) -> Option<IdField> {
        self.id_field
    }

    pub fn new(id_field: Option<IdField>) -> (r: Id)
        ensures
            r.spec_id_field() == id_field,
    {
        Id { id_field }
    }

    pub fn id_field(&self) -> (r: &Option<IdField>)
        ensures
            *r == self.spec_id_field(),
    {
        &self.id_field
    }

    /// Number of keys; 0 where there are none.
    pub fn len(&self) -> (r: usize)
        ensures
            r == match self.spec_id_field() {
                Some(f) => f.spec_len(),
                None => 0,
            },
    {
        match &self.id_field {
            Some(f) => f.len(),
            None => 0,
        }
    }
}

/// One column of a reply as the wire gives it: its type's numeric tag, its
/// field's name and id, and its payload.
#[derive(Debug, Clone)]
pub struct WireColumn {
    pub type_code: i32,
    pub field_name: String,
    pub field_id: i64,
    pub field: Option<Field>,
}

/// Whether `d` is the column `c` with its type tag decoded.
pub open spec fn decodes_column(d: FieldData, c: WireColumn) -> bool {
    &&& d.data_type.type_code() == c.type_code
    &&& d.field_name == c.field_name
    &&& d.field_id == c.field_id
    &&& d.field == c.field
}

/// The columns of a reply, one for each given and in the same order;
/// rejected where a column's type tag names no type.
pub fn columns_from_wire(columns: Vec<WireColumn>) -> (r: Result<Vec<FieldData>, Error>)
    ensures
        match r {
            Ok(decoded) => {
                &&& decoded@.len() == columns@.len()
                &&& forall|i: int|
                    0 <= i < decoded@.len() ==> decodes_column(#[trigger] decoded@[i], columns@[i])
            },
            Err(e) => {
                &&& e is MalformedResponse
                &&& exists|i: int|
                    0 <= i < columns@.len() && (DataType::spec_from_i32(
                        #[trigger] columns@[i].type_code,
                    ) is None)
            },
        },
{
    let ghost original = columns@;
    let mut rest = columns;
    let mut decoded: Vec<FieldData> = Vec::new();
    let n = rest.len();
    let mut i: usize = 0;
    while i < n
        invariant
            i <= n,
            n == original.len(),
            original == columns@,
            rest@ == original.subrange(i as int, n as int),
            decoded@.len() == i,
            forall|j: int| 0 <= j < i ==> decodes_column(#[trigger] decoded@[j], original[j]),
        decreases n - i,
    {
        let column = rest.remove(0);
        proof {
            assert(column == original[i as int]);
            assert(rest@ =~= original.subrange(i + 1, n as int));
        }
        let WireColumn { type_code, field_name, field_id, field } = column;
        match FieldData::from_wire(type_code, field_name, field_id, field) {
            Ok(d) => {
                decoded.push(d);
            },
            Err(e) => {
                proof {
                    assert(DataType::spec_from_i32(original[i as int].type_code) is None);
                }
                return Err(e);
            },
        }
        i = i + 1;
    }
    Ok(decoded)
}

/// Reply to a search.
#[derive(Debug, Clone)]
pub struct SearchResult {
    pub results: Option<SearchResultData>,
    pub collection_name: String,
}

/// Hits of a search, query by query: `topks[q]` hits for query `q`, whose
/// scores stand in `scores` one after the other.
#[derive(Debug, Clone)]
pub struct SearchResultData {
    pub num_queries: i64,
    pub top_k: i64,
    pub fields_data: Vec<FieldData>,
    /// Single-precision scores, as the bit patterns of `f32::to_bits`.
    pub scores: Vec<u32>,
    pub id: Option<Id>,
    pub topks: Vec<i64>,
}

/// The sum of `topks`.
pub open spec fn sum_topks(topks: Seq<i64>) -> int
    decreases topks.len(),
{
    if topks.len() == 0 {
        0
    } else {
        sum_topks(topks.drop_last()) + topks.last()
    }
}

/// Whether per-query hit counts and a score list agree: no count is negative
/// and there is one score per hit.
pub open spec fn scores_match_topks(topks: Seq<i64>, num_scores: nat) -> bool {
    &&& forall|q: int| 0 <= q < topks.len() ==> #[trigger] topks[q] >= 0
    &&& sum_topks(topks) == num_scores
}

proof fn lemma_sum_prefix_le(topks: Seq<i64>, k: int)
    requires
        0 <= k <= topks.len(),
        forall|q: int| 0 <= q < topks.len() ==> #[trigger] topks[q] >= 0,
    ensures
        sum_topks(topks.subrange(0, k)) <= sum_topks(topks),
    decreases topks.len(),
{
    if k < topks.len() {
        let init = topks.drop_last();
        assert forall|q: int| 0 <= q < init.len() implies #[trigger] init[q] >= 0 by {
            assert(init[q] == topks[q]);
        }
        lemma_sum_prefix_le(init, k);
        assert(init.subrange(0, k) =~= topks.subrange(0, k));
    } else {
        assert(topks.subrange(0, k) =~= topks);
    }
}

impl SearchResultData {
    /// The hits of a search reply, accepted only where the counts and the
    /// scores agree (see `scores_match_topks`).
    pub fn new(
        num_queries: i64,
        top_k: i64,
        fields_data: Vec<FieldData>,
        scores: Vec<u32>,
        id: Option<Id>,
        topks: Vec<i64>,
    ) -> (r: Result<SearchResultData, Error>)
        ensures
            match r {
                Ok(d) => {
                    &&& scores_match_topks(topks@, scores@.len())
                    &&& d == (SearchResultData { num_queries, top_k, fields_data, scores, id, topks })
                },
                Err(e) => e is MalformedResponse && !scores_match_topks(topks@, scores@.len()),
            },
    {
        let n = scores.len() as u64;
        let mut total: u64 = 0;
        let mut i: usize = 0;
        while i < topks.len()
            invariant
                i <= topks@.len(),
                n == scores@.len(),
                total <= n,
                total == sum_topks(topks@.subrange(0, i as int)),
                forall|q: int| 0 <= q < i ==> #[trigger] topks@[q] >= 0,
            decreases topks@.len() - i,
        {
            let t = topks[i];
            proof {
                assert(topks@.subrange(0, i + 1).drop_last() =~= topks@.subrange(0, i as int));
            }
            if t < 0 {
                return Err(Error::MalformedResponse(String::from_str("negative hit count")));
            }
            if t as u64 > n - total {
                proof {
                    if forall|q: int| 0 <= q < topks@.len() ==> #[trigger] topks@[q] >= 0 {
                        lemma_sum_prefix_le(topks@, i + 1);
                    }
                }
                return Err(Error::MalformedResponse(String::from_str("more hits than scores")));
            }
            total = total + t as u64;
            i = i + 1;
        }
        proof {
            assert(topks@.subrange(0, topks@.len() as int) =~= topks@);
        }
        if total != n {
            return Err(Error::MalformedResponse(String::from_str("fewer hits than scores")));
        }
        Ok(SearchResultData { num_queries, top_k, fields_data, scores, id, topks })
    }

    /// The hits of a search reply read from the wire: its columns decoded by
    /// `columns_from_wire`, in order, and accepted only where the counts and
    /// the scores agree.
    pub fn from_wire(
        num_queries: i64,
        top_k: i64,
        columns: Vec<WireColumn>,
        scores: Vec<u32>,
        id: Option<Id>,
        topks: Vec<i64>,
    ) -> (r: Result<SearchResultData, Error>)
        ensures
            match r {
                Ok(d) => {
                    &&& scores_match_topks(topks@, scores@.len())
                    &&& d.num_queries == num_queries
                    &&& d.top_k == top_k
                    &&& d.scores == scores
                    &&& d.id == id
                    &&& d.topks == topks
                    &&& d.fields_data@.len() == columns@.len()
                    &&& forall|i: int|
                        0 <= i < d.fields_data@.len() ==> decodes_column(
                            #[trigger] d.fields_data@[i],
                            columns@[i],
                        )
                },
                Err(e) => {
                    &&& e is MalformedResponse
                    &&& {
                        ||| exists|i: int|
                            0 <= i < columns@.len() && (DataType::spec_from_i32(
                                #[trigger] columns@[i].type_code,
                            ) is None)
                        ||| !scores_match_topks(topks@, scores@.len())
                    }
                },
            },
    {
        let fields_data = columns_from_wire(columns)?;
        SearchResultData::new(num_queries, top_k, fields_data, scores, id, topks)
    }
}

/// Segment ids and seal times that a flush reports, by collection.
#[derive(Debug, Clone)]
pub struct FlushResult {
    pub db_name: String,
    pub collection_segment_ids: HashMap<String, Vec<i64>>,
    pub flush_collection_segment_ids: HashMap<String, Vec<i64>>,
    pub collection_seal_times: HashMap<String, i64>,
}

/// Reply to a query: one column per output field.
#[derive(Debug, Clone)]
pub struct QueryResult {
    pub fields_data: Vec<FieldData>,
    pub collection_name: String,
}

impl QueryResult {
    /// A query reply of the columns `fields_data`, kept in the order given.
    pub fn new(fields_data: Vec<FieldData>, collection_name: String) -> (r: QueryResult)
        ensures
            r.fields_data@ == fields_data@,
            r.collection_name == collection_name,
    {
        QueryResult { fields_data, collection_name }
    }

    /// A query reply read from the wire: its columns decoded by
    /// `columns_from_wire`, one for each given and in the same order.
    pub fn from_wire(columns: Vec<WireColumn>, collection_name: String) -> (r: Result<QueryResult, Error>)
        ensures
            match r {
                Ok(q) => {
                    &&& q.collection_name == collection_name
                    &&& q.fields_data@.len() == columns@.len()
                    &&& forall|i: int|
                        0 <= i < q.fields_data@.len() ==> decodes_column(
                            #[trigger] q.fields_data@[i],
                            columns@[i],
                        )
                },
                Err(e) => {
                    &&& e is MalformedResponse
                    &&& exists|i: int|
                        0 <= i < columns@.len() && (DataType::spec_from_i32(
                            #[trigger] columns@[i].type_code,
                        ) is None)
                },
            },
    {
        let fields_data = columns_from_wire(columns)?;
        Ok(QueryResult { fields_data, collection_name })
    }

    /// The names of the columns, in order.
    pub fn field_names(&self) -> (r: Vec<String>)
        ensures
            r@.len() == self.fields_data@.len(),
            forall|i: int| 0 <= i < r@.len() ==> #[trigger] r@[i]@ == self.fields_data@[i].field_name@,
    {
        let mut names: Vec<String> = Vec::new();
        let mut i: usize = 0;
        while i < self.fields_data.len()
            invariant
                i <= self.fields_data@.len(),
                names@.len() == i,
                forall|j: int| 0 <= j < i ==> #[trigger] names@[j]@ == self.fields_data@[j].field_name@,
            decreases self.fields_data@.len() - i,
        {
            names.push(self.fields_data[i].field_name.clone());
            i = i + 1;
        }
        names
    }
}

/// A segment as storage records it.
#[derive(Debug, Clone)]
pub struct PersistentSegmentInfo {
    pub segment_id: i64,
    pub collection_id: i64,
    pub partition_id: i64,
    pub num_rows: i64,
    pub state: SegmentState,
}

/// A segment as the query nodes hold it.
#[derive(Debug, Clone)]
pub struct QuerySegmentInfo {
    pub segment_id: i64,
    pub collection_id: i64,
    pub partition_id: i64,
    pub mem_size: i64,
    pub num_rows: i64,
    pub index_name: String,
    pub index_id: i64,
    /// Superseded by `node_ids`.
    pub node_id: i64,
    pub state: SegmentState,
    pub node_ids: Vec<i64>,
}

/// One replica of a collection.
#[derive(Debug, Clone)]
pub struct ReplicaInfo {
    pub replica_id: i64,
    pub collection_id: i64,
    /// Empty where the whole collection is loaded.
    pub partition_ids: Vec<i64>,
    pub shard_replicas: Vec<ShardReplica>,
    /// Leaders included.
    pub node_ids: Vec<i64>,
}

/// One shard of a replica.
#[derive(Debug, Clone)]
pub struct ShardReplica {
    pub leader_id: i64,
    /// `IP:port` of the leader.
    pub leader_addr: String,
    pub dm_channel_name: String,
    pub node_ids: Vec<i64>,
}

/// A network address.
#[derive(Debug, Clone)]
pub struct Address {
    pub ip: String,
    pub port: i64,
}

/// Metrics of a component, as JSON text.
#[derive(Debug, Clone)]
pub struct Metrics {
    pub response: String,
    pub component_name: String,
}

/// Health of a component and of its subcomponents.
#[derive(Debug, Clone)]
pub struct ComponentState {
    pub state: Option<ComponentInfo>,
    pub subcomponent_states: Vec<ComponentInfo>,
}

/// Health of one component.
#[derive(Debug, Clone)]
pub struct ComponentInfo {
    pub node_id: i64,
    pub role: String,
    pub state_code: StateCode,
    pub extra_info: HashMap<String, String>,
}

/// Progress counts of a compaction.
#[derive(Debug, Clone)]
pub struct CompactionStateResult {
    pub state: CompactionState,
    pub executing_plan_no: i64,
    pub timeout_plan_no: i64,
    pub completed_plan_no: i64,
    pub failed_plan_no: i64,
}

/// A compaction with its merges.
#[derive(Debug, Clone)]
pub struct CompactionPlan {
    pub state: CompactionState,
    pub merge_infos: Vec<CompactionMergeInfo>,
}

/// Segments merged into one.
#[derive(Debug, Clone)]
pub struct CompactionMergeInfo {
    pub sources: Vec<i64>,
    pub target: i64,
}

/// Progress of a bulk import task.
#[derive(Debug, Clone)]
pub struct ImportStateResult {
    pub state: ImportState,
    pub row_count: i64,
    pub id_list: Vec<i64>,
    pub infos: HashMap<String, String>,
    pub id: i64,
    pub collection_id: i64,
    pub segment_ids: Vec<i64>,
    pub create_ts: i64,
}

/// A role and its users.
#[derive(Debug, Clone)]
pub struct RoleResult {
    pub role: Option<RoleEntity>,
    pub users: Vec<UserEntity>,
}

/// A user and its roles.
#[derive(Debug, Clone)]
pub struct User {
    pub user: Option<UserEntity>,
    pub roles: Vec<RoleEntity>,
}

/// A privilege on an object, granted to a role.
#[derive(Debug, Clone, Default)]
pub struct GrantEntity {
    pub role: Option<RoleEntity>,
    pub object: Option<ObjectEntity>,
    pub object_name: String,
    pub grantor: Option<GrantorEntity>,
}

/// Who granted which privilege.
#[derive(Debug, Clone, Default)]
pub struct GrantorEntity {
    pub user: Option<UserEntity>,
    pub privilege: Option<PrivilegeEntity>,
}

#[derive(Debug, Clone, Default)]
pub struct UserEntity {
    pub name: String,
}

#[derive(Debug, Clone, Default)]
pub struct PrivilegeEntity {
    pub name: String,
}

#[derive(Debug, Clone, Default)]
pub struct ObjectEntity {
    pub name: String,
}

#[derive(Debug, Clone, Default)]
pub struct RoleEntity {
    pub name: String,
}

/// Health of the service, with the reasons where it is not healthy.
#[derive(Debug, Clone)]
pub struct Health {
    pub is_healthy: bool,
    pub reasons: Vec<String>,
}

} // verus!
