//! Closed enumerations of the wire protocol and their numeric codes.
use vstd::prelude::*;

verus! {

/// Element type of a field, with the numeric tag that the wire protocol uses.
#[derive(Debug, Clone, Copy, PartialEq, Eq, Structural, Hash, PartialOrd, Ord)]
pub enum DataType {
    NoType,
    Bool,
    Int8,
    Int16,
    Int32,
    Int64,
    Float,
    Double,
    String,
    /// Variable-length string with a declared maximum length.
    VarChar,
    BinaryVector,
    FloatVector,
}

impl DataType {
    /// The numeric tag of this type on the wire.
    pub open spec fn type_code(self) -> i32 {
        match self {
            DataType::NoType => 0,
            DataType::Bool => 1,
            DataType::Int8 => 2,
            DataType::Int16 => 3,
            DataType::Int32 => 4,
            DataType::Int64 => 5,
            DataType::Float => 10,
            DataType::Double => 11,
            DataType::String => 20,
            DataType::VarChar => 21,
            DataType::BinaryVector => 100,
            DataType::FloatVector => 101,
        }
    }

    pub fn code(&self) -> (r: i32)
        ensures
            r == self.type_code(),
    {
        match self {
            DataType::NoType => 0,
            DataType::Bool => 1,
            DataType::Int8 => 2,
            DataType::Int16 => 3,
            DataType::Int32 => 4,
            DataType::Int64 => 5,
            DataType::Float => 10,
            DataType::Double => 11,
            DataType::String => 20,
            DataType::VarChar => 21,
            DataType::BinaryVector => 100,
            DataType::FloatVector => 101,
        }
    }

    /// The type whose tag is `code`, if there is one.
    pub open spec fn spec_from_i32(code: i32) -> Option<DataType> {
        if code == 0 {
            Some(DataType::NoType)
        } else if code == 1 {
            Some(DataType::Bool)
        } else if code == 2 {
            Some(DataType::Int8)
        } else if code == 3 {
            Some(DataType::Int16)
        } else if code == 4 {
            Some(DataType::Int32)
        } else if code == 5 {
            Some(DataType::Int64)
        } else if code == 10 {
            Some(DataType::Float)
        } else if code == 11 {
            Some(DataType::Double)
        } else if code == 20 {
            Some(DataType::String)
        } else if code == 21 {
            Some(DataType::VarChar)
        } else if code == 100 {
            Some(DataType::BinaryVector)
        } else if code == 101 {
            Some(DataType::FloatVector)
        } else {
            None
        }
    }

    pub fn from_i32(code: i32) -> (r: Option<DataType>)
        ensures
            r == DataType::spec_from_i32(code),
            match r {
                Some(d) => d.type_code() == code,
                None => forall|d: DataType| #[trigger] d.type_code() != code,
            },
    {
        match code {
            0 => Some(DataType::NoType),
            1 => Some(DataType::Bool),
            2 => Some(DataType::Int8),
            3 => Some(DataType::Int16),
            4 => Some(DataType::Int32),
            5 => Some(DataType::Int64),
            10 => Some(DataType::Float),
            11 => Some(DataType::Double),
            20 => Some(DataType::String),
            21 => Some(DataType::VarChar),
            100 => Some(DataType::BinaryVector),
            101 => Some(DataType::FloatVector),
            _ => None,
        }
    }

    /// Whether a column of this type holds fixed-dimension vectors.
    pub open spec fn is_vector(self) -> bool {
        self == DataType::BinaryVector || self == DataType::FloatVector
    }

    pub fn is_vector_type(&self) -> (r: bool)
        ensures
            r == self.is_vector(),
    {
        match self {
            DataType::BinaryVector | DataType::FloatVector => true,
            _ => false,
        }
    }
}

/// Distinct types have distinct wire tags, so a tag read back names the
/// type that was written.
pub proof fn type_code_injective(a: DataType, b: DataType)
    ensures
        a.type_code() == b.type_code() ==> a == b,
{
}

/// Read-freshness guarantee that a request asks of the service.
#[derive(Debug, Clone, Copy, PartialEq, Eq, Structural, Hash, PartialOrd, Ord)]
pub enum ConsistencyLevel {
    Strong,
    /// The level used when a caller names none.
    Session,
    Bounded,
    Eventually,
    /// The caller passes its own guarantee timestamp.
    Customized,
}

impl ConsistencyLevel {
    /// The numeric code of this value on the wire.
    pub open spec fn wire_code(self) -> i32 {
        match self {
            ConsistencyLevel::Strong => 0,
            ConsistencyLevel::Session => 1,
            ConsistencyLevel::Bounded => 2,
            ConsistencyLevel::Eventually => 3,
            ConsistencyLevel::Customized => 4,
        }
    }

    pub fn code(&self) -> (r: i32)
        ensures
            r == self.wire_code(),
    {
        match self {
            ConsistencyLevel::Strong => 0,
            ConsistencyLevel::Session => 1,
            ConsistencyLevel::Bounded => 2,
            ConsistencyLevel::Eventually => 3,
            ConsistencyLevel::Customized => 4,
        }
    }

    /// The value whose code is `code`, if there is one.
    pub fn from_i32(code: i32) -> (r: Option<ConsistencyLevel>)
        ensures
            match r {
                Some(v) => v.wire_code() == code,
                None => forall|v: ConsistencyLevel| #[trigger] v.wire_code() != code,
            },
    {
        match code {
            0 => Some(ConsistencyLevel::Strong),
            1 => Some(ConsistencyLevel::Session),
            2 => Some(ConsistencyLevel::Bounded),
            3 => Some(ConsistencyLevel::Eventually),
            4 => Some(ConsistencyLevel::Customized),
            _ => None,
        }
    }
}

/// Lifecycle state of a field on the server.
#[derive(Debug, Clone, Copy, PartialEq, Eq, Structural, Hash, PartialOrd, Ord)]
pub enum FieldState {
    FieldCreated,
    FieldCreating,
    FieldDropping,
    FieldDropped,
}

impl FieldState {
    /// The numeric code of this value on the wire.
    pub open spec fn wire_code(self) -> i32 {
        match self {
            FieldState::FieldCreated => 0,
            FieldState::FieldCreating => 1,
            FieldState::FieldDropping => 2,
            FieldState::FieldDropped => 3,
        }
    }

    pub fn code(&self) -> (r: i32)
        ensures
            r == self.wire_code(),
    {
        match self {
            FieldState::FieldCreated => 0,
            FieldState::FieldCreating => 1,
            FieldState::FieldDropping => 2,
            FieldState::FieldDropped => 3,
        }
    }

    /// The value whose code is `code`, if there is one.
    pub fn from_i32(code: i32) -> (r: Option<FieldState>)
        ensures
            match r {
                Some(v) => v.wire_code() == code,
                None => forall|v: FieldState| #[trigger] v.wire_code() != code,
            },
    {
        match code {
            0 => Some(FieldState::FieldCreated),
            1 => Some(FieldState::FieldCreating),
            2 => Some(FieldState::FieldDropping),
            3 => Some(FieldState::FieldDropped),
            _ => None,
        }
    }
}

/// Which collections a listing returns.
#[derive(Debug, Clone, Copy, PartialEq, Eq, Structural, Hash, PartialOrd, Ord)]
pub enum ShowType {
    /// Every collection.
    All,
    /// Loaded collections, with their in-memory percentages.
    InMemory,
}

impl ShowType {
    /// The numeric code of this value on the wire.
    pub open spec fn wire_code(self) -> i32 {
        match self {
            ShowType::All => 0,
            ShowType::InMemory => 1,
        }
    }

    pub fn code(&self) -> (r: i32)
        ensures
            r == self.wire_code(),
    {
        match self {
            ShowType::All => 0,
            ShowType::InMemory => 1,
        }
    }

    /// The value whose code is `code`, if there is one.
    pub fn from_i32(code: i32) -> (r: Option<ShowType>)
        ensures
            match r {
                Some(v) => v.wire_code() == code,
                None => forall|v: ShowType| #[trigger] v.wire_code() != code,
            },
    {
        match code {
            0 => Some(ShowType::All),
            1 => Some(ShowType::InMemory),
            _ => None,
        }
    }
}

/// State of a storage segment.
#[derive(Debug, Clone, Copy, PartialEq, Eq, Structural, Hash, PartialOrd, Ord)]
pub enum SegmentState {
    /// No state was reported.
    NoState,
    NotExist,
    Growing,
    Sealed,
    Flushed,
    Flushing,
    Dropped,
    Importing,
}

impl SegmentState {
    /// The numeric code of this value on the wire.
    pub open spec fn wire_code(self) -> i32 {
        match self {
            SegmentState::NoState => 0,
            SegmentState::NotExist => 1,
            SegmentState::Growing => 2,
            SegmentState::Sealed => 3,
            SegmentState::Flushed => 4,
            SegmentState::Flushing => 5,
            SegmentState::Dropped => 6,
            SegmentState::Importing => 7,
        }
    }

    pub fn code(&self) -> (r: i32)
        ensures
            r == self.wire_code(),
    {
        match self {
            SegmentState::NoState => 0,
            SegmentState::NotExist => 1,
            SegmentState::Growing => 2,
            SegmentState::Sealed => 3,
            SegmentState::Flushed => 4,
            SegmentState::Flushing => 5,
            SegmentState::Dropped => 6,
            SegmentState::Importing => 7,
        }
    }

    /// The value whose code is `code`, if there is one.
    pub fn from_i32(code: i32) -> (r: Option<SegmentState>)
        ensures
            match r {
                Some(v) => v.wire_code() == code,
                None => forall|v: SegmentState| #[trigger] v.wire_code() != code,
            },
    {
        match code {
            0 => Some(SegmentState::NoState),
            1 => Some(SegmentState::NotExist),
            2 => Some(SegmentState::Growing),
            3 => Some(SegmentState::Sealed),
            4 => Some(SegmentState::Flushed),
            5 => Some(SegmentState::Flushing),
            6 => Some(SegmentState::Dropped),
            7 => Some(SegmentState::Importing),
            _ => None,
        }
    }
}

/// Health state of a server component.
#[derive(Debug, Clone, Copy, PartialEq, Eq, Structural, Hash, PartialOrd, Ord)]
pub enum StateCode {
    Initializing,
    Healthy,
    Abnormal,
    StandBy,
}

impl StateCode {
    /// The numeric code of this value on the wire.
    pub open spec fn wire_code(self) -> i32 {
        match self {
            StateCode::Initializing => 0,
            StateCode::Healthy => 1,
            StateCode::Abnormal => 2,
            StateCode::StandBy => 3,
        }
    }

    pub fn code(&self) -> (r: i32)
        ensures
            r == self.wire_code(),
    {
        match self {
            StateCode::Initializing => 0,
            StateCode::Healthy => 1,
            StateCode::Abnormal => 2,
            StateCode::StandBy => 3,
        }
    }

    /// The value whose code is `code`, if there is one.
    pub fn from_i32(code: i32) -> (r: Option<StateCode>)
        ensures
            match r {
                Some(v) => v.wire_code() == code,
                None => forall|v: StateCode| #[trigger] v.wire_code() != code,
            },
    {
        match code {
            0 => Some(StateCode::Initializing),
            1 => Some(StateCode::Healthy),
            2 => Some(StateCode::Abnormal),
            3 => Some(StateCode::StandBy),
            _ => None,
        }
    }
}

/// Progress of a compaction.
#[derive(Debug, Clone, Copy, PartialEq, Eq, Structural, Hash, PartialOrd, Ord)]
pub enum CompactionState {
    UndefiedState,
    Executing,
    Completed,
}

impl CompactionState {
    /// The numeric code of this value on the wire.
    pub open spec fn wire_code(self) -> i32 {
        match self {
            CompactionState::UndefiedState => 0,
            CompactionState::Executing => 1,
            CompactionState::Completed => 2,
        }
    }

    pub fn code(&self) -> (r: i32)
        ensures
            r == self.wire_code(),
    {
        match self {
            CompactionState::UndefiedState => 0,
            CompactionState::Executing => 1,
            CompactionState::Completed => 2,
        }
    }

    /// The value whose code is `code`, if there is one.
    pub fn from_i32(code: i32) -> (r: Option<CompactionState>)
        ensures
            match r {
                Some(v) => v.wire_code() == code,
                None => forall|v: CompactionState| #[trigger] v.wire_code() != code,
            },
    {
        match code {
            0 => Some(CompactionState::UndefiedState),
            1 => Some(CompactionState::Executing),
            2 => Some(CompactionState::Completed),
            _ => None,
        }
    }
}

/// Progress of a bulk import task.
#[derive(Debug, Clone, Copy, PartialEq, Eq, Structural, Hash, PartialOrd, Ord)]
pub enum ImportState {
    /// Waiting to be executed.
    ImportPending,
    /// Failed; the task's infos give the reason.
    ImportFailed,
    /// Handed to a data node.
    ImportStarted,
    /// All files parsed and the data persisted.
    ImportPersisted,
    /// Indexes built; segments can be compacted as usual.
    ImportCompleted,
    /// Failed, and the segments it made were removed.
    ImportFailedAndCleaned,
}

impl ImportState {
    /// The numeric code of this value on the wire.
    pub open spec fn wire_code(self) -> i32 {
        match self {
            ImportState::ImportPending => 0,
            ImportState::ImportFailed => 1,
            ImportState::ImportStarted => 2,
            ImportState::ImportPersisted => 5,
            ImportState::ImportCompleted => 6,
            ImportState::ImportFailedAndCleaned => 7,
        }
    }

    pub fn code(&self) -> (r: i32)
        ensures
            r == self.wire_code(),
    {
        match self {
            ImportState::ImportPending => 0,
            ImportState::ImportFailed => 1,
            ImportState::ImportStarted => 2,
            ImportState::ImportPersisted => 5,
            ImportState::ImportCompleted => 6,
            ImportState::ImportFailedAndCleaned => 7,
        }
    }

    /// The value whose code is `code`, if there is one.
    pub fn from_i32(code: i32) -> (r: Option<ImportState>)
        ensures
            match r {
                Some(v) => v.wire_code() == code,
                None => forall|v: ImportState| #[trigger] v.wire_code() != code,
            },
    {
        match code {
            0 => Some(ImportState::ImportPending),
            1 => Some(ImportState::ImportFailed),
            2 => Some(ImportState::ImportStarted),
            5 => Some(ImportState::ImportPersisted),
            6 => Some(ImportState::ImportCompleted),
            7 => Some(ImportState::ImportFailedAndCleaned),
            _ => None,
        }
    }
}

/// Whether a user joins or leaves a role.
#[derive(Debug, Clone, Copy, PartialEq, Eq, Structural, Hash, PartialOrd, Ord)]
pub enum OperateUserRoleType {
    AddUserToRole,
    RemoveUserFromRole,
}

impl OperateUserRoleType {
    /// The numeric code of this value on the wire.
    pub open spec fn wire_code(self) -> i32 {
        match self {
            OperateUserRoleType::AddUserToRole => 0,
            OperateUserRoleType::RemoveUserFromRole => 1,
        }
    }

    pub fn code(&self) -> (r: i32)
        ensures
            r == self.wire_code(),
    {
        match self {
            OperateUserRoleType::AddUserToRole => 0,
            OperateUserRoleType::RemoveUserFromRole => 1,
        }
    }

    /// The value whose code is `code`, if there is one.
    pub fn from_i32(code: i32) -> (r: Option<OperateUserRoleType>)
        ensures
            match r {
                Some(v) => v.wire_code() == code,
                None => forall|v: OperateUserRoleType| #[trigger] v.wire_code() != code,
            },
    {
        match code {
            0 => Some(OperateUserRoleType::AddUserToRole),
            1 => Some(OperateUserRoleType::RemoveUserFromRole),
            _ => None,
        }
    }
}

/// Whether a privilege is granted or revoked.
#[derive(Debug, Clone, Copy, PartialEq, Eq, Structural, Hash, PartialOrd, Ord)]
pub enum OperatePrivilegeType {
    Grant,
    Revoke,
}

impl OperatePrivilegeType {
    /// The numeric code of this value on the wire.
    pub open spec fn wire_code(self) -> i32 {
        match self {
            OperatePrivilegeType::Grant => 0,
            OperatePrivilegeType::Revoke => 1,
        }
    }

    pub fn code(&self) -> (r: i32)
        ensures
            r == self.wire_code(),
    {
        match self {
            OperatePrivilegeType::Grant => 0,
            OperatePrivilegeType::Revoke => 1,
        }
    }

    /// The value whose code is `code`, if there is one.
    pub fn from_i32(code: i32) -> (r: Option<OperatePrivilegeType>)
        ensures
            match r {
                Some(v) => v.wire_code() == code,
                None => forall|v: OperatePrivilegeType| #[trigger] v.wire_code() != code,
            },
    {
        match code {
            0 => Some(OperatePrivilegeType::Grant),
            1 => Some(OperatePrivilegeType::Revoke),
            _ => None,
        }
    }
}

/// Language of a search filter.
#[derive(Debug, Clone, Copy, PartialEq, Eq, Structural, Hash, PartialOrd, Ord)]
pub enum DslType {
    Dsl,
    BoolExprV1,
}

impl DslType {
    /// The numeric code of this value on the wire.
    pub open spec fn wire_code(self) -> i32 {
        match self {
            DslType::Dsl => 0,
            DslType::BoolExprV1 => 1,
        }
    }

    pub fn code(&self) -> (r: i32)
        ensures
            r == self.wire_code(),
    {
        match self {
            DslType::Dsl => 0,
            DslType::BoolExprV1 => 1,
        }
    }

    /// The value whose code is `code`, if there is one.
    pub fn from_i32(code: i32) -> (r: Option<DslType>)
        ensures
            match r {
                Some(v) => v.wire_code() == code,
                None => forall|v: DslType| #[trigger] v.wire_code() != code,
            },
    {
        match code {
            0 => Some(DslType::Dsl),
            1 => Some(DslType::BoolExprV1),
            _ => None,
        }
    }
}

impl Default for ConsistencyLevel {
    fn default() -> (r: ConsistencyLevel)
        ensures
            r == ConsistencyLevel::Session,
    {
        ConsistencyLevel::Session
    }
}

impl Default for FieldState {
    fn default() -> (r: FieldState)
        ensures
            r == FieldState::FieldCreated,
    {
        FieldState::FieldCreated
    }
}

impl Default for DataType {
    fn default() -> (r: DataType)
        ensures
            r == DataType::NoType,
    {
        DataType::NoType
    }
}

} // verus!
