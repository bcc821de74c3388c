//! Field and collection definitions, and the rule that a collection has
//! exactly one primary key.
use vstd::prelude::*;

use crate::common::{DataType, FieldState};
use crate::error::{Error, SchemaError};
use crate::text::{
    append_bool, append_decimal, bool_text, decimal_round_trip, decimal_text, decimal_value,
    parse_i64,
};

verus! {

/// Whether a field is automatically assigned its values by the service.
pub type AutoId = bool;

/// Whether a field is the collection's primary key.
pub type PrimaryKey = bool;

/// Largest number of characters that a `VarChar` value may hold.
pub type MaxLength = i32;

/// Number of elements of each vector in a vector field.
pub type Dimension = i64;

/// The type of a field, with the parameters that the type takes.
#[derive(Debug, Clone, Copy, PartialEq, Eq, Structural)]
pub enum FieldType {
    NoType,
    Bool,
    Int8,
    Int16,
    Int32,
    /// `AutoId` counts only where `PrimaryKey` is true.
    Int64(PrimaryKey, AutoId),
    Float,
    Double,
    String,
    /// `AutoId` counts only where `PrimaryKey` is true.
    VarChar(MaxLength, PrimaryKey, AutoId),
    BinaryVector(Dimension),
    FloatVector(Dimension),
}

impl FieldType {
    pub open spec fn spec_data_type(self) -> DataType {
        match self {
            FieldType::NoType => DataType::NoType,
            FieldType::Bool => DataType::Bool,
            FieldType::Int8 => DataType::Int8,
            FieldType::Int16 => DataType::Int16,
            FieldType::Int32 => DataType::Int32,
            FieldType::Int64(_, _) => DataType::Int64,
            FieldType::Float => DataType::Float,
            FieldType::Double => DataType::Double,
            FieldType::String => DataType::String,
            FieldType::VarChar(_, _, _) => DataType::VarChar,
            FieldType::BinaryVector(_) => DataType::BinaryVector,
            FieldType::FloatVector(_) => DataType::FloatVector,
        }
    }

    pub open spec fn spec_is_primary(self) -> bool {
        match self {
            FieldType::Int64(pk, _) => pk,
            FieldType::VarChar(_, pk, _) => pk,
            _ => false,
        }
    }

    /// An automatic id is only ever one of a primary key.
    pub open spec fn spec_auto_id(self) -> bool {
        match self {
            FieldType::Int64(pk, auto_id) => pk && auto_id,
            FieldType::VarChar(_, pk, auto_id) => pk && auto_id,
            _ => false,
        }
    }

    pub open spec fn spec_max_length(self) -> Option<i32> {
        match self {
            FieldType::VarChar(max_length, _, _) => Some(max_length),
            _ => None,
        }
    }

    pub open spec fn spec_dim(self) -> Option<i64> {
        match self {
            FieldType::BinaryVector(dim) => Some(dim),
            FieldType::FloatVector(dim) => Some(dim),
            _ => None,
        }
    }

    pub fn data_type(&self) -> (r: DataType)
        ensures
            r == self.spec_data_type(),
    {
        match self {
            FieldType::NoType => DataType::NoType,
            FieldType::Bool => DataType::Bool,
            FieldType::Int8 => DataType::Int8,
            FieldType::Int16 => DataType::Int16,
            FieldType::Int32 => DataType::Int32,
            FieldType::Int64(_, _) => DataType::Int64,
            FieldType::Float => DataType::Float,
            FieldType::Double => DataType::Double,
            FieldType::String => DataType::String,
            FieldType::VarChar(_, _, _) => DataType::VarChar,
            FieldType::BinaryVector(_) => DataType::BinaryVector,
            FieldType::FloatVector(_) => DataType::FloatVector,
        }
    }

    pub fn is_primary(&self) -> (r: bool)
        ensures
            r == self.spec_is_primary(),
    {
        match self {
            FieldType::Int64(pk, _) => *pk,
            FieldType::VarChar(_, pk, _) => *pk,
            _ => false,
        }
    }

    pub fn auto_id(&self) -> (r: bool)
        ensures
            r == self.spec_auto_id(),
    {
        match self {
            FieldType::Int64(pk, auto_id) => *pk && *auto_id,
            FieldType::VarChar(_, pk, auto_id) => *pk && *auto_id,
            _ => false,
        }
    }

    pub fn max_length(&self) -> (r: Option<i32>)
        ensures
            r == self.spec_max_length(),
    {
        match self {
            FieldType::VarChar(max_length, _, _) => Some(*max_length),
            _ => None,
        }
    }

    pub fn dim(&self) -> (r: Option<i64>)
        ensures
            r == self.spec_dim(),
    {
        match self {
            FieldType::BinaryVector(dim) => Some(*dim),
            FieldType::FloatVector(dim) => Some(*dim),
            _ => None,
        }
    }

    /// What is wrong with this type, if anything: an automatic id on a field
    /// that is not the primary key, a maximum length that is not positive, or
    /// a dimension that is not positive.
    pub open spec fn type_error(self) -> Option<SchemaError> {
        match self {
            FieldType::Int64(pk, auto_id) => if auto_id && !pk {
                Some(SchemaError::AutoIdWithoutPrimaryKey)
            } else {
                None
            },
            FieldType::VarChar(max_length, pk, auto_id) => if auto_id && !pk {
                Some(SchemaError::AutoIdWithoutPrimaryKey)
            } else if max_length <= 0 {
                Some(SchemaError::InvalidMaxLength(max_length))
            } else {
                None
            },
            FieldType::BinaryVector(dim) => if dim <= 0 {
                Some(SchemaError::InvalidDimension(dim))
            } else {
                None
            },
            FieldType::FloatVector(dim) => if dim <= 0 {
                Some(SchemaError::InvalidDimension(dim))
            } else {
                None
            },
            _ => None,
        }
    }

    /// Checks the type (see `type_error`).
    pub fn check(&self) -> (r: Result<(), SchemaError>)
        ensures
            match self.type_error() {
                Some(e) => r == Err::<(), SchemaError>(e),
                None => r is Ok,
            },
    {
        match self {
            FieldType::Int64(pk, auto_id) => if *auto_id && !*pk {
                Err(SchemaError::AutoIdWithoutPrimaryKey)
            } else {
                Ok(())
            },
            FieldType::VarChar(max_length, pk, auto_id) => if *auto_id && !*pk {
                Err(SchemaError::AutoIdWithoutPrimaryKey)
            } else if *max_length <= 0 {
                Err(SchemaError::InvalidMaxLength(*max_length))
            } else {
                Ok(())
            },
            FieldType::BinaryVector(dim) => if *dim <= 0 {
                Err(SchemaError::InvalidDimension(*dim))
            } else {
                Ok(())
            },
            FieldType::FloatVector(dim) => if *dim <= 0 {
                Err(SchemaError::InvalidDimension(*dim))
            } else {
                Ok(())
            },
            _ => Ok(()),
        }
    }

    /// The field type that a field's description gives: its type, key flags
    /// and parameters. Rejected, in this order, where the field is a primary
    /// key of a type other than `Int64` or `VarChar`, where it asks for an
    /// automatic id without being the primary key, and where the length of a
    /// `VarChar` or the dimension of a vector is not positive. The length
    /// and the dimension count only for the types that take them.
    pub fn from_parts(dtype: DataType, is_primary: bool, auto_id: bool, max_length: i32, dim: i64) -> (r:
        Result<FieldType, SchemaError>)
        ensures
            match r {
                Ok(t) => {
                    &&& t.spec_data_type() == dtype
                    &&& t.spec_is_primary() == is_primary
                    &&& t.spec_auto_id() == auto_id
                    &&& !(auto_id && !is_primary)
                    &&& (dtype == DataType::VarChar ==> max_length > 0 && t.spec_max_length() == Some(
                        max_length,
                    ))
                    &&& (dtype.is_vector() ==> dim > 0 && t.spec_dim() == Some(dim))
                    &&& t.type_error() is None
                },
                Err(e) => if is_primary && dtype != DataType::Int64 && dtype != DataType::VarChar {
                    e == SchemaError::UnsupportedPrimaryKey(dtype)
                } else if auto_id && !is_primary {
                    e == SchemaError::AutoIdWithoutPrimaryKey
                } else if dtype == DataType::VarChar && max_length <= 0 {
                    e == SchemaError::InvalidMaxLength(max_length)
                } else {
                    dtype.is_vector() && dim <= 0 && e == SchemaError::InvalidDimension(dim)
                },
            },
    {
        if is_primary && dtype != DataType::Int64 && dtype != DataType::VarChar {
            return Err(SchemaError::UnsupportedPrimaryKey(dtype));
        }
        if auto_id && !is_primary {
            return Err(SchemaError::AutoIdWithoutPrimaryKey);
        }
        let t = match dtype {
            DataType::NoType => FieldType::NoType,
            DataType::Bool => FieldType::Bool,
            DataType::Int8 => FieldType::Int8,
            DataType::Int16 => FieldType::Int16,
            DataType::Int32 => FieldType::Int32,
            DataType::Int64 => FieldType::Int64(is_primary, auto_id),
            DataType::Float => FieldType::Float,
            DataType::Double => FieldType::Double,
            DataType::String => FieldType::String,
            DataType::VarChar => FieldType::VarChar(max_length, is_primary, auto_id),
            DataType::BinaryVector => FieldType::BinaryVector(dim),
            DataType::FloatVector => FieldType::FloatVector(dim),
        };
        match t.check() {
            Ok(()) => Ok(t),
            Err(e) => Err(e),
        }
    }
}

/// Key under which a `VarChar` field's maximum length travels.
pub const MAX_LENGTH_KEY: &'static str = "max_length";

/// Key under which a vector field's dimension travels.
pub const DIM_KEY: &'static str = "dim";

/// The parameters of a field type as the wire carries them: key and decimal
/// text of the value.
pub open spec fn type_param_texts(t: FieldType) -> Seq<(Seq<char>, Seq<char>)> {
    match t {
        FieldType::VarChar(max_length, _, _) => seq![(MAX_LENGTH_KEY@, decimal_text(max_length as int))],
        FieldType::BinaryVector(dim) => seq![(DIM_KEY@, decimal_text(dim as int))],
        FieldType::FloatVector(dim) => seq![(DIM_KEY@, decimal_text(dim as int))],
        _ => seq![],
    }
}

/// The texts of a list of key-value pairs.
pub open spec fn pair_texts(params: Seq<(String, String)>) -> Seq<(Seq<char>, Seq<char>)> {
    params.map_values(|p: (String, String)| (p.0@, p.1@))
}

/// The text under `key` in `params`: that of the first pair with this key.
pub open spec fn param_text(params: Seq<(Seq<char>, Seq<char>)>, key: Seq<char>) -> Option<Seq<char>>
    decreases params.len(),
{
    if params.len() == 0 {
        None
    } else if params[0].0 == key {
        Some(params[0].1)
    } else {
        param_text(params.drop_first(), key)
    }
}

/// The maximum length that a parameter list gives: a positive `i32` in decimal.
pub open spec fn wire_max_length(params: Seq<(Seq<char>, Seq<char>)>) -> Option<i32> {
    match param_text(params, MAX_LENGTH_KEY@) {
        Some(t) => match decimal_value(t) {
            Some(v) => if 0 < v <= i32::MAX {
                Some(v as i32)
            } else {
                None
            },
            None => None,
        },
        None => None,
    }
}

/// The dimension that a parameter list gives: a positive `i64` in decimal.
pub open spec fn wire_dim(params: Seq<(Seq<char>, Seq<char>)>) -> Option<i64> {
    match param_text(params, DIM_KEY@) {
        Some(t) => match decimal_value(t) {
            Some(v) => if 0 < v <= i64::MAX {
                Some(v as i64)
            } else {
                None
            },
            None => None,
        },
        None => None,
    }
}

/// A field type's parameters, written to the wire and read back, give the
/// type's own maximum length and dimension wherever these are positive.
pub proof fn type_params_round_trip(t: FieldType)
    ensures
        forall|m: i32|
            t.spec_max_length() == Some(m) && m > 0 ==> wire_max_length(type_param_texts(t))
                == Some(m),
        forall|d: i64| t.spec_dim() == Some(d) && d > 0 ==> wire_dim(type_param_texts(t)) == Some(d),
{
    match t {
        FieldType::VarChar(m, _, _) => {
            decimal_round_trip(m as int);
            let p = type_param_texts(t);
            assert(param_text(p, MAX_LENGTH_KEY@) == Some(decimal_text(m as int)));
        },
        FieldType::BinaryVector(d) => {
            decimal_round_trip(d as int);
            let p = type_param_texts(t);
            assert(param_text(p, DIM_KEY@) == Some(decimal_text(d as int)));
        },
        FieldType::FloatVector(d) => {
            decimal_round_trip(d as int);
            let p = type_param_texts(t);
            assert(param_text(p, DIM_KEY@) == Some(decimal_text(d as int)));
        },
        _ => {},
    }
}

fn find_param<'a>(params: &'a Vec<(String, String)>, key: &str) -> (r: Option<&'a String>)
    ensures
        match r {
            Some(v) => param_text(pair_texts(params@), key@) == Some(v@),
            None => param_text(pair_texts(params@), key@) is None,
        },
{
    let wanted = String::from_str(key);
    let ghost all = pair_texts(params@);
    proof {
        assert(all.subrange(0, all.len() as int) =~= all);
    }
    let mut i: usize = 0;
    while i < params.len()
        invariant
            i <= params@.len(),
            all == pair_texts(params@),
            wanted@ == key@,
            param_text(all, key@) == param_text(all.subrange(i as int, all.len() as int), key@),
        decreases params@.len() - i,
    {
        let ghost rest = all.subrange(i as int, all.len() as int);
        proof {
            assert(rest[0] == (params@[i as int].0@, params@[i as int].1@));
            assert(rest.drop_first() =~= all.subrange(i + 1, all.len() as int));
        }
        let same = params[i].0 == wanted;
        if same {
            proof {
                assert(rest[0].0 == key@);
                assert(param_text(rest, key@) == Some(rest[0].1));
            }
            return Some(&params[i].1);
        }
        i = i + 1;
    }
    proof {
        assert(all.subrange(i as int, all.len() as int).len() == 0);
    }
    None
}

fn read_max_length(params: &Vec<(String, String)>) -> (r: Option<i32>)
    ensures
        r == wire_max_length(pair_texts(params@)),
{
    match find_param(params, MAX_LENGTH_KEY) {
        Some(t) => match parse_i64(t.as_str()) {
            Some(v) => if 0 < v && v <= i32::MAX as i64 {
                Some(v as i32)
            } else {
                None
            },
            None => None,
        },
        None => None,
    }
}

fn read_dim(params: &Vec<(String, String)>) -> (r: Option<i64>)
    ensures
        r == wire_dim(pair_texts(params@)),
{
    match find_param(params, DIM_KEY) {
        Some(t) => match parse_i64(t.as_str()) {
            Some(v) => if 0 < v {
                Some(v)
            } else {
                None
            },
            None => None,
        },
        None => None,
    }
}

fn param_pair(key: &str, value: i64) -> (r: (String, String))
    ensures
        r.0@ == key@,
        r.1@ == decimal_text(value as int),
{
    let mut text = String::new();
    append_decimal(&mut text, value);
    (String::from_str(key), text)
}

impl FieldType {
    /// The type's parameters as the wire carries them.
    pub fn type_params(&self) -> (r: Vec<(String, String)>)
        ensures
            pair_texts(r@) == type_param_texts(*self),
    {
        let r = match self {
            FieldType::VarChar(max_length, _, _) => vec![param_pair(MAX_LENGTH_KEY, *max_length as i64)],
            FieldType::BinaryVector(dim) => vec![param_pair(DIM_KEY, *dim)],
            FieldType::FloatVector(dim) => vec![param_pair(DIM_KEY, *dim)],
            _ => Vec::new(),
        };
        assert(pair_texts(r@) =~= type_param_texts(*self));
        r
    }
}

/// The text of an optional description: empty where there is none.
pub open spec fn description_text(description: Option<&str>) -> Seq<char> {
    match description {
        Some(d) => d@,
        None => Seq::empty(),
    }
}

fn description_string(description: Option<&str>) -> (r: String)
    ensures
        r@ == description_text(description),
{
    match description {
        Some(d) => String::from_str(d),
        None => String::new(),
    }
}

/// How a description spells a field type and its parameters.
pub open spec fn type_text(t: FieldType) -> Seq<char> {
    match t {
        FieldType::NoType => "dtype: None"@,
        FieldType::Bool => "dtype: Bool"@,
        FieldType::Int8 => "dtype: Int8"@,
        FieldType::Int16 => "dtype: Int16"@,
        FieldType::Int32 => "dtype: Int32"@,
        FieldType::Int64(pk, auto_id) => "dtype: Int64, is_primary: "@ + bool_text(pk)
            + ", auto_id: "@ + bool_text(auto_id),
        FieldType::Float => "dtype: Float"@,
        FieldType::Double => "dtype: Double"@,
        FieldType::String => "dtype: String"@,
        FieldType::VarChar(max_length, pk, auto_id) => "dtype: Varchar, max_length: "@
            + decimal_text(max_length as int) + ", is_primary: "@ + bool_text(pk)
            + ", auto_id: "@ + bool_text(auto_id),
        FieldType::BinaryVector(dim) => "dtype: BinaryVector, dimension: "@ + decimal_text(
            dim as int,
        ),
        FieldType::FloatVector(dim) => "dtype: FloatVector, dimension: "@ + decimal_text(
            dim as int,
        ),
    }
}

fn append_type_text(s: &mut String, t: FieldType)
    ensures
        final(s)@ == old(s)@ + type_text(t),
{
    match t {
        FieldType::NoType => s.append("dtype: None"),
        FieldType::Bool => s.append("dtype: Bool"),
        FieldType::Int8 => s.append("dtype: Int8"),
        FieldType::Int16 => s.append("dtype: Int16"),
        FieldType::Int32 => s.append("dtype: Int32"),
        FieldType::Int64(pk, auto_id) => {
            s.append("dtype: Int64, is_primary: ");
            append_bool(s, pk);
            s.append(", auto_id: ");
            append_bool(s, auto_id);
        },
        FieldType::Float => s.append("dtype: Float"),
        FieldType::Double => s.append("dtype: Double"),
        FieldType::String => s.append("dtype: String"),
        FieldType::VarChar(max_length, pk, auto_id) => {
            s.append("dtype: Varchar, max_length: ");
            append_decimal(s, max_length as i64);
            s.append(", is_primary: ");
            append_bool(s, pk);
            s.append(", auto_id: ");
            append_bool(s, auto_id);
        },
        FieldType::BinaryVector(dim) => {
            s.append("dtype: BinaryVector, dimension: ");
            append_decimal(s, dim);
        },
        FieldType::FloatVector(dim) => {
            s.append("dtype: FloatVector, dimension: ");
            append_decimal(s, dim);
        },
    }
    assert(s@ =~= old(s)@ + type_text(t));
}

/// One named, typed column of a collection.
#[derive(Debug)]
pub struct FieldSchema {
    field_id: i64,
    name: String,
    description: String,
    ty: FieldType,
    state: FieldState,
}

impl FieldSchema {
    pub closed spec fn spec_name(&self) -> Seq<char> {
        self.name@
    }

    pub closed spec fn spec_description(&self) -> Seq<char> {
        self.description@
    }

    pub closed spec fn spec_type(&self) -> FieldType {
        self.ty
    }

    pub closed spec fn spec_field_id(&self) -> i64 {
        self.field_id
    }

    pub closed spec fn spec_state(&self) -> FieldState {
        self.state
    }

    pub open spec fn spec_is_primary(&self) -> bool {
        self.spec_type().spec_is_primary()
    }

    /// A field named `name` of type `ty`, taken as given. A new field has id
    /// 0 until the service assigns one, and is in the created state. A type
    /// with a `type_error` is kept too: its automatic id without a primary key
    /// reads as none (see `spec_auto_id`), and a length or dimension that is
    /// not positive is refused when the field is read back from the wire. Use
    /// `try_new` to refuse such a type at once.
    pub fn new(name: &str, ty: FieldType, description: Option<&str>) -> (r: FieldSchema)
        ensures
            r.spec_name() == name@,
            r.spec_description() == description_text(description),
            r.spec_type() == ty,
            r.spec_field_id() == 0,
            r.spec_state() == FieldState::FieldCreated,
    {
        FieldSchema {
            field_id: 0,
            name: String::from_str(name),
            description: description_string(description),
            ty,
            state: FieldState::FieldCreated,
        }
    }

    /// A field named `name` of type `ty`, built only where the type has no
    /// `type_error`; otherwise that error.
    pub fn try_new(name: &str, ty: FieldType, description: Option<&str>) -> (r: Result<
        FieldSchema,
        SchemaError,
    >)
        ensures
            match r {
                Ok(f) => {
                    &&& ty.type_error() is None
                    &&& f.spec_name() == name@
                    &&& f.spec_description() == description_text(description)
                    &&& f.spec_type() == ty
                    &&& f.spec_field_id() == 0
                    &&& f.spec_state() == FieldState::FieldCreated
                },
                Err(e) => ty.type_error() == Some(e),
            },
    {
        match ty.check() {
            Ok(()) => Ok(FieldSchema::new(name, ty, description)),
            Err(e) => Err(e),
        }
    }

    /// A field read from a reply. Its type and state arrive as numeric codes,
    /// and a `VarChar` field's maximum length or a vector field's dimension as
    /// the decimal text of a type parameter. Rejected as malformed where a code
    /// names nothing or the parameter that the type needs is missing or not a
    /// positive number that fits; rejected as a schema error where the field
    /// is a primary key of a type that cannot be one, or asks for an automatic
    /// id without being the primary key.
    pub fn from_wire(
        field_id: i64,
        name: String,
        description: String,
        type_code: i32,
        is_primary: bool,
        auto_id: bool,
        type_params: &Vec<(String, String)>,
        state_code: i32,
    ) -> (r: Result<FieldSchema, Error>)
        ensures
            match r {
                Ok(f) => {
                    &&& f.spec_field_id() == field_id
                    &&& f.spec_name() == name@
                    &&& f.spec_description() == description@
                    &&& DataType::spec_from_i32(type_code) == Some(f.spec_type().spec_data_type())
                    &&& f.spec_state().wire_code() == state_code
                    &&& f.spec_type().spec_is_primary() == is_primary
                    &&& f.spec_type().spec_auto_id() == auto_id
                    &&& !(auto_id && !is_primary)
                    &&& f.spec_type().type_error() is None
                    &&& (f.spec_type().spec_data_type() == DataType::VarChar
                        ==> f.spec_type().spec_max_length() == wire_max_length(
                        pair_texts(type_params@),
                    ))
                    &&& (f.spec_type().spec_data_type().is_vector() ==> f.spec_type().spec_dim()
                        == wire_dim(pair_texts(type_params@)))
                },
                Err(Error::Schema(SchemaError::UnsupportedPrimaryKey(t))) => {
                    &&& DataType::spec_from_i32(type_code) == Some(t)
                    &&& !(forall|s: FieldState| #[trigger] s.wire_code() != state_code)
                    &&& is_primary
                    &&& t != DataType::Int64
                    &&& t != DataType::VarChar
                },
                Err(Error::Schema(SchemaError::AutoIdWithoutPrimaryKey)) => {
                    &&& DataType::spec_from_i32(type_code) matches Some(t) && !(is_primary && t
                        != DataType::Int64 && t != DataType::VarChar)
                    &&& !(forall|s: FieldState| #[trigger] s.wire_code() != state_code)
                    &&& auto_id
                    &&& !is_primary
                },
                Err(Error::MalformedResponse(_)) => match DataType::spec_from_i32(type_code) {
                    None => true,
                    Some(t) => {
                        ||| forall|s: FieldState| #[trigger] s.wire_code() != state_code
                        ||| {
                            &&& !(is_primary && t != DataType::Int64 && t != DataType::VarChar)
                            &&& !(auto_id && !is_primary)
                            &&& {
                                ||| t == DataType::VarChar && wire_max_length(
                                    pair_texts(type_params@),
                                ) is None
                                ||| t.is_vector() && wire_dim(pair_texts(type_params@)) is None
                            }
                        }
                    },
                },
                Err(_) => false,
            },
    {
        let dtype = match DataType::from_i32(type_code) {
            Some(t) => t,
            None => {
                return Err(Error::MalformedResponse(String::from_str("unknown data type tag")));
            },
        };
        let state = match FieldState::from_i32(state_code) {
            Some(s) => s,
            None => {
                return Err(Error::MalformedResponse(String::from_str("unknown field state")));
            },
        };
        if is_primary && dtype != DataType::Int64 && dtype != DataType::VarChar {
            return Err(Error::Schema(SchemaError::UnsupportedPrimaryKey(dtype)));
        }
        if auto_id && !is_primary {
            return Err(Error::Schema(SchemaError::AutoIdWithoutPrimaryKey));
        }
        let mut max_length: i32 = 0;
        if dtype == DataType::VarChar {
            match read_max_length(type_params) {
                Some(m) => {
                    max_length = m;
                },
                None => {
                    return Err(
                        Error::MalformedResponse(String::from_str("missing or invalid max_length")),
                    );
                },
            }
        }
        let mut dim: i64 = 0;
        if dtype.is_vector_type() {
            match read_dim(type_params) {
                Some(d) => {
                    dim = d;
                },
                None => {
                    return Err(Error::MalformedResponse(String::from_str("missing or invalid dim")));
                },
            }
        }
        match FieldType::from_parts(dtype, is_primary, auto_id, max_length, dim) {
            Ok(ty) => Ok(FieldSchema { field_id, name, description, ty, state }),
            Err(e) => Err(Error::Schema(e)),
        }
    }

    /// A one-line account of the field: its name, its description, its type
    /// and the type's parameters.
    pub open spec fn spec_describe(&self) -> Seq<char> {
        "name: "@ + self.spec_name() + ", description: "@ + self.spec_description() + ", "@
            + type_text(self.spec_type())
    }

    pub fn describe(&self) -> (r: String)
        ensures
            r@ == self.spec_describe(),
    {
        let mut s = String::from_str("name: ");
        s.append(self.name.as_str());
        s.append(", description: ");
        s.append(self.description.as_str());
        s.append(", ");
        append_type_text(&mut s, self.ty);
        assert(s@ =~= self.spec_describe());
        s
    }

    pub fn name(&self) -> (r: &str)
        ensures
            r@ == self.spec_name(),
    {
        self.name.as_str()
    }

    pub fn description(&self) -> (r: &str)
        ensures
            r@ == self.spec_description(),
    {
        self.description.as_str()
    }

    pub fn field_type(&self) -> (r: &FieldType)
        ensures
            *r == self.spec_type(),
    {
        &self.ty
    }

    pub fn field_id(&self) -> (r: i64)
        ensures
            r == self.spec_field_id(),
    {
        self.field_id
    }

    pub fn state(&self) -> (r: FieldState)
        ensures
            r == self.spec_state(),
    {
        self.state
    }

    pub fn data_type(&self) -> (r: DataType)
        ensures
            r == self.spec_type().spec_data_type(),
    {
        self.ty.data_type()
    }

    pub fn is_primary_key(&self) -> (r: bool)
        ensures
            r == self.spec_is_primary(),
    {
        self.ty.is_primary()
    }

    pub fn auto_id(&self) -> (r: bool)
        ensures
            r == self.spec_type().spec_auto_id(),
    {
        self.ty.auto_id()
    }
}

/// Positions, in order, of the primary-key fields among `fields`.
pub open spec fn primary_positions(fields: Seq<FieldSchema>) -> Seq<int>
    decreases fields.len(),
{
    if fields.len() == 0 {
        Seq::empty()
    } else {
        let rest = primary_positions(fields.drop_last());
        if fields.last().spec_is_primary() {
            rest.push(fields.len() - 1)
        } else {
            rest
        }
    }
}

/// Number of primary-key fields among `fields`.
pub open spec fn primary_key_count(fields: Seq<FieldSchema>) -> nat {
    primary_positions(fields).len()
}

proof fn lemma_primary_positions_bounds(fields: Seq<FieldSchema>)
    ensures
        forall|k: int|
            0 <= k < primary_positions(fields).len() ==> {
                let p = #[trigger] primary_positions(fields)[k];
                0 <= p < fields.len() && fields[p].spec_is_primary()
            },
    decreases fields.len(),
{
    if fields.len() > 0 {
        let init = fields.drop_last();
        lemma_primary_positions_bounds(init);
        assert forall|k: int| 0 <= k < primary_positions(init).len() implies {
            let p = #[trigger] primary_positions(init)[k];
            0 <= p < fields.len() && fields[p].spec_is_primary()
        } by {
            let p = primary_positions(init)[k];
            assert(init[p] == fields[p]);
        }
    }
}

impl Clone for FieldSchema {
    fn clone(&self) -> (r: FieldSchema)
        ensures
            r.spec_name() == self.spec_name(),
            r.spec_description() == self.spec_description(),
            r.spec_type() == self.spec_type(),
            r.spec_field_id() == self.spec_field_id(),
            r.spec_state() == self.spec_state(),
    {
        FieldSchema {
            field_id: self.field_id,
            name: self.name.clone(),
            description: self.description.clone(),
            ty: self.ty,
            state: self.state,
        }
    }
}

proof fn lemma_primary_positions_same(a: Seq<FieldSchema>, b: Seq<FieldSchema>)
    requires
        a.len() == b.len(),
        forall|i: int| 0 <= i < a.len() ==> #[trigger] a[i].spec_is_primary() == b[i].spec_is_primary(),
    ensures
        primary_positions(a) == primary_positions(b),
    decreases a.len(),
{
    if a.len() > 0 {
        let (ia, ib) = (a.drop_last(), b.drop_last());
        assert forall|i: int| 0 <= i < ia.len() implies #[trigger] ia[i].spec_is_primary()
            == ib[i].spec_is_primary() by {
            assert(ia[i] == a[i] && ib[i] == b[i]);
        }
        lemma_primary_positions_same(ia, ib);
        assert(a.last().spec_is_primary() == b.last().spec_is_primary());
    }
}

proof fn lemma_no_primary_positions(fields: Seq<FieldSchema>)
    requires
        forall|i: int| 0 <= i < fields.len() ==> !(#[trigger] fields[i].spec_is_primary()),
    ensures
        primary_positions(fields).len() == 0,
    decreases fields.len(),
{
    if fields.len() > 0 {
        let init = fields.drop_last();
        assert forall|i: int| 0 <= i < init.len() implies !(#[trigger] init[i].spec_is_primary()) by {
            assert(init[i] == fields[i]);
        }
        lemma_no_primary_positions(init);
        assert(!fields[fields.len() - 1].spec_is_primary());
    }
}

/// The `type_error` of the first field, in order, whose type has one.
pub open spec fn first_type_error(fields: Seq<FieldSchema>) -> Option<SchemaError>
    decreases fields.len(),
{
    if fields.len() == 0 {
        None
    } else {
        match fields[0].spec_type().type_error() {
            Some(e) => Some(e),
            None => first_type_error(fields.drop_first()),
        }
    }
}

proof fn lemma_first_type_error_kind(fields: Seq<FieldSchema>)
    ensures
        first_type_error(fields) matches Some(e) ==> !(e is NoPrimaryKey) && !(
        e is DuplicatePrimaryKey),
    decreases fields.len(),
{
    if fields.len() > 0 {
        lemma_first_type_error_kind(fields.drop_first());
    }
}

fn first_field_error(fields: &Vec<FieldSchema>) -> (r: Option<SchemaError>)
    ensures
        r == first_type_error(fields@),
{
    proof {
        assert(fields@.subrange(0, fields@.len() as int) =~= fields@);
    }
    let mut i: usize = 0;
    while i < fields.len()
        invariant
            i <= fields@.len(),
            first_type_error(fields@) == first_type_error(
                fields@.subrange(i as int, fields@.len() as int),
            ),
        decreases fields@.len() - i,
    {
        let ghost rest = fields@.subrange(i as int, fields@.len() as int);
        proof {
            assert(rest[0] == fields@[i as int]);
            assert(rest.drop_first() =~= fields@.subrange(i + 1, fields@.len() as int));
        }
        match fields[i].field_type().check() {
            Err(e) => {
                return Some(e);
            },
            Ok(()) => {},
        }
        i = i + 1;
    }
    proof {
        assert(fields@.subrange(i as int, fields@.len() as int).len() == 0);
    }
    None
}

/// A named, ordered set of fields, of which exactly one is the primary key.
#[derive(Debug)]
pub struct CollectionSchema {
    name: String,
    description: String,
    fields: Vec<FieldSchema>,
}

impl CollectionSchema {
    /// Exactly one field is the primary key, for the schema's whole life.
    #[verifier::type_invariant]
    closed spec fn one_primary_key(&self) -> bool {
        primary_key_count(self.fields@) == 1
    }

    pub closed spec fn spec_name(&self) -> Seq<char> {
        self.name@
    }

    pub closed spec fn spec_description(&self) -> Seq<char> {
        self.description@
    }

    pub closed spec fn spec_fields(&self) -> Seq<FieldSchema> {
        self.fields@
    }

    /// A schema named `name` of `fields`, in that order. It is built only
    /// where exactly one field is the primary key; else the error names the
    /// fault: no key at all, or the first two fields that claim it, in field
    /// order. With one key, the schema is still refused where a field's type
    /// has a `type_error`: the error of the first such field is returned.
    /// Field names are not checked for uniqueness, so two key fields that
    /// share a name are reported by that name twice.
    pub fn new(name: &str, fields: Vec<FieldSchema>, description: Option<&str>) -> (r: Result<
        CollectionSchema,
        SchemaError,
    >)
        ensures
            match r {
                Ok(s) => {
                    &&& primary_key_count(fields@) == 1
                    &&& first_type_error(fields@) is None
                    &&& s.spec_name() == name@
                    &&& s.spec_fields() == fields@
                    &&& s.spec_description() == description_text(description)
                },
                Err(SchemaError::NoPrimaryKey) => primary_key_count(fields@) == 0,
                Err(SchemaError::DuplicatePrimaryKey(first, second)) => {
                    let p = primary_positions(fields@);
                    &&& p.len() >= 2
                    &&& first@ == fields@[p[0]].spec_name()
                    &&& second@ == fields@[p[1]].spec_name()
                },
                Err(e) => primary_key_count(fields@) == 1 && first_type_error(fields@) == Some(e),
            },
    {
        let mut first: Option<usize> = None;
        let mut second: Option<usize> = None;
        let mut i: usize = 0;
        while i < fields.len()
            invariant
                i <= fields.len(),
                ({
                    let p = primary_positions(fields@.subrange(0, i as int));
                    &&& first == (if p.len() >= 1 {
                        Some(p[0] as usize)
                    } else {
                        None
                    })
                    &&& second == (if p.len() >= 2 {
                        Some(p[1] as usize)
                    } else {
                        None
                    })
                }),
            decreases fields.len() - i,
        {
            proof {
                let next = fields@.subrange(0, i + 1);
                assert(next.drop_last() =~= fields@.subrange(0, i as int));
                lemma_primary_positions_bounds(fields@.subrange(0, i as int));
            }
            if fields[i].is_primary_key() {
                if first.is_none() {
                    first = Some(i);
                } else if second.is_none() {
                    second = Some(i);
                }
            }
            i = i + 1;
        }
        proof {
            assert(fields@.subrange(0, fields@.len() as int) =~= fields@);
            lemma_primary_positions_bounds(fields@);
        }
        match (first, second) {
            (None, _) => Err(SchemaError::NoPrimaryKey),
            (Some(a), Some(b)) => Err(
                SchemaError::DuplicatePrimaryKey(
                    String::from_str(fields[a].name()),
                    String::from_str(fields[b].name()),
                ),
            ),
            (Some(_), None) => match first_field_error(&fields) {
                Some(e) => {
                    proof {
                        lemma_first_type_error_kind(fields@);
                    }
                    Err(e)
                },
                None => Ok(
                    CollectionSchema {
                        name: String::from_str(name),
                        description: description_string(description),
                        fields,
                    },
                ),
            },
        }
    }

    pub fn name(&self) -> (r: &str)
        ensures
            r@ == self.spec_name(),
    {
        self.name.as_str()
    }

    pub fn fields(&self) -> (r: &[FieldSchema])
        ensures
            r@ == self.spec_fields(),
    {
        self.fields.as_slice()
    }

    pub fn description(&self) -> (r: &str)
        ensures
            r@ == self.spec_description(),
    {
        self.description.as_str()
    }

    /// The field that is the primary key.
    pub fn primary_field(&self) -> (r: &FieldSchema)
        ensures
            r.spec_is_primary(),
            exists|i: int| 0 <= i < self.spec_fields().len() && *r == #[trigger] self.spec_fields()[i],
    {
        proof {
            use_type_invariant(self);
        }
        let mut i: usize = 0;
        while i < self.fields.len()
            invariant
                i <= self.fields@.len(),
                primary_key_count(self.fields@) == 1,
                forall|j: int| 0 <= j < i ==> !(#[trigger] self.fields@[j].spec_is_primary()),
            decreases self.fields@.len() - i,
        {
            if self.fields[i].is_primary_key() {
                proof {
                    assert(self.fields[i as int] == self.spec_fields()[i as int]);
                }
                return &self.fields[i];
            }
            i = i + 1;
        }
        proof {
            lemma_no_primary_positions(self.fields@);
        }
        &self.fields[0]
    }

    /// Whether the service assigns the primary key's values.
    pub fn auto_id(&self) -> (r: bool)
        ensures
            r == exists|i: int|
                0 <= i < self.spec_fields().len() && #[trigger] self.spec_fields()[i].spec_type().spec_auto_id(),
    {
        let mut i: usize = 0;
        while i < self.fields.len()
            invariant
                i <= self.fields@.len(),
                forall|j: int| 0 <= j < i ==> !#[trigger] self.fields@[j].spec_type().spec_auto_id(),
            decreases self.fields@.len() - i,
        {
            if self.fields[i].auto_id() {
                return true;
            }
            i = i + 1;
        }
        false
    }
}

impl Clone for CollectionSchema {
    fn clone(&self) -> (r: CollectionSchema)
        ensures
            r.spec_name() == self.spec_name(),
            r.spec_description() == self.spec_description(),
            r.spec_fields().len() == self.spec_fields().len(),
            forall|i: int|
                0 <= i < r.spec_fields().len() ==> {
                    &&& (#[trigger] r.spec_fields()[i]).spec_name() == self.spec_fields()[i].spec_name()
                    &&& r.spec_fields()[i].spec_description()
                        == self.spec_fields()[i].spec_description()
                    &&& r.spec_fields()[i].spec_type() == self.spec_fields()[i].spec_type()
                    &&& r.spec_fields()[i].spec_field_id() == self.spec_fields()[i].spec_field_id()
                    &&& r.spec_fields()[i].spec_state() == self.spec_fields()[i].spec_state()
                },
    {
        proof {
            use_type_invariant(self);
        }
        let mut fields: Vec<FieldSchema> = Vec::new();
        let mut i: usize = 0;
        while i < self.fields.len()
            invariant
                i <= self.fields@.len(),
                fields@.len() == i,
                forall|j: int|
                    0 <= j < i ==> {
                        &&& (#[trigger] fields@[j]).spec_name() == self.fields@[j].spec_name()
                        &&& fields@[j].spec_description() == self.fields@[j].spec_description()
                        &&& fields@[j].spec_type() == self.fields@[j].spec_type()
                        &&& fields@[j].spec_field_id() == self.fields@[j].spec_field_id()
                        &&& fields@[j].spec_state() == self.fields@[j].spec_state()
                    },
            decreases self.fields@.len() - i,
        {
            fields.push(self.fields[i].clone());
            i = i + 1;
        }
        proof {
            lemma_primary_positions_same(self.fields@, fields@);
        }
        CollectionSchema {
            name: self.name.clone(),
            description: self.description.clone(),
            fields,
        }
    }
}

} // verus!
