//! Homogeneous column payloads: scalar arrays of one primitive type and
//! flat buffers of fixed-dimension vectors, with their row counts and tags.
//!
//! Floating-point elements are held as their IEEE-754 bit patterns, which
//! carries every value, NaN payloads included, through unchanged.
use vstd::arithmetic::div_mod::{lemma_fundamental_div_mod, lemma_fundamental_div_mod_converse_div};
use vstd::prelude::*;
use vstd::std_specs::convert::FromSpec;

use crate::common::DataType;
use crate::error::Error;

verus! {

/// One scalar array; exactly one element type at a time.
#[derive(Debug, Clone, PartialEq)]
pub enum ScalarFieldData {
    BoolData(Vec<bool>),
    IntData(Vec<i32>),
    LongData(Vec<i64>),
    /// Single-precision values, as the bit patterns of `f32::to_bits`.
    FloatData(Vec<u32>),
    /// Double-precision values, as the bit patterns of `f64::to_bits`.
    DoubleData(Vec<u64>),
    StringData(Vec<String>),
    BytesData(Vec<Vec<u8>>),
}

impl ScalarFieldData {
    /// Number of elements of the array.
    pub open spec fn spec_len(&self) -> nat {
        match self {
            ScalarFieldData::BoolData(v) => v@.len(),
            ScalarFieldData::IntData(v) => v@.len(),
            ScalarFieldData::LongData(v) => v@.len(),
            ScalarFieldData::FloatData(v) => v@.len(),
            ScalarFieldData::DoubleData(v) => v@.len(),
            ScalarFieldData::StringData(v) => v@.len(),
            ScalarFieldData::BytesData(v) => v@.len(),
        }
    }

    /// The tag of the element type. Byte strings share the tag of binary
    /// vectors, as the protocol has no tag of their own.
    pub open spec fn spec_dtype(&self) -> DataType {
        match self {
            ScalarFieldData::BoolData(_) => DataType::Bool,
            ScalarFieldData::IntData(_) => DataType::Int32,
            ScalarFieldData::LongData(_) => DataType::Int64,
            ScalarFieldData::FloatData(_) => DataType::Float,
            ScalarFieldData::DoubleData(_) => DataType::Double,
            ScalarFieldData::StringData(_) => DataType::String,
            ScalarFieldData::BytesData(_) => DataType::BinaryVector,
        }
    }

    /// A string array of copies of `data`, in order.
    pub fn from_strs(data: &[&str]) -> (r: ScalarFieldData)
        ensures
            r matches ScalarFieldData::StringData(v) && v@.len() == data@.len() && forall|i: int|
                0 <= i < v@.len() ==> #[trigger] v@[i]@ == data@[i]@,
    {
        let mut v: Vec<String> = Vec::new();
        let mut i: usize = 0;
        while i < data.len()
            invariant
                i <= data@.len(),
                v@.len() == i,
                forall|j: int| 0 <= j < i ==> #[trigger] v@[j]@ == data@[j]@,
            decreases data@.len() - i,
        {
            v.push(String::from_str(data[i]));
            i = i + 1;
        }
        ScalarFieldData::StringData(v)
    }

    pub fn len(&self) -> (r: usize)
        ensures
            r == self.spec_len(),
    {
        match self {
            ScalarFieldData::BoolData(v) => v.len(),
            ScalarFieldData::IntData(v) => v.len(),
            ScalarFieldData::LongData(v) => v.len(),
            ScalarFieldData::FloatData(v) => v.len(),
            ScalarFieldData::DoubleData(v) => v.len(),
            ScalarFieldData::StringData(v) => v.len(),
            ScalarFieldData::BytesData(v) => v.len(),
        }
    }

    pub fn dtype(&self) -> (r: DataType)
        ensures
            r == self.spec_dtype(),
    {
        match self {
            ScalarFieldData::BoolData(_) => DataType::Bool,
            ScalarFieldData::IntData(_) => DataType::Int32,
            ScalarFieldData::LongData(_) => DataType::Int64,
            ScalarFieldData::FloatData(_) => DataType::Float,
            ScalarFieldData::DoubleData(_) => DataType::Double,
            ScalarFieldData::StringData(_) => DataType::String,
            ScalarFieldData::BytesData(_) => DataType::BinaryVector,
        }
    }
}

impl From<Vec<bool>> for ScalarFieldData {
    fn from(data: Vec<bool>) -> (r: ScalarFieldData)
        ensures
            r == ScalarFieldData::BoolData(data),
    {
        ScalarFieldData::BoolData(data)
    }
}

impl vstd::std_specs::convert::FromSpecImpl<Vec<bool>> for ScalarFieldData {
    open spec fn obeys_from_spec() -> bool {
        true
    }

    open spec fn from_spec(data: Vec<bool>) -> ScalarFieldData {
        ScalarFieldData::BoolData(data)
    }
}

impl From<Vec<i32>> for ScalarFieldData {
    fn from(data: Vec<i32>) -> (r: ScalarFieldData)
        ensures
            r == ScalarFieldData::IntData(data),
    {
        ScalarFieldData::IntData(data)
    }
}

impl vstd::std_specs::convert::FromSpecImpl<Vec<i32>> for ScalarFieldData {
    open spec fn obeys_from_spec() -> bool {
        true
    }

    open spec fn from_spec(data: Vec<i32>) -> ScalarFieldData {
        ScalarFieldData::IntData(data)
    }
}

impl From<Vec<i64>> for ScalarFieldData {
    fn from(data: Vec<i64>) -> (r: ScalarFieldData)
        ensures
            r == ScalarFieldData::LongData(data),
    {
        ScalarFieldData::LongData(data)
    }
}

impl vstd::std_specs::convert::FromSpecImpl<Vec<i64>> for ScalarFieldData {
    open spec fn obeys_from_spec() -> bool {
        true
    }

    open spec fn from_spec(data: Vec<i64>) -> ScalarFieldData {
        ScalarFieldData::LongData(data)
    }
}

impl From<Vec<String>> for ScalarFieldData {
    fn from(data: Vec<String>) -> (r: ScalarFieldData)
        ensures
            r == ScalarFieldData::StringData(data),
    {
        ScalarFieldData::StringData(data)
    }
}

impl vstd::std_specs::convert::FromSpecImpl<Vec<String>> for ScalarFieldData {
    open spec fn obeys_from_spec() -> bool {
        true
    }

    open spec fn from_spec(data: Vec<String>) -> ScalarFieldData {
        ScalarFieldData::StringData(data)
    }
}

impl From<Vec<Vec<u8>>> for ScalarFieldData {
    fn from(data: Vec<Vec<u8>>) -> (r: ScalarFieldData)
        ensures
            r == ScalarFieldData::BytesData(data),
    {
        ScalarFieldData::BytesData(data)
    }
}

impl vstd::std_specs::convert::FromSpecImpl<Vec<Vec<u8>>> for ScalarFieldData {
    open spec fn obeys_from_spec() -> bool {
        true
    }

    open spec fn from_spec(data: Vec<Vec<u8>>) -> ScalarFieldData {
        ScalarFieldData::BytesData(data)
    }
}

/// A native array put into a column comes back out of it unchanged, for
/// every element type: the column holds that very array, counts one row per
/// element, and carries the tag of the element type.
pub proof fn column_round_trip(
    bools: Vec<bool>,
    ints: Vec<i32>,
    longs: Vec<i64>,
    floats: Vec<u32>,
    doubles: Vec<u64>,
    strings: Vec<String>,
    bytes: Vec<Vec<u8>>,
    dim: i64,
    binary: Vec<u8>,
)
    ensures
        ({
            let c = ScalarField { data: Some(ScalarFieldData::from_spec(bools)) };
            c.data == Some(ScalarFieldData::BoolData(bools)) && c.spec_num_rows() == bools@.len()
                && c.spec_dtype() == DataType::Bool
        }),
        ({
            let c = ScalarField { data: Some(ScalarFieldData::from_spec(ints)) };
            c.data == Some(ScalarFieldData::IntData(ints)) && c.spec_num_rows() == ints@.len()
                && c.spec_dtype() == DataType::Int32
        }),
        ({
            let c = ScalarField { data: Some(ScalarFieldData::from_spec(longs)) };
            c.data == Some(ScalarFieldData::LongData(longs)) && c.spec_num_rows() == longs@.len()
                && c.spec_dtype() == DataType::Int64
        }),
        ({
            let c = ScalarField { data: Some(ScalarFieldData::FloatData(floats)) };
            c.spec_num_rows() == floats@.len() && c.spec_dtype() == DataType::Float
        }),
        ({
            let c = ScalarField { data: Some(ScalarFieldData::DoubleData(doubles)) };
            c.spec_num_rows() == doubles@.len() && c.spec_dtype() == DataType::Double
        }),
        ({
            let c = ScalarField { data: Some(ScalarFieldData::from_spec(strings)) };
            c.data == Some(ScalarFieldData::StringData(strings)) && c.spec_num_rows()
                == strings@.len() && c.spec_dtype() == DataType::String
        }),
        ({
            let c = ScalarField { data: Some(ScalarFieldData::from_spec(bytes)) };
            c.data == Some(ScalarFieldData::BytesData(bytes)) && c.spec_num_rows() == bytes@.len()
                && c.spec_dtype() == DataType::BinaryVector
        }),
        ({
            let c = VectorField { dim, data: Some(VectorFieldData::from_spec(binary)) };
            c.data == Some(VectorFieldData::BinaryVec(binary)) && c.dim == dim && c.spec_dtype()
                == DataType::BinaryVector
        }),
        ({
            let c = VectorField { dim, data: Some(VectorFieldData::FloatVec(floats)) };
            c.dim == dim && c.spec_dtype() == DataType::FloatVector
        }),
{
}

/// A scalar column; it may carry no array at all.
#[derive(Debug, Clone)]
pub struct ScalarField {
    pub data: Option<ScalarFieldData>,
}

impl ScalarField {
    /// Number of rows: the array's length, or 0 without one.
    pub open spec fn spec_num_rows(&self) -> nat {
        match self.data {
            Some(d) => d.spec_len(),
            None => 0,
        }
    }

    /// The element type's tag, or `NoType` without an array.
    pub open spec fn spec_dtype(&self) -> DataType {
        match self.data {
            Some(d) => d.spec_dtype(),
            None => DataType::NoType,
        }
    }

    pub fn new(data: ScalarFieldData) -> (r: ScalarField)
        ensures
            r.data == Some(data),
    {
        ScalarField { data: Some(data) }
    }

    pub fn num_rows(&self) -> (r: u32)
        requires
            self.spec_num_rows() <= u32::MAX,
        ensures
            r == self.spec_num_rows(),
    {
        match &self.data {
            Some(d) => d.len() as u32,
            None => 0,
        }
    }

    pub fn dtype(&self) -> (r: DataType)
        ensures
            r == self.spec_dtype(),
    {
        match &self.data {
            Some(d) => d.dtype(),
            None => DataType::NoType,
        }
    }
}

/// A flat buffer of vectors, laid end to end.
#[derive(Debug, Clone, PartialEq)]
pub enum VectorFieldData {
    BinaryVec(Vec<u8>),
    /// Single-precision elements, as the bit patterns of `f32::to_bits`.
    FloatVec(Vec<u32>),
}

impl VectorFieldData {
    /// Number of elements of the buffer.
    pub open spec fn spec_len(&self) -> nat {
        match self {
            VectorFieldData::BinaryVec(v) => v@.len(),
            VectorFieldData::FloatVec(v) => v@.len(),
        }
    }

    pub open spec fn spec_dtype(&self) -> DataType {
        match self {
            VectorFieldData::BinaryVec(_) => DataType::BinaryVector,
            VectorFieldData::FloatVec(_) => DataType::FloatVector,
        }
    }

    pub fn len(&self) -> (r: usize)
        ensures
            r == self.spec_len(),
    {
        match self {
            VectorFieldData::BinaryVec(v) => v.len(),
            VectorFieldData::FloatVec(v) => v.len(),
        }
    }

    pub fn dtype(&self) -> (r: DataType)
        ensures
            r == self.spec_dtype(),
    {
        match self {
            VectorFieldData::BinaryVec(_) => DataType::BinaryVector,
            VectorFieldData::FloatVec(_) => DataType::FloatVector,
        }
    }
}

impl From<Vec<u8>> for VectorFieldData {
    fn from(data: Vec<u8>) -> (r: VectorFieldData)
        ensures
            r == VectorFieldData::BinaryVec(data),
    {
        VectorFieldData::BinaryVec(data)
    }
}

impl vstd::std_specs::convert::FromSpecImpl<Vec<u8>> for VectorFieldData {
    open spec fn obeys_from_spec() -> bool {
        true
    }

    open spec fn from_spec(data: Vec<u8>) -> VectorFieldData {
        VectorFieldData::BinaryVec(data)
    }
}

/// `len / dim`, rounded up.
pub open spec fn ceil_div(len: int, dim: int) -> int {
    (len + dim - 1) / dim
}

proof fn lemma_ceil_div(len: int, dim: int)
    requires
        len >= 0,
        dim > 0,
    ensures
        ceil_div(len, dim) == len / dim + (if len % dim == 0 {
            0int
        } else {
            1int
        }),
        ceil_div(len, dim) <= len,
        ceil_div(len, dim) >= 0,
{
    let q = len / dim;
    let r = len % dim;
    lemma_fundamental_div_mod(len, dim);
    assert(len == dim * q + r);
    assert(q * dim == dim * q) by (nonlinear_arith);
    if r == 0 {
        lemma_fundamental_div_mod_converse_div(len + dim - 1, dim, q, dim - 1);
    } else {
        assert(len + dim - 1 == (q + 1) * dim + (r - 1)) by (nonlinear_arith)
            requires
                len == dim * q + r,
        ;
        lemma_fundamental_div_mod_converse_div(len + dim - 1, dim, q + 1, r - 1);
    }
    assert(q <= len) by (nonlinear_arith)
        requires
            len == dim * q + r,
            0 <= r,
            dim > 0,
            len >= 0,
    ;
    assert(q >= 0) by (nonlinear_arith)
        requires
            len == dim * q + r,
            0 <= r < dim,
            len >= 0,
    ;
    if r != 0 {
        assert(q < len) by (nonlinear_arith)
            requires
                len == dim * q + r,
                0 < r,
                dim > 0,
                q >= 0,
        ;
    }
}

/// A vector column: a buffer of vectors of `dim` elements each.
#[derive(Debug, Clone)]
pub struct VectorField {
    pub dim: i64,
    pub data: Option<VectorFieldData>,
}

impl VectorField {
    /// Number of rows: the buffer's length divided by the dimension, rounded
    /// up, so that a partial last vector counts as a row; 0 without a buffer.
    pub open spec fn spec_num_rows(&self) -> int {
        match self.data {
            Some(d) => ceil_div(d.spec_len() as int, self.dim as int),
            None => 0,
        }
    }

    /// Whether the row count is defined and fits in a `u32`.
    pub open spec fn rows_countable(&self) -> bool {
        self.data is Some ==> self.dim > 0 && self.spec_num_rows() <= u32::MAX
    }

    pub open spec fn spec_dtype(&self) -> DataType {
        match self.data {
            Some(d) => d.spec_dtype(),
            None => DataType::NoType,
        }
    }

    /// Whether the dimension is positive and the buffer holds whole vectors.
    pub open spec fn spec_is_well_formed(&self) -> bool {
        &&& self.dim > 0
        &&& match self.data {
            Some(d) => (d.spec_len() as int) % (self.dim as int) == 0,
            None => true,
        }
    }

    pub fn new(dim: i64, data: VectorFieldData) -> (r: VectorField)
        ensures
            r.dim == dim,
            r.data == Some(data),
    {
        VectorField { dim, data: Some(data) }
    }

    /// A vector column read from a reply: rejected unless the dimension is
    /// positive and the buffer holds whole vectors.
    pub fn from_wire(dim: i64, data: Option<VectorFieldData>) -> (r: Result<VectorField, Error>)
        ensures
            match r {
                Ok(f) => f.dim == dim && f.data == data && f.spec_is_well_formed(),
                Err(e) => e is MalformedResponse && !(VectorField { dim, data }).spec_is_well_formed(),
            },
    {
        let f = VectorField { dim, data };
        if f.is_well_formed() {
            Ok(f)
        } else {
            Err(Error::MalformedResponse(String::from_str("vector buffer does not hold whole vectors")))
        }
    }

    pub fn is_well_formed(&self) -> (r: bool)
        ensures
            r == self.spec_is_well_formed(),
    {
        if self.dim <= 0 {
            return false;
        }
        match &self.data {
            Some(d) => (d.len() as u64) % (self.dim as u64) == 0,
            None => true,
        }
    }

    pub fn num_rows(&self) -> (r: u32)
        requires
            self.rows_countable(),
        ensures
            r == self.spec_num_rows(),
    {
        match &self.data {
            Some(d) => {
                let len = d.len() as u64;
                let dim = self.dim as u64;
                proof {
                    lemma_ceil_div(len as int, dim as int);
                }
                let c = len / dim;
                if len % dim == 0 {
                    c as u32
                } else {
                    (c + 1) as u32
                }
            },
            None => 0,
        }
    }

    pub fn dtype(&self) -> (r: DataType)
        ensures
            r == self.spec_dtype(),
    {
        match &self.data {
            Some(d) => d.dtype(),
            None => DataType::NoType,
        }
    }
}

/// The payload of one column: scalars or vectors.
#[derive(Debug, Clone)]
pub enum Field {
    Scalars(ScalarField),
    Vectors(VectorField),
}

impl Field {
    pub open spec fn spec_num_rows(&self) -> int {
        match self {
            Field::Scalars(s) => s.spec_num_rows() as int,
            Field::Vectors(v) => v.spec_num_rows(),
        }
    }

    pub open spec fn rows_countable(&self) -> bool {
        match self {
            Field::Scalars(s) => s.spec_num_rows() <= u32::MAX,
            Field::Vectors(v) => v.rows_countable(),
        }
    }

    pub open spec fn spec_dtype(&self) -> DataType {
        match self {
            Field::Scalars(s) => s.spec_dtype(),
            Field::Vectors(v) => v.spec_dtype(),
        }
    }

    pub fn num_rows(&self) -> (r: u32)
        requires
            self.rows_countable(),
        ensures
            r == self.spec_num_rows(),
    {
        match self {
            Field::Scalars(s) => s.num_rows(),
            Field::Vectors(v) => v.num_rows(),
        }
    }

    pub fn dtype(&self) -> (r: DataType)
        ensures
            r == self.spec_dtype(),
    {
        match self {
            Field::Scalars(s) => s.dtype(),
            Field::Vectors(v) => v.dtype(),
        }
    }
}

/// A named column: its declared type, its field's id and its payload.
#[derive(Debug, Clone)]
pub struct FieldData {
    pub data_type: DataType,
    pub field_name: String,
    pub field_id: i64,
    pub field: Option<Field>,
}

impl FieldData {
    pub open spec fn spec_num_rows(&self) -> int {
        match self.field {
            Some(f) => f.spec_num_rows(),
            None => 0,
        }
    }

    pub open spec fn rows_countable(&self) -> bool {
        match self.field {
            Some(f) => f.rows_countable(),
            None => true,
        }
    }

    /// A column named `name`, declared of type `dtype`. Its field id is 0
    /// until the service assigns one.
    pub fn new(name: &str, dtype: DataType, field: Option<Field>) -> (r: FieldData)
        ensures
            r.field_name@ == name@,
            r.data_type == dtype,
            r.field_id == 0,
            r.field == field,
    {
        FieldData { data_type: dtype, field_name: String::from_str(name), field_id: 0, field }
    }

    /// A column read from a reply, whose type arrives as its numeric tag:
    /// rejected where the tag names no type.
    pub fn from_wire(type_code: i32, field_name: String, field_id: i64, field: Option<Field>) -> (r:
        Result<FieldData, Error>)
        ensures
            match r {
                Ok(d) => {
                    &&& d.data_type.type_code() == type_code
                    &&& d.field_name == field_name
                    &&& d.field_id == field_id
                    &&& d.field == field
                },
                Err(e) => {
                    &&& e is MalformedResponse
                    &&& DataType::spec_from_i32(type_code) is None
                    &&& forall|t: DataType| #[trigger] t.type_code() != type_code
                },
            },
    {
        match DataType::from_i32(type_code) {
            Some(data_type) => Ok(FieldData { data_type, field_name, field_id, field }),
            None => Err(Error::MalformedResponse(String::from_str("unknown data type tag"))),
        }
    }

    pub fn num_rows(&self) -> (r: u32)
        requires
            self.rows_countable(),
        ensures
            r == self.spec_num_rows(),
    {
        match &self.field {
            Some(f) => f.num_rows(),
            None => 0,
        }
    }

    pub fn dtype(&self) -> (r: DataType)
        ensures
            r == self.data_type,
    {
        self.data_type
    }
}

} // verus!
