//! Property maps: named, typed attribute tables of the graph, its vertices or its edges.
use vstd::prelude::*;
use byteorder::{ByteOrder, LittleEndian};
use crate::bytes::{
    le_signed, le_value, read_many, read_u64, read_u8, read_matches, reads_like,
    take_bytes, take_many, take_u64, take_u8, el_list, el_u64, read_list,
};
use crate::error::DecodeError;

verus! {

/// What a property is attached to; this fixes how many values it holds.
#[derive(Debug, Clone, Copy, PartialEq, Eq, Structural)]
pub enum PropertyMapType {
    Graph,
    Vertex,
    Edge,
}

/// The kind of value a property holds.
#[derive(Debug, Clone, Copy, PartialEq, Eq, Structural)]
pub enum PropertyType {
    Bool,
    Int16,
    Int32,
    Int64,
    Double,
    LongDouble,
    String,
    VectorBool,
    VectorInt16,
    VectorInt32,
    VectorInt64,
    VectorDouble,
    VectorLongDouble,
    VectorString,
    PyObject,
}

/// The values of one property, one entry per graph, vertex or edge.
///
/// A bool is kept as its byte (0 or 1). A double is kept as the 64 bits of its
/// IEEE-754 encoding; a long double as the 128-bit unsigned integer it is stored as,
/// which a caller widens to a float.
#[derive(Debug, Clone)]
pub enum PropertyData {
    Bool(Vec<u8>),
    Int16(Vec<i16>),
    Int32(Vec<i32>),
    Int64(Vec<i64>),
    Double(Vec<u64>),
    LongDouble(Vec<u128>),
    String(Vec<String>),
    VectorBool(Vec<Vec<u8>>),
    VectorInt16(Vec<Vec<i16>>),
    VectorInt32(Vec<Vec<i32>>),
    VectorInt64(Vec<Vec<i64>>),
    VectorDouble(Vec<Vec<u64>>),
    VectorLongDouble(Vec<Vec<u128>>),
    VectorString(Vec<Vec<String>>),
    PyObject(Vec<Vec<u8>>),
}

/// The mathematical content of a `PropertyData`.
pub enum PropertyValues {
    Bool(Seq<u8>),
    Int16(Seq<i16>),
    Int32(Seq<i32>),
    Int64(Seq<i64>),
    Double(Seq<u64>),
    LongDouble(Seq<u128>),
    String(Seq<Seq<char>>),
    VectorBool(Seq<Seq<u8>>),
    VectorInt16(Seq<Seq<i16>>),
    VectorInt32(Seq<Seq<i32>>),
    VectorInt64(Seq<Seq<i64>>),
    VectorDouble(Seq<Seq<u64>>),
    VectorLongDouble(Seq<Seq<u128>>),
    VectorString(Seq<Seq<Seq<char>>>),
    PyObject(Seq<Seq<u8>>),
}

impl DeepView for PropertyData {
    type V = PropertyValues;

    open spec fn deep_view(&self) -> PropertyValues {
        match self {
            PropertyData::Bool(v) => PropertyValues::Bool(v.deep_view()),
            PropertyData::Int16(v) => PropertyValues::Int16(v.deep_view()),
            PropertyData::Int32(v) => PropertyValues::Int32(v.deep_view()),
            PropertyData::Int64(v) => PropertyValues::Int64(v.deep_view()),
            PropertyData::Double(v) => PropertyValues::Double(v.deep_view()),
            PropertyData::LongDouble(v) => PropertyValues::LongDouble(v.deep_view()),
            PropertyData::String(v) => PropertyValues::String(v.deep_view()),
            PropertyData::VectorBool(v) => PropertyValues::VectorBool(v.deep_view()),
            PropertyData::VectorInt16(v) => PropertyValues::VectorInt16(v.deep_view()),
            PropertyData::VectorInt32(v) => PropertyValues::VectorInt32(v.deep_view()),
            PropertyData::VectorInt64(v) => PropertyValues::VectorInt64(v.deep_view()),
            PropertyData::VectorDouble(v) => PropertyValues::VectorDouble(v.deep_view()),
            PropertyData::VectorLongDouble(v) => PropertyValues::VectorLongDouble(v.deep_view()),
            PropertyData::VectorString(v) => PropertyValues::VectorString(v.deep_view()),
            PropertyData::PyObject(v) => PropertyValues::PyObject(v.deep_view()),
        }
    }
}

/// A decoded property map.
#[derive(Debug, Clone)]
pub struct Property {
    pub name: String,
    pub map_type: PropertyMapType,
    pub data: PropertyData,
}

/// The mathematical content of a `Property`.
pub struct PropertyView {
    pub name: Seq<char>,
    pub map_type: PropertyMapType,
    pub data: PropertyValues,
}

impl DeepView for Property {
    type V = PropertyView;

    open spec fn deep_view(&self) -> PropertyView {
        PropertyView { name: self.name@, map_type: self.map_type, data: self.data.deep_view() }
    }
}

/// The lossy UTF-8 decoding of `b`: invalid sequences become U+FFFD.
pub uninterp spec fn utf8_lossy(b: Seq<u8>) -> Seq<char>;

/// Relies on `String::from_utf8_lossy`: the text of the `n` bytes at `p`, which
/// depends on those bytes alone.
#[verifier::external_body]
pub(crate) fn lossy_text(s: &[u8], p: usize, n: usize) -> (r: String)
    requires
        p + n <= s.len(),
    ensures
        r@ == utf8_lossy(s@.subrange(p as int, p + n)),
{
    String::from_utf8_lossy(&s[p..p + n]).into_owned()
}

/// Relies on byteorder's `LittleEndian::read_i16`: two bytes, two's complement.
#[verifier::external_body]
fn read_i16_le(s: &[u8], p: usize) -> (r: i16)
    requires
        p + 2 <= s.len(),
    ensures
        r as int == le_signed(s@.subrange(p as int, p + 2)),
{
    LittleEndian::read_i16(&s[p..p + 2])
}

/// Relies on byteorder's `LittleEndian::read_i32`: four bytes, two's complement.
#[verifier::external_body]
fn read_i32_le(s: &[u8], p: usize) -> (r: i32)
    requires
        p + 4 <= s.len(),
    ensures
        r as int == le_signed(s@.subrange(p as int, p + 4)),
{
    LittleEndian::read_i32(&s[p..p + 4])
}

/// Relies on byteorder's `LittleEndian::read_i64`: eight bytes, two's complement.
#[verifier::external_body]
fn read_i64_le(s: &[u8], p: usize) -> (r: i64)
    requires
        p + 8 <= s.len(),
    ensures
        r as int == le_signed(s@.subrange(p as int, p + 8)),
{
    LittleEndian::read_i64(&s[p..p + 8])
}

/// Relies on byteorder's `LittleEndian::read_u128`: sixteen bytes, unsigned.
#[verifier::external_body]
fn read_u128_le(s: &[u8], p: usize) -> (r: u128)
    requires
        p + 16 <= s.len(),
    ensures
        r as nat == le_value(s@.subrange(p as int, p + 16)),
{
    LittleEndian::read_u128(&s[p..p + 16])
}

pub open spec fn map_type_of(tag: u8) -> Option<PropertyMapType> {
    if tag == 0 {
        Some(PropertyMapType::Graph)
    } else if tag == 1 {
        Some(PropertyMapType::Vertex)
    } else if tag == 2 {
        Some(PropertyMapType::Edge)
    } else {
        None
    }
}

pub open spec fn value_type_of(tag: u8) -> Option<PropertyType> {
    if tag == 0 {
        Some(PropertyType::Bool)
    } else if tag == 1 {
        Some(PropertyType::Int16)
    } else if tag == 2 {
        Some(PropertyType::Int32)
    } else if tag == 3 {
        Some(PropertyType::Int64)
    } else if tag == 4 {
        Some(PropertyType::Double)
    } else if tag == 5 {
        Some(PropertyType::LongDouble)
    } else if tag == 6 {
        Some(PropertyType::String)
    } else if tag == 7 {
        Some(PropertyType::VectorBool)
    } else if tag == 8 {
        Some(PropertyType::VectorInt16)
    } else if tag == 9 {
        Some(PropertyType::VectorInt32)
    } else if tag == 10 {
        Some(PropertyType::VectorInt64)
    } else if tag == 11 {
        Some(PropertyType::VectorDouble)
    } else if tag == 12 {
        Some(PropertyType::VectorLongDouble)
    } else if tag == 13 {
        Some(PropertyType::VectorString)
    } else if tag == 14 {
        Some(PropertyType::PyObject)
    } else {
        None
    }
}

/// How many values a property of map type `m` holds.
pub open spec fn cardinality(m: PropertyMapType, num_vertices: u64, num_edges: u64) -> u64 {
    match m {
        PropertyMapType::Graph => 1,
        PropertyMapType::Vertex => num_vertices,
        PropertyMapType::Edge => num_edges,
    }
}

/// A bool: one byte, 0 or 1.
pub open spec fn take_bool(s: Seq<u8>, p: int) -> Option<(u8, int)> {
    match take_u8(s, p) {
        Some((b, q)) => if b <= 1 {
            Some((b, q))
        } else {
            None
        },
        None => None,
    }
}

pub open spec fn take_i16(s: Seq<u8>, p: int) -> Option<(i16, int)> {
    match take_bytes(s, p, 2) {
        Some((b, q)) => Some((le_signed(b) as i16, q)),
        None => None,
    }
}

pub open spec fn take_i32(s: Seq<u8>, p: int) -> Option<(i32, int)> {
    match take_bytes(s, p, 4) {
        Some((b, q)) => Some((le_signed(b) as i32, q)),
        None => None,
    }
}

pub open spec fn take_i64(s: Seq<u8>, p: int) -> Option<(i64, int)> {
    match take_bytes(s, p, 8) {
        Some((b, q)) => Some((le_signed(b) as i64, q)),
        None => None,
    }
}

pub open spec fn take_u128(s: Seq<u8>, p: int) -> Option<(u128, int)> {
    match take_bytes(s, p, 16) {
        Some((b, q)) => Some((le_value(b) as u128, q)),
        None => None,
    }
}

/// A 64-bit byte count, then that many raw bytes.
pub open spec fn take_blob(s: Seq<u8>, p: int) -> Option<(Seq<u8>, int)> {
    match take_u64(s, p) {
        Some((n, q)) => take_bytes(s, q, n as int),
        None => None,
    }
}

/// A 64-bit byte count, then that many bytes decoded lossily as UTF-8.
pub open spec fn take_text(s: Seq<u8>, p: int) -> Option<(Seq<char>, int)> {
    match take_blob(s, p) {
        Some((b, q)) => Some((utf8_lossy(b), q)),
        None => None,
    }
}

pub open spec fn el_bool() -> spec_fn(Seq<u8>, int) -> Option<(u8, int)> {
    |s: Seq<u8>, p: int| take_bool(s, p)
}

pub open spec fn el_i16() -> spec_fn(Seq<u8>, int) -> Option<(i16, int)> {
    |s: Seq<u8>, p: int| take_i16(s, p)
}

pub open spec fn el_i32() -> spec_fn(Seq<u8>, int) -> Option<(i32, int)> {
    |s: Seq<u8>, p: int| take_i32(s, p)
}

pub open spec fn el_i64() -> spec_fn(Seq<u8>, int) -> Option<(i64, int)> {
    |s: Seq<u8>, p: int| take_i64(s, p)
}

pub open spec fn el_u128() -> spec_fn(Seq<u8>, int) -> Option<(u128, int)> {
    |s: Seq<u8>, p: int| take_u128(s, p)
}

pub open spec fn el_text() -> spec_fn(Seq<u8>, int) -> Option<(Seq<char>, int)> {
    |s: Seq<u8>, p: int| take_text(s, p)
}

pub open spec fn el_blob() -> spec_fn(Seq<u8>, int) -> Option<(Seq<u8>, int)> {
    |s: Seq<u8>, p: int| take_blob(s, p)
}

/// The values of `n` entries of kind `k`, read one after another.
pub open spec fn take_values(
    k: PropertyType,
    s: Seq<u8>,
    p: int,
    n: nat,
) -> Option<(PropertyValues, int)> {
    match k {
        PropertyType::Bool => wrap(take_many(s, p, n, el_bool()), |v| PropertyValues::Bool(v)),
        PropertyType::Int16 => wrap(take_many(s, p, n, el_i16()), |v| PropertyValues::Int16(v)),
        PropertyType::Int32 => wrap(take_many(s, p, n, el_i32()), |v| PropertyValues::Int32(v)),
        PropertyType::Int64 => wrap(take_many(s, p, n, el_i64()), |v| PropertyValues::Int64(v)),
        PropertyType::Double => wrap(take_many(s, p, n, el_u64()), |v| PropertyValues::Double(v)),
        PropertyType::LongDouble => wrap(
            take_many(s, p, n, el_u128()),
            |v| PropertyValues::LongDouble(v),
        ),
        PropertyType::String => wrap(take_many(s, p, n, el_text()), |v| PropertyValues::String(v)),
        PropertyType::VectorBool => wrap(
            take_many(s, p, n, el_list(el_bool())),
            |v| PropertyValues::VectorBool(v),
        ),
        PropertyType::VectorInt16 => wrap(
            take_many(s, p, n, el_list(el_i16())),
            |v| PropertyValues::VectorInt16(v),
        ),
        PropertyType::VectorInt32 => wrap(
            take_many(s, p, n, el_list(el_i32())),
            |v| PropertyValues::VectorInt32(v),
        ),
        PropertyType::VectorInt64 => wrap(
            take_many(s, p, n, el_list(el_i64())),
            |v| PropertyValues::VectorInt64(v),
        ),
        PropertyType::VectorDouble => wrap(
            take_many(s, p, n, el_list(el_u64())),
            |v| PropertyValues::VectorDouble(v),
        ),
        PropertyType::VectorLongDouble => wrap(
            take_many(s, p, n, el_list(el_u128())),
            |v| PropertyValues::VectorLongDouble(v),
        ),
        PropertyType::VectorString => wrap(
            take_many(s, p, n, el_list(el_text())),
            |v| PropertyValues::VectorString(v),
        ),
        PropertyType::PyObject => wrap(take_many(s, p, n, el_blob()), |v| PropertyValues::PyObject(v)),
    }
}

/// `r` with its value passed through `f`.
pub open spec fn wrap<T>(
    r: Option<(T, int)>,
    f: spec_fn(T,
) -> PropertyValues) -> Option<(PropertyValues, int)> {
    match r {
        Some((v, q)) => Some((f(v), q)),
        None => None,
    }
}

/// One property entry: map-type tag, name, value-type tag, then its values.
pub open spec fn take_property(
    s: Seq<u8>,
    p: int,
    num_vertices: u64,
    num_edges: u64,
) -> Option<(PropertyView, int)> {
    match take_u8(s, p) {
        None => None,
        Some((mt, p1)) => match map_type_of(mt) {
            None => None,
            Some(m) => match take_text(s, p1) {
                None => None,
                Some((name, p2)) => match take_u8(s, p2) {
                    None => None,
                    Some((vt, p3)) => match value_type_of(vt) {
                        None => None,
                        Some(k) => match take_values(k, s, p3, cardinality(m, num_vertices, num_edges) as nat) {
                            None => None,
                            Some((data, p4)) => Some((PropertyView { name, map_type: m, data }, p4)),
                        },
                    },
                },
            },
        },
    }
}

pub open spec fn el_property(
    num_vertices: u64,
    num_edges: u64,
) -> spec_fn(Seq<u8>, int) -> Option<(PropertyView, int)> {
    |s: Seq<u8>, p: int| take_property(s, p, num_vertices, num_edges)
}

impl PropertyMapType {
    /// The map type that `tag` stands for.
    pub fn try_from(tag: u8) -> (r: Result<PropertyMapType, DecodeError>)
        ensures
            r == match map_type_of(tag) {
                Some(m) => Ok(m),
                None => Err(DecodeError::MalformedProperty),
            },
    {
        match tag {
            0 => Ok(PropertyMapType::Graph),
            1 => Ok(PropertyMapType::Vertex),
            2 => Ok(PropertyMapType::Edge),
            _ => Err(DecodeError::MalformedProperty),
        }
    }
}

impl PropertyType {
    /// The value type that `tag` stands for.
    pub fn try_from(tag: u8) -> (r: Result<PropertyType, DecodeError>)
        ensures
            r == match value_type_of(tag) {
                Some(k) => Ok(k),
                None => Err(DecodeError::MalformedProperty),
            },
    {
        match tag {
            0 => Ok(PropertyType::Bool),
            1 => Ok(PropertyType::Int16),
            2 => Ok(PropertyType::Int32),
            3 => Ok(PropertyType::Int64),
            4 => Ok(PropertyType::Double),
            5 => Ok(PropertyType::LongDouble),
            6 => Ok(PropertyType::String),
            7 => Ok(PropertyType::VectorBool),
            8 => Ok(PropertyType::VectorInt16),
            9 => Ok(PropertyType::VectorInt32),
            10 => Ok(PropertyType::VectorInt64),
            11 => Ok(PropertyType::VectorDouble),
            12 => Ok(PropertyType::VectorLongDouble),
            13 => Ok(PropertyType::VectorString),
            14 => Ok(PropertyType::PyObject),
            _ => Err(DecodeError::MalformedProperty),
        }
    }
}

fn read_bool(s: &[u8], p: usize) -> (r: Option<(u8, usize)>)
    requires
        p <= s.len(),
    ensures
        reads_like(s@, p, r, el_bool()),
{
    match read_u8(s, p) {
        Some((b, q)) => if b <= 1 {
            Some((b, q))
        } else {
            None
        },
        None => None,
    }
}

fn read_i16(s: &[u8], p: usize) -> (r: Option<(i16, usize)>)
    requires
        p <= s.len(),
    ensures
        reads_like(s@, p, r, el_i16()),
{
    if 2 <= s.len() - p {
        Some((read_i16_le(s, p), p + 2))
    } else {
        None
    }
}

fn read_i32(s: &[u8], p: usize) -> (r: Option<(i32, usize)>)
    requires
        p <= s.len(),
    ensures
        reads_like(s@, p, r, el_i32()),
{
    if 4 <= s.len() - p {
        Some((read_i32_le(s, p), p + 4))
    } else {
        None
    }
}

fn read_i64(s: &[u8], p: usize) -> (r: Option<(i64, usize)>)
    requires
        p <= s.len(),
    ensures
        reads_like(s@, p, r, el_i64()),
{
    if 8 <= s.len() - p {
        Some((read_i64_le(s, p), p + 8))
    } else {
        None
    }
}

fn read_u128(s: &[u8], p: usize) -> (r: Option<(u128, usize)>)
    requires
        p <= s.len(),
    ensures
        reads_like(s@, p, r, el_u128()),
{
    if 16 <= s.len() - p {
        Some((read_u128_le(s, p), p + 16))
    } else {
        None
    }
}

/// Reads a 64-bit byte count and checks that the buffer holds that many bytes after it.
fn read_span(s: &[u8], p: usize) -> (r: Option<(usize, usize)>)
    requires
        p <= s.len(),
    ensures
        match r {
            Some((q, n)) => take_u64(s@, p as int) == Some((n as u64, q as int)) && p < q
                && q + n <= s.len(),
            None => take_blob(s@, p as int) is None,
        },
{
    match read_u64(s, p) {
        Some((n, q)) => if n <= (s.len() - q) as u64 {
            Some((q, n as usize))
        } else {
            None
        },
        None => None,
    }
}

fn read_blob(s: &[u8], p: usize) -> (r: Option<(Vec<u8>, usize)>)
    requires
        p <= s.len(),
    ensures
        reads_like(s@, p, r, el_blob()),
{
    match read_span(s, p) {
        Some((q, n)) => {
            let mut v: Vec<u8> = Vec::new();
            let mut i: usize = 0;
            while i < n
                invariant
                    i <= n,
                    q + n <= s.len(),
                    v@ == s@.subrange(q as int, q + i),
                decreases n - i,
            {
                v.push(s[q + i]);
                i = i + 1;
                assert(v@ =~= s@.subrange(q as int, q + i));
            }
            assert(v.deep_view() =~= v@);
            Some((v, q + n))
        },
        None => None,
    }
}

pub(crate) fn read_text(s: &[u8], p: usize) -> (r: Option<(String, usize)>)
    requires
        p <= s.len(),
    ensures
        reads_like(s@, p, r, el_text()),
{
    match read_span(s, p) {
        Some((q, n)) => Some((lossy_text(s, q, n), q + n)),
        None => None,
    }
}

fn read_bool_list(s: &[u8], p: usize) -> (r: Option<(Vec<u8>, usize)>)
    requires
        p <= s.len(),
    ensures
        reads_like(s@, p, r, el_list(el_bool())),
{
    read_list(s, p, &read_bool, Ghost(el_bool()))
}

fn read_i16_list(s: &[u8], p: usize) -> (r: Option<(Vec<i16>, usize)>)
    requires
        p <= s.len(),
    ensures
        reads_like(s@, p, r, el_list(el_i16())),
{
    read_list(s, p, &read_i16, Ghost(el_i16()))
}

fn read_i32_list(s: &[u8], p: usize) -> (r: Option<(Vec<i32>, usize)>)
    requires
        p <= s.len(),
    ensures
        reads_like(s@, p, r, el_list(el_i32())),
{
    read_list(s, p, &read_i32, Ghost(el_i32()))
}

fn read_i64_list(s: &[u8], p: usize) -> (r: Option<(Vec<i64>, usize)>)
    requires
        p <= s.len(),
    ensures
        reads_like(s@, p, r, el_list(el_i64())),
{
    read_list(s, p, &read_i64, Ghost(el_i64()))
}

fn read_u64_list(s: &[u8], p: usize) -> (r: Option<(Vec<u64>, usize)>)
    requires
        p <= s.len(),
    ensures
        reads_like(s@, p, r, el_list(el_u64())),
{
    read_list(s, p, &read_u64, Ghost(el_u64()))
}

fn read_u128_list(s: &[u8], p: usize) -> (r: Option<(Vec<u128>, usize)>)
    requires
        p <= s.len(),
    ensures
        reads_like(s@, p, r, el_list(el_u128())),
{
    read_list(s, p, &read_u128, Ghost(el_u128()))
}

fn read_text_list(s: &[u8], p: usize) -> (r: Option<(Vec<String>, usize)>)
    requires
        p <= s.len(),
    ensures
        reads_like(s@, p, r, el_list(el_text())),
{
    read_list(s, p, &read_text, Ghost(el_text()))
}

/// Reads `n` values of kind `k`.
fn read_values(k: PropertyType, s: &[u8], p: usize, n: u64) -> (r: Option<(PropertyData, usize)>)
    requires
        p <= s.len(),
    ensures
        read_matches(r, take_values(k, s@, p as int, n as nat)),
        r matches Some((_, q)) ==> p <= q <= s.len(),
{
    match k {
        PropertyType::Bool => match read_many(s, p, n, &read_bool, Ghost(el_bool())) {
            Some((v, q)) => Some((PropertyData::Bool(v), q)),
            None => None,
        },
        PropertyType::Int16 => match read_many(s, p, n, &read_i16, Ghost(el_i16())) {
            Some((v, q)) => Some((PropertyData::Int16(v), q)),
            None => None,
        },
        PropertyType::Int32 => match read_many(s, p, n, &read_i32, Ghost(el_i32())) {
            Some((v, q)) => Some((PropertyData::Int32(v), q)),
            None => None,
        },
        PropertyType::Int64 => match read_many(s, p, n, &read_i64, Ghost(el_i64())) {
            Some((v, q)) => Some((PropertyData::Int64(v), q)),
            None => None,
        },
        PropertyType::Double => match read_many(s, p, n, &read_u64, Ghost(el_u64())) {
            Some((v, q)) => Some((PropertyData::Double(v), q)),
            None => None,
        },
        PropertyType::LongDouble => match read_many(s, p, n, &read_u128, Ghost(el_u128())) {
            Some((v, q)) => Some((PropertyData::LongDouble(v), q)),
            None => None,
        },
        PropertyType::String => match read_many(s, p, n, &read_text, Ghost(el_text())) {
            Some((v, q)) => Some((PropertyData::String(v), q)),
            None => None,
        },
        PropertyType::VectorBool => match read_many(s, p, n, &read_bool_list, Ghost(el_list(el_bool()))) {
            Some((v, q)) => Some((PropertyData::VectorBool(v), q)),
            None => None,
        },
        PropertyType::VectorInt16 => match read_many(s, p, n, &read_i16_list, Ghost(el_list(el_i16()))) {
            Some((v, q)) => Some((PropertyData::VectorInt16(v), q)),
            None => None,
        },
        PropertyType::VectorInt32 => match read_many(s, p, n, &read_i32_list, Ghost(el_list(el_i32()))) {
            Some((v, q)) => Some((PropertyData::VectorInt32(v), q)),
            None => None,
        },
        PropertyType::VectorInt64 => match read_many(s, p, n, &read_i64_list, Ghost(el_list(el_i64()))) {
            Some((v, q)) => Some((PropertyData::VectorInt64(v), q)),
            None => None,
        },
        PropertyType::VectorDouble => match read_many(s, p, n, &read_u64_list, Ghost(el_list(el_u64()))) {
            Some((v, q)) => Some((PropertyData::VectorDouble(v), q)),
            None => None,
        },
        PropertyType::VectorLongDouble => match read_many(s, p, n, &read_u128_list, Ghost(el_list(el_u128()))) {
            Some((v, q)) => Some((PropertyData::VectorLongDouble(v), q)),
            None => None,
        },
        PropertyType::VectorString => match read_many(s, p, n, &read_text_list, Ghost(el_list(el_text()))) {
            Some((v, q)) => Some((PropertyData::VectorString(v), q)),
            None => None,
        },
        PropertyType::PyObject => match read_many(s, p, n, &read_blob, Ghost(el_blob())) {
            Some((v, q)) => Some((PropertyData::PyObject(v), q)),
            None => None,
        },
    }
}

/// Reads one property entry at `p`, for a graph of `num_vertices` vertices and
/// `num_edges` edges.
pub(crate) fn read_property_at(
    s: &[u8],
    p: usize,
    num_vertices: u64,
    num_edges: u64,
) -> (r: Option<(Property, usize)>)
    requires
        p <= s.len(),
    ensures
        reads_like(s@, p, r, el_property(num_vertices, num_edges)),
{
    let (tag, p1) = match read_u8(s, p) {
        Some(x) => x,
        None => return None,
    };
    let map_type = match PropertyMapType::try_from(tag) {
        Ok(m) => m,
        Err(_) => return None,
    };
    let (name, p2) = match read_text(s, p1) {
        Some(x) => x,
        None => return None,
    };
    let (tag, p3) = match read_u8(s, p2) {
        Some(x) => x,
        None => return None,
    };
    let kind = match PropertyType::try_from(tag) {
        Ok(k) => k,
        Err(_) => return None,
    };
    let count = match map_type {
        PropertyMapType::Graph => 1,
        PropertyMapType::Vertex => num_vertices,
        PropertyMapType::Edge => num_edges,
    };
    match read_values(kind, s, p3, count) {
        Some((data, p4)) => Some((Property { name, map_type, data }, p4)),
        None => None,
    }
}

impl Property {
    /// Decodes the property entry at `*pos` of `data` and moves `*pos` past it.
    ///
    /// `num_nodes` and `num_edges` give how many values a vertex or an edge property
    /// holds. Any bad tag, bad bool byte or cut-short field is `MalformedProperty`,
    /// and then `*pos` is left where it was.
    pub fn from_data(
        data: &[u8],
        pos: &mut usize,
        num_nodes: u64,
        num_edges: u64,
    ) -> (r: Result<Property, DecodeError>)
        requires
            *old(pos) <= data.len(),
        ensures
            match r {
                Ok(p) => take_property(data@, *old(pos) as int, num_nodes, num_edges) == Some(
                    (p.deep_view(), *final(pos) as int),
                ) && *final(pos) <= data.len(),
                Err(e) => e == DecodeError::MalformedProperty && take_property(
                    data@,
                    *old(pos) as int,
                    num_nodes,
                    num_edges,
                ) is None && *final(pos) == *old(pos),
            },
    {
        match read_property_at(data, *pos, num_nodes, num_edges) {
            Some((p, q)) => {
                *pos = q;
                Ok(p)
            },
            None => Err(DecodeError::MalformedProperty),
        }
    }

    /// The property's values.
    pub fn data(&self) -> (r: &PropertyData)
        ensures
            r == &self.data,
    {
        &self.data
    }
}

} // verus!
