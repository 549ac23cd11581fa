//! The value shapes of feature-table semantics: inline numbers, inline number
//! arrays, and references into the table's binary body.
use crate::bytes::Cursor;
use crate::error::Error;
use crate::json::{
    field, json_of, opt_same_json, parse_json, text_is, Json, Number,
};
use vstd::prelude::*;

verus! {

/// The datatype of the components of a property stored in a binary body.
#[derive(Debug, Clone, Copy, PartialEq, Eq, Structural)]
pub enum ComponentType {
    Byte,
    Double,
    Float,
    Int,
    Short,
    UnsignedByte,
    UnsignedInt,
    UnsignedShort,
}

/// Whether a property is a scalar or a vector.
#[derive(Debug, Clone, Copy, PartialEq, Eq, Structural)]
pub enum Type {
    Scalar,
    Vec2,
    Vec3,
    Vec4,
}

/// The component type that a JSON string names.
pub open spec fn component_type_of(j: Json) -> Option<ComponentType> {
    match j {
        Json::Str(s) => if s@ == "BYTE"@ {
            Some(ComponentType::Byte)
        } else if s@ == "DOUBLE"@ {
            Some(ComponentType::Double)
        } else if s@ == "FLOAT"@ {
            Some(ComponentType::Float)
        } else if s@ == "INT"@ {
            Some(ComponentType::Int)
        } else if s@ == "SHORT"@ {
            Some(ComponentType::Short)
        } else if s@ == "UNSIGNED_BYTE"@ {
            Some(ComponentType::UnsignedByte)
        } else if s@ == "UNSIGNED_INT"@ {
            Some(ComponentType::UnsignedInt)
        } else if s@ == "UNSIGNED_SHORT"@ {
            Some(ComponentType::UnsignedShort)
        } else {
            None
        },
        _ => None,
    }
}

/// The property type that a JSON string names.
pub open spec fn type_of(j: Json) -> Option<Type> {
    match j {
        Json::Str(s) => if s@ == "SCALAR"@ {
            Some(Type::Scalar)
        } else if s@ == "VEC2"@ {
            Some(Type::Vec2)
        } else if s@ == "VEC3"@ {
            Some(Type::Vec3)
        } else if s@ == "VEC4"@ {
            Some(Type::Vec4)
        } else {
            None
        },
        _ => None,
    }
}

impl ComponentType {
    /// Reads a component type from its JSON name (`"BYTE"`, `"UNSIGNED_SHORT"`, ...).
    pub fn from_json(j: &Json) -> (r: Option<ComponentType>)
        ensures
            r == component_type_of(*j),
    {
        match j {
            Json::Str(s) => if text_is(s, "BYTE") {
                Some(ComponentType::Byte)
            } else if text_is(s, "DOUBLE") {
                Some(ComponentType::Double)
            } else if text_is(s, "FLOAT") {
                Some(ComponentType::Float)
            } else if text_is(s, "INT") {
                Some(ComponentType::Int)
            } else if text_is(s, "SHORT") {
                Some(ComponentType::Short)
            } else if text_is(s, "UNSIGNED_BYTE") {
                Some(ComponentType::UnsignedByte)
            } else if text_is(s, "UNSIGNED_INT") {
                Some(ComponentType::UnsignedInt)
            } else if text_is(s, "UNSIGNED_SHORT") {
                Some(ComponentType::UnsignedShort)
            } else {
                None
            },
            _ => None,
        }
    }

    /// The size in bytes of one component.
    pub fn size(&self) -> (r: usize)
        ensures
            r == component_size(*self),
    {
        match self {
            ComponentType::Byte | ComponentType::UnsignedByte => 1,
            ComponentType::Short | ComponentType::UnsignedShort => 2,
            ComponentType::Int | ComponentType::UnsignedInt | ComponentType::Float => 4,
            ComponentType::Double => 8,
        }
    }
}

/// The size in bytes of one component of type `c`.
pub open spec fn component_size(c: ComponentType) -> nat {
    match c {
        ComponentType::Byte | ComponentType::UnsignedByte => 1,
        ComponentType::Short | ComponentType::UnsignedShort => 2,
        ComponentType::Int | ComponentType::UnsignedInt | ComponentType::Float => 4,
        ComponentType::Double => 8,
    }
}

impl Type {
    /// Reads a property type from its JSON name (`"SCALAR"`, `"VEC3"`, ...).
    pub fn from_json(j: &Json) -> (r: Option<Type>)
        ensures
            r == type_of(*j),
    {
        match j {
            Json::Str(s) => if text_is(s, "SCALAR") {
                Some(Type::Scalar)
            } else if text_is(s, "VEC2") {
                Some(Type::Vec2)
            } else if text_is(s, "VEC3") {
                Some(Type::Vec3)
            } else if text_is(s, "VEC4") {
                Some(Type::Vec4)
            } else {
                None
            },
            _ => None,
        }
    }

    /// The number of components of one element.
    pub fn arity(&self) -> (r: usize)
        ensures
            1 <= r <= 4,
            r == (match *self {
                Type::Scalar => 1usize,
                Type::Vec2 => 2usize,
                Type::Vec3 => 3usize,
                Type::Vec4 => 4usize,
            }),
    {
        match self {
            Type::Scalar => 1,
            Type::Vec2 => 2,
            Type::Vec3 => 3,
            Type::Vec4 => 4,
        }
    }
}

/// A member as an optional field reads it: absent and `null` both mean none.
pub open spec fn present(f: Option<Json>) -> Option<Json> {
    match f {
        Some(Json::Null) => None,
        Some(x) => Some(x),
        None => None,
    }
}

/// Reads a member as an optional field: absent and `null` both give `None`.
pub fn present_member<'a>(j: &'a Json, key: &str) -> (r: Option<&'a Json>)
    ensures
        match r {
            Some(v) => present(field(*j, key@)) == Some(*v),
            None => present(field(*j, key@)) is None,
        },
{
    match j.get(key) {
        Some(Json::Null) => None,
        Some(v) => Some(v),
        None => None,
    }
}

/// A copy of the value of an optional member: absent and `null` both give
/// `None`.
pub fn optional_json(j: &Json, key: &str) -> (r: Option<Json>)
    ensures
        opt_same_json(present(field(*j, key@)), r),
{
    match present_member(j, key) {
        None => None,
        Some(x) => Some(x.copy()),
    }
}

/// A byte offset: a non-negative integer that fits in `usize`.
pub open spec fn offset_of(j: Json) -> Option<usize> {
    match j {
        Json::Number(Number::PosInt(u)) => if u <= usize::MAX {
            Some(u as usize)
        } else {
            None
        },
        _ => None,
    }
}

/// Reads a byte offset.
pub fn offset_from_json(j: &Json) -> (r: Option<usize>)
    ensures
        r == offset_of(*j),
{
    match j {
        Json::Number(Number::PosInt(u)) => if *u <= usize::MAX as u64 {
            Some(*u as usize)
        } else {
            None
        },
        _ => None,
    }
}

/// The `byteOffset` member of an object, read as a byte offset.
pub open spec fn byte_offset_of(j: Json) -> Option<usize> {
    match field(j, "byteOffset"@) {
        Some(o) => offset_of(o),
        None => None,
    }
}

/// Reads the `byteOffset` member of an object.
pub fn byte_offset_from_json(j: &Json) -> (r: Option<usize>)
    ensures
        r == byte_offset_of(*j),
{
    match j.get("byteOffset") {
        Some(o) => offset_from_json(o),
        None => None,
    }
}

/// `v` holds the numbers that `items` holds, in order.
pub open spec fn numbers_match(items: Seq<Json>, v: Seq<Number>) -> bool {
    &&& items.len() == v.len()
    &&& forall|i: int| 0 <= i < items.len() ==> items[i] == Json::Number(v[i])
}

/// Every item is a number.
pub open spec fn all_numbers(items: Seq<Json>) -> bool {
    forall|i: int| 0 <= i < items.len() ==> items[i] is Number
}

/// Reads an array of numbers; `None` where an item is not a number.
pub fn numbers_from(items: &Vec<Json>) -> (r: Option<Vec<Number>>)
    ensures
        r is Some <==> all_numbers(items@),
        r matches Some(v) ==> numbers_match(items@, v@),
{
    let mut out: Vec<Number> = Vec::new();
    let mut i: usize = 0;
    while i < items.len()
        invariant
            i <= items@.len(),
            numbers_match(items@.take(i as int), out@),
            all_numbers(items@.take(i as int)),
        decreases items@.len() - i,
    {
        match &items[i] {
            Json::Number(n) => {
                out.push(n.copy());
            },
            _ => {
                assert(!all_numbers(items@)) by {
                    assert(!(items@[i as int] is Number));
                }
                return None;
            },
        }
        i = i + 1;
        assert(items@.take(i as int) =~= items@.take(i - 1).push(items@[i - 1]));
    }
    assert(items@.take(i as int) =~= items@);
    Some(out)
}

/// An array of numbers, the shape shared by the vector-valued semantics.
pub open spec fn number_array_decodes(j: Json, v: Seq<Number>) -> bool {
    match j {
        Json::Array(items) => numbers_match(items@, v),
        _ => false,
    }
}

/// `j` is an array of numbers.
pub open spec fn is_number_array(j: Json) -> bool {
    match j {
        Json::Array(items) => all_numbers(items@),
        _ => false,
    }
}

/// Reads `j` as an array of numbers.
pub fn number_array_from_json(j: &Json) -> (r: Option<Vec<Number>>)
    ensures
        r is Some <==> is_number_array(*j),
        r matches Some(v) ==> number_array_decodes(*j, v@),
{
    match j {
        Json::Array(items) => numbers_from(items),
        _ => None,
    }
}

/// A reference to a section of the feature table's binary body.
#[derive(Debug, Clone, Copy, PartialEq, Eq, Structural)]
pub struct BinaryBodyReference {
    /// The offset into the body, in bytes.
    pub byte_offset: usize,
    /// The component type, where the semantic lets it be overridden.
    pub component_type: Option<ComponentType>,
}

/// The reference that an object with a `byteOffset` member denotes.
pub open spec fn reference_of(j: Json) -> Option<BinaryBodyReference> {
    match byte_offset_of(j) {
        Some(off) => match present(field(j, "componentType"@)) {
            None => Some(BinaryBodyReference { byte_offset: off, component_type: None }),
            Some(c) => match component_type_of(c) {
                Some(ct) => Some(
                    BinaryBodyReference { byte_offset: off, component_type: Some(ct) },
                ),
                None => None,
            },
        },
        None => None,
    }
}

impl BinaryBodyReference {
    /// Reads a reference from an object with `byteOffset` and an optional
    /// `componentType`.
    pub fn from_json(j: &Json) -> (r: Option<BinaryBodyReference>)
        ensures
            r == reference_of(*j),
    {
        match byte_offset_from_json(j) {
            Some(off) => match present_member(j, "componentType") {
                None => Some(BinaryBodyReference { byte_offset: off, component_type: None }),
                Some(c) => match ComponentType::from_json(c) {
                    Some(ct) => Some(
                        BinaryBodyReference { byte_offset: off, component_type: Some(ct) },
                    ),
                    None => None,
                },
            },
            None => None,
        }
    }
}

/// A per-feature property: a reference into the binary body, or numbers
/// given inline.
#[derive(Debug)]
pub enum Property {
    BinaryBodyReference(BinaryBodyReference),
    Double(Number),
    DoubleArray(Vec<Number>),
}

/// `p` is what `j` decodes to as a per-feature property. The shapes are tried
/// in order: a reference (an object), a number, an array of numbers.
pub open spec fn property_decodes(j: Json, p: Property) -> bool {
    match p {
        Property::BinaryBodyReference(r) => reference_of(j) == Some(r),
        Property::Double(n) => j == Json::Number(n),
        Property::DoubleArray(v) => number_array_decodes(j, v@),
    }
}

/// `j` decodes as a per-feature property.
pub open spec fn property_decodable(j: Json) -> bool {
    reference_of(j) is Some || j is Number || is_number_array(j)
}

impl Property {
    /// Reads a per-feature property.
    pub fn from_json(j: &Json) -> (r: Option<Property>)
        ensures
            r is Some <==> property_decodable(*j),
            r matches Some(p) ==> property_decodes(*j, p),
    {
        if let Some(r) = BinaryBodyReference::from_json(j) {
            return Some(Property::BinaryBodyReference(r));
        }
        match j {
            Json::Number(n) => Some(Property::Double(n.copy())),
            _ => match number_array_from_json(j) {
                Some(v) => Some(Property::DoubleArray(v)),
                None => None,
            },
        }
    }
}

/// A global property given as an object with a `byteOffset`.
#[derive(Debug, Clone, Copy, PartialEq, Eq, Structural)]
pub struct GlobalPropertyScalarClass {
    pub byte_offset: usize,
}

/// A global 3-component property given as an object with a `byteOffset`.
#[derive(Debug, Clone, Copy, PartialEq, Eq, Structural)]
pub struct GlobalPropertyCartesian3Class {
    pub byte_offset: usize,
}

/// A global 4-component property given as an object with a `byteOffset`.
#[derive(Debug, Clone, Copy, PartialEq, Eq, Structural)]
pub struct GlobalPropertyCartesian4Class {
    pub byte_offset: usize,
}

/// A numeric property for all features.
#[derive(Debug)]
pub enum GlobalPropertyScalar {
    Double(Number),
    DoubleArray(Vec<Number>),
    GlobalPropertyScalarClass(GlobalPropertyScalarClass),
}

/// `p` is what `j` decodes to as a global scalar: a number, an array of
/// numbers, or an object with a `byteOffset`.
pub open spec fn scalar_decodes(j: Json, p: GlobalPropertyScalar) -> bool {
    match p {
        GlobalPropertyScalar::Double(n) => j == Json::Number(n),
        GlobalPropertyScalar::DoubleArray(v) => number_array_decodes(j, v@),
        GlobalPropertyScalar::GlobalPropertyScalarClass(c) => byte_offset_of(j) == Some(
            c.byte_offset,
        ),
    }
}

/// `j` decodes as a global scalar.
pub open spec fn scalar_decodable(j: Json) -> bool {
    j is Number || is_number_array(j) || byte_offset_of(j) is Some
}

impl GlobalPropertyScalar {
    /// Reads a global scalar.
    pub fn from_json(j: &Json) -> (r: Option<GlobalPropertyScalar>)
        ensures
            r is Some <==> scalar_decodable(*j),
            r matches Some(p) ==> scalar_decodes(*j, p),
    {
        match j {
            Json::Number(n) => Some(GlobalPropertyScalar::Double(n.copy())),
            Json::Array(_) => match number_array_from_json(j) {
                Some(v) => Some(GlobalPropertyScalar::DoubleArray(v)),
                None => None,
            },
            _ => match byte_offset_from_json(j) {
                Some(off) => Some(
                    GlobalPropertyScalar::GlobalPropertyScalarClass(
                        GlobalPropertyScalarClass { byte_offset: off },
                    ),
                ),
                None => None,
            },
        }
    }
}

/// A 3-component numeric property for all features.
#[derive(Debug)]
pub enum GlobalPropertyCartesian3 {
    DoubleArray(Vec<Number>),
    GlobalPropertyCartesian3Class(GlobalPropertyCartesian3Class),
}

/// `p` is what `j` decodes to as a global 3-component property.
pub open spec fn cartesian3_decodes(j: Json, p: GlobalPropertyCartesian3) -> bool {
    match p {
        GlobalPropertyCartesian3::DoubleArray(v) => number_array_decodes(j, v@),
        GlobalPropertyCartesian3::GlobalPropertyCartesian3Class(c) => byte_offset_of(j) == Some(
            c.byte_offset,
        ),
    }
}

/// `j` decodes as a global vector: an array of numbers, or an object with a
/// `byteOffset`.
pub open spec fn vector_decodable(j: Json) -> bool {
    is_number_array(j) || byte_offset_of(j) is Some
}

impl GlobalPropertyCartesian3 {
    /// Reads a global 3-component property.
    pub fn from_json(j: &Json) -> (r: Option<GlobalPropertyCartesian3>)
        ensures
            r is Some <==> vector_decodable(*j),
            r matches Some(p) ==> cartesian3_decodes(*j, p),
    {
        match j {
            Json::Array(_) => match number_array_from_json(j) {
                Some(v) => Some(GlobalPropertyCartesian3::DoubleArray(v)),
                None => None,
            },
            _ => match byte_offset_from_json(j) {
                Some(off) => Some(
                    GlobalPropertyCartesian3::GlobalPropertyCartesian3Class(
                        GlobalPropertyCartesian3Class { byte_offset: off },
                    ),
                ),
                None => None,
            },
        }
    }
}

/// A 4-component numeric property for all features.
#[derive(Debug)]
pub enum GlobalPropertyCartesian4 {
    DoubleArray(Vec<Number>),
    GlobalPropertyCartesian4Class(GlobalPropertyCartesian4Class),
}

/// `p` is what `j` decodes to as a global 4-component property.
pub open spec fn cartesian4_decodes(j: Json, p: GlobalPropertyCartesian4) -> bool {
    match p {
        GlobalPropertyCartesian4::DoubleArray(v) => number_array_decodes(j, v@),
        GlobalPropertyCartesian4::GlobalPropertyCartesian4Class(c) => byte_offset_of(j) == Some(
            c.byte_offset,
        ),
    }
}

impl GlobalPropertyCartesian4 {
    /// Reads a global 4-component property.
    pub fn from_json(j: &Json) -> (r: Option<GlobalPropertyCartesian4>)
        ensures
            r is Some <==> vector_decodable(*j),
            r matches Some(p) ==> cartesian4_decodes(*j, p),
    {
        match j {
            Json::Array(_) => match number_array_from_json(j) {
                Some(v) => Some(GlobalPropertyCartesian4::DoubleArray(v)),
                None => None,
            },
            _ => match byte_offset_from_json(j) {
                Some(off) => Some(
                    GlobalPropertyCartesian4::GlobalPropertyCartesian4Class(
                        GlobalPropertyCartesian4Class { byte_offset: off },
                    ),
                ),
                None => None,
            },
        }
    }
}

/// An optional reference member, as read: absent or null give `None`.
pub open spec fn opt_reference_decodes(f: Option<Json>, v: Option<BinaryBodyReference>) -> bool {
    match f {
        None => v is None,
        Some(x) => v is Some && reference_of(x) == v,
    }
}

/// An optional 3-component member, as read.
pub open spec fn opt_cartesian3_decodes(
    f: Option<Json>,
    v: Option<GlobalPropertyCartesian3>,
) -> bool {
    match (f, v) {
        (None, None) => true,
        (Some(x), Some(p)) => cartesian3_decodes(x, p),
        _ => false,
    }
}

/// An optional 4-component member, as read.
pub open spec fn opt_cartesian4_decodes(
    f: Option<Json>,
    v: Option<GlobalPropertyCartesian4>,
) -> bool {
    match (f, v) {
        (None, None) => true,
        (Some(x), Some(p)) => cartesian4_decodes(x, p),
        _ => false,
    }
}

/// An optional scalar member, as read.
pub open spec fn opt_scalar_decodes(f: Option<Json>, v: Option<GlobalPropertyScalar>) -> bool {
    match (f, v) {
        (None, None) => true,
        (Some(x), Some(p)) => scalar_decodes(x, p),
        _ => false,
    }
}

/// An optional member is absent, null, or satisfies `ok`.
pub open spec fn opt_ok(f: Option<Json>, ok: spec_fn(Json) -> bool) -> bool {
    f matches Some(x) ==> ok(x)
}

/// The reference that a member holds, where it is present; the outer
/// `None` where it is present and not a reference.
pub fn optional_reference(j: &Json, key: &str) -> (r: Option<Option<BinaryBodyReference>>)
    ensures
        r is Some <==> opt_ok(present(field(*j, key@)), |x: Json| reference_of(x) is Some),
        r matches Some(v) ==> opt_reference_decodes(present(field(*j, key@)), v),
{
    match present_member(j, key) {
        None => Some(None),
        Some(x) => match BinaryBodyReference::from_json(x) {
            Some(b) => Some(Some(b)),
            None => None,
        },
    }
}

/// The 3-component property that a member holds, where it is present.
pub fn optional_cartesian3(j: &Json, key: &str) -> (r: Option<Option<GlobalPropertyCartesian3>>)
    ensures
        r is Some <==> opt_ok(present(field(*j, key@)), |x: Json| vector_decodable(x)),
        r matches Some(v) ==> opt_cartesian3_decodes(present(field(*j, key@)), v),
{
    match present_member(j, key) {
        None => Some(None),
        Some(x) => match GlobalPropertyCartesian3::from_json(x) {
            Some(b) => Some(Some(b)),
            None => None,
        },
    }
}

/// The 4-component property that a member holds, where it is present.
pub fn optional_cartesian4(j: &Json, key: &str) -> (r: Option<Option<GlobalPropertyCartesian4>>)
    ensures
        r is Some <==> opt_ok(present(field(*j, key@)), |x: Json| vector_decodable(x)),
        r matches Some(v) ==> opt_cartesian4_decodes(present(field(*j, key@)), v),
{
    match present_member(j, key) {
        None => Some(None),
        Some(x) => match GlobalPropertyCartesian4::from_json(x) {
            Some(b) => Some(Some(b)),
            None => None,
        },
    }
}

/// The scalar property that a member holds, where it is present.
pub fn optional_scalar(j: &Json, key: &str) -> (r: Option<Option<GlobalPropertyScalar>>)
    ensures
        r is Some <==> opt_ok(present(field(*j, key@)), |x: Json| scalar_decodable(x)),
        r matches Some(v) ==> opt_scalar_decodes(present(field(*j, key@)), v),
{
    match present_member(j, key) {
        None => Some(None),
        Some(x) => match GlobalPropertyScalar::from_json(x) {
            Some(b) => Some(Some(b)),
            None => None,
        },
    }
}

/// A count: a non-negative integer that fits in `u32`.
pub open spec fn count_of(j: Json) -> Option<u32> {
    match j {
        Json::Number(Number::PosInt(u)) => if u <= u32::MAX {
            Some(u as u32)
        } else {
            None
        },
        _ => None,
    }
}

/// Reads a count.
pub fn count_from_json(j: &Json) -> (r: Option<u32>)
    ensures
        r == count_of(*j),
{
    match j {
        Json::Number(Number::PosInt(u)) => if *u <= u32::MAX as u64 {
            Some(*u as u32)
        } else {
            None
        },
        _ => None,
    }
}

/// An optional boolean member, as read.
pub open spec fn opt_bool_decodes(f: Option<Json>, v: Option<bool>) -> bool {
    match (f, v) {
        (None, None) => true,
        (Some(Json::Bool(b)), Some(c)) => b == c,
        _ => false,
    }
}

/// The boolean that a member holds, where it is present.
pub fn optional_bool(j: &Json, key: &str) -> (r: Option<Option<bool>>)
    ensures
        r is Some <==> opt_ok(present(field(*j, key@)), |x: Json| x is Bool),
        r matches Some(v) ==> opt_bool_decodes(present(field(*j, key@)), v),
{
    match present_member(j, key) {
        None => Some(None),
        Some(Json::Bool(b)) => Some(Some(*b)),
        Some(_) => None,
    }
}

/// The members of an object; none for any other value.
pub open spec fn members_of(j: Json) -> Seq<(String, Json)> {
    match j {
        Json::Object(m) => m@,
        _ => Seq::empty(),
    }
}

/// The texts of a list of names.
pub open spec fn names(known: Seq<&str>) -> Seq<Seq<char>> {
    known.map_values(|s: &str| s@)
}

/// `p` lists, in order, each member of `m` whose key is not in `known`,
/// decoded as a per-feature property.
pub open spec fn other_properties_decode(
    m: Seq<(String, Json)>,
    known: Seq<Seq<char>>,
    p: Seq<(String, Property)>,
) -> bool
    decreases m.len(),
{
    if m.len() == 0 {
        p.len() == 0
    } else if known.contains(m.last().0@) {
        other_properties_decode(m.drop_last(), known, p)
    } else {
        &&& p.len() > 0
        &&& p.last().0 == m.last().0
        &&& property_decodes(m.last().1, p.last().1)
        &&& other_properties_decode(m.drop_last(), known, p.drop_last())
    }
}

/// Every member of `m` whose key is not in `known` decodes as a property.
pub open spec fn other_properties_ok(m: Seq<(String, Json)>, known: Seq<Seq<char>>) -> bool {
    forall|i: int|
        0 <= i < m.len() && !known.contains(#[trigger] m[i].0@) ==> property_decodable(m[i].1)
}

/// Whether `k` is one of `known`.
fn is_known(k: &String, known: &Vec<&str>) -> (r: bool)
    ensures
        r == names(known@).contains(k@),
{
    let mut i: usize = 0;
    while i < known.len()
        invariant
            i <= known@.len(),
            forall|x: int| 0 <= x < i ==> known@[x]@ != k@,
        decreases known@.len() - i,
    {
        if text_is(k, known[i]) {
            assert(names(known@)[i as int] == k@);
            return true;
        }
        i = i + 1;
    }
    assert(!names(known@).contains(k@)) by {
        if names(known@).contains(k@) {
            let x = choose|x: int| 0 <= x < names(known@).len() && names(known@)[x] == k@;
            assert(known@[x]@ == k@);
        }
    }
    false
}

/// Reads, in order, each member of `j` whose key is not in `known` as a
/// per-feature property; `None` where one of them is not a property.
pub fn other_properties(j: &Json, known: &Vec<&str>) -> (r: Option<Vec<(String, Property)>>)
    ensures
        r is Some <==> other_properties_ok(members_of(*j), names(known@)),
        r matches Some(p) ==> other_properties_decode(members_of(*j), names(known@), p@),
{
    let ghost ks = names(known@);
    let mut out: Vec<(String, Property)> = Vec::new();
    match j {
        Json::Object(m) => {
            let ghost all = m@;
            let mut i: usize = 0;
            while i < m.len()
                invariant
                    i <= all.len(),
                    all == m@,
                    all == members_of(*j),
                    ks == names(known@),
                    other_properties_decode(all.take(i as int), ks, out@),
                    other_properties_ok(all.take(i as int), ks),
                decreases all.len() - i,
            {
                let entry = &m[i];
                assert(all.take(i + 1).drop_last() =~= all.take(i as int));
                assert(all.take(i + 1).last() == all[i as int]);
                if is_known(&entry.0, known) {
                    assert(other_properties_ok(all.take(i + 1), ks)) by {
                        assert forall|x: int|
                            0 <= x < i + 1 && !ks.contains(
                                #[trigger] all.take(i + 1)[x].0@,
                            ) implies property_decodable(all.take(i + 1)[x].1) by {
                            if x < i {
                                assert(all.take(i + 1)[x] == all.take(i as int)[x]);
                            }
                        }
                    }
                } else {
                    match Property::from_json(&entry.1) {
                        Some(p) => {
                            let ghost before = out@;
                            out.push((entry.0.clone(), p));
                            assert(out@.drop_last() =~= before);
                            assert(other_properties_ok(all.take(i + 1), ks)) by {
                                assert forall|x: int|
                                    0 <= x < i + 1 && !ks.contains(
                                        #[trigger] all.take(i + 1)[x].0@,
                                    ) implies property_decodable(all.take(i + 1)[x].1) by {
                                    if x < i {
                                        assert(all.take(i + 1)[x] == all.take(i as int)[x]);
                                    }
                                }
                            }
                        },
                        None => {
                            assert(!other_properties_ok(all, ks)) by {
                                assert(!ks.contains(all[i as int].0@));
                            }
                            return None;
                        },
                    }
                }
                i = i + 1;
            }
            assert(all.take(i as int) =~= all);
            Some(out)
        },
        _ => {
            assert(members_of(*j) =~= Seq::<(String, Json)>::empty());
            Some(out)
        },
    }
}

/// The error that reading a feature table of the given lengths from `rest`
/// meets first, if any, where `ok` says which JSON values the table's
/// semantics accept.
pub open spec fn table_error(
    rest: Seq<u8>,
    json_len: nat,
    bin_len: nat,
    ok: spec_fn(Json) -> bool,
) -> Option<Error> {
    if rest.len() < json_len {
        Some(Error::Truncated)
    } else if !(json_of(rest.take(json_len as int)) matches Some(j) && ok(j)) {
        Some(Error::Json)
    } else if rest.len() < json_len + bin_len {
        Some(Error::Truncated)
    } else {
        None
    }
}

/// How many bytes reading a table has consumed when it fails: none where its
/// JSON is cut short, else the JSON, which stays read; the body is never
/// read in part.
pub open spec fn table_fail_len(rest: Seq<u8>, json_len: nat) -> int {
    if rest.len() < json_len {
        0
    } else {
        json_len as int
    }
}

/// Reads the JSON section of a table: `json_len` bytes, parsed.
pub fn read_table_json(reader: &mut Cursor, json_len: u32) -> (r: Result<Json, Error>)
    requires
        old(reader).wf(),
    ensures
        final(reader).wf(),
        final(reader).bytes@ == old(reader).bytes@,
        old(reader).rest().len() < json_len ==> r == Err::<Json, Error>(Error::Truncated)
            && final(reader).pos == old(reader).pos,
        old(reader).rest().len() >= json_len ==> final(reader).pos == old(reader).pos + json_len
            && final(reader).rest() == old(reader).rest().skip(json_len as int) && match json_of(
            old(reader).rest().take(json_len as int),
        ) {
            Some(j) => r == Ok::<Json, Error>(j),
            None => r == Err::<Json, Error>(Error::Json),
        },
{
    let ghost rest = reader.rest();
    let buf = reader.read_exact(json_len as usize)?;
    assert(reader.rest() =~= rest.skip(json_len as int));
    match parse_json(buf.as_slice()) {
        Some(j) => Ok(j),
        None => Err(Error::Json),
    }
}

} // verus!
