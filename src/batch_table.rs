//! The batch table: optional per-feature properties of a tile.
use crate::bytes::Cursor;
use crate::error::Error;
use crate::feature_table::{
    byte_offset_from_json, byte_offset_of, component_type_of, optional_json, present,
    table_fail_len, type_of, ComponentType, Type,
};
use crate::json::{
    field, json_of, opt_same_json, parse_json, Json,
};
use vstd::prelude::*;

verus! {

/// A reference to a section of the batch table's binary body.
#[derive(Debug, Clone, Copy, PartialEq, Eq, Structural)]
pub struct BinaryBodyReference {
    /// The offset into the body, in bytes.
    pub byte_offset: usize,
    /// The datatype of the components.
    pub component_type: ComponentType,
    /// Whether an element is a scalar or a vector.
    pub property_type: Type,
}

/// The reference that an object with `byteOffset`, `componentType` and
/// `type` members denotes.
pub open spec fn batch_reference_of(j: Json) -> Option<BinaryBodyReference> {
    match (byte_offset_of(j), field(j, "componentType"@), field(j, "type"@)) {
        (Some(off), Some(c), Some(t)) => match (component_type_of(c), type_of(t)) {
            (Some(ct), Some(ty)) => Some(
                BinaryBodyReference { byte_offset: off, component_type: ct, property_type: ty },
            ),
            _ => None,
        },
        _ => None,
    }
}

impl BinaryBodyReference {
    /// Reads a reference from an object with `byteOffset`, `componentType`
    /// and `type`.
    pub fn from_json(j: &Json) -> (r: Option<BinaryBodyReference>)
        ensures
            r == batch_reference_of(*j),
    {
        match (byte_offset_from_json(j), j.get("componentType"), j.get("type")) {
            (Some(off), Some(c), Some(t)) => match (
                ComponentType::from_json(c),
                Type::from_json(t),
            ) {
                (Some(ct), Some(ty)) => Some(
                    BinaryBodyReference { byte_offset: off, component_type: ct, property_type: ty },
                ),
                _ => None,
            },
            _ => None,
        }
    }
}

/// A per-feature property of the batch table: values given inline as a JSON
/// array, or a reference into the binary body.
#[derive(Debug)]
pub enum Property {
    Array(Vec<Json>),
    BinaryBodyReference(BinaryBodyReference),
}

/// `p` is what `j` decodes to as a batch-table property.
pub open spec fn batch_property_decodes(j: Json, p: Property) -> bool {
    match p {
        Property::Array(v) => j == Json::Array(v),
        Property::BinaryBodyReference(r) => !(j is Array) && batch_reference_of(j) == Some(r),
    }
}

/// `j` decodes as a batch-table property.
pub open spec fn batch_property_decodable(j: Json) -> bool {
    j is Array || batch_reference_of(j) is Some
}

impl Property {
    /// Reads a batch-table property; an array is kept as it is.
    pub fn from_json(j: Json) -> (r: Option<Property>)
        ensures
            r is Some <==> batch_property_decodable(j),
            r matches Some(p) ==> batch_property_decodes(j, p),
    {
        match j {
            Json::Array(v) => Some(Property::Array(v)),
            _ => match BinaryBodyReference::from_json(&j) {
                Some(r) => Some(Property::BinaryBodyReference(r)),
                None => None,
            },
        }
    }
}

/// Members of a batch table's JSON that are not properties.
pub open spec fn reserved(k: Seq<char>) -> bool {
    k == "extensions"@ || k == "extras"@
}

/// `p` lists, in order, each member of `m` that is not reserved, decoded.
pub open spec fn properties_decode(m: Seq<(String, Json)>, p: Seq<(String, Property)>) -> bool
    decreases m.len(),
{
    if m.len() == 0 {
        p.len() == 0
    } else if reserved(m.last().0@) {
        properties_decode(m.drop_last(), p)
    } else {
        &&& p.len() > 0
        &&& p.last().0 == m.last().0
        &&& batch_property_decodes(m.last().1, p.last().1)
        &&& properties_decode(m.drop_last(), p.drop_last())
    }
}

/// Every member of `m` that is not reserved decodes as a property.
pub open spec fn properties_decodable(m: Seq<(String, Json)>) -> bool {
    forall|i: int| 0 <= i < m.len() && !reserved(#[trigger] m[i].0@) ==> batch_property_decodable(
        m[i].1,
    )
}

/// The JSON part of a batch table: its properties by name.
#[derive(Debug)]
pub struct BatchTableJson {
    pub properties: Vec<(String, Property)>,
    /// Extension-specific objects, by extension name.
    pub extensions: Option<Json>,
    /// Application-specific data.
    pub extras: Option<Json>,
}

/// `t` is what `j` decodes to as batch-table JSON.
pub open spec fn batch_json_decodes(j: Json, t: BatchTableJson) -> bool {
    &&& match j {
        Json::Object(m) => properties_decode(m@, t.properties@),
        _ => false,
    }
    &&& opt_same_json(present(field(j, "extensions"@)), t.extensions)
    &&& opt_same_json(present(field(j, "extras"@)), t.extras)
}

/// `j` decodes as batch-table JSON: an object whose properties all decode.
pub open spec fn batch_json_decodable(j: Json) -> bool {
    match j {
        Json::Object(m) => properties_decodable(m@),
        _ => false,
    }
}

impl BatchTableJson {
    /// Reads batch-table JSON: each member but `extensions` and `extras` is a property.
    pub fn from_json(j: Json) -> (r: Option<BatchTableJson>)
        ensures
            r is Some <==> batch_json_decodable(j),
            r matches Some(t) ==> batch_json_decodes(j, t),
    {
        let extensions = optional_json(&j, "extensions");
        let extras = optional_json(&j, "extras");
        match j {
            Json::Object(members) => {
                let ghost all = members@;
                assert(batch_json_decodable(j) == properties_decodable(all));
                assert(all.len() == members.len());
                let mut rest = members;
                let mut out: Vec<(String, Property)> = Vec::new();
                let mut i: usize = 0;
                while rest.len() > 0
                    invariant
                        i <= all.len(),
                        all.len() <= usize::MAX,
                        batch_json_decodable(j) == properties_decodable(all),
                        rest@ == all.skip(i as int),
                        properties_decode(all.take(i as int), out@),
                        properties_decodable(all.take(i as int)),
                    decreases rest@.len(),
                {
                    let (k, v) = rest.remove(0);
                    assert(all.take(i + 1).drop_last() =~= all.take(i as int));
                    assert(all.take(i + 1).last() == all[i as int]);
                    if text_is_reserved(&k) {
                        assert(properties_decodable(all.take(i + 1))) by {
                            assert forall|x: int|
                                0 <= x < i + 1 && !reserved(
                                    #[trigger] all.take(i + 1)[x].0@,
                                ) implies batch_property_decodable(all.take(i + 1)[x].1) by {
                                if x < i {
                                    assert(all.take(i + 1)[x] == all.take(i as int)[x]);
                                }
                            }
                        }
                    } else {
                        match Property::from_json(v) {
                            Some(p) => {
                                let ghost before = out@;
                                out.push((k, p));
                                assert(out@.drop_last() =~= before);
                                assert(properties_decodable(all.take(i + 1))) by {
                                    assert forall|x: int|
                                        0 <= x < i + 1 && !reserved(
                                            #[trigger] all.take(i + 1)[x].0@,
                                        ) implies batch_property_decodable(
                                        all.take(i + 1)[x].1,
                                    ) by {
                                        if x < i {
                                            assert(all.take(i + 1)[x] == all.take(i as int)[x]);
                                        }
                                    }
                                }
                            },
                            None => {
                                assert(!properties_decodable(all)) by {
                                    assert(all[i as int].0 == k);
                                    assert(all[i as int].1 == v);
                                    assert(!reserved(all[i as int].0@));
                                }
                                return None;
                            },
                        }
                    }
                    i = i + 1;
                    assert(rest@ =~= all.skip(i as int));
                }
                assert(all.take(i as int) =~= all);
                Some(BatchTableJson { properties: out, extensions, extras })
            },
            _ => None,
        }
    }
}

/// Whether a key is `extensions` or `extras`.
fn text_is_reserved(k: &String) -> (r: bool)
    ensures
        r == reserved(k@),
{
    crate::json::text_is(k, "extensions") || crate::json::text_is(k, "extras")
}

/// The batch table of a tile: properties, absent when the JSON length is
/// zero, and the binary body they refer into.
#[derive(Debug)]
pub struct BatchTable {
    pub json: Option<BatchTableJson>,
    pub body: Vec<u8>,
}

/// The error that decoding a batch table with the given lengths from `rest`
/// meets first, if any.
pub open spec fn batch_table_error(rest: Seq<u8>, json_len: nat, bin_len: nat) -> Option<Error> {
    if json_len > 0 && rest.len() < json_len {
        Some(Error::Truncated)
    } else if json_len > 0 && !(json_of(rest.take(json_len as int)) matches Some(j)
        && batch_json_decodable(j)) {
        Some(Error::Json)
    } else if rest.len() < json_len + bin_len {
        Some(Error::Truncated)
    } else {
        None
    }
}

/// `t` is the batch table that the first `json_len + bin_len` bytes of `rest` hold.
pub open spec fn batch_table_decodes(
    rest: Seq<u8>,
    json_len: nat,
    bin_len: nat,
    t: BatchTable,
) -> bool {
    &&& t.body@ == rest.subrange(json_len as int, (json_len + bin_len) as int)
    &&& (json_len == 0 <==> t.json is None)
    &&& (t.json matches Some(bj) ==> json_of(rest.take(json_len as int)) matches Some(j)
        && batch_json_decodes(j, bj))
}

/// A batch table with no JSON bytes has no properties, and its body is
/// still read whole: it succeeds exactly when the body fits, and then holds
/// the first `bin_len` bytes.
pub proof fn lemma_empty_json_batch_table(rest: Seq<u8>, bin_len: nat, t: BatchTable)
    ensures
        batch_table_error(rest, 0, bin_len) is None <==> rest.len() >= bin_len,
        batch_table_error(rest, 0, bin_len) is Some ==> batch_table_error(rest, 0, bin_len)
            == Some(Error::Truncated),
        batch_table_decodes(rest, 0, bin_len, t) ==> t.json is None && t.body@ == rest.take(
            bin_len as int,
        ),
{
    assert(rest.subrange(0, bin_len as int) =~= rest.take(bin_len as int));
}

impl BatchTable {
    /// Reads a batch table of `json_byte_length` JSON bytes and
    /// `binary_byte_length` body bytes. Zero JSON bytes mean no properties;
    /// the body is read all the same.
    pub fn from_reader(reader: &mut Cursor, json_byte_length: u32, binary_byte_length: u32) -> (r:
        Result<BatchTable, Error>)
        requires
            old(reader).wf(),
        ensures
            final(reader).wf(),
            final(reader).bytes@ == old(reader).bytes@,
            match batch_table_error(
                old(reader).rest(),
                json_byte_length as nat,
                binary_byte_length as nat,
            ) {
                Some(e) => r == Err::<BatchTable, Error>(e),
                None => r is Ok,
            },
            r matches Ok(t) ==> batch_table_decodes(
                old(reader).rest(),
                json_byte_length as nat,
                binary_byte_length as nat,
                t,
            ) && final(reader).pos == old(reader).pos + json_byte_length + binary_byte_length,
            r is Err ==> final(reader).pos == old(reader).pos + table_fail_len(
                old(reader).rest(),
                json_byte_length as nat,
            ),
    {
        let ghost rest = reader.rest();
        let json = if json_byte_length > 0 {
            let buf = reader.read_exact(json_byte_length as usize)?;
            match parse_json(buf.as_slice()) {
                Some(j) => match BatchTableJson::from_json(j) {
                    Some(t) => Some(t),
                    None => return Err(Error::Json),
                },
                None => return Err(Error::Json),
            }
        } else {
            None
        };
        let body = reader.read_exact(binary_byte_length as usize)?;
        proof {
            assert(body@ =~= rest.subrange(
                json_byte_length as int,
                json_byte_length + binary_byte_length,
            ));
        }
        Ok(BatchTable { json, body })
    }
}

} // verus!
