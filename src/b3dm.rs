//! Batched 3D Model tiles.
use crate::batch_table::{
    batch_table_decodes, batch_table_error, BatchTable,
};
use crate::bytes::Cursor;
use crate::error::Error;
use crate::feature_table::{
    members_of, names, opt_cartesian3_decodes, opt_ok, optional_cartesian3, optional_json,
    other_properties, other_properties_decode, other_properties_ok, present, read_table_json,
    scalar_decodable, scalar_decodes, table_error, table_fail_len, vector_decodable,
    GlobalPropertyCartesian3, GlobalPropertyScalar, Property,
};
use crate::header::{
    field_at, fields_match, header_bytes, header_fail_len, header_fails, header_ok,
    lemma_fields_round_trip, read_header_fields, write_header_fields,
};
use crate::json::{
    field, json_of, opt_same_json, Json,
};
use vstd::prelude::*;

verus! {

/// The magic of a batched model, `b3dm`.
pub open spec fn b3dm_magic() -> Seq<u8> {
    seq![98u8, 51u8, 100u8, 109u8]
}

/// The number of `u32` fields after the magic.
pub const HEADER_FIELDS: usize = 6;

/// The header of a batched model.
#[derive(Debug, Clone, Copy, PartialEq, Eq)]
pub struct Header {
    /// Always `b3dm`.
    pub magic: [u8; 4],
    /// The format version; only 1 is read.
    pub version: u32,
    /// The length of the whole tile, header included.
    pub byte_length: u32,
    pub feature_table_json_byte_length: u32,
    pub feature_table_binary_byte_length: u32,
    /// Zero means that the tile has no batch table.
    pub batch_table_json_byte_length: u32,
    pub batch_table_binary_byte_length: u32,
}

/// `h` is the header at the start of `s`.
pub open spec fn header_decodes(s: Seq<u8>, h: Header) -> bool {
    &&& h.magic@ == s.take(4)
    &&& fields_match(s, 6, h.fields())
}

impl Header {
    /// The fields after the magic, in the order they are stored.
    pub open spec fn fields(&self) -> Seq<u32> {
        seq![
            self.version,
            self.byte_length,
            self.feature_table_json_byte_length,
            self.feature_table_binary_byte_length,
            self.batch_table_json_byte_length,
            self.batch_table_binary_byte_length,
        ]
    }

    /// Reads the header: the magic must be `b3dm` and the version 1.
    pub fn from_reader(reader: &mut Cursor) -> (r: Result<Header, Error>)
        requires
            old(reader).wf(),
        ensures
            final(reader).wf(),
            final(reader).bytes@ == old(reader).bytes@,
            r is Ok <==> header_ok(old(reader).rest(), b3dm_magic(), 6),
            r matches Ok(h) ==> header_decodes(old(reader).rest(), h) && final(reader).pos
                == old(reader).pos + 28,
            r matches Err(e) ==> header_fails(old(reader).rest(), b3dm_magic(), 6, e),
            r is Err ==> final(reader).pos == old(reader).pos + header_fail_len(
                old(reader).rest(),
                b3dm_magic(),
                6,
            ),
    {
        let magic: [u8; 4] = [98, 51, 100, 109];
        assert(magic@ =~= b3dm_magic());
        let v = read_header_fields(reader, magic, HEADER_FIELDS)?;
        let h = Header {
            magic,
            version: v[0],
            byte_length: v[1],
            feature_table_json_byte_length: v[2],
            feature_table_binary_byte_length: v[3],
            batch_table_json_byte_length: v[4],
            batch_table_binary_byte_length: v[5],
        };
        assert(h.fields() =~= v@);
        Ok(h)
    }

    /// The header's bytes: the magic, then each field little-endian.
    pub fn to_bytes(&self) -> (r: Vec<u8>)
        ensures
            r@ == header_bytes(self.magic@, self.fields()),
    {
        let v = vec![
            self.version,
            self.byte_length,
            self.feature_table_json_byte_length,
            self.feature_table_binary_byte_length,
            self.batch_table_json_byte_length,
            self.batch_table_binary_byte_length,
        ];
        assert(v@ =~= self.fields());
        write_header_fields(self.magic, &v)
    }
}

/// Decoding the bytes of a valid header gives the header back, whatever
/// follows it.
pub proof fn lemma_header_round_trip(h: Header, tail: Seq<u8>)
    requires
        h.magic@ == b3dm_magic(),
        h.version == 1,
    ensures
        header_ok(header_bytes(h.magic@, h.fields()) + tail, b3dm_magic(), 6),
        forall|g: Header| #[trigger]
            header_decodes(header_bytes(h.magic@, h.fields()) + tail, g) ==> g == h,
{
    lemma_fields_round_trip(h.magic@, h.fields(), tail);
    let s = header_bytes(h.magic@, h.fields()) + tail;
    assert(field_at(s, 0) == h.fields()[0]);
    assert forall|g: Header| #[trigger] header_decodes(s, g) implies g == h by {
        assert(g.magic@ == h.magic@);
        assert(g.magic == h.magic);
        assert(g.fields()[0] == h.fields()[0]);
        assert(g.fields()[1] == h.fields()[1]);
        assert(g.fields()[2] == h.fields()[2]);
        assert(g.fields()[3] == h.fields()[3]);
        assert(g.fields()[4] == h.fields()[4]);
        assert(g.fields()[5] == h.fields()[5]);
    }
}

/// The semantics of a batched model's feature table.
#[derive(Debug)]
pub struct BatchedFeatureTable {
    /// The number of distinguishable models in the batch.
    pub batch_length: GlobalPropertyScalar,
    /// A center that positions are relative to.
    pub rtc_center: Option<GlobalPropertyCartesian3>,
    /// Every other member but `extensions` and `extras`, as a per-feature property.
    pub properties: Vec<(String, Property)>,
    /// Extension-specific objects, by extension name.
    pub extensions: Option<Json>,
    /// Application-specific data.
    pub extras: Option<Json>,
}

/// `j` has the semantics of a batched model: a `BATCH_LENGTH` scalar, and
/// `RTC_CENTER`, where present, a 3-component property.
pub open spec fn batched_ok(j: Json) -> bool {
    &&& field(j, "BATCH_LENGTH"@) matches Some(b) && scalar_decodable(b)
    &&& opt_ok(present(field(j, "RTC_CENTER"@)), |x: Json| vector_decodable(x))
    &&& other_properties_ok(members_of(j), known_names())
}

/// `t` holds the semantics that `j` gives.
pub open spec fn batched_decodes(j: Json, t: BatchedFeatureTable) -> bool {
    &&& field(j, "BATCH_LENGTH"@) matches Some(b) && scalar_decodes(b, t.batch_length)
    &&& opt_cartesian3_decodes(present(field(j, "RTC_CENTER"@)), t.rtc_center)
    &&& other_properties_decode(members_of(j), known_names(), t.properties@)
    &&& opt_same_json(present(field(j, "extensions"@)), t.extensions)
    &&& opt_same_json(present(field(j, "extras"@)), t.extras)
}

/// The members that are semantics of the table, or reserved.
pub open spec fn known_names() -> Seq<Seq<char>> {
    seq![
        "BATCH_LENGTH"@,
        "RTC_CENTER"@,
        "extensions"@,
        "extras"@,
    ]
}

impl BatchedFeatureTable {
    /// Reads the semantics from the feature table's JSON.
    pub fn from_json(j: &Json) -> (r: Option<BatchedFeatureTable>)
        ensures
            r is Some <==> batched_ok(*j),
            r matches Some(t) ==> batched_decodes(*j, t),
    {
        let batch_length = match j.get("BATCH_LENGTH") {
            Some(b) => match GlobalPropertyScalar::from_json(b) {
                Some(p) => p,
                None => return None,
            },
            None => return None,
        };
        let rtc_center = match optional_cartesian3(j, "RTC_CENTER") {
            Some(v) => v,
            None => return None,
        };
        let known = vec![
            "BATCH_LENGTH",
            "RTC_CENTER",
            "extensions",
            "extras",
        ];
        assert(names(known@) =~= known_names());
        let properties = match other_properties(j, &known) {
            Some(p) => p,
            None => return None,
        };
        let extensions = optional_json(j, "extensions");
        let extras = optional_json(j, "extras");
        Some(BatchedFeatureTable { batch_length, rtc_center, properties, extensions, extras })
    }
}

/// The feature table of a batched model.
#[derive(Debug)]
pub struct FeatureTable {
    pub json: BatchedFeatureTable,
    pub body: Vec<u8>,
}

/// `t` is the feature table that the first `json_len + bin_len` bytes of `rest` hold.
pub open spec fn feature_table_decodes(
    rest: Seq<u8>,
    json_len: nat,
    bin_len: nat,
    t: FeatureTable,
) -> bool {
    &&& json_of(rest.take(json_len as int)) matches Some(j) && batched_decodes(j, t.json)
    &&& t.body@ == rest.subrange(json_len as int, (json_len + bin_len) as int)
}

impl FeatureTable {
    /// Reads `json_byte_length` bytes of JSON and `binary_byte_length` bytes of body.
    pub fn from_reader(reader: &mut Cursor, json_byte_length: u32, binary_byte_length: u32) -> (r:
        Result<FeatureTable, Error>)
        requires
            old(reader).wf(),
        ensures
            final(reader).wf(),
            final(reader).bytes@ == old(reader).bytes@,
            match table_error(
                old(reader).rest(),
                json_byte_length as nat,
                binary_byte_length as nat,
                |j: Json| batched_ok(j),
            ) {
                Some(e) => r == Err::<FeatureTable, Error>(e),
                None => r is Ok,
            },
            r matches Ok(t) ==> feature_table_decodes(
                old(reader).rest(),
                json_byte_length as nat,
                binary_byte_length as nat,
                t,
            ) && final(reader).pos == old(reader).pos + json_byte_length + binary_byte_length,
            r is Err ==> final(reader).pos == old(reader).pos + table_fail_len(
                old(reader).rest(),
                json_byte_length as nat,
            ),
    {
        let ghost rest = reader.rest();
        let j = read_table_json(reader, json_byte_length)?;
        let json = match BatchedFeatureTable::from_json(&j) {
            Some(t) => t,
            None => return Err(Error::Json),
        };
        let body = reader.read_exact(binary_byte_length as usize)?;
        assert(body@ =~= rest.subrange(
            json_byte_length as int,
            json_byte_length + binary_byte_length,
        ));
        Ok(FeatureTable { json, body })
    }
}

/// A batched model: its header and tables. The embedded glTF follows them.
#[derive(Debug)]
pub struct B3dm {
    pub header: Header,
    pub feature_table: FeatureTable,
    pub batch_table: BatchTable,
}

/// The bytes that follow the header and the feature table.
pub open spec fn after_feature_table(s: Seq<u8>) -> Seq<u8> {
    s.skip(28 + field_at(s, 2) + field_at(s, 3))
}

/// A batched model can be read from the start of `s`.
pub open spec fn b3dm_ok(s: Seq<u8>) -> bool {
    &&& header_ok(s, b3dm_magic(), 6)
    &&& table_error(
        s.skip(28),
        field_at(s, 2) as nat,
        field_at(s, 3) as nat,
        |j: Json| batched_ok(j),
    ) is None
    &&& batch_table_error(
        after_feature_table(s),
        field_at(s, 4) as nat,
        field_at(s, 5) as nat,
    ) is None
}

/// How many bytes reading the tile has consumed when it fails: as much of
/// the header, then of the table, as was read before the failing part.
pub open spec fn tile_fail_len(s: Seq<u8>) -> int {
    if !header_ok(s, b3dm_magic(), 6) {
        header_fail_len(s, b3dm_magic(), 6)
    } else if table_error(
        s.skip(28),
        field_at(s, 2) as nat,
        field_at(s, 3) as nat,
        |j: Json| batched_ok(j),
    ) is Some {
        28 + table_fail_len(s.skip(28), field_at(s, 2) as nat)
    } else {
        28 + field_at(s, 2) + field_at(s, 3) + table_fail_len(
            after_feature_table(s),
            field_at(s, 4) as nat,
        )
    }
}

/// `e` is the first error met when reading a batched model from `s`.
pub open spec fn b3dm_fails(s: Seq<u8>, e: Error) -> bool {
    if !header_ok(s, b3dm_magic(), 6) {
        header_fails(s, b3dm_magic(), 6, e)
    } else {
        match table_error(
            s.skip(28),
            field_at(s, 2) as nat,
            field_at(s, 3) as nat,
            |j: Json| batched_ok(j),
        ) {
            Some(x) => e == x,
            None => batch_table_error(
                after_feature_table(s),
                field_at(s, 4) as nat,
                field_at(s, 5) as nat,
            ) == Some(e),
        }
    }
}

/// `t` is the batched model at the start of `s`, and `len` the bytes it takes.
pub open spec fn b3dm_decodes(s: Seq<u8>, t: B3dm, len: int) -> bool {
    let h = t.header;
    &&& header_decodes(s, h)
    &&& feature_table_decodes(
        s.skip(28),
        h.feature_table_json_byte_length as nat,
        h.feature_table_binary_byte_length as nat,
        t.feature_table,
    )
    &&& batch_table_decodes(
        after_feature_table(s),
        h.batch_table_json_byte_length as nat,
        h.batch_table_binary_byte_length as nat,
        t.batch_table,
    )
    &&& len == 28 + h.feature_table_json_byte_length + h.feature_table_binary_byte_length
        + h.batch_table_json_byte_length + h.batch_table_binary_byte_length
}

impl B3dm {
    /// Reads the header and both tables, and leaves the reader at the glTF.
    pub fn from_reader(reader: &mut Cursor) -> (r: Result<B3dm, Error>)
        requires
            old(reader).wf(),
        ensures
            final(reader).wf(),
            final(reader).bytes@ == old(reader).bytes@,
            r is Ok <==> b3dm_ok(old(reader).rest()),
            r matches Err(e) ==> b3dm_fails(old(reader).rest(), e),
            r is Err ==> final(reader).pos == old(reader).pos + tile_fail_len(old(reader).rest()),
            r matches Ok(t) ==> b3dm_decodes(
                old(reader).rest(),
                t,
                final(reader).pos - old(reader).pos,
            ),
    {
        let ghost s = reader.rest();
        let header = Header::from_reader(reader)?;
        assert(reader.rest() =~= s.skip(28));
        let feature_table = FeatureTable::from_reader(
            reader,
            header.feature_table_json_byte_length,
            header.feature_table_binary_byte_length,
        )?;
        assert(reader.rest() =~= after_feature_table(s));
        let batch_table = BatchTable::from_reader(
            reader,
            header.batch_table_json_byte_length,
            header.batch_table_binary_byte_length,
        )?;
        Ok(B3dm { header, feature_table, batch_table })
    }
}

} // verus!
