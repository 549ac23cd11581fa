//! Instanced 3D Model tiles.
use crate::batch_table::{
    batch_table_decodes, batch_table_error, BatchTable,
};
use crate::bytes::Cursor;
use crate::error::Error;
use crate::feature_table::{
    count_from_json, count_of, opt_bool_decodes, opt_cartesian3_decodes, opt_ok,
    opt_reference_decodes, opt_scalar_decodes, optional_bool, optional_cartesian3,
    optional_json, optional_reference, present, read_table_json, reference_of, scalar_decodable,
    scalar_decodes, table_error, table_fail_len, vector_decodable, BinaryBodyReference,
    GlobalPropertyCartesian3, GlobalPropertyScalar,
};
use crate::header::{
    field_at, fields_match, header_bytes, header_fail_len, header_fails, header_ok,
    lemma_fields_round_trip, read_header_fields, write_header_fields,
};
use crate::json::{
    field, json_of, opt_same_json, Json,
};
use vstd::prelude::*;

verus! {

/// The magic of an instanced model, `i3dm`.
pub open spec fn i3dm_magic() -> Seq<u8> {
    seq![105u8, 51u8, 100u8, 109u8]
}

/// The number of `u32` fields after the magic.
pub const HEADER_FIELDS: usize = 7;

/// The header of an instanced model.
#[derive(Debug, Clone, Copy, PartialEq, Eq)]
pub struct Header {
    /// Always `i3dm`.
    pub magic: [u8; 4],
    /// The format version; only 1 is read.
    pub version: u32,
    /// The length of the whole tile, header included.
    pub byte_length: u32,
    pub feature_table_json_byte_length: u32,
    pub feature_table_binary_byte_length: u32,
    /// Zero means that the tile has no batch table.
    pub batch_table_json_byte_length: u32,
    pub batch_table_binary_byte_length: u32,
    /// How the glTF is given: 0, a URI follows the tables; 1, a binary glTF follows them.
    pub gltf_format: u32,
}

/// `h` is the header at the start of `s`.
pub open spec fn header_decodes(s: Seq<u8>, h: Header) -> bool {
    &&& h.magic@ == s.take(4)
    &&& fields_match(s, 7, h.fields())
}

impl Header {
    /// The fields after the magic, in the order they are stored.
    pub open spec fn fields(&self) -> Seq<u32> {
        seq![
            self.version,
            self.byte_length,
            self.feature_table_json_byte_length,
            self.feature_table_binary_byte_length,
            self.batch_table_json_byte_length,
            self.batch_table_binary_byte_length,
            self.gltf_format,
        ]
    }

    /// Reads the header: the magic must be `i3dm` and the version 1.
    pub fn from_reader(reader: &mut Cursor) -> (r: Result<Header, Error>)
        requires
            old(reader).wf(),
        ensures
            final(reader).wf(),
            final(reader).bytes@ == old(reader).bytes@,
            r is Ok <==> header_ok(old(reader).rest(), i3dm_magic(), 7),
            r matches Ok(h) ==> header_decodes(old(reader).rest(), h) && final(reader).pos
                == old(reader).pos + 32,
            r matches Err(e) ==> header_fails(old(reader).rest(), i3dm_magic(), 7, e),
            r is Err ==> final(reader).pos == old(reader).pos + header_fail_len(
                old(reader).rest(),
                i3dm_magic(),
                7,
            ),
    {
        let magic: [u8; 4] = [105, 51, 100, 109];
        assert(magic@ =~= i3dm_magic());
        let v = read_header_fields(reader, magic, HEADER_FIELDS)?;
        let h = Header {
            magic,
            version: v[0],
            byte_length: v[1],
            feature_table_json_byte_length: v[2],
            feature_table_binary_byte_length: v[3],
            batch_table_json_byte_length: v[4],
            batch_table_binary_byte_length: v[5],
            gltf_format: v[6],
        };
        assert(h.fields() =~= v@);
        Ok(h)
    }

    /// The header's bytes: the magic, then each field little-endian.
    pub fn to_bytes(&self) -> (r: Vec<u8>)
        ensures
            r@ == header_bytes(self.magic@, self.fields()),
    {
        let v = vec![
            self.version,
            self.byte_length,
            self.feature_table_json_byte_length,
            self.feature_table_binary_byte_length,
            self.batch_table_json_byte_length,
            self.batch_table_binary_byte_length,
            self.gltf_format,
        ];
        assert(v@ =~= self.fields());
        write_header_fields(self.magic, &v)
    }
}

/// Decoding the bytes of a valid header gives the header back, whatever
/// follows it.
pub proof fn lemma_header_round_trip(h: Header, tail: Seq<u8>)
    requires
        h.magic@ == i3dm_magic(),
        h.version == 1,
    ensures
        header_ok(header_bytes(h.magic@, h.fields()) + tail, i3dm_magic(), 7),
        forall|g: Header| #[trigger]
            header_decodes(header_bytes(h.magic@, h.fields()) + tail, g) ==> g == h,
{
    lemma_fields_round_trip(h.magic@, h.fields(), tail);
    let s = header_bytes(h.magic@, h.fields()) + tail;
    assert(field_at(s, 0) == h.fields()[0]);
    assert forall|g: Header| #[trigger] header_decodes(s, g) implies g == h by {
        assert(g.magic@ == h.magic@);
        assert(g.magic == h.magic);
        assert(g.fields()[0] == h.fields()[0]);
        assert(g.fields()[1] == h.fields()[1]);
        assert(g.fields()[2] == h.fields()[2]);
        assert(g.fields()[3] == h.fields()[3]);
        assert(g.fields()[4] == h.fields()[4]);
        assert(g.fields()[5] == h.fields()[5]);
        assert(g.fields()[6] == h.fields()[6]);
    }
}

/// The semantics of an instanced model's feature table.
#[derive(Debug)]
pub struct InstancedFeatureTable {
    pub batch_id: Option<BinaryBodyReference>,
    /// Whether instances are oriented east-north-up where no normals are given.
    pub east_north_up: Option<bool>,
    /// The number of instances.
    pub instances_length: GlobalPropertyScalar,
    pub normal_right: Option<BinaryBodyReference>,
    pub normal_right_oct32_p: Option<BinaryBodyReference>,
    pub normal_up: Option<BinaryBodyReference>,
    pub normal_up_oct32_p: Option<BinaryBodyReference>,
    pub position: Option<BinaryBodyReference>,
    pub position_quantized: Option<BinaryBodyReference>,
    pub quantized_volume_offset: Option<GlobalPropertyCartesian3>,
    pub quantized_volume_scale: Option<GlobalPropertyCartesian3>,
    pub rtc_center: Option<GlobalPropertyCartesian3>,
    pub scale: Option<BinaryBodyReference>,
    pub scale_non_uniform: Option<BinaryBodyReference>,
    /// Extension-specific objects, by extension name.
    pub extensions: Option<Json>,
    /// Application-specific data.
    pub extras: Option<Json>,
}

/// `j` has the semantics of an instanced model: an `INSTANCES_LENGTH` scalar,
/// and each other semantic, where present, of its shape.
pub open spec fn table_ok(j: Json) -> bool {
    &&& opt_ok(present(field(j, "BATCH_ID"@)), |x: Json| reference_of(x) is Some)
    &&& opt_ok(present(field(j, "EAST_NORTH_UP"@)), |x: Json| x is Bool)
    &&& field(j, "INSTANCES_LENGTH"@) matches Some(b) && scalar_decodable(b)
    &&& opt_ok(present(field(j, "NORMAL_RIGHT"@)), |x: Json| reference_of(x) is Some)
    &&& opt_ok(present(field(j, "NORMAL_RIGHT_OCT32P"@)), |x: Json| reference_of(x) is Some)
    &&& opt_ok(present(field(j, "NORMAL_UP"@)), |x: Json| reference_of(x) is Some)
    &&& opt_ok(present(field(j, "NORMAL_UP_OCT32P"@)), |x: Json| reference_of(x) is Some)
    &&& opt_ok(present(field(j, "POSITION"@)), |x: Json| reference_of(x) is Some)
    &&& opt_ok(present(field(j, "POSITION_QUANTIZED"@)), |x: Json| reference_of(x) is Some)
    &&& opt_ok(present(field(j, "QUANTIZED_VOLUME_OFFSET"@)), |x: Json| vector_decodable(x))
    &&& opt_ok(present(field(j, "QUANTIZED_VOLUME_SCALE"@)), |x: Json| vector_decodable(x))
    &&& opt_ok(present(field(j, "RTC_CENTER"@)), |x: Json| vector_decodable(x))
    &&& opt_ok(present(field(j, "SCALE"@)), |x: Json| reference_of(x) is Some)
    &&& opt_ok(present(field(j, "SCALE_NON_UNIFORM"@)), |x: Json| reference_of(x) is Some)
}

/// `t` holds the semantics that `j` gives.
pub open spec fn table_decodes(j: Json, t: InstancedFeatureTable) -> bool {
    &&& opt_reference_decodes(present(field(j, "BATCH_ID"@)), t.batch_id)
    &&& opt_bool_decodes(present(field(j, "EAST_NORTH_UP"@)), t.east_north_up)
    &&& field(j, "INSTANCES_LENGTH"@) matches Some(b) && scalar_decodes(b, t.instances_length)
    &&& opt_reference_decodes(present(field(j, "NORMAL_RIGHT"@)), t.normal_right)
    &&& opt_reference_decodes(present(field(j, "NORMAL_RIGHT_OCT32P"@)), t.normal_right_oct32_p)
    &&& opt_reference_decodes(present(field(j, "NORMAL_UP"@)), t.normal_up)
    &&& opt_reference_decodes(present(field(j, "NORMAL_UP_OCT32P"@)), t.normal_up_oct32_p)
    &&& opt_reference_decodes(present(field(j, "POSITION"@)), t.position)
    &&& opt_reference_decodes(present(field(j, "POSITION_QUANTIZED"@)), t.position_quantized)
    &&& opt_cartesian3_decodes(
        present(field(j, "QUANTIZED_VOLUME_OFFSET"@)),
        t.quantized_volume_offset,
    )
    &&& opt_cartesian3_decodes(
        present(field(j, "QUANTIZED_VOLUME_SCALE"@)),
        t.quantized_volume_scale,
    )
    &&& opt_cartesian3_decodes(present(field(j, "RTC_CENTER"@)), t.rtc_center)
    &&& opt_reference_decodes(present(field(j, "SCALE"@)), t.scale)
    &&& opt_reference_decodes(present(field(j, "SCALE_NON_UNIFORM"@)), t.scale_non_uniform)
    &&& opt_same_json(present(field(j, "extensions"@)), t.extensions)
    &&& opt_same_json(present(field(j, "extras"@)), t.extras)
}

impl InstancedFeatureTable {
    /// Reads the semantics from the feature table's JSON.
    pub fn from_json(j: &Json) -> (r: Option<InstancedFeatureTable>)
        ensures
            r is Some <==> table_ok(*j),
            r matches Some(t) ==> table_decodes(*j, t),
    {
        let batch_id = match optional_reference(j, "BATCH_ID") {
            Some(v) => v,
            None => return None,
        };
        let east_north_up = match optional_bool(j, "EAST_NORTH_UP") {
            Some(v) => v,
            None => return None,
        };
        let instances_length = match j.get("INSTANCES_LENGTH") {
            Some(b) => match GlobalPropertyScalar::from_json(b) {
                Some(p) => p,
                None => return None,
            },
            None => return None,
        };
        let normal_right = match optional_reference(j, "NORMAL_RIGHT") {
            Some(v) => v,
            None => return None,
        };
        let normal_right_oct32_p = match optional_reference(j, "NORMAL_RIGHT_OCT32P") {
            Some(v) => v,
            None => return None,
        };
        let normal_up = match optional_reference(j, "NORMAL_UP") {
            Some(v) => v,
            None => return None,
        };
        let normal_up_oct32_p = match optional_reference(j, "NORMAL_UP_OCT32P") {
            Some(v) => v,
            None => return None,
        };
        let position = match optional_reference(j, "POSITION") {
            Some(v) => v,
            None => return None,
        };
        let position_quantized = match optional_reference(j, "POSITION_QUANTIZED") {
            Some(v) => v,
            None => return None,
        };
        let quantized_volume_offset = match optional_cartesian3(j, "QUANTIZED_VOLUME_OFFSET") {
            Some(v) => v,
            None => return None,
        };
        let quantized_volume_scale = match optional_cartesian3(j, "QUANTIZED_VOLUME_SCALE") {
            Some(v) => v,
            None => return None,
        };
        let rtc_center = match optional_cartesian3(j, "RTC_CENTER") {
            Some(v) => v,
            None => return None,
        };
        let scale = match optional_reference(j, "SCALE") {
            Some(v) => v,
            None => return None,
        };
        let scale_non_uniform = match optional_reference(j, "SCALE_NON_UNIFORM") {
            Some(v) => v,
            None => return None,
        };
        let extensions = optional_json(j, "extensions");
        let extras = optional_json(j, "extras");
        Some(InstancedFeatureTable {
            extensions,
            extras,
            batch_id,
            east_north_up,
            instances_length,
            normal_right,
            normal_right_oct32_p,
            normal_up,
            normal_up_oct32_p,
            position,
            position_quantized,
            quantized_volume_offset,
            quantized_volume_scale,
            rtc_center,
            scale,
            scale_non_uniform,
        })
    }
}

/// The feature table of an instanced model.
#[derive(Debug)]
pub struct FeatureTable {
    pub json: InstancedFeatureTable,
    pub body: Vec<u8>,
}

/// `t` is the feature table that the first `json_len + bin_len` bytes of `rest` hold.
pub open spec fn feature_table_decodes(
    rest: Seq<u8>,
    json_len: nat,
    bin_len: nat,
    t: FeatureTable,
) -> bool {
    &&& json_of(rest.take(json_len as int)) matches Some(j) && table_decodes(j, t.json)
    &&& t.body@ == rest.subrange(json_len as int, (json_len + bin_len) as int)
}

impl FeatureTable {
    /// Reads `json_byte_length` bytes of JSON and `binary_byte_length` bytes of body.
    pub fn from_reader(reader: &mut Cursor, json_byte_length: u32, binary_byte_length: u32) -> (r:
        Result<FeatureTable, Error>)
        requires
            old(reader).wf(),
        ensures
            final(reader).wf(),
            final(reader).bytes@ == old(reader).bytes@,
            match table_error(
                old(reader).rest(),
                json_byte_length as nat,
                binary_byte_length as nat,
                |j: Json| table_ok(j),
            ) {
                Some(e) => r == Err::<FeatureTable, Error>(e),
                None => r is Ok,
            },
            r matches Ok(t) ==> feature_table_decodes(
                old(reader).rest(),
                json_byte_length as nat,
                binary_byte_length as nat,
                t,
            ) && final(reader).pos == old(reader).pos + json_byte_length + binary_byte_length,
            r is Err ==> final(reader).pos == old(reader).pos + table_fail_len(
                old(reader).rest(),
                json_byte_length as nat,
            ),
    {
        let ghost rest = reader.rest();
        let j = read_table_json(reader, json_byte_length)?;
        let json = match InstancedFeatureTable::from_json(&j) {
            Some(t) => t,
            None => return Err(Error::Json),
        };
        let body = reader.read_exact(binary_byte_length as usize)?;
        assert(body@ =~= rest.subrange(
            json_byte_length as int,
            json_byte_length + binary_byte_length,
        ));
        Ok(FeatureTable { json, body })
    }
}

/// An instanced model: its header and tables.
#[derive(Debug)]
pub struct I3dm {
    pub header: Header,
    pub feature_table: FeatureTable,
    pub batch_table: BatchTable,
}

/// The bytes that follow the header and the feature table.
pub open spec fn after_feature_table(s: Seq<u8>) -> Seq<u8> {
    s.skip(32 + field_at(s, 2) + field_at(s, 3))
}

/// An instanced model can be read from the start of `s`.
pub open spec fn tile_ok(s: Seq<u8>) -> bool {
    &&& header_ok(s, i3dm_magic(), 7)
    &&& table_error(
        s.skip(32),
        field_at(s, 2) as nat,
        field_at(s, 3) as nat,
        |j: Json| table_ok(j),
    ) is None
    &&& batch_table_error(
        after_feature_table(s),
        field_at(s, 4) as nat,
        field_at(s, 5) as nat,
    ) is None
}

/// How many bytes reading the tile has consumed when it fails: as much of
/// the header, then of the table, as was read before the failing part.
pub open spec fn tile_fail_len(s: Seq<u8>) -> int {
    if !header_ok(s, i3dm_magic(), 7) {
        header_fail_len(s, i3dm_magic(), 7)
    } else if table_error(
        s.skip(32),
        field_at(s, 2) as nat,
        field_at(s, 3) as nat,
        |j: Json| table_ok(j),
    ) is Some {
        32 + table_fail_len(s.skip(32), field_at(s, 2) as nat)
    } else {
        32 + field_at(s, 2) + field_at(s, 3) + table_fail_len(
            after_feature_table(s),
            field_at(s, 4) as nat,
        )
    }
}

/// `e` is the first error met when reading an instanced model from `s`.
pub open spec fn tile_fails(s: Seq<u8>, e: Error) -> bool {
    if !header_ok(s, i3dm_magic(), 7) {
        header_fails(s, i3dm_magic(), 7, e)
    } else {
        match table_error(
            s.skip(32),
            field_at(s, 2) as nat,
            field_at(s, 3) as nat,
            |j: Json| table_ok(j),
        ) {
            Some(x) => e == x,
            None => batch_table_error(
                after_feature_table(s),
                field_at(s, 4) as nat,
                field_at(s, 5) as nat,
            ) == Some(e),
        }
    }
}

/// `t` is an instanced model at the start of `s`, and `len` the bytes it takes.
pub open spec fn tile_decodes(s: Seq<u8>, t: I3dm, len: int) -> bool {
    let h = t.header;
    &&& header_decodes(s, h)
    &&& feature_table_decodes(
        s.skip(32),
        h.feature_table_json_byte_length as nat,
        h.feature_table_binary_byte_length as nat,
        t.feature_table,
    )
    &&& batch_table_decodes(
        after_feature_table(s),
        h.batch_table_json_byte_length as nat,
        h.batch_table_binary_byte_length as nat,
        t.batch_table,
    )
    &&& len == 32 + h.feature_table_json_byte_length + h.feature_table_binary_byte_length
        + h.batch_table_json_byte_length + h.batch_table_binary_byte_length
}

impl I3dm {
    /// Reads the header and both tables, and leaves the reader after them.
    pub fn from_reader(reader: &mut Cursor) -> (r: Result<I3dm, Error>)
        requires
            old(reader).wf(),
        ensures
            final(reader).wf(),
            final(reader).bytes@ == old(reader).bytes@,
            r is Ok <==> tile_ok(old(reader).rest()),
            r matches Err(e) ==> tile_fails(old(reader).rest(), e),
            r is Err ==> final(reader).pos == old(reader).pos + tile_fail_len(old(reader).rest()),
            r matches Ok(t) ==> tile_decodes(
                old(reader).rest(),
                t,
                final(reader).pos - old(reader).pos,
            ),
    {
        let ghost s = reader.rest();
        let header = Header::from_reader(reader)?;
        assert(reader.rest() =~= s.skip(32));
        let feature_table = FeatureTable::from_reader(
            reader,
            header.feature_table_json_byte_length,
            header.feature_table_binary_byte_length,
        )?;
        assert(reader.rest() =~= after_feature_table(s));
        let batch_table = BatchTable::from_reader(
            reader,
            header.batch_table_json_byte_length,
            header.batch_table_binary_byte_length,
        )?;
        Ok(I3dm { header, feature_table, batch_table })
    }
}
} // verus!
