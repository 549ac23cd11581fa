//! Point Cloud tiles.
use crate::batch_table::{
    batch_table_decodes, batch_table_error, BatchTable,
};
use crate::bytes::{
    le_u32, u32_at, Cursor,
};
use crate::error::Error;
use crate::feature_table::{
    count_from_json, count_of, members_of, names, opt_cartesian3_decodes,
    opt_cartesian4_decodes, opt_ok, opt_reference_decodes, opt_scalar_decodes,
    optional_cartesian3, optional_cartesian4, optional_json, optional_reference,
    optional_scalar, other_properties, other_properties_decode, other_properties_ok, present,
    read_table_json, reference_of, scalar_decodable, table_error, table_fail_len,
    vector_decodable, BinaryBodyReference, GlobalPropertyCartesian3, GlobalPropertyCartesian4,
    GlobalPropertyScalar, Property,
};
use crate::header::{
    field_at, fields_match, header_bytes, header_fail_len, header_fails, header_ok,
    lemma_fields_round_trip, read_header_fields, write_header_fields,
};
use crate::feature_table::ComponentType;
use crate::json::{
    field, json_of, opt_same_json, Json,
};
use crate::points::{
    batch_ids_u16_decode, batch_ids_u32_decode, batch_ids_u8_decode, fits, normals_decode,
    normals_oct16p_decode, position_quantized_decode, read_batch_ids_u16, read_batch_ids_u32,
    read_batch_ids_u8, read_normals, read_normals_oct16p, read_position_quantized, read_rgb,
    read_rgb565, read_rgba, rgb565_decode, rgb_decode, rgba_decode, PointValues,
};
use vstd::prelude::*;

verus! {

/// The magic of a point cloud, `pnts`.
pub open spec fn pnts_magic() -> Seq<u8> {
    seq![112u8, 110u8, 116u8, 115u8]
}

/// The number of `u32` fields after the magic.
pub const HEADER_FIELDS: usize = 6;

/// The header of a point cloud.
#[derive(Debug, Clone, Copy, PartialEq, Eq)]
pub struct Header {
    /// Always `pnts`.
    pub magic: [u8; 4],
    /// The format version; only 1 is read.
    pub version: u32,
    /// The length of the whole tile, header included.
    pub byte_length: u32,
    pub feature_table_json_byte_length: u32,
    pub feature_table_binary_byte_length: u32,
    /// Zero means that the tile has no batch table.
    pub batch_table_json_byte_length: u32,
    pub batch_table_binary_byte_length: u32,
}

/// The header of a point cloud, under the name the point-cloud format gives it.
pub type PntsHeader = Header;

/// `h` is the header at the start of `s`.
pub open spec fn header_decodes(s: Seq<u8>, h: Header) -> bool {
    &&& h.magic@ == s.take(4)
    &&& fields_match(s, 6, h.fields())
}

impl Header {
    /// The fields after the magic, in the order they are stored.
    pub open spec fn fields(&self) -> Seq<u32> {
        seq![
            self.version,
            self.byte_length,
            self.feature_table_json_byte_length,
            self.feature_table_binary_byte_length,
            self.batch_table_json_byte_length,
            self.batch_table_binary_byte_length,
        ]
    }

    /// Reads the header: the magic must be `pnts` and the version 1.
    pub fn from_reader(reader: &mut Cursor) -> (r: Result<Header, Error>)
        requires
            old(reader).wf(),
        ensures
            final(reader).wf(),
            final(reader).bytes@ == old(reader).bytes@,
            r is Ok <==> header_ok(old(reader).rest(), pnts_magic(), 6),
            r matches Ok(h) ==> header_decodes(old(reader).rest(), h) && final(reader).pos
                == old(reader).pos + 28,
            r matches Err(e) ==> header_fails(old(reader).rest(), pnts_magic(), 6, e),
            r is Err ==> final(reader).pos == old(reader).pos + header_fail_len(
                old(reader).rest(),
                pnts_magic(),
                6,
            ),
    {
        let magic: [u8; 4] = [112, 110, 116, 115];
        assert(magic@ =~= pnts_magic());
        let v = read_header_fields(reader, magic, HEADER_FIELDS)?;
        let h = Header {
            magic,
            version: v[0],
            byte_length: v[1],
            feature_table_json_byte_length: v[2],
            feature_table_binary_byte_length: v[3],
            batch_table_json_byte_length: v[4],
            batch_table_binary_byte_length: v[5],
        };
        assert(h.fields() =~= v@);
        Ok(h)
    }

    /// The header's bytes: the magic, then each field little-endian.
    pub fn to_bytes(&self) -> (r: Vec<u8>)
        ensures
            r@ == header_bytes(self.magic@, self.fields()),
    {
        let v = vec![
            self.version,
            self.byte_length,
            self.feature_table_json_byte_length,
            self.feature_table_binary_byte_length,
            self.batch_table_json_byte_length,
            self.batch_table_binary_byte_length,
        ];
        assert(v@ =~= self.fields());
        write_header_fields(self.magic, &v)
    }
}

/// Decoding the bytes of a valid header gives the header back, whatever
/// follows it.
pub proof fn lemma_header_round_trip(h: Header, tail: Seq<u8>)
    requires
        h.magic@ == pnts_magic(),
        h.version == 1,
    ensures
        header_ok(header_bytes(h.magic@, h.fields()) + tail, pnts_magic(), 6),
        forall|g: Header| #[trigger]
            header_decodes(header_bytes(h.magic@, h.fields()) + tail, g) ==> g == h,
{
    lemma_fields_round_trip(h.magic@, h.fields(), tail);
    let s = header_bytes(h.magic@, h.fields()) + tail;
    assert(field_at(s, 0) == h.fields()[0]);
    assert forall|g: Header| #[trigger] header_decodes(s, g) implies g == h by {
        assert(g.magic@ == h.magic@);
        assert(g.magic == h.magic);
        assert(g.fields()[0] == h.fields()[0]);
        assert(g.fields()[1] == h.fields()[1]);
        assert(g.fields()[2] == h.fields()[2]);
        assert(g.fields()[3] == h.fields()[3]);
        assert(g.fields()[4] == h.fields()[4]);
        assert(g.fields()[5] == h.fields()[5]);
    }
}

/// The semantics of a point cloud's feature table.
#[derive(Debug)]
pub struct PntsTable {
    pub batch_id: Option<BinaryBodyReference>,
    pub batch_length: Option<GlobalPropertyScalar>,
    pub constant_rgba: Option<GlobalPropertyCartesian4>,
    pub normal: Option<BinaryBodyReference>,
    pub normal_oct16_p: Option<BinaryBodyReference>,
    /// The number of points.
    pub points_length: u32,
    /// Where the positions lie in the body: three `f32` per point.
    pub position: Option<BinaryBodyReference>,
    pub position_quantized: Option<BinaryBodyReference>,
    pub quantized_volume_offset: Option<GlobalPropertyCartesian3>,
    pub quantized_volume_scale: Option<GlobalPropertyCartesian3>,
    pub rgb: Option<BinaryBodyReference>,
    pub rgb565: Option<BinaryBodyReference>,
    pub rgba: Option<BinaryBodyReference>,
    pub rtc_center: Option<GlobalPropertyCartesian3>,
    /// Every other member but `extensions` and `extras`, as a per-feature property.
    pub properties: Vec<(String, Property)>,
    /// Extension-specific objects, by extension name.
    pub extensions: Option<Json>,
    /// Application-specific data.
    pub extras: Option<Json>,
}

/// `j` has the semantics of a point cloud: a `POINTS_LENGTH` count, each other
/// semantic, where present, of its shape, and each other member a property.
pub open spec fn table_ok(j: Json) -> bool {
    &&& opt_ok(present(field(j, "BATCH_ID"@)), |x: Json| reference_of(x) is Some)
    &&& opt_ok(present(field(j, "BATCH_LENGTH"@)), |x: Json| scalar_decodable(x))
    &&& opt_ok(present(field(j, "CONSTANT_RGBA"@)), |x: Json| vector_decodable(x))
    &&& opt_ok(present(field(j, "NORMAL"@)), |x: Json| reference_of(x) is Some)
    &&& opt_ok(present(field(j, "NORMAL_OCT16P"@)), |x: Json| reference_of(x) is Some)
    &&& field(j, "POINTS_LENGTH"@) matches Some(b) && count_of(b) is Some
    &&& opt_ok(present(field(j, "POSITION"@)), |x: Json| reference_of(x) is Some)
    &&& opt_ok(present(field(j, "POSITION_QUANTIZED"@)), |x: Json| reference_of(x) is Some)
    &&& opt_ok(present(field(j, "QUANTIZED_VOLUME_OFFSET"@)), |x: Json| vector_decodable(x))
    &&& opt_ok(present(field(j, "QUANTIZED_VOLUME_SCALE"@)), |x: Json| vector_decodable(x))
    &&& opt_ok(present(field(j, "RGB"@)), |x: Json| reference_of(x) is Some)
    &&& opt_ok(present(field(j, "RGB565"@)), |x: Json| reference_of(x) is Some)
    &&& opt_ok(present(field(j, "RGBA"@)), |x: Json| reference_of(x) is Some)
    &&& opt_ok(present(field(j, "RTC_CENTER"@)), |x: Json| vector_decodable(x))
    &&& other_properties_ok(members_of(j), known_names())
}

/// `t` holds the semantics that `j` gives.
pub open spec fn table_decodes(j: Json, t: PntsTable) -> bool {
    &&& opt_reference_decodes(present(field(j, "BATCH_ID"@)), t.batch_id)
    &&& opt_scalar_decodes(present(field(j, "BATCH_LENGTH"@)), t.batch_length)
    &&& opt_cartesian4_decodes(present(field(j, "CONSTANT_RGBA"@)), t.constant_rgba)
    &&& opt_reference_decodes(present(field(j, "NORMAL"@)), t.normal)
    &&& opt_reference_decodes(present(field(j, "NORMAL_OCT16P"@)), t.normal_oct16_p)
    &&& field(j, "POINTS_LENGTH"@) matches Some(b) && count_of(b) == Some(t.points_length)
    &&& opt_reference_decodes(present(field(j, "POSITION"@)), t.position)
    &&& opt_reference_decodes(present(field(j, "POSITION_QUANTIZED"@)), t.position_quantized)
    &&& opt_cartesian3_decodes(
        present(field(j, "QUANTIZED_VOLUME_OFFSET"@)),
        t.quantized_volume_offset,
    )
    &&& opt_cartesian3_decodes(
        present(field(j, "QUANTIZED_VOLUME_SCALE"@)),
        t.quantized_volume_scale,
    )
    &&& opt_reference_decodes(present(field(j, "RGB"@)), t.rgb)
    &&& opt_reference_decodes(present(field(j, "RGB565"@)), t.rgb565)
    &&& opt_reference_decodes(present(field(j, "RGBA"@)), t.rgba)
    &&& opt_cartesian3_decodes(present(field(j, "RTC_CENTER"@)), t.rtc_center)
    &&& other_properties_decode(members_of(j), known_names(), t.properties@)
    &&& opt_same_json(present(field(j, "extensions"@)), t.extensions)
    &&& opt_same_json(present(field(j, "extras"@)), t.extras)
}

/// The members that are semantics of the table, or reserved.
pub open spec fn known_names() -> Seq<Seq<char>> {
    seq![
        "BATCH_ID"@,
        "BATCH_LENGTH"@,
        "CONSTANT_RGBA"@,
        "NORMAL"@,
        "NORMAL_OCT16P"@,
        "POINTS_LENGTH"@,
        "POSITION"@,
        "POSITION_QUANTIZED"@,
        "QUANTIZED_VOLUME_OFFSET"@,
        "QUANTIZED_VOLUME_SCALE"@,
        "RGB"@,
        "RGB565"@,
        "RGBA"@,
        "RTC_CENTER"@,
        "extensions"@,
        "extras"@,
    ]
}

impl PntsTable {
    /// Reads the semantics from the feature table's JSON.
    pub fn from_json(j: &Json) -> (r: Option<PntsTable>)
        ensures
            r is Some <==> table_ok(*j),
            r matches Some(t) ==> table_decodes(*j, t),
    {
        let batch_id = match optional_reference(j, "BATCH_ID") {
            Some(v) => v,
            None => return None,
        };
        let batch_length = match optional_scalar(j, "BATCH_LENGTH") {
            Some(v) => v,
            None => return None,
        };
        let constant_rgba = match optional_cartesian4(j, "CONSTANT_RGBA") {
            Some(v) => v,
            None => return None,
        };
        let normal = match optional_reference(j, "NORMAL") {
            Some(v) => v,
            None => return None,
        };
        let normal_oct16_p = match optional_reference(j, "NORMAL_OCT16P") {
            Some(v) => v,
            None => return None,
        };
        let points_length = match j.get("POINTS_LENGTH") {
            Some(b) => match count_from_json(b) {
                Some(p) => p,
                None => return None,
            },
            None => return None,
        };
        let position = match optional_reference(j, "POSITION") {
            Some(v) => v,
            None => return None,
        };
        let position_quantized = match optional_reference(j, "POSITION_QUANTIZED") {
            Some(v) => v,
            None => return None,
        };
        let quantized_volume_offset = match optional_cartesian3(j, "QUANTIZED_VOLUME_OFFSET") {
            Some(v) => v,
            None => return None,
        };
        let quantized_volume_scale = match optional_cartesian3(j, "QUANTIZED_VOLUME_SCALE") {
            Some(v) => v,
            None => return None,
        };
        let rgb = match optional_reference(j, "RGB") {
            Some(v) => v,
            None => return None,
        };
        let rgb565 = match optional_reference(j, "RGB565") {
            Some(v) => v,
            None => return None,
        };
        let rgba = match optional_reference(j, "RGBA") {
            Some(v) => v,
            None => return None,
        };
        let rtc_center = match optional_cartesian3(j, "RTC_CENTER") {
            Some(v) => v,
            None => return None,
        };
        let known = vec![
            "BATCH_ID",
            "BATCH_LENGTH",
            "CONSTANT_RGBA",
            "NORMAL",
            "NORMAL_OCT16P",
            "POINTS_LENGTH",
            "POSITION",
            "POSITION_QUANTIZED",
            "QUANTIZED_VOLUME_OFFSET",
            "QUANTIZED_VOLUME_SCALE",
            "RGB",
            "RGB565",
            "RGBA",
            "RTC_CENTER",
            "extensions",
            "extras",
        ];
        assert(names(known@) =~= known_names());
        let properties = match other_properties(j, &known) {
            Some(p) => p,
            None => return None,
        };
        let extensions = optional_json(j, "extensions");
        let extras = optional_json(j, "extras");
        Some(PntsTable {
            extensions,
            extras,
            batch_id,
            batch_length,
            constant_rgba,
            normal,
            normal_oct16_p,
            points_length,
            position,
            position_quantized,
            quantized_volume_offset,
            quantized_volume_scale,
            rgb,
            rgb565,
            rgba,
            rtc_center,
            properties,
        })
    }
}

/// The feature table of a point cloud.
#[derive(Debug)]
pub struct FeatureTable {
    pub json: PntsTable,
    pub body: Vec<u8>,
}

/// `t` is the feature table that the first `json_len + bin_len` bytes of `rest` hold.
pub open spec fn feature_table_decodes(
    rest: Seq<u8>,
    json_len: nat,
    bin_len: nat,
    t: FeatureTable,
) -> bool {
    &&& json_of(rest.take(json_len as int)) matches Some(j) && table_decodes(j, t.json)
    &&& t.body@ == rest.subrange(json_len as int, (json_len + bin_len) as int)
}

impl FeatureTable {
    /// Reads `json_byte_length` bytes of JSON and `binary_byte_length` bytes of body.
    pub fn from_reader(reader: &mut Cursor, json_byte_length: u32, binary_byte_length: u32) -> (r:
        Result<FeatureTable, Error>)
        requires
            old(reader).wf(),
        ensures
            final(reader).wf(),
            final(reader).bytes@ == old(reader).bytes@,
            match table_error(
                old(reader).rest(),
                json_byte_length as nat,
                binary_byte_length as nat,
                |j: Json| table_ok(j),
            ) {
                Some(e) => r == Err::<FeatureTable, Error>(e),
                None => r is Ok,
            },
            r matches Ok(t) ==> feature_table_decodes(
                old(reader).rest(),
                json_byte_length as nat,
                binary_byte_length as nat,
                t,
            ) && final(reader).pos == old(reader).pos + json_byte_length + binary_byte_length,
            r is Err ==> final(reader).pos == old(reader).pos + table_fail_len(
                old(reader).rest(),
                json_byte_length as nat,
            ),
    {
        let ghost rest = reader.rest();
        let j = read_table_json(reader, json_byte_length)?;
        let json = match PntsTable::from_json(&j) {
            Some(t) => t,
            None => return Err(Error::Json),
        };
        let body = reader.read_exact(binary_byte_length as usize)?;
        assert(body@ =~= rest.subrange(
            json_byte_length as int,
            json_byte_length + binary_byte_length,
        ));
        Ok(FeatureTable { json, body })
    }
}

/// A point cloud: its header and tables.
#[derive(Debug)]
pub struct Pnts {
    pub header: Header,
    pub feature_table: FeatureTable,
    pub batch_table: BatchTable,
}

/// The bytes that follow the header and the feature table.
pub open spec fn after_feature_table(s: Seq<u8>) -> Seq<u8> {
    s.skip(28 + field_at(s, 2) + field_at(s, 3))
}

/// A point cloud can be read from the start of `s`.
pub open spec fn tile_ok(s: Seq<u8>) -> bool {
    &&& header_ok(s, pnts_magic(), 6)
    &&& table_error(
        s.skip(28),
        field_at(s, 2) as nat,
        field_at(s, 3) as nat,
        |j: Json| table_ok(j),
    ) is None
    &&& batch_table_error(
        after_feature_table(s),
        field_at(s, 4) as nat,
        field_at(s, 5) as nat,
    ) is None
}

/// How many bytes reading the tile has consumed when it fails: as much of
/// the header, then of the table, as was read before the failing part.
pub open spec fn tile_fail_len(s: Seq<u8>) -> int {
    if !header_ok(s, pnts_magic(), 6) {
        header_fail_len(s, pnts_magic(), 6)
    } else if table_error(
        s.skip(28),
        field_at(s, 2) as nat,
        field_at(s, 3) as nat,
        |j: Json| table_ok(j),
    ) is Some {
        28 + table_fail_len(s.skip(28), field_at(s, 2) as nat)
    } else {
        28 + field_at(s, 2) + field_at(s, 3) + table_fail_len(
            after_feature_table(s),
            field_at(s, 4) as nat,
        )
    }
}

/// `e` is the first error met when reading a point cloud from `s`.
pub open spec fn tile_fails(s: Seq<u8>, e: Error) -> bool {
    if !header_ok(s, pnts_magic(), 6) {
        header_fails(s, pnts_magic(), 6, e)
    } else {
        match table_error(
            s.skip(28),
            field_at(s, 2) as nat,
            field_at(s, 3) as nat,
            |j: Json| table_ok(j),
        ) {
            Some(x) => e == x,
            None => batch_table_error(
                after_feature_table(s),
                field_at(s, 4) as nat,
                field_at(s, 5) as nat,
            ) == Some(e),
        }
    }
}

/// `t` is a point cloud at the start of `s`, and `len` the bytes it takes.
pub open spec fn tile_decodes(s: Seq<u8>, t: Pnts, len: int) -> bool {
    let h = t.header;
    &&& header_decodes(s, h)
    &&& feature_table_decodes(
        s.skip(28),
        h.feature_table_json_byte_length as nat,
        h.feature_table_binary_byte_length as nat,
        t.feature_table,
    )
    &&& batch_table_decodes(
        after_feature_table(s),
        h.batch_table_json_byte_length as nat,
        h.batch_table_binary_byte_length as nat,
        t.batch_table,
    )
    &&& len == 28 + h.feature_table_json_byte_length + h.feature_table_binary_byte_length
        + h.batch_table_json_byte_length + h.batch_table_binary_byte_length
}

impl Pnts {
    /// Reads the header and both tables, and leaves the reader after them.
    pub fn from_reader(reader: &mut Cursor) -> (r: Result<Pnts, Error>)
        requires
            old(reader).wf(),
        ensures
            final(reader).wf(),
            final(reader).bytes@ == old(reader).bytes@,
            r is Ok <==> tile_ok(old(reader).rest()),
            r matches Err(e) ==> tile_fails(old(reader).rest(), e),
            r is Err ==> final(reader).pos == old(reader).pos + tile_fail_len(old(reader).rest()),
            r matches Ok(t) ==> tile_decodes(
                old(reader).rest(),
                t,
                final(reader).pos - old(reader).pos,
            ),
    {
        let ghost s = reader.rest();
        let header = Header::from_reader(reader)?;
        assert(reader.rest() =~= s.skip(28));
        let feature_table = FeatureTable::from_reader(
            reader,
            header.feature_table_json_byte_length,
            header.feature_table_binary_byte_length,
        )?;
        assert(reader.rest() =~= after_feature_table(s));
        let batch_table = BatchTable::from_reader(
            reader,
            header.batch_table_json_byte_length,
            header.batch_table_binary_byte_length,
        )?;
        Ok(Pnts { header, feature_table, batch_table })
    }
}
/// Where the positions start in the body: the declared `POSITION` offset, or
/// the start of the body where none is declared.
pub open spec fn position_offset(t: PntsTable) -> int {
    match t.position {
        Some(r) => r.byte_offset as int,
        None => 0,
    }
}

/// The bit patterns of the three `f32` coordinates at offset `p` of `body`.
pub open spec fn triple_at(body: Seq<u8>, p: int) -> Seq<u32> {
    seq![
        le_u32(body.subrange(p, p + 4)),
        le_u32(body.subrange(p + 4, p + 8)),
        le_u32(body.subrange(p + 8, p + 12)),
    ]
}

/// `v` holds the position of each point that `ft` declares.
pub open spec fn positions_decode(ft: FeatureTable, v: Seq<[u32; 3]>) -> bool {
    &&& v.len() == ft.json.points_length
    &&& forall|i: int|
        0 <= i < v.len() ==> (#[trigger] v[i])@ == triple_at(
            ft.body@,
            position_offset(ft.json) + 12 * i,
        )
}

impl FeatureTable {
    /// The positions are given only quantized: no `POSITION`, but a
    /// `POSITION_QUANTIZED`.
    pub open spec fn quantized_only(&self) -> bool {
        self.json.position is None && self.json.position_quantized is Some
    }

    /// The body holds all the positions that the semantics declare.
    pub open spec fn positions_fit(&self) -> bool {
        position_offset(self.json) + 12 * self.json.points_length <= self.body@.len()
    }

    /// The position of each point, as the IEEE-754 bit patterns of its
    /// x, y and z (`f32::from_bits` gives the coordinates). They are read
    /// from the declared `POSITION` offset on, twelve bytes per point; a body
    /// too short for them all gives `Truncated`. Where the positions are
    /// given only quantized, the result is `QuantizedPositions` (see
    /// `quantized_positions`).
    pub fn positions(&self) -> (r: Result<Vec<[u32; 3]>, Error>)
        ensures
            self.quantized_only() ==> r == Err::<Vec<[u32; 3]>, Error>(Error::QuantizedPositions),
            !self.quantized_only() ==> (r is Ok <==> self.positions_fit()),
            !self.quantized_only() && r is Err ==> r == Err::<Vec<[u32; 3]>, Error>(
                Error::Truncated,
            ),
            r matches Ok(v) ==> positions_decode(*self, v@),
    {
        if let (None, Some(_)) = (self.json.position, self.json.position_quantized) {
            return Err(Error::QuantizedPositions);
        }
        let off: usize = match self.json.position {
            Some(r) => r.byte_offset,
            None => 0,
        };
        let n = self.json.points_length;
        let len = self.body.len();
        if off > len || ((len - off) as u64) < 12 * (n as u64) {
            return Err(Error::Truncated);
        }
        let body = self.body.as_slice();
        let mut out: Vec<[u32; 3]> = Vec::new();
        let mut i: u32 = 0;
        while i < n
            invariant
                i <= n,
                n == self.json.points_length,
                off == position_offset(self.json),
                body@ == self.body@,
                len == body@.len(),
                off + 12 * n <= body@.len(),
                out@.len() == i,
                forall|k: int|
                    0 <= k < i ==> (#[trigger] out@[k])@ == triple_at(body@, off + 12 * k),
            decreases n - i,
        {
            let p: usize = off + 12 * (i as usize);
            let t = [u32_at(body, p), u32_at(body, p + 4), u32_at(body, p + 8)];
            assert(t@ =~= triple_at(body@, p as int));
            out.push(t);
            i = i + 1;
        }
        Ok(out)
    }
}

impl FeatureTable {
    /// The quantized positions, where `POSITION_QUANTIZED` is declared.
    pub fn quantized_positions(&self) -> (r: Result<Option<PointValues>, Error>)
        ensures
            match self.json.position_quantized {
                None => r matches Ok(None),
                Some(q) => if fits(
                    self.body@,
                    q.byte_offset as int,
                    self.json.points_length as int,
                    6,
                ) {
                    r matches Ok(Some(PointValues::PositionQuantized(v)))
                        && position_quantized_decode(
                        self.body@,
                        q.byte_offset as int,
                        self.json.points_length as int,
                        v@,
                    )
                } else {
                    r == Err::<Option<PointValues>, Error>(Error::Truncated)
                },
            },
    {
        let n = self.json.points_length;
        match self.json.position_quantized {
            None => Ok(None),
            Some(q) => match read_position_quantized(self.body.as_slice(), q.byte_offset, n) {
                Ok(v) => Ok(Some(PointValues::PositionQuantized(v))),
                Err(e) => Err(e),
            },
        }
    }

    /// The colors of the points: RGBA where declared, else RGB, else RGB565;
    /// `None` where no per-point color is declared.
    pub fn colors(&self) -> (r: Result<Option<PointValues>, Error>)
        ensures
            match (self.json.rgba, self.json.rgb, self.json.rgb565) {
                (Some(c), _, _) => if fits(
                    self.body@,
                    c.byte_offset as int,
                    self.json.points_length as int,
                    4,
                ) {
                    r matches Ok(Some(PointValues::Rgba(v))) && rgba_decode(
                        self.body@,
                        c.byte_offset as int,
                        self.json.points_length as int,
                        v@,
                    )
                } else {
                    r == Err::<Option<PointValues>, Error>(Error::Truncated)
                },
                (None, Some(c), _) => if fits(
                    self.body@,
                    c.byte_offset as int,
                    self.json.points_length as int,
                    3,
                ) {
                    r matches Ok(Some(PointValues::Rgb(v))) && rgb_decode(
                        self.body@,
                        c.byte_offset as int,
                        self.json.points_length as int,
                        v@,
                    )
                } else {
                    r == Err::<Option<PointValues>, Error>(Error::Truncated)
                },
                (None, None, Some(c)) => if fits(
                    self.body@,
                    c.byte_offset as int,
                    self.json.points_length as int,
                    2,
                ) {
                    r matches Ok(Some(PointValues::Rgb565(v))) && rgb565_decode(
                        self.body@,
                        c.byte_offset as int,
                        self.json.points_length as int,
                        v@,
                    )
                } else {
                    r == Err::<Option<PointValues>, Error>(Error::Truncated)
                },
                (None, None, None) => r matches Ok(None),
            },
    {
        let n = self.json.points_length;
        match (self.json.rgba, self.json.rgb, self.json.rgb565) {
            (Some(c), _, _) => match read_rgba(self.body.as_slice(), c.byte_offset, n) {
                Ok(v) => Ok(Some(PointValues::Rgba(v))),
                Err(e) => Err(e),
            },
            (None, Some(c), _) => match read_rgb(self.body.as_slice(), c.byte_offset, n) {
                Ok(v) => Ok(Some(PointValues::Rgb(v))),
                Err(e) => Err(e),
            },
            (None, None, Some(c)) => match read_rgb565(self.body.as_slice(), c.byte_offset, n) {
                Ok(v) => Ok(Some(PointValues::Rgb565(v))),
                Err(e) => Err(e),
            },
            (None, None, None) => Ok(None),
        }
    }

    /// The normals of the points: `NORMAL` where declared, else
    /// `NORMAL_OCT16P`; `None` where neither is declared.
    pub fn normals(&self) -> (r: Result<Option<PointValues>, Error>)
        ensures
            match (self.json.normal, self.json.normal_oct16_p) {
                (Some(c), _) => if fits(
                    self.body@,
                    c.byte_offset as int,
                    self.json.points_length as int,
                    12,
                ) {
                    r matches Ok(Some(PointValues::Normal(v))) && normals_decode(
                        self.body@,
                        c.byte_offset as int,
                        self.json.points_length as int,
                        v@,
                    )
                } else {
                    r == Err::<Option<PointValues>, Error>(Error::Truncated)
                },
                (None, Some(c)) => if fits(
                    self.body@,
                    c.byte_offset as int,
                    self.json.points_length as int,
                    2,
                ) {
                    r matches Ok(Some(PointValues::NormalOct16p(v))) && normals_oct16p_decode(
                        self.body@,
                        c.byte_offset as int,
                        self.json.points_length as int,
                        v@,
                    )
                } else {
                    r == Err::<Option<PointValues>, Error>(Error::Truncated)
                },
                (None, None) => r matches Ok(None),
            },
    {
        let n = self.json.points_length;
        match (self.json.normal, self.json.normal_oct16_p) {
            (Some(c), _) => match read_normals(self.body.as_slice(), c.byte_offset, n) {
                Ok(v) => Ok(Some(PointValues::Normal(v))),
                Err(e) => Err(e),
            },
            (None, Some(c)) => match read_normals_oct16p(self.body.as_slice(), c.byte_offset, n) {
                Ok(v) => Ok(Some(PointValues::NormalOct16p(v))),
                Err(e) => Err(e),
            },
            (None, None) => Ok(None),
        }
    }

    /// The batch ids of the points, where `BATCH_ID` is declared: of the
    /// declared component type, `UNSIGNED_SHORT` where none is declared. Any
    /// component type but an unsigned integer one is malformed JSON.
    pub fn batch_ids(&self) -> (r: Result<Option<PointValues>, Error>)
        ensures
            match self.json.batch_id {
                None => r matches Ok(None),
                Some(c) => match c.component_type {
                    Some(ComponentType::UnsignedByte) => if fits(
                        self.body@,
                        c.byte_offset as int,
                        self.json.points_length as int,
                        1,
                    ) {
                    r matches Ok(Some(PointValues::BatchIdU8(v))) && batch_ids_u8_decode(
                        self.body@,
                        c.byte_offset as int,
                        self.json.points_length as int,
                        v@,
                    )
                } else {
                    r == Err::<Option<PointValues>, Error>(Error::Truncated)
                },
                    None | Some(ComponentType::UnsignedShort) => if fits(
                        self.body@,
                        c.byte_offset as int,
                        self.json.points_length as int,
                        2,
                    ) {
                    r matches Ok(Some(PointValues::BatchId(v))) && batch_ids_u16_decode(
                        self.body@,
                        c.byte_offset as int,
                        self.json.points_length as int,
                        v@,
                    )
                } else {
                    r == Err::<Option<PointValues>, Error>(Error::Truncated)
                },
                    Some(ComponentType::UnsignedInt) => if fits(
                        self.body@,
                        c.byte_offset as int,
                        self.json.points_length as int,
                        4,
                    ) {
                    r matches Ok(Some(PointValues::BatchIdU32(v))) && batch_ids_u32_decode(
                        self.body@,
                        c.byte_offset as int,
                        self.json.points_length as int,
                        v@,
                    )
                } else {
                    r == Err::<Option<PointValues>, Error>(Error::Truncated)
                },
                    Some(_) => r == Err::<Option<PointValues>, Error>(Error::Json),
                },
            },
    {
        let n = self.json.points_length;
        let body = self.body.as_slice();
        match self.json.batch_id {
            None => Ok(None),
            Some(c) => match c.component_type {
                Some(ComponentType::UnsignedByte) => match read_batch_ids_u8(
                    body,
                    c.byte_offset,
                    n,
                ) {
                Ok(v) => Ok(Some(PointValues::BatchIdU8(v))),
                Err(e) => Err(e),
            },
                None | Some(ComponentType::UnsignedShort) => match read_batch_ids_u16(
                    body,
                    c.byte_offset,
                    n,
                ) {
                Ok(v) => Ok(Some(PointValues::BatchId(v))),
                Err(e) => Err(e),
            },
                Some(ComponentType::UnsignedInt) => match read_batch_ids_u32(
                    body,
                    c.byte_offset,
                    n,
                ) {
                Ok(v) => Ok(Some(PointValues::BatchIdU32(v))),
                Err(e) => Err(e),
            },
                Some(_) => Err(Error::Json),
            },
        }
    }
}

} // verus!
