//! What follows the tables of a tile: the scene that it carries.
use crate::b3dm::{b3dm_fails, b3dm_ok, B3dm};
use crate::bytes::Cursor;
use crate::error::Error;
use crate::header::field_at;
use crate::i3dm::I3dm;
use crate::pnts::{
    positions_decode, FeatureTable, Pnts,
};
use crate::points::{
    fits, position_quantized_decode, read_position_quantized,
};
use vstd::prelude::*;

verus! {

/// The three binary tile formats.
#[derive(Debug, Clone, Copy, PartialEq, Eq, Structural)]
pub enum TileFormat {
    /// Batched 3D Model, `b3dm`.
    Batched,
    /// Instanced 3D Model, `i3dm`.
    Instanced,
    /// Point Cloud, `pnts`.
    PointCloud,
}

/// The scene that a tile carries.
#[derive(Debug)]
pub enum ScenePayload {
    /// A binary glTF, as it stands.
    Gltf(Vec<u8>),
    /// The UTF-8 bytes of the URI of an external glTF.
    Uri(Vec<u8>),
    /// The bit patterns of the `f32` x, y and z of each point.
    Points(Vec<[u32; 3]>),
    /// The quantized x, y and z of each point, where the positions are given
    /// only quantized.
    QuantizedPoints(Vec<[u16; 3]>),
}

/// Where the tables end in a tile whose header takes `header_len` bytes.
pub open spec fn tables_end(s: Seq<u8>, header_len: int) -> int {
    header_len + field_at(s, 2) + field_at(s, 3) + field_at(s, 4) + field_at(s, 5)
}

/// `r` is the outcome of taking the scene from the instanced model at the
/// start of `s`.
pub open spec fn instanced_outcome(s: Seq<u8>, r: Result<ScenePayload, Error>) -> bool {
    if !crate::i3dm::tile_ok(s) {
        r matches Err(e) && crate::i3dm::tile_fails(s, e)
    } else if field_at(s, 6) == 0 {
        r matches Ok(ScenePayload::Uri(v)) && v@ == s.skip(tables_end(s, 32))
    } else if field_at(s, 6) == 1 {
        r matches Ok(ScenePayload::Gltf(v)) && v@ == s.skip(tables_end(s, 32))
    } else {
        r == Err::<ScenePayload, Error>(Error::GltfFormat(field_at(s, 6)))
    }
}

/// `r` is the outcome of taking the points from a decoded point-cloud table:
/// the quantized positions where only those are given, else the positions.
pub open spec fn points_outcome(ft: FeatureTable, r: Result<ScenePayload, Error>) -> bool {
    let n = ft.json.points_length as int;
    if ft.quantized_only() {
        let off = ft.json.position_quantized->Some_0.byte_offset as int;
        if fits(ft.body@, off, n, 6) {
            r matches Ok(ScenePayload::QuantizedPoints(v)) && position_quantized_decode(
                ft.body@,
                off,
                n,
                v@,
            )
        } else {
            r == Err::<ScenePayload, Error>(Error::Truncated)
        }
    } else if ft.positions_fit() {
        r matches Ok(ScenePayload::Points(v)) && positions_decode(ft, v@)
    } else {
        r == Err::<ScenePayload, Error>(Error::Truncated)
    }
}

/// `r` is the outcome of taking the points from the point cloud at the start
/// of `s`.
pub open spec fn point_cloud_outcome(s: Seq<u8>, r: Result<ScenePayload, Error>) -> bool {
    if !crate::pnts::tile_ok(s) {
        r matches Err(e) && crate::pnts::tile_fails(s, e)
    } else {
        forall|t: Pnts, len: int| #[trigger]
            crate::pnts::tile_decodes(s, t, len) ==> points_outcome(t.feature_table, r)
    }
}

/// `r` is the outcome of taking the scene from the batched model at the start
/// of `s`.
pub open spec fn batched_outcome(s: Seq<u8>, r: Result<ScenePayload, Error>) -> bool {
    if !b3dm_ok(s) {
        r matches Err(e) && b3dm_fails(s, e)
    } else {
        r matches Ok(ScenePayload::Gltf(v)) && v@ == s.skip(tables_end(s, 28))
    }
}

/// Reads a tile of the given format and returns the scene after its tables:
/// the binary glTF of a batched model; the URI or binary glTF of an instanced
/// model, as its glTF format says; the positions of a point cloud.
pub fn extract_scene_payload(tile: &[u8], format: TileFormat) -> (r: Result<ScenePayload, Error>)
    ensures
        format == TileFormat::Batched ==> batched_outcome(tile@, r),
        format == TileFormat::Instanced ==> instanced_outcome(tile@, r),
        format == TileFormat::PointCloud ==> point_cloud_outcome(tile@, r),
{
    let mut reader = Cursor::new(tile);
    assert(reader.rest() =~= tile@);
    match format {
        TileFormat::Batched => {
            let t = B3dm::from_reader(&mut reader)?;
            let rest = reader.read_to_end();
            assert(rest@ =~= tile@.skip(tables_end(tile@, 28)));
            Ok(ScenePayload::Gltf(rest))
        },
        TileFormat::Instanced => {
            let t = I3dm::from_reader(&mut reader)?;
            let rest = reader.read_to_end();
            assert(rest@ =~= tile@.skip(tables_end(tile@, 32)));
            if t.header.gltf_format == 0 {
                Ok(ScenePayload::Uri(rest))
            } else if t.header.gltf_format == 1 {
                Ok(ScenePayload::Gltf(rest))
            } else {
                Err(Error::GltfFormat(t.header.gltf_format))
            }
        },
        TileFormat::PointCloud => {
            let t = Pnts::from_reader(&mut reader)?;
            let ft = &t.feature_table;
            let r = match (ft.json.position, ft.json.position_quantized) {
                (None, Some(q)) => match read_position_quantized(
                    ft.body.as_slice(),
                    q.byte_offset,
                    ft.json.points_length,
                ) {
                    Ok(v) => Ok(ScenePayload::QuantizedPoints(v)),
                    Err(e) => Err(e),
                },
                _ => match ft.positions() {
                    Ok(v) => Ok(ScenePayload::Points(v)),
                    Err(e) => Err(e),
                },
            };
            assert(points_outcome(t.feature_table, r));
            assert forall|u: Pnts, l: int| #[trigger]
                crate::pnts::tile_decodes(tile@, u, l) implies points_outcome(
                u.feature_table,
                r,
            ) by {
                let h = t.header;
                let g = u.header;
                assert(g.fields()[2] == h.fields()[2]);
                assert(g.fields()[3] == h.fields()[3]);
                assert(u.feature_table.body@ == t.feature_table.body@);
                assert(u.feature_table.json.points_length == t.feature_table.json.points_length);
                assert(u.feature_table.json.position == t.feature_table.json.position);
                assert(u.feature_table.json.position_quantized
                    == t.feature_table.json.position_quantized);
            }
            r
        },
    }
}

} // verus!
