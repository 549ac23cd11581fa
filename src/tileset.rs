//! The tileset: a tree of tiles read from a JSON document, and the search
//! for the next content to load.
use crate::error::Error;
use crate::feature_table::{
    is_number_array, number_array_decodes, number_array_from_json, opt_ok, optional_json,
    present, present_member,
};
use crate::bytes::Cursor;
use crate::json::{
    field, find_from, json_of, opt_same_json, parse_json, text_is, Json, Number,
};
use vstd::prelude::*;
use vstd::string::StrSliceExecFns;

verus! {

/// An optional array of numbers, as read.
pub open spec fn opt_numbers_decode(f: Option<Json>, v: Option<Vec<Number>>) -> bool {
    match (f, v) {
        (None, None) => true,
        (Some(x), Some(n)) => number_array_decodes(x, n@),
        _ => false,
    }
}

/// Reads an optional member that holds an array of numbers; the outer `None`
/// where it is present and not such an array.
pub fn optional_numbers(j: &Json, key: &str) -> (r: Option<Option<Vec<Number>>>)
    ensures
        r is Some <==> opt_ok(present(field(*j, key@)), |x: Json| is_number_array(x)),
        r matches Some(v) ==> opt_numbers_decode(present(field(*j, key@)), v),
{
    match present_member(j, key) {
        None => Some(None),
        Some(x) => match number_array_from_json(x) {
            Some(v) => Some(Some(v)),
            None => None,
        },
    }
}

/// `v` holds the strings that `items` holds, in order.
pub open spec fn strings_match(items: Seq<Json>, v: Seq<String>) -> bool {
    &&& items.len() == v.len()
    &&& forall|i: int| 0 <= i < items.len() ==> items[i] == Json::Str(#[trigger] v[i])
}

/// `j` is an array of strings.
pub open spec fn is_string_array(j: Json) -> bool {
    match j {
        Json::Array(items) => forall|i: int|
            0 <= i < items@.len() ==> (#[trigger] items@[i]) is Str,
        _ => false,
    }
}

/// An optional array of strings, as read.
pub open spec fn opt_strings_decode(f: Option<Json>, v: Option<Vec<String>>) -> bool {
    match (f, v) {
        (None, None) => true,
        (Some(Json::Array(items)), Some(s)) => strings_match(items@, s@),
        _ => false,
    }
}

/// Reads an optional member that holds an array of strings; the outer `None`
/// where it is present and not such an array.
pub fn optional_strings(j: &Json, key: &str) -> (r: Option<Option<Vec<String>>>)
    ensures
        r is Some <==> opt_ok(present(field(*j, key@)), |x: Json| is_string_array(x)),
        r matches Some(v) ==> opt_strings_decode(present(field(*j, key@)), v),
{
    match present_member(j, key) {
        None => Some(None),
        Some(Json::Array(items)) => {
            let mut out: Vec<String> = Vec::new();
            let mut i: usize = 0;
            while i < items.len()
                invariant
                    i <= items@.len(),
                    present(field(*j, key@)) == Some(Json::Array(*items)),
                    strings_match(items@.take(i as int), out@),
                    forall|k: int| 0 <= k < i ==> (#[trigger] items@[k]) is Str,
                decreases items@.len() - i,
            {
                match &items[i] {
                    Json::Str(t) => out.push(t.clone()),
                    _ => {
                        assert(!(items@[i as int] is Str));
                        return None;
                    },
                }
                i = i + 1;
                assert(items@.take(i as int) =~= items@.take(i - 1).push(items@[i - 1]));
            }
            assert(items@.take(i as int) =~= items@);
            Some(Some(out))
        },
        Some(_) => None,
    }
}

/// A volume that encloses a tile or its content. Each shape is given by
/// numbers: a box by 12 (center, then three half-axes), a region by 6 (west,
/// south, east, north, minimum and maximum height), a sphere by 4 (center,
/// radius).
#[derive(Debug)]
pub struct BoundingVolume {
    pub bounding_volume_box: Option<Vec<Number>>,
    pub region: Option<Vec<Number>>,
    pub sphere: Option<Vec<Number>>,
    /// Extension-specific objects, by extension name.
    pub extensions: Option<Json>,
    /// Application-specific data.
    pub extras: Option<Json>,
}

/// `j` is an object whose shapes, where present, are arrays of numbers.
pub open spec fn volume_ok(j: Json) -> bool {
    &&& j is Object
    &&& opt_ok(present(field(j, "box"@)), |x: Json| is_number_array(x))
    &&& opt_ok(present(field(j, "region"@)), |x: Json| is_number_array(x))
    &&& opt_ok(present(field(j, "sphere"@)), |x: Json| is_number_array(x))
}

/// `v` is the volume that `j` gives.
pub open spec fn volume_decodes(j: Json, v: BoundingVolume) -> bool {
    &&& opt_numbers_decode(present(field(j, "box"@)), v.bounding_volume_box)
    &&& opt_numbers_decode(present(field(j, "region"@)), v.region)
    &&& opt_numbers_decode(present(field(j, "sphere"@)), v.sphere)
    &&& opt_same_json(present(field(j, "extensions"@)), v.extensions)
    &&& opt_same_json(present(field(j, "extras"@)), v.extras)
}

impl BoundingVolume {
    /// Reads a bounding volume.
    pub fn from_json(j: &Json) -> (r: Option<BoundingVolume>)
        ensures
            r is Some <==> volume_ok(*j),
            r matches Some(v) ==> volume_decodes(*j, v),
    {
        if let Json::Object(_) = j {
        } else {
            return None;
        }
        let bounding_volume_box = match optional_numbers(j, "box") {
            Some(v) => v,
            None => return None,
        };
        let region = match optional_numbers(j, "region") {
            Some(v) => v,
            None => return None,
        };
        let sphere = match optional_numbers(j, "sphere") {
            Some(v) => v,
            None => return None,
        };
        let extensions = optional_json(j, "extensions");
        let extras = optional_json(j, "extras");
        Some(BoundingVolume { bounding_volume_box, region, sphere, extensions, extras })
    }
}

/// An optional volume member, as read.
pub open spec fn opt_volume_decodes(f: Option<Json>, v: Option<BoundingVolume>) -> bool {
    match (f, v) {
        (None, None) => true,
        (Some(x), Some(b)) => volume_decodes(x, b),
        _ => false,
    }
}

/// Reads an optional member that holds a bounding volume.
pub fn optional_volume(j: &Json, key: &str) -> (r: Option<Option<BoundingVolume>>)
    ensures
        r is Some <==> opt_ok(present(field(*j, key@)), |x: Json| volume_ok(x)),
        r matches Some(v) ==> opt_volume_decodes(present(field(*j, key@)), v),
{
    match present_member(j, key) {
        None => Some(None),
        Some(x) => match BoundingVolume::from_json(x) {
            Some(v) => Some(Some(v)),
            None => None,
        },
    }
}

/// What a tile shows, and where it is found.
#[derive(Debug)]
pub struct TileContent {
    /// A volume that encloses the content alone.
    pub bounding_volume: Option<BoundingVolume>,
    /// Where the content is, relative to the tileset document that names it.
    pub uri: String,
    /// Extension-specific objects, by extension name.
    pub extensions: Option<Json>,
    /// Application-specific data.
    pub extras: Option<Json>,
}

/// `j` has a string `uri` and, where present, a bounding volume.
pub open spec fn content_ok(j: Json) -> bool {
    &&& field(j, "uri"@) matches Some(Json::Str(_))
    &&& opt_ok(present(field(j, "boundingVolume"@)), |x: Json| volume_ok(x))
}

/// `c` is the content that `j` gives.
pub open spec fn content_decodes(j: Json, c: TileContent) -> bool {
    &&& field(j, "uri"@) == Some(Json::Str(c.uri))
    &&& opt_volume_decodes(present(field(j, "boundingVolume"@)), c.bounding_volume)
    &&& opt_same_json(present(field(j, "extensions"@)), c.extensions)
    &&& opt_same_json(present(field(j, "extras"@)), c.extras)
}

impl TileContent {
    /// Reads a tile's content.
    pub fn from_json(j: &Json) -> (r: Option<TileContent>)
        ensures
            r is Some <==> content_ok(*j),
            r matches Some(c) ==> content_decodes(*j, c),
    {
        let uri = match j.get("uri") {
            Some(Json::Str(s)) => s.clone(),
            _ => return None,
        };
        let bounding_volume = match optional_volume(j, "boundingVolume") {
            Some(v) => v,
            None => return None,
        };
        let extensions = optional_json(j, "extensions");
        let extras = optional_json(j, "extras");
        Some(TileContent { bounding_volume, uri, extensions, extras })
    }
}

/// Whether a tile's children add to its content or replace it.
#[derive(Debug, Clone, Copy, PartialEq, Eq, Structural)]
pub enum Refine {
    Add,
    Replace,
}

/// The refinement that a JSON string names.
pub open spec fn refine_of(j: Json) -> Option<Refine> {
    match j {
        Json::Str(s) => if s@ == "ADD"@ {
            Some(Refine::Add)
        } else if s@ == "REPLACE"@ {
            Some(Refine::Replace)
        } else {
            None
        },
        _ => None,
    }
}

impl Refine {
    /// Reads a refinement from `"ADD"` or `"REPLACE"`.
    pub fn from_json(j: &Json) -> (r: Option<Refine>)
        ensures
            r == refine_of(*j),
    {
        match j {
            Json::Str(s) => if text_is(s, "ADD") {
                Some(Refine::Add)
            } else if text_is(s, "REPLACE") {
                Some(Refine::Replace)
            } else {
                None
            },
            _ => None,
        }
    }
}

/// A member that `find_from` returns is a part of the object.
pub proof fn lemma_find_from_smaller(j: Json, m: Vec<(String, Json)>, key: Seq<char>, i: int)
    requires
        j == Json::Object(m),
        0 <= i,
    ensures
        find_from(m@, key, i) matches Some(x) ==> decreases_to!(j => x),
    decreases m@.len() - i,
{
    if i < m@.len() {
        if m@[i].0@ == key {
            assert(decreases_to!(j => j->Object_0));
            assert(decreases_to!(m => m@));
            assert(decreases_to!(m@ => m@[i]));
            assert(decreases_to!(m@[i] => m@[i].1));
        } else {
            lemma_find_from_smaller(j, m, key, i + 1);
        }
    }
}

/// A member of an object is a part of it.
pub proof fn lemma_field_smaller(j: Json, key: Seq<char>)
    ensures
        field(j, key) matches Some(x) ==> decreases_to!(j => x),
{
    if let Json::Object(m) = j {
        lemma_find_from_smaller(j, m, key, 0);
    }
}

/// The JSON of a tile's children: the items of its `children` array, if any.
pub open spec fn children_of(j: Json) -> Seq<Json> {
    match present(field(j, "children"@)) {
        Some(Json::Array(items)) => items@,
        _ => Seq::empty(),
    }
}

/// Each child's JSON is a part of the tile's.
pub proof fn lemma_children_smaller(j: Json)
    ensures
        forall|i: int| 0 <= i < children_of(j).len() ==> decreases_to!(
            j => #[trigger] children_of(j)[i]
        ),
{
    lemma_field_smaller(j, "children"@);
    if let Some(Json::Array(items)) = present(field(j, "children"@)) {
        assert forall|i: int| 0 <= i < children_of(j).len() implies decreases_to!(
            j => #[trigger] children_of(j)[i]
        ) by {
            let a = Json::Array(items);
            assert(decreases_to!(a => a->Array_0));
            assert(decreases_to!(items => items@));
            assert(decreases_to!(items@ => items@[i]));
        }
    }
}

/// A tile of the tree.
#[derive(Debug)]
pub struct Tile {
    /// The volume that encloses the tile.
    pub bounding_volume: BoundingVolume,
    pub children: Option<Vec<Tile>>,
    pub content: Option<TileContent>,
    /// The error, in meters, if the tile is shown and its children are not.
    pub geometric_error: Number,
    /// Where absent, the tile refines as its parent does.
    pub refine: Option<Refine>,
    /// A 4x4 affine transform, column-major.
    pub transform: Option<Vec<Number>>,
    /// A volume the viewer must be inside of before the content is requested.
    pub viewer_request_volume: Option<BoundingVolume>,
    /// Extension-specific objects, by extension name.
    pub extensions: Option<Json>,
    /// Application-specific data.
    pub extras: Option<Json>,
}

/// The members of a tile other than its children are well formed.
pub open spec fn tile_members_ok(j: Json) -> bool {
    &&& field(j, "boundingVolume"@) matches Some(b) && volume_ok(b)
    &&& opt_ok(present(field(j, "children"@)), |x: Json| x is Array)
    &&& opt_ok(present(field(j, "content"@)), |x: Json| content_ok(x))
    &&& field(j, "geometricError"@) matches Some(Json::Number(_))
    &&& opt_ok(present(field(j, "refine"@)), |x: Json| refine_of(x) is Some)
    &&& opt_ok(present(field(j, "transform"@)), |x: Json| is_number_array(x))
    &&& opt_ok(present(field(j, "viewerRequestVolume"@)), |x: Json| volume_ok(x))
}

/// `j` is a tile, and so is each of its children, down the tree.
pub open spec fn tile_ok(j: Json) -> bool
    decreases j,
{
    proof {
        lemma_children_smaller(j);
    }
    &&& tile_members_ok(j)
    &&& forall|i: int| 0 <= i < children_of(j).len() ==> tile_ok(#[trigger] children_of(j)[i])
}

/// The members of `t` other than its children are those that `j` gives.
pub open spec fn tile_members_decode(j: Json, t: Tile) -> bool {
    &&& field(j, "boundingVolume"@) matches Some(b) && volume_decodes(b, t.bounding_volume)
    &&& (present(field(j, "children"@)) is Some <==> t.children is Some)
    &&& match present(field(j, "content"@)) {
        None => t.content is None,
        Some(x) => t.content matches Some(c) && content_decodes(x, c),
    }
    &&& field(j, "geometricError"@) == Some(Json::Number(t.geometric_error))
    &&& match present(field(j, "refine"@)) {
        None => t.refine is None,
        Some(x) => t.refine is Some && refine_of(x) == t.refine,
    }
    &&& opt_numbers_decode(present(field(j, "transform"@)), t.transform)
    &&& opt_volume_decodes(present(field(j, "viewerRequestVolume"@)), t.viewer_request_volume)
    &&& opt_same_json(present(field(j, "extensions"@)), t.extensions)
    &&& opt_same_json(present(field(j, "extras"@)), t.extras)
}

/// The children of a tile, none where it has none.
pub open spec fn kids(t: Tile) -> Seq<Tile> {
    match t.children {
        Some(c) => c@,
        None => Seq::empty(),
    }
}

/// `t` is the tile that `j` gives, down the tree.
pub open spec fn tile_decodes(j: Json, t: Tile) -> bool
    decreases j,
{
    proof {
        lemma_children_smaller(j);
    }
    &&& tile_members_decode(j, t)
    &&& kids(t).len() == children_of(j).len()
    &&& forall|i: int|
        0 <= i < children_of(j).len() ==> tile_decodes(#[trigger] children_of(j)[i], kids(t)[i])
}

impl Tile {
    /// Reads a tile and, down the tree, its children.
    pub fn from_json(j: &Json) -> (r: Option<Tile>)
        ensures
            r is Some <==> tile_ok(*j),
            r matches Some(t) ==> tile_decodes(*j, t),
        decreases j,
    {
        proof {
            lemma_children_smaller(*j);
        }
        let bounding_volume = match j.get("boundingVolume") {
            Some(b) => match BoundingVolume::from_json(b) {
                Some(v) => v,
                None => return None,
            },
            None => return None,
        };
        let children = match present_member(j, "children") {
            None => None,
            Some(Json::Array(items)) => {
                assert(items@ == children_of(*j));
                let mut out: Vec<Tile> = Vec::new();
                let mut i: usize = 0;
                while i < items.len()
                    invariant
                        i <= items@.len(),
                        items@ == children_of(*j),
                        out@.len() == i,
                        forall|k: int|
                            0 <= k < children_of(*j).len() ==> decreases_to!(
                                *j => #[trigger] children_of(*j)[k]
                            ),
                        forall|k: int| 0 <= k < i ==> tile_ok(#[trigger] items@[k]),
                        forall|k: int| 0 <= k < i ==> tile_decodes(#[trigger] items@[k], out@[k]),
                    decreases items@.len() - i,
                {
                    assert(decreases_to!(*j => children_of(*j)[i as int]));
                    match Tile::from_json(&items[i]) {
                        Some(t) => out.push(t),
                        None => return None,
                    }
                    i = i + 1;
                }
                Some(out)
            },
            Some(_) => return None,
        };
        let content = match present_member(j, "content") {
            None => None,
            Some(x) => match TileContent::from_json(x) {
                Some(c) => Some(c),
                None => return None,
            },
        };
        let geometric_error = match j.get("geometricError") {
            Some(Json::Number(n)) => n.copy(),
            _ => return None,
        };
        let refine = match present_member(j, "refine") {
            None => None,
            Some(x) => match Refine::from_json(x) {
                Some(f) => Some(f),
                None => return None,
            },
        };
        let transform = match optional_numbers(j, "transform") {
            Some(v) => v,
            None => return None,
        };
        let viewer_request_volume = match optional_volume(j, "viewerRequestVolume") {
            Some(v) => v,
            None => return None,
        };
        let extensions = optional_json(j, "extensions");
        let extras = optional_json(j, "extras");
        let t = Tile {
            extensions,
            extras,
            bounding_volume,
            children,
            content,
            geometric_error,
            refine,
            transform,
            viewer_request_volume,
        };
        assert(kids(t).len() == children_of(*j).len());
        Some(t)
    }
}

impl Tile {
    /// The refinement that applies to this tile: its own where given, else
    /// `inherited`, the one that applies to its parent.
    pub fn effective_refine(&self, inherited: Option<Refine>) -> (r: Option<Refine>)
        ensures
            r == (match self.refine {
                Some(f) => Some(f),
                None => inherited,
            }),
    {
        match self.refine {
            Some(f) => Some(f),
            None => inherited,
        }
    }
}

/// Metadata about the whole tileset.
#[derive(Debug)]
pub struct Asset {
    /// The 3D Tiles version.
    pub version: String,
    /// The version of this tileset's data.
    pub tileset_version: Option<String>,
    /// Extension-specific objects, by extension name.
    pub extensions: Option<Json>,
    /// Application-specific data.
    pub extras: Option<Json>,
}

/// `j` has a string `version` and, where present, a string `tilesetVersion`.
pub open spec fn asset_ok(j: Json) -> bool {
    &&& field(j, "version"@) matches Some(Json::Str(_))
    &&& opt_ok(present(field(j, "tilesetVersion"@)), |x: Json| x is Str)
}

/// `a` is the asset that `j` gives.
pub open spec fn asset_decodes(j: Json, a: Asset) -> bool {
    &&& field(j, "version"@) == Some(Json::Str(a.version))
    &&& match present(field(j, "tilesetVersion"@)) {
        None => a.tileset_version is None,
        Some(x) => a.tileset_version matches Some(v) && x == Json::Str(v),
    }
    &&& opt_same_json(present(field(j, "extensions"@)), a.extensions)
    &&& opt_same_json(present(field(j, "extras"@)), a.extras)
}

impl Asset {
    /// Reads the asset metadata.
    pub fn from_json(j: &Json) -> (r: Option<Asset>)
        ensures
            r is Some <==> asset_ok(*j),
            r matches Some(a) ==> asset_decodes(*j, a),
    {
        let version = match j.get("version") {
            Some(Json::Str(s)) => s.clone(),
            _ => return None,
        };
        let tileset_version = match present_member(j, "tilesetVersion") {
            None => None,
            Some(Json::Str(s)) => Some(s.clone()),
            Some(_) => return None,
        };
        let extensions = optional_json(j, "extensions");
        let extras = optional_json(j, "extras");
        Some(Asset { version, tileset_version, extensions, extras })
    }
}

/// A tileset: its metadata and the root of its tree of tiles.
#[derive(Debug)]
pub struct Tileset {
    pub asset: Asset,
    /// The error, in meters, if the tileset is not shown at all.
    pub geometric_error: Number,
    pub root: Tile,
    /// Extension-specific objects, by extension name.
    pub extensions: Option<Json>,
    /// Application-specific data.
    pub extras: Option<Json>,
    /// Names of the extensions needed to load this tileset.
    pub extensions_required: Option<Vec<String>>,
    /// Names of the extensions used somewhere in this tileset.
    pub extensions_used: Option<Vec<String>>,
    /// Metadata about per-feature properties, as given.
    pub properties: Option<Json>,
}

/// `j` is a tileset document.
pub open spec fn tileset_ok(j: Json) -> bool {
    &&& opt_ok(present(field(j, "extensionsRequired"@)), |x: Json| is_string_array(x))
    &&& opt_ok(present(field(j, "extensionsUsed"@)), |x: Json| is_string_array(x))
    &&& field(j, "asset"@) matches Some(a) && asset_ok(a)
    &&& field(j, "geometricError"@) matches Some(Json::Number(_))
    &&& field(j, "root"@) matches Some(r) && tile_ok(r)
}

/// `t` is the tileset that `j` gives.
pub open spec fn tileset_decodes(j: Json, t: Tileset) -> bool {
    &&& field(j, "asset"@) matches Some(a) && asset_decodes(a, t.asset)
    &&& field(j, "geometricError"@) == Some(Json::Number(t.geometric_error))
    &&& field(j, "root"@) matches Some(r) && tile_decodes(r, t.root)
    &&& opt_same_json(present(field(j, "extensions"@)), t.extensions)
    &&& opt_same_json(present(field(j, "extras"@)), t.extras)
    &&& opt_strings_decode(present(field(j, "extensionsRequired"@)), t.extensions_required)
    &&& opt_strings_decode(present(field(j, "extensionsUsed"@)), t.extensions_used)
    &&& opt_same_json(present(field(j, "properties"@)), t.properties)
}

impl Tileset {
    /// Reads a tileset from its JSON value.
    pub fn from_json(j: &Json) -> (r: Option<Tileset>)
        ensures
            r is Some <==> tileset_ok(*j),
            r matches Some(t) ==> tileset_decodes(*j, t),
    {
        let asset = match j.get("asset") {
            Some(a) => match Asset::from_json(a) {
                Some(a) => a,
                None => return None,
            },
            None => return None,
        };
        let geometric_error = match j.get("geometricError") {
            Some(Json::Number(n)) => n.copy(),
            _ => return None,
        };
        let root = match j.get("root") {
            Some(r) => match Tile::from_json(r) {
                Some(t) => t,
                None => return None,
            },
            None => return None,
        };
        let extensions = optional_json(j, "extensions");
        let extras = optional_json(j, "extras");
        let extensions_required = match optional_strings(j, "extensionsRequired") {
            Some(v) => v,
            None => return None,
        };
        let extensions_used = match optional_strings(j, "extensionsUsed") {
            Some(v) => v,
            None => return None,
        };
        let properties = optional_json(j, "properties");
        Some(Tileset {
            asset,
            geometric_error,
            root,
            extensions,
            extras,
            extensions_required,
            extensions_used,
            properties,
        })
    }

    /// Reads a tileset document: the rest of the reader, as JSON.
    pub fn from_reader(reader: &mut Cursor) -> (r: Result<Tileset, Error>)
        requires
            old(reader).wf(),
        ensures
            final(reader).wf(),
            final(reader).bytes@ == old(reader).bytes@,
            final(reader).pos == old(reader).bytes@.len(),
            match json_of(old(reader).rest()) {
                Some(j) => if tileset_ok(j) {
                    r matches Ok(t) && tileset_decodes(j, t)
                } else {
                    r == Err::<Tileset, Error>(Error::Json)
                },
                None => r == Err::<Tileset, Error>(Error::Json),
            },
    {
        let text = reader.read_to_end();
        match parse_json(text.as_slice()) {
            Some(j) => match Tileset::from_json(&j) {
                Some(t) => Ok(t),
                None => Err(Error::Json),
            },
            None => Err(Error::Json),
        }
    }
}

/// Each child of a tile is a part of it.
pub proof fn lemma_kids_smaller(t: Tile)
    ensures
        forall|i: int| 0 <= i < kids(t).len() ==> decreases_to!(t => #[trigger] kids(t)[i]),
{
    if let Some(c) = t.children {
        assert forall|i: int| 0 <= i < kids(t).len() implies decreases_to!(
            t => #[trigger] kids(t)[i]
        ) by {
            assert(decreases_to!(t => t.children));
            assert(decreases_to!(t.children => t.children->Some_0));
            assert(decreases_to!(c => c@));
            assert(decreases_to!(c@ => c@[i]));
        }
    }
}

/// The content of the first tile, depth first and children in order, that
/// has content: `t` itself where `i` is negative, else the subtrees of the
/// children from the `i`-th on.
pub open spec fn search(t: Tile, i: int) -> Option<TileContent>
    decreases t, kids(t).len() - i,
{
    proof {
        lemma_kids_smaller(t);
    }
    if i < 0 {
        if t.content is Some {
            t.content
        } else {
            search(t, 0)
        }
    } else if i >= kids(t).len() {
        None
    } else {
        match search(kids(t)[i], -1) {
            Some(c) => Some(c),
            None => search(t, i + 1),
        }
    }
}

/// The content of the first tile under `t`, `t` included, depth first and
/// children in order, that has content.
pub open spec fn first_content_of(t: Tile) -> Option<TileContent> {
    search(t, -1)
}

/// A tile with content is its own first content: the search does not
/// descend.
pub proof fn lemma_content_at_root(t: Tile)
    requires
        t.content is Some,
    ensures
        first_content_of(t) == t.content,
{
}

/// A tile without content whose first child has content gives that child's
/// content.
pub proof fn lemma_content_at_first_child(t: Tile)
    requires
        t.content is None,
        kids(t).len() > 0,
        kids(t)[0].content is Some,
    ensures
        first_content_of(t) == kids(t)[0].content,
{
    assert(search(t, -1) == search(t, 0));
    assert(search(kids(t)[0], -1) == kids(t)[0].content);
}

/// Finds the first tile under `t`, `t` included, that has content: `t`
/// itself where it has content, else the first found in each child's
/// subtree in turn.
pub fn find_content(t: &Tile) -> (r: Option<&TileContent>)
    ensures
        match r {
            Some(c) => first_content_of(*t) == Some(*c),
            None => first_content_of(*t) is None,
        },
    decreases t,
{
    proof {
        lemma_kids_smaller(*t);
    }
    if let Some(c) = &t.content {
        return Some(c);
    }
    assert(search(*t, -1) == search(*t, 0));
    match &t.children {
        None => None,
        Some(cs) => {
            assert(kids(*t) == cs@);
            let mut i: usize = 0;
            while i < cs.len()
                invariant
                    i <= cs@.len(),
                    kids(*t) == cs@,
                    search(*t, -1) == search(*t, i as int),
                    forall|k: int|
                        0 <= k < kids(*t).len() ==> decreases_to!(*t => #[trigger] kids(*t)[k]),
                decreases cs@.len() - i,
            {
                assert(decreases_to!(*t => kids(*t)[i as int]));
                match find_content(&cs[i]) {
                    Some(c) => {
                        return Some(c);
                    },
                    None => {},
                }
                i = i + 1;
            }
            None
        },
    }
}

/// A URI that names a further tileset document rather than tile content.
pub open spec fn names_tileset(uri: Seq<char>) -> bool {
    uri.len() >= 5 && uri.subrange(uri.len() - 5, uri.len() as int) == ".json"@
}

/// Whether a content URI names a nested tileset document (it ends in `.json`).
pub fn is_tileset_uri(uri: &String) -> (r: bool)
    ensures
        r == names_tileset(uri@),
{
    proof {
        reveal_strlit(".json");
    }
    let s = uri.as_str();
    let n = s.unicode_len();
    if n < 5 {
        return false;
    }
    let r = s.get_char(n - 5) == '.' && s.get_char(n - 4) == 'j' && s.get_char(n - 3) == 's'
        && s.get_char(n - 2) == 'o' && s.get_char(n - 1) == 'n';
    let ghost tail = uri@.subrange(n - 5, n as int);
    assert(r ==> tail =~= ".json"@);
    assert(tail == ".json"@ ==> r) by {
        if tail == ".json"@ {
            assert(tail[0] == '.' && tail[1] == 'j' && tail[2] == 's' && tail[3] == 'o' && tail[4]
                == 'n');
        }
    }
    r
}

/// What to do next to reach the first content of a tileset.
#[derive(Debug)]
pub enum Step {
    /// Read the nested tileset document at this URI, relative to the current
    /// document, and hand it to the resolver.
    Nested(String),
    /// Load the tile content at this URI, relative to the current document;
    /// `root_volume` is the current tileset's root volume, for framing.
    Content { uri: String, root_volume: BoundingVolume },
}

/// The tileset documents entered so far, by the paths their reader gave.
#[derive(Debug)]
pub struct Resolver {
    pub visited: Vec<String>,
}

/// `path` is one of `visited`.
pub open spec fn seen(visited: Seq<String>, path: Seq<char>) -> bool {
    exists|k: int| 0 <= k < visited.len() && (#[trigger] visited[k])@ == path
}

impl Resolver {
    /// A resolver that has entered no tileset yet.
    pub fn new() -> (r: Resolver)
        ensures
            r.visited@.len() == 0,
    {
        Resolver { visited: Vec::new() }
    }

    /// Enters the tileset document read from `path` and finds its first
    /// content. A document already entered is refused with `Cycle`; a
    /// tileset without content gives `MissingContent`. A content URI that
    /// ends in `.json` is a nested tileset to read next; any other is the
    /// content, given with this tileset's root volume.
    pub fn resolve_next_content(&mut self, path: String, tileset: Tileset) -> (r: Result<
        Step,
        Error,
    >)
        ensures
            seen(old(self).visited@, path@) ==> r == Err::<Step, Error>(Error::Cycle)
                && final(self).visited@ == old(self).visited@,
            !seen(old(self).visited@, path@) ==> final(self).visited@ == old(self).visited@.push(
                path,
            )
                && match first_content_of(tileset.root) {
                None => r == Err::<Step, Error>(Error::MissingContent),
                Some(c) => if names_tileset(c.uri@) {
                    r matches Ok(Step::Nested(u)) && u == c.uri
                } else {
                    r matches Ok(Step::Content { uri, root_volume }) && uri == c.uri
                        && root_volume == tileset.root.bounding_volume
                },
            },
    {
        let mut k: usize = 0;
        while k < self.visited.len()
            invariant
                k <= self.visited@.len(),
                self.visited@ == old(self).visited@,
                forall|x: int| 0 <= x < k ==> (#[trigger] self.visited@[x])@ != path@,
            decreases self.visited@.len() - k,
        {
            if self.visited[k] == path {
                return Err(Error::Cycle);
            }
            k = k + 1;
        }
        self.visited.push(path);
        let uri = match find_content(&tileset.root) {
            Some(c) => c.uri.clone(),
            None => return Err(Error::MissingContent),
        };
        if is_tileset_uri(&uri) {
            Ok(Step::Nested(uri))
        } else {
            Ok(Step::Content { uri, root_volume: tileset.root.bounding_volume })
        }
    }
}

} // verus!
