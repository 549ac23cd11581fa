use tiles3d::b3dm::{self, B3dm};
use tiles3d::batch_table::{BatchTable, Property as BatchProperty};
use tiles3d::bytes::Cursor;
use tiles3d::error::Error;
use tiles3d::feature_table::{ComponentType, GlobalPropertyScalar, Property, Type};
use tiles3d::i3dm::{self, I3dm};
use tiles3d::json::{Json, Number};
use tiles3d::payload::{extract_scene_payload, ScenePayload, TileFormat};
use tiles3d::pnts::{self, Pnts};

fn padded(json: &str, len: usize) -> Vec<u8> {
    let mut v = json.as_bytes().to_vec();
    assert!(v.len() <= len);
    v.resize(len, b' ');
    v
}

fn b3dm_header(ftj: u32, ftb: u32, btj: u32, btb: u32, total: u32) -> b3dm::Header {
    b3dm::Header {
        magic: *b"b3dm",
        version: 1,
        byte_length: total,
        feature_table_json_byte_length: ftj,
        feature_table_binary_byte_length: ftb,
        batch_table_json_byte_length: btj,
        batch_table_binary_byte_length: btb,
    }
}

fn pnts_tile(feature_json: &str, body: &[u8]) -> Vec<u8> {
    let json = padded(feature_json, (feature_json.len() + 7) / 8 * 8);
    let h = pnts::Header {
        magic: *b"pnts",
        version: 1,
        byte_length: (28 + json.len() + body.len()) as u32,
        feature_table_json_byte_length: json.len() as u32,
        feature_table_binary_byte_length: body.len() as u32,
        batch_table_json_byte_length: 0,
        batch_table_binary_byte_length: 0,
    };
    let mut bytes = h.to_bytes();
    bytes.extend_from_slice(&json);
    bytes.extend_from_slice(body);
    bytes
}

#[test]
fn b3dm_header_round_trip() {
    let h = b3dm_header(20, 8, 16, 4, 1000);
    let bytes = h.to_bytes();
    assert_eq!(bytes.len(), 28);
    assert_eq!(&bytes[0..4], b"b3dm");
    assert_eq!(&bytes[8..12], &1000u32.to_le_bytes());
    let mut reader = Cursor::new(&bytes);
    let back = b3dm::Header::from_reader(&mut reader).unwrap();
    assert_eq!(back, h);
    assert_eq!(reader.pos, 28);
}

#[test]
fn i3dm_header_round_trip_both_gltf_formats() {
    for gltf_format in [0u32, 1u32] {
        let h = i3dm::Header {
            magic: *b"i3dm",
            version: 1,
            byte_length: 0x0102_0304,
            feature_table_json_byte_length: 40,
            feature_table_binary_byte_length: 12,
            batch_table_json_byte_length: 0,
            batch_table_binary_byte_length: 0,
            gltf_format,
        };
        let bytes = h.to_bytes();
        assert_eq!(bytes.len(), 32);
        let mut reader = Cursor::new(&bytes);
        assert_eq!(i3dm::Header::from_reader(&mut reader).unwrap(), h);
        assert_eq!(reader.pos, 32);
    }
}

#[test]
fn pnts_header_round_trip() {
    let h = pnts::Header {
        magic: *b"pnts",
        version: 1,
        byte_length: u32::MAX,
        feature_table_json_byte_length: 1,
        feature_table_binary_byte_length: 2,
        batch_table_json_byte_length: 3,
        batch_table_binary_byte_length: 4,
    };
    let bytes = h.to_bytes();
    let mut reader = Cursor::new(&bytes);
    assert_eq!(pnts::Header::from_reader(&mut reader).unwrap(), h);
}

#[test]
fn tables_consume_exactly_their_lengths() {
    let mut bytes = padded(r#"{"BATCH_LENGTH":[1,2]}"#, 24);
    bytes.extend_from_slice(&[9; 8]);
    bytes.extend_from_slice(&padded(r#"{"height":[1,2]}"#, 16));
    bytes.extend_from_slice(&[7; 4]);
    bytes.extend_from_slice(b"rest");
    let mut reader = Cursor::new(&bytes);
    let ft = b3dm::FeatureTable::from_reader(&mut reader, 24, 8).unwrap();
    assert_eq!(reader.pos, 32);
    assert_eq!(ft.body, vec![9; 8]);
    match ft.json.batch_length {
        GlobalPropertyScalar::DoubleArray(v) => {
            assert_eq!(v, vec![Number::PosInt(1), Number::PosInt(2)])
        }
        other => panic!("unexpected {:?}", other),
    }
    let bt = BatchTable::from_reader(&mut reader, 16, 4).unwrap();
    assert_eq!(reader.pos, 52);
    assert_eq!(bt.body, vec![7; 4]);
    let props = bt.json.unwrap().properties;
    assert_eq!(props.len(), 1);
    assert_eq!(props[0].0, "height");
    assert!(matches!(&props[0].1, BatchProperty::Array(items) if items.len() == 2));
    assert_eq!(reader.remaining(), 4);
}

#[test]
fn empty_batch_table_json_still_consumes_body() {
    let bytes = [1u8, 2, 3, 4, 5, 6, 7, 8, 9];
    let mut reader = Cursor::new(&bytes);
    let bt = BatchTable::from_reader(&mut reader, 0, 8).unwrap();
    assert!(bt.json.is_none());
    assert_eq!(bt.body, vec![1, 2, 3, 4, 5, 6, 7, 8]);
    assert_eq!(reader.pos, 8);
}

#[test]
fn empty_tables_consume_nothing() {
    let bytes: Vec<u8> = b"{}".to_vec();
    let mut reader = Cursor::new(&bytes);
    let bt = BatchTable::from_reader(&mut reader, 0, 0).unwrap();
    assert!(bt.json.is_none());
    assert!(bt.body.is_empty());
    assert_eq!(reader.pos, 0);
}

#[test]
fn batch_table_reference_and_reserved_members() {
    let json = r#"{"extras":{"a":1},"id":{"byteOffset":4,"componentType":"UNSIGNED_SHORT","type":"VEC2"}}"#;
    let bytes = json.as_bytes().to_vec();
    let mut reader = Cursor::new(&bytes);
    let bt = BatchTable::from_reader(&mut reader, bytes.len() as u32, 0).unwrap();
    let bj = bt.json.unwrap();
    assert!(matches!(&bj.extras, Some(Json::Object(m)) if m[0].0 == "a"));
    let props = bj.properties;
    assert_eq!(props.len(), 1);
    assert_eq!(props[0].0, "id");
    match &props[0].1 {
        BatchProperty::BinaryBodyReference(r) => {
            assert_eq!(r.byte_offset, 4);
            assert_eq!(r.component_type, ComponentType::UnsignedShort);
            assert_eq!(r.property_type, Type::Vec2);
        }
        other => panic!("unexpected {:?}", other),
    }
}

#[test]
fn batch_table_bad_property_is_json_error() {
    let json = br#"{"id":{"byteOffset":4}}"#;
    let mut reader = Cursor::new(json);
    let r = BatchTable::from_reader(&mut reader, json.len() as u32, 0);
    assert!(matches!(r, Err(Error::Json)));
}

#[test]
fn points_decode_from_body() {
    let coords: [f32; 6] = [1.0, 2.0, 3.0, -4.5, 5.25, 6.0];
    let mut body = Vec::new();
    for c in coords {
        body.extend_from_slice(&c.to_le_bytes());
    }
    let tile = pnts_tile(r#"{"POINTS_LENGTH":2,"POSITION":{"byteOffset":0}}"#, &body);
    let mut reader = Cursor::new(&tile);
    let p = Pnts::from_reader(&mut reader).unwrap();
    assert_eq!(p.feature_table.json.points_length, 2);
    let pos = p.feature_table.positions().unwrap();
    assert_eq!(pos.len(), 2);
    let as_f32: Vec<[f32; 3]> = pos.iter().map(|t| t.map(f32::from_bits)).collect();
    assert_eq!(as_f32, vec![[1.0, 2.0, 3.0], [-4.5, 5.25, 6.0]]);
}

#[test]
fn points_honour_declared_offset() {
    let mut body = vec![0u8; 4];
    for c in [7.0f32, 8.0, 9.0] {
        body.extend_from_slice(&c.to_le_bytes());
    }
    let tile = pnts_tile(r#"{"POINTS_LENGTH":1,"POSITION":{"byteOffset":4}}"#, &body);
    let p = Pnts::from_reader(&mut Cursor::new(&tile)).unwrap();
    let pos = p.feature_table.positions().unwrap();
    assert_eq!(pos, vec![[7.0f32.to_bits(), 8.0f32.to_bits(), 9.0f32.to_bits()]]);
}

#[test]
fn points_short_body_is_truncated() {
    let tile = pnts_tile(r#"{"POINTS_LENGTH":2}"#, &[0u8; 23]);
    let p = Pnts::from_reader(&mut Cursor::new(&tile)).unwrap();
    assert!(matches!(p.feature_table.positions(), Err(Error::Truncated)));
    assert!(matches!(
        extract_scene_payload(&tile, TileFormat::PointCloud),
        Err(Error::Truncated)
    ));
}

#[test]
fn points_zero_length() {
    let tile = pnts_tile(r#"{"POINTS_LENGTH":0}"#, &[]);
    match extract_scene_payload(&tile, TileFormat::PointCloud).unwrap() {
        ScenePayload::Points(v) => assert!(v.is_empty()),
        other => panic!("unexpected {:?}", other),
    }
}

#[test]
fn pnts_fed_to_b3dm_is_magic_mismatch() {
    let tile = pnts_tile(r#"{"POINTS_LENGTH":0}"#, &[]);
    let mut reader = Cursor::new(&tile);
    match B3dm::from_reader(&mut reader) {
        Err(Error::Magic(m)) => assert_eq!(&m, b"pnts"),
        other => panic!("unexpected {:?}", other),
    }
    assert!(matches!(
        extract_scene_payload(&tile, TileFormat::Instanced),
        Err(Error::Magic(_))
    ));
}

#[test]
fn batched_model_scenario() {
    let h = b3dm_header(20, 0, 0, 0, 100);
    let mut tile = h.to_bytes();
    let json = padded(r#"{"BATCH_LENGTH":5}"#, 20);
    tile.extend_from_slice(&json);
    let scene: Vec<u8> = (0..52u8).collect();
    tile.extend_from_slice(&scene);
    assert_eq!(tile.len(), 100);

    let mut reader = Cursor::new(&tile);
    let b = B3dm::from_reader(&mut reader).unwrap();
    assert!(matches!(
        b.feature_table.json.batch_length,
        GlobalPropertyScalar::Double(Number::PosInt(5))
    ));
    assert!(b.feature_table.json.rtc_center.is_none());
    assert!(b.batch_table.json.is_none());
    assert_eq!(reader.remaining(), 52);

    match extract_scene_payload(&tile, TileFormat::Batched).unwrap() {
        ScenePayload::Gltf(v) => assert_eq!(v, scene),
        other => panic!("unexpected {:?}", other),
    }
}

#[test]
fn unsupported_version() {
    let mut h = b3dm_header(0, 0, 0, 0, 28);
    h.version = 2;
    let bytes = h.to_bytes();
    assert!(matches!(
        B3dm::from_reader(&mut Cursor::new(&bytes)),
        Err(Error::Version(2))
    ));
}

#[test]
fn truncated_header_and_tables() {
    assert!(matches!(
        b3dm::Header::from_reader(&mut Cursor::new(b"b3")),
        Err(Error::Truncated)
    ));
    assert!(matches!(
        b3dm::Header::from_reader(&mut Cursor::new(b"b3dm\x01\x00\x00\x00")),
        Err(Error::Truncated)
    ));
    let h = b3dm_header(20, 0, 0, 0, 48);
    let mut tile = h.to_bytes();
    tile.extend_from_slice(b"{}");
    assert!(matches!(
        B3dm::from_reader(&mut Cursor::new(&tile)),
        Err(Error::Truncated)
    ));
}

#[test]
fn malformed_feature_table_json() {
    let h = b3dm_header(8, 0, 0, 0, 36);
    let mut tile = h.to_bytes();
    tile.extend_from_slice(b"{not js}");
    assert!(matches!(
        B3dm::from_reader(&mut Cursor::new(&tile)),
        Err(Error::Json)
    ));
    let mut tile = h.to_bytes();
    tile.extend_from_slice(b"{\"a\":1} ");
    assert!(matches!(
        B3dm::from_reader(&mut Cursor::new(&tile)),
        Err(Error::Json)
    ));
}

fn i3dm_tile(gltf_format: u32, trailer: &[u8]) -> Vec<u8> {
    let json = padded(r#"{"INSTANCES_LENGTH":1,"EAST_NORTH_UP":true,"POSITION":{"byteOffset":0}}"#, 72);
    let h = i3dm::Header {
        magic: *b"i3dm",
        version: 1,
        byte_length: (32 + json.len() + 12 + trailer.len()) as u32,
        feature_table_json_byte_length: json.len() as u32,
        feature_table_binary_byte_length: 12,
        batch_table_json_byte_length: 0,
        batch_table_binary_byte_length: 0,
        gltf_format,
    };
    let mut tile = h.to_bytes();
    tile.extend_from_slice(&json);
    tile.extend_from_slice(&[0; 12]);
    tile.extend_from_slice(trailer);
    tile
}

#[test]
fn instanced_model_uri_and_binary() {
    let tile = i3dm_tile(0, b"model.glb");
    let i = I3dm::from_reader(&mut Cursor::new(&tile)).unwrap();
    assert_eq!(i.feature_table.json.east_north_up, Some(true));
    assert_eq!(i.feature_table.json.position.unwrap().byte_offset, 0);
    match extract_scene_payload(&tile, TileFormat::Instanced).unwrap() {
        ScenePayload::Uri(u) => assert_eq!(u, b"model.glb".to_vec()),
        other => panic!("unexpected {:?}", other),
    }
    let tile = i3dm_tile(1, b"glTF....");
    match extract_scene_payload(&tile, TileFormat::Instanced).unwrap() {
        ScenePayload::Gltf(g) => assert_eq!(g, b"glTF....".to_vec()),
        other => panic!("unexpected {:?}", other),
    }
    let tile = i3dm_tile(2, b"");
    assert!(matches!(
        extract_scene_payload(&tile, TileFormat::Instanced),
        Err(Error::GltfFormat(2))
    ));
}

#[test]
fn property_shapes() {
    let j = Json::parse(br#"{"a":{"byteOffset":8,"componentType":"FLOAT"},"b":2.5,"c":[1,-2]}"#).unwrap();
    match Property::from_json(j.get("a").unwrap()).unwrap() {
        Property::BinaryBodyReference(r) => {
            assert_eq!(r.byte_offset, 8);
            assert_eq!(r.component_type, Some(ComponentType::Float));
        }
        other => panic!("unexpected {:?}", other),
    }
    match Property::from_json(j.get("b").unwrap()).unwrap() {
        Property::Double(Number::Float(s)) => assert_eq!(s, "2.5"),
        other => panic!("unexpected {:?}", other),
    }
    match Property::from_json(j.get("c").unwrap()).unwrap() {
        Property::DoubleArray(v) => assert_eq!(v, vec![Number::PosInt(1), Number::NegInt(-2)]),
        other => panic!("unexpected {:?}", other),
    }
    assert!(Property::from_json(&Json::Bool(true)).is_none());
}

#[test]
fn json_parse_and_lookup() {
    let j = Json::parse(br#"{"z":null,"k":"v","n":[true,{}]}"#).unwrap();
    assert!(matches!(j.get("z"), Some(Json::Null)));
    assert!(matches!(j.get("k"), Some(Json::Str(s)) if s == "v"));
    assert!(matches!(j.get("n"), Some(Json::Array(a)) if a.len() == 2));
    assert!(j.get("missing").is_none());
    assert!(matches!(Json::parse(b"{"), Err(Error::Json)));
    assert!(matches!(Json::parse(b""), Err(Error::Json)));
}

#[test]
fn component_sizes_and_arity() {
    assert_eq!(ComponentType::Byte.size(), 1);
    assert_eq!(ComponentType::UnsignedShort.size(), 2);
    assert_eq!(ComponentType::Float.size(), 4);
    assert_eq!(ComponentType::Double.size(), 8);
    assert_eq!(Type::Scalar.arity(), 1);
    assert_eq!(Type::Vec4.arity(), 4);
}

#[test]
fn other_feature_table_members_become_properties() {
    let json = br#"{"BATCH_LENGTH":2,"extras":{"note":"x"},"height":[1.5,2],"id":{"byteOffset":16}}"#;
    let mut reader = Cursor::new(json);
    let ft = b3dm::FeatureTable::from_reader(&mut reader, json.len() as u32, 0).unwrap();
    let props = &ft.json.properties;
    assert_eq!(props.len(), 2);
    assert_eq!(props[0].0, "height");
    match &props[0].1 {
        Property::DoubleArray(v) => {
            assert_eq!(v, &vec![Number::Float("1.5".to_string()), Number::PosInt(2)])
        }
        other => panic!("unexpected {:?}", other),
    }
    assert_eq!(props[1].0, "id");
    assert!(matches!(&props[1].1, Property::BinaryBodyReference(r) if r.byte_offset == 16));
    match &ft.json.extras {
        Some(Json::Object(m)) => {
            assert_eq!(m[0].0, "note");
            assert!(matches!(&m[0].1, Json::Str(s) if s == "x"));
        }
        other => panic!("unexpected {:?}", other),
    }
    assert!(ft.json.extensions.is_none());
}

#[test]
fn other_member_that_is_no_property_is_json_error() {
    let json = br#"{"BATCH_LENGTH":2,"name":"house"}"#;
    let mut reader = Cursor::new(json);
    let r = b3dm::FeatureTable::from_reader(&mut reader, json.len() as u32, 0);
    assert!(matches!(r, Err(Error::Json)));
    let json = br#"{"POINTS_LENGTH":1,"RGB":{"byteOffset":12},"flag":true}"#;
    let mut reader = Cursor::new(json);
    let r = pnts::FeatureTable::from_reader(&mut reader, json.len() as u32, 0);
    assert!(matches!(r, Err(Error::Json)));
}

#[test]
fn reader_position_after_errors() {
    let tile = pnts_tile(r#"{"POINTS_LENGTH":0}"#, &[]);
    let mut reader = Cursor::new(&tile);
    assert!(matches!(b3dm::Header::from_reader(&mut reader), Err(Error::Magic(_))));
    assert_eq!(reader.pos, 4);
    let mut reader = Cursor::new(&tile);
    assert!(matches!(I3dm::from_reader(&mut reader), Err(Error::Magic(_))));
    assert_eq!(reader.pos, 4);

    let mut h = b3dm_header(0, 0, 0, 0, 40);
    h.version = 7;
    let mut bytes = h.to_bytes();
    bytes.extend_from_slice(&[0; 12]);
    let mut reader = Cursor::new(&bytes);
    assert!(matches!(B3dm::from_reader(&mut reader), Err(Error::Version(7))));
    assert_eq!(reader.pos, 28);

    let h = b3dm_header(8, 4, 0, 0, 40);
    let mut bytes = h.to_bytes();
    bytes.extend_from_slice(b"{\"a\":1} ");
    bytes.extend_from_slice(&[0; 4]);
    let mut reader = Cursor::new(&bytes);
    assert!(matches!(B3dm::from_reader(&mut reader), Err(Error::Json)));
    assert_eq!(reader.pos, 36);

    let json = br#"{"a":5}xxxx"#;
    let mut reader = Cursor::new(json);
    assert!(matches!(BatchTable::from_reader(&mut reader, 7, 4), Err(Error::Json)));
    assert_eq!(reader.pos, 7);
    let json = br#"{"a":[5]}xxxx"#;
    let mut reader = Cursor::new(json);
    assert!(matches!(BatchTable::from_reader(&mut reader, 9, 40), Err(Error::Truncated)));
    assert_eq!(reader.pos, 9);
}

#[test]
fn quantized_only_point_cloud() {
    let tile = pnts_tile(
        r#"{"POINTS_LENGTH":1,"POSITION_QUANTIZED":{"byteOffset":0}}"#,
        &[1, 0, 2, 0, 3, 0],
    );
    let p = Pnts::from_reader(&mut Cursor::new(&tile)).unwrap();
    assert!(matches!(p.feature_table.positions(), Err(Error::QuantizedPositions)));
    match extract_scene_payload(&tile, TileFormat::PointCloud).unwrap() {
        ScenePayload::QuantizedPoints(v) => assert_eq!(v, vec![[1, 2, 3]]),
        other => panic!("unexpected {:?}", other),
    }
}
