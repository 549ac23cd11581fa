use tiles3d::bytes::Cursor;
use tiles3d::error::Error;
use tiles3d::pnts::{self, Pnts};
use tiles3d::points::{read_batch_ids_u16, read_rgb565, PointValues};

fn tile(feature_json: &str, body: &[u8]) -> Vec<u8> {
    let mut json = feature_json.as_bytes().to_vec();
    json.resize((json.len() + 7) / 8 * 8, b' ');
    let h = pnts::Header {
        magic: *b"pnts",
        version: 1,
        byte_length: (28 + json.len() + body.len()) as u32,
        feature_table_json_byte_length: json.len() as u32,
        feature_table_binary_byte_length: body.len() as u32,
        batch_table_json_byte_length: 0,
        batch_table_binary_byte_length: 0,
    };
    let mut bytes = h.to_bytes();
    bytes.extend_from_slice(&json);
    bytes.extend_from_slice(body);
    bytes
}

fn decode(feature_json: &str, body: &[u8]) -> Pnts {
    Pnts::from_reader(&mut Cursor::new(&tile(feature_json, body))).unwrap()
}

#[test]
fn rgba_preferred_over_rgb() {
    let body: Vec<u8> = (0..14).collect();
    let p = decode(
        r#"{"POINTS_LENGTH":2,"RGB":{"byteOffset":8},"RGBA":{"byteOffset":0}}"#,
        &body,
    );
    match p.feature_table.colors().unwrap().unwrap() {
        PointValues::Rgba(v) => assert_eq!(v, vec![[0, 1, 2, 3], [4, 5, 6, 7]]),
        other => panic!("unexpected {:?}", other),
    }
}

#[test]
fn rgb_colors_at_offset() {
    let body: Vec<u8> = (0..10).collect();
    let p = decode(r#"{"POINTS_LENGTH":2,"RGB":{"byteOffset":4}}"#, &body);
    match p.feature_table.colors().unwrap().unwrap() {
        PointValues::Rgb(v) => assert_eq!(v, vec![[4, 5, 6], [7, 8, 9]]),
        other => panic!("unexpected {:?}", other),
    }
}

#[test]
fn rgb565_colors_and_no_colors() {
    let p = decode(r#"{"POINTS_LENGTH":1,"RGB565":{"byteOffset":0}}"#, &[0x1f, 0xf8]);
    match p.feature_table.colors().unwrap().unwrap() {
        PointValues::Rgb565(v) => assert_eq!(v, vec![0xf81f]),
        other => panic!("unexpected {:?}", other),
    }
    let p = decode(r#"{"POINTS_LENGTH":1}"#, &[]);
    assert!(p.feature_table.colors().unwrap().is_none());
    assert!(p.feature_table.normals().unwrap().is_none());
    assert!(p.feature_table.batch_ids().unwrap().is_none());
    assert!(p.feature_table.quantized_positions().unwrap().is_none());
}

#[test]
fn normals_and_oct_normals() {
    let mut body = Vec::new();
    for c in [0.0f32, 0.0, 1.0] {
        body.extend_from_slice(&c.to_le_bytes());
    }
    let p = decode(r#"{"POINTS_LENGTH":1,"NORMAL":{"byteOffset":0}}"#, &body);
    match p.feature_table.normals().unwrap().unwrap() {
        PointValues::Normal(v) => assert_eq!(v, vec![[0, 0, 1.0f32.to_bits()]]),
        other => panic!("unexpected {:?}", other),
    }
    let p = decode(r#"{"POINTS_LENGTH":2,"NORMAL_OCT16P":{"byteOffset":0}}"#, &[1, 2, 3, 4]);
    match p.feature_table.normals().unwrap().unwrap() {
        PointValues::NormalOct16p(v) => assert_eq!(v, vec![[1, 2], [3, 4]]),
        other => panic!("unexpected {:?}", other),
    }
}

#[test]
fn batch_ids_by_component_type() {
    let body = [1u8, 0, 2, 0, 3, 0, 0, 0];
    let p = decode(r#"{"POINTS_LENGTH":2,"BATCH_ID":{"byteOffset":0}}"#, &body);
    match p.feature_table.batch_ids().unwrap().unwrap() {
        PointValues::BatchId(v) => assert_eq!(v, vec![1, 2]),
        other => panic!("unexpected {:?}", other),
    }
    let p = decode(
        r#"{"POINTS_LENGTH":2,"BATCH_ID":{"byteOffset":0,"componentType":"UNSIGNED_BYTE"}}"#,
        &body,
    );
    match p.feature_table.batch_ids().unwrap().unwrap() {
        PointValues::BatchIdU8(v) => assert_eq!(v, vec![1, 0]),
        other => panic!("unexpected {:?}", other),
    }
    let p = decode(
        r#"{"POINTS_LENGTH":2,"BATCH_ID":{"byteOffset":0,"componentType":"UNSIGNED_INT"}}"#,
        &body,
    );
    match p.feature_table.batch_ids().unwrap().unwrap() {
        PointValues::BatchIdU32(v) => assert_eq!(v, vec![0x0002_0001, 3]),
        other => panic!("unexpected {:?}", other),
    }
    let p = decode(
        r#"{"POINTS_LENGTH":2,"BATCH_ID":{"byteOffset":0,"componentType":"FLOAT"}}"#,
        &body,
    );
    assert!(matches!(p.feature_table.batch_ids(), Err(Error::Json)));
}

#[test]
fn quantized_positions() {
    let body = [1u8, 0, 2, 0, 0xff, 0xff];
    let p = decode(r#"{"POINTS_LENGTH":1,"POSITION_QUANTIZED":{"byteOffset":0}}"#, &body);
    match p.feature_table.quantized_positions().unwrap().unwrap() {
        PointValues::PositionQuantized(v) => assert_eq!(v, vec![[1, 2, 0xffff]]),
        other => panic!("unexpected {:?}", other),
    }
}

#[test]
fn attribute_streams_past_the_body_are_truncated() {
    let p = decode(r#"{"POINTS_LENGTH":3,"RGB":{"byteOffset":2}}"#, &[0u8; 10]);
    assert!(matches!(p.feature_table.colors(), Err(Error::Truncated)));
    assert!(matches!(read_rgb565(&[1, 2, 3], 2, 1), Err(Error::Truncated)));
    assert!(matches!(read_batch_ids_u16(&[1, 2], 3, 0), Err(Error::Truncated)));
    assert_eq!(read_batch_ids_u16(&[1, 2], 2, 0).unwrap(), Vec::<u16>::new());
}
