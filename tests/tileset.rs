use tiles3d::bytes::Cursor;
use tiles3d::error::Error;
use tiles3d::json::{Json, Number};
use tiles3d::tileset::{find_content, is_tileset_uri, Refine, Resolver, Step, Tileset};

fn read(text: &str) -> Result<Tileset, Error> {
    Tileset::from_reader(&mut Cursor::new(text.as_bytes()))
}

const BOX: &str = r#"{"box":[0,0,0,1,0,0,0,1,0,0,0,1]}"#;

fn tileset_with_root(root: &str) -> String {
    format!(r#"{{"asset":{{"version":"1.0"}},"geometricError":500,"root":{}}}"#, root)
}

#[test]
fn child_content_is_found() {
    let root = format!(
        r#"{{"boundingVolume":{b},"geometricError":100,"refine":"ADD","children":[{{"boundingVolume":{b},"geometricError":0,"content":{{"uri":"child.b3dm"}}}}]}}"#,
        b = BOX
    );
    let t = read(&tileset_with_root(&root)).unwrap();
    assert_eq!(t.asset.version, "1.0");
    assert!(matches!(t.geometric_error, Number::PosInt(500)));
    assert_eq!(t.root.refine, Some(Refine::Add));
    assert_eq!(find_content(&t.root).unwrap().uri, "child.b3dm");
    let child = &t.root.children.as_ref().unwrap()[0];
    assert_eq!(child.refine, None);
    assert_eq!(child.effective_refine(t.root.refine), Some(Refine::Add));
    assert_eq!(t.root.effective_refine(Some(Refine::Replace)), Some(Refine::Add));
    let mut r = Resolver::new();
    match r.resolve_next_content("data/tileset.json".to_string(), t).unwrap() {
        Step::Content { uri, root_volume } => {
            assert_eq!(uri, "child.b3dm");
            assert_eq!(root_volume.bounding_volume_box.unwrap().len(), 12);
        }
        other => panic!("unexpected {:?}", other),
    }
}

#[test]
fn root_content_wins() {
    let root = format!(
        r#"{{"boundingVolume":{b},"geometricError":100,"content":{{"uri":"root.pnts"}},"children":[{{"boundingVolume":{b},"geometricError":0,"content":{{"uri":"child.b3dm"}}}}]}}"#,
        b = BOX
    );
    let t = read(&tileset_with_root(&root)).unwrap();
    assert_eq!(find_content(&t.root).unwrap().uri, "root.pnts");
}

#[test]
fn depth_first_order() {
    let root = format!(
        r#"{{"boundingVolume":{b},"geometricError":9,"children":[{{"boundingVolume":{b},"geometricError":5,"children":[{{"boundingVolume":{b},"geometricError":1,"content":{{"uri":"deep.b3dm"}}}}]}},{{"boundingVolume":{b},"geometricError":5,"content":{{"uri":"second.b3dm"}}}}]}}"#,
        b = BOX
    );
    let t = read(&tileset_with_root(&root)).unwrap();
    assert_eq!(find_content(&t.root).unwrap().uri, "deep.b3dm");
}

#[test]
fn nested_tileset_is_resolved_next() {
    let root = format!(
        r#"{{"boundingVolume":{b},"geometricError":100,"content":{{"uri":"sub/tileset.json"}}}}"#,
        b = BOX
    );
    let t = read(&tileset_with_root(&root)).unwrap();
    let mut r = Resolver::new();
    match r.resolve_next_content("tileset.json".to_string(), t).unwrap() {
        Step::Nested(uri) => assert_eq!(uri, "sub/tileset.json"),
        other => panic!("unexpected {:?}", other),
    }
    let inner = format!(
        r#"{{"boundingVolume":{{"sphere":[1,2,3,4]}},"geometricError":1,"content":{{"uri":"leaf.i3dm"}},"transform":[1,0,0,0,0,1,0,0,0,0,1,0,0,0,0,1]}}"#
    );
    let t2 = read(&tileset_with_root(&inner)).unwrap();
    assert_eq!(t2.root.transform.as_ref().unwrap().len(), 16);
    match r.resolve_next_content("sub/tileset.json".to_string(), t2).unwrap() {
        Step::Content { uri, root_volume } => {
            assert_eq!(uri, "leaf.i3dm");
            assert_eq!(root_volume.sphere.unwrap().len(), 4);
        }
        other => panic!("unexpected {:?}", other),
    }
    assert_eq!(r.visited, vec!["tileset.json".to_string(), "sub/tileset.json".to_string()]);
}

#[test]
fn cycle_is_refused() {
    let root = format!(
        r#"{{"boundingVolume":{b},"geometricError":1,"content":{{"uri":"tileset.json"}}}}"#,
        b = BOX
    );
    let mut r = Resolver::new();
    let t = read(&tileset_with_root(&root)).unwrap();
    assert!(matches!(
        r.resolve_next_content("tileset.json".to_string(), t),
        Ok(Step::Nested(_))
    ));
    let t = read(&tileset_with_root(&root)).unwrap();
    assert!(matches!(
        r.resolve_next_content("tileset.json".to_string(), t),
        Err(Error::Cycle)
    ));
    assert_eq!(r.visited.len(), 1);
}

#[test]
fn missing_content() {
    let root = format!(
        r#"{{"boundingVolume":{b},"geometricError":1,"children":[{{"boundingVolume":{b},"geometricError":0}}]}}"#,
        b = BOX
    );
    let t = read(&tileset_with_root(&root)).unwrap();
    assert!(find_content(&t.root).is_none());
    assert!(matches!(
        Resolver::new().resolve_next_content("t.json".to_string(), t),
        Err(Error::MissingContent)
    ));
}

#[test]
fn malformed_tilesets() {
    assert!(matches!(read("{"), Err(Error::Json)));
    assert!(matches!(read(r#"{"asset":{"version":"1.0"},"geometricError":1}"#), Err(Error::Json)));
    let bad_refine = format!(r#"{{"boundingVolume":{b},"geometricError":1,"refine":"MERGE"}}"#, b = BOX);
    assert!(matches!(read(&tileset_with_root(&bad_refine)), Err(Error::Json)));
    let bad_child = format!(
        r#"{{"boundingVolume":{b},"geometricError":1,"children":[{{"geometricError":0}}]}}"#,
        b = BOX
    );
    assert!(matches!(read(&tileset_with_root(&bad_child)), Err(Error::Json)));
}

#[test]
fn tileset_uri_suffix() {
    assert!(is_tileset_uri(&"a/b/tileset.json".to_string()));
    assert!(!is_tileset_uri(&"tile.b3dm".to_string()));
    assert!(!is_tileset_uri(&"json".to_string()));
}

#[test]
fn extensions_extras_and_metadata_are_kept() {
    let text = format!(
        r#"{{"asset":{{"version":"1.0","tilesetVersion":"7","extras":{{"by":"me"}}}},"extensionsUsed":["EXT_a","EXT_b"],"extensionsRequired":["EXT_a"],"properties":{{"height":{{"minimum":1,"maximum":9}}}},"extras":[1,"two",null],"geometricError":5,"root":{{"boundingVolume":{{"region":[0,0,1,1,0,10],"extensions":{{"EXT_a":{{}}}}}},"geometricError":1,"extras":{{"k":true}},"content":{{"uri":"a.b3dm","extras":{{"z":0}}}}}}}}"#
    );
    let t = read(&text).unwrap();
    assert_eq!(t.asset.tileset_version.as_deref(), Some("7"));
    assert!(matches!(&t.asset.extras, Some(Json::Object(m)) if m.len() == 1 && m[0].0 == "by"));
    assert_eq!(t.extensions_used, Some(vec!["EXT_a".to_string(), "EXT_b".to_string()]));
    assert_eq!(t.extensions_required, Some(vec!["EXT_a".to_string()]));
    assert!(matches!(&t.properties, Some(Json::Object(m)) if m[0].0 == "height"));
    match &t.extras {
        Some(Json::Array(items)) => {
            assert_eq!(items.len(), 3);
            assert!(matches!(&items[1], Json::Str(s) if s == "two"));
            assert!(matches!(&items[2], Json::Null));
        }
        other => panic!("unexpected {:?}", other),
    }
    assert!(t.extensions.is_none());
    assert!(matches!(&t.root.extras, Some(Json::Object(_))));
    assert!(matches!(&t.root.bounding_volume.extensions, Some(Json::Object(m)) if m[0].0 == "EXT_a"));
    assert!(matches!(&t.root.content.as_ref().unwrap().extras, Some(Json::Object(_))));
    let bad = text.replace(r#"["EXT_a"]"#, "[1]");
    assert!(matches!(read(&bad), Err(Error::Json)));
}
