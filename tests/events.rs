use asset_events::error::AssetLoadError;
use asset_events::event::{AssetEvent, AssetLoadFailedEvent, UntypedAssetLoadFailedEvent};
use asset_events::id::{Asset, AssetId, AssetIndex};
use asset_events::path::AssetPath;

#[derive(Debug)]
struct Texture;

impl Asset for Texture {}

#[derive(Debug)]
struct Mesh;

impl Asset for Mesh {}

fn texture(index: u32) -> AssetId<Texture> {
    AssetId::new(AssetIndex { generation: 0, index })
}

fn failure(index: u32, path: &str, missing: &str) -> AssetLoadFailedEvent<Texture> {
    AssetLoadFailedEvent {
        id: texture(index),
        path: AssetPath::new(path.to_string()),
        error: AssetLoadError::NotFound(missing.to_string()),
    }
}

fn all_variants(id: AssetId<Texture>) -> Vec<AssetEvent<Texture>> {
    vec![
        AssetEvent::Added { id },
        AssetEvent::Modified { id },
        AssetEvent::Removed { id },
        AssetEvent::Unused { id },
        AssetEvent::LoadedWithDependencies { id },
    ]
}

fn predicates(e: &AssetEvent<Texture>, id: AssetId<Texture>) -> [bool; 5] {
    [
        e.is_added(id),
        e.is_modified(id),
        e.is_removed(id),
        e.is_unused(id),
        e.is_loaded_with_dependencies(id),
    ]
}

#[test]
fn untyped_keeps_id_path_and_error() {
    let id7 = texture(7);
    let e = failure(7, "tex.png", "tex.png");
    let u = e.untyped();
    assert!(u.id == id7.untyped());
    assert!(u.path == AssetPath::new("tex.png".to_string()));
    assert!(u.error == AssetLoadError::NotFound("tex.png".to_string()));
    assert!(format!("{:?}", u.error).contains("NotFound"));
}

#[test]
fn untyped_twice_gives_equal_results() {
    let e = AssetLoadFailedEvent {
        id: texture(3),
        path: AssetPath::with_label("scene.gltf".to_string(), "Mesh0".to_string()),
        error: AssetLoadError::LoaderFailed {
            path: "scene.gltf".to_string(),
            message: "bad header".to_string(),
        },
    };
    let a: UntypedAssetLoadFailedEvent = e.untyped();
    let b = e.untyped();
    assert!(a.id == b.id);
    assert!(a.path == b.path);
    assert!(a.error == b.error);
    assert!(a.path == e.path);
    assert!(a.error == e.error);
}

#[test]
fn untyped_ids_differ_across_kinds() {
    let index = AssetIndex { generation: 1, index: 4 };
    let t: AssetId<Texture> = AssetId::new(index);
    let m: AssetId<Mesh> = AssetId::new(index);
    assert!(t.untyped() != m.untyped());
    assert!(t.untyped() == t.untyped());
    assert!(t.untyped().index == m.untyped().index);
}

#[test]
fn untyped_ids_differ_across_slots() {
    assert!(texture(1).untyped() != texture(2).untyped());
    let a: AssetId<Texture> = AssetId::new(AssetIndex { generation: 0, index: 5 });
    let b: AssetId<Texture> = AssetId::new(AssetIndex { generation: 1, index: 5 });
    assert!(a.untyped() != b.untyped());
    assert!(a != b);
}

#[test]
fn loaded_with_dependencies_scenario() {
    let id7 = texture(7);
    let id8 = texture(8);
    let e = AssetEvent::LoadedWithDependencies { id: id7 };
    assert!(e.is_loaded_with_dependencies(id7));
    assert!(!e.is_added(id7));
    assert!(!e.is_loaded_with_dependencies(id8));
}

#[test]
fn each_predicate_matches_only_its_variant_and_id() {
    let x = texture(10);
    let y = texture(11);
    for (i, e) in all_variants(x).iter().enumerate() {
        let on_x = predicates(e, x);
        let on_y = predicates(e, y);
        for j in 0..5 {
            assert_eq!(on_x[j], i == j);
            assert!(!on_y[j]);
        }
    }
}

#[test]
fn events_equal_iff_same_variant_and_id() {
    let x = texture(1);
    let y = texture(2);
    let xs = all_variants(x);
    let ys = all_variants(y);
    for i in 0..5 {
        for j in 0..5 {
            assert_eq!(xs[i] == xs[j], i == j);
            assert!(xs[i] != ys[j]);
        }
    }
    assert!(AssetEvent::Added { id: x } != AssetEvent::Modified { id: x });
    assert!(AssetEvent::Added { id: x } != AssetEvent::Added { id: y });
    assert!(AssetEvent::Added { id: x } == AssetEvent::Added { id: texture(1) });
}

#[test]
fn cloned_events_equal_the_original() {
    for e in all_variants(texture(9)) {
        let c = e.clone();
        assert!(c == e);
    }
}

#[test]
fn cloned_failure_is_independent() {
    let e = failure(2, "a.png", "a.png");
    let mut c = e.clone();
    assert!(c.id == e.id);
    assert!(c.path == e.path);
    assert!(c.error == e.error);
    c.path.path.push_str(".bak");
    c.error = AssetLoadError::MissingLabel { label: "x".to_string() };
    assert!(e.path == AssetPath::new("a.png".to_string()));
    assert!(e.error == AssetLoadError::NotFound("a.png".to_string()));
    assert!(c.path != e.path);
    assert!(c.error != e.error);
}

#[test]
fn cloned_untyped_failure_equals_original() {
    let u = failure(5, "b.ron", "b.ron").untyped();
    let c = u.clone();
    assert!(c.id == u.id);
    assert!(c.path == u.path);
    assert!(c.error == u.error);
}

#[test]
fn path_equality_compares_path_and_label() {
    let plain = AssetPath::new("m.gltf".to_string());
    let labelled = AssetPath::with_label("m.gltf".to_string(), "Mesh0".to_string());
    let other_label = AssetPath::with_label("m.gltf".to_string(), "Mesh1".to_string());
    assert!(plain != labelled);
    assert!(labelled != other_label);
    assert!(labelled == labelled.clone());
    assert!(plain != AssetPath::new("n.gltf".to_string()));
}

#[test]
fn load_errors_compare_by_variant_and_fields() {
    let missing = AssetLoadError::MissingLoader { extension: "xyz".to_string() };
    assert!(missing == missing.clone());
    assert!(missing != AssetLoadError::MissingLoader { extension: "abc".to_string() });
    assert!(missing != AssetLoadError::NotFound("xyz".to_string()));
    let failed = AssetLoadError::LoaderFailed { path: "p".to_string(), message: "m".to_string() };
    assert!(failed != AssetLoadError::LoaderFailed { path: "p".to_string(), message: "n".to_string() });
    assert!(failed == failed.clone());
}

#[test]
fn event_debug_names_variant_and_id() {
    let text = format!("{:?}", AssetEvent::Unused { id: texture(42) });
    assert!(text.contains("Unused"));
    assert!(text.contains("42"));
}
