use rusty_engine::assets::AssetKind;
use rusty_engine::assets::AssetLoader;

#[test]
fn cache_starts_empty() {
    let loader = AssetLoader::new();
    assert_eq!(loader.asset_count(), 0);
    assert_eq!(loader.load_count(), 0);
}

#[test]
fn cache_identity_same_kind() {
    let mut loader = AssetLoader::new();
    let first = loader.load(AssetKind::Image, "/lgrass.png");
    let second = loader.load(AssetKind::Image, "/lgrass.png");
    assert_eq!(first, second);
    assert_eq!(loader.load_count(), 1);
    assert_eq!(loader.asset_count(), 1);
}

#[test]
fn cache_type_switch_reloads_once() {
    let mut loader = AssetLoader::new();
    let as_image = loader.load(AssetKind::Image, "/bush1.png");
    let as_sound = loader.load(AssetKind::Sound, "/bush1.png");
    assert_ne!(as_image, as_sound);
    assert_eq!(loader.load_count(), 2);
    assert_eq!(loader.asset_count(), 1);
    let entry = loader.entry_at(0);
    assert_eq!(entry.kind, AssetKind::Sound);
    assert_eq!(entry.handle, as_sound);
}

#[test]
fn cache_type_switch_then_original_kind_again() {
    let mut loader = AssetLoader::new();
    let as_image = loader.load(AssetKind::Image, "/stone.png");
    let as_sound = loader.load(AssetKind::Sound, "/stone.png");
    let as_image_again = loader.load(AssetKind::Image, "/stone.png");
    assert_ne!(as_image, as_sound);
    assert_ne!(as_sound, as_image_again);
    assert_eq!(loader.load_count(), 3);
    assert_eq!(loader.asset_count(), 1);
}

#[test]
fn distinct_paths_get_distinct_handles() {
    let mut loader = AssetLoader::new();
    let grass = loader.load_image("/lgrass.png");
    let sand = loader.load_image("/sand.png");
    assert_ne!(grass, sand);
    assert_eq!(loader.load_count(), 2);
    assert_eq!(loader.asset_count(), 2);
    assert_eq!(loader.entry_at(0).path, "/lgrass.png");
    assert_eq!(loader.entry_at(1).path, "/sand.png");
}

#[test]
fn load_image_is_an_image_load() {
    let mut loader = AssetLoader::new();
    let handle = loader.load_image("/dgrass.png");
    let same = loader.load(AssetKind::Image, "/dgrass.png");
    assert_eq!(handle, same);
    assert_eq!(loader.load_count(), 1);
    assert_eq!(loader.entry_at(0).kind, AssetKind::Image);
}
