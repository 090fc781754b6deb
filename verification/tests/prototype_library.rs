use rusty_engine::assets::AssetLoader;
use rusty_engine::entity::Decoration;
use rusty_engine::entity::DecorationLibrary;
use rusty_engine::entity::DecorationType;
use rusty_engine::library::PrototypeLibrary;
use rusty_engine::world::TileLibrary;

#[test]
fn register_assigns_stable_indices() {
    let mut lib: PrototypeLibrary<u32> = PrototypeLibrary::new();
    assert_eq!(lib.len(), 0);
    let a = lib.register(String::from("GrassLight"), 7);
    let b = lib.register(String::from("Sand"), 8);
    assert_eq!(a, 0);
    assert_eq!(b, 1);
    assert_eq!(lib.len(), 2);
    assert_eq!(*lib.lookup("GrassLight"), 7);
    assert_eq!(*lib.lookup("Sand"), 8);
    assert_eq!(*lib.get(a), 7);
}

#[test]
fn register_overwrites_in_place() {
    let mut lib: PrototypeLibrary<u32> = PrototypeLibrary::new();
    let first = lib.register(String::from("GrassLight"), 7);
    let again = lib.register(String::from("GrassLight"), 70);
    assert_eq!(first, again);
    assert_eq!(lib.len(), 1);
    assert_eq!(*lib.lookup("GrassLight"), 70);
}

#[test]
fn contains_reports_registration() {
    let mut lib: PrototypeLibrary<u32> = PrototypeLibrary::new();
    assert!(!lib.contains("GrassLight"));
    lib.register(String::from("GrassLight"), 7);
    assert!(lib.contains("GrassLight"));
    assert!(!lib.contains("Sand"));
}

#[test]
fn tile_library_holds_the_standard_set() {
    let mut loader = AssetLoader::new();
    let lib = TileLibrary::new(&mut loader);
    assert_eq!(lib.tiles.len(), 2);
    assert!(lib.tiles.lookup("Grass").is_walkable);
    assert!(!lib.tiles.lookup("Water").is_walkable);
    assert_eq!(loader.load_count(), 2);
    assert_ne!(lib.tiles.lookup("Grass").image, lib.tiles.lookup("Water").image);
}

#[test]
fn decoration_library_holds_the_standard_set() {
    let mut loader = AssetLoader::new();
    let lib = DecorationLibrary::new(&mut loader);
    assert_eq!(lib.decorations.len(), 1);
    assert_eq!(loader.load_count(), 1);
    let bush: &Decoration = lib.decorations.lookup("Bush1x1");
    assert_eq!(bush.image, 0);
}

#[test]
fn decoration_type_names_its_registry_entry() {
    let kind = DecorationType::Bush1x1;
    assert_eq!(kind.registry_name(), "Bush1x1");
    let mut loader = AssetLoader::new();
    let lib = DecorationLibrary::new(&mut loader);
    assert!(lib.decorations.contains(kind.registry_name()));
}
