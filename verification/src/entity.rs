//! Decorations: shared flyweight descriptors for things placed on tiles.
//!
//! A `Decoration` is an immutable prototype holding the image handle every
//! placement of that decoration shares. Tiles reference decorations by arena
//! index into the `DecorationLibrary`, so a prototype's data is stored once
//! however many tiles place it.

use vstd::prelude::*;
use vstd::string::StringExecFns;
use crate::assets::AssetKind;
use crate::assets::AssetLoader;
use crate::assets::loaded_entries;
use crate::assets::loaded_handle;
use crate::assets::loaded_next;
use crate::library::PrototypeLibrary;

verus! {

/// Marker for things that can be placed into the world.
pub trait Entity {

}

/// The decoration kinds the standard content knows about.
#[derive(Clone, Copy, Debug, PartialEq, Eq, Hash, Structural)]
pub enum DecorationType {
    Bush1x1,
}

impl DecorationType {
    /// The registry name the kind is filed under.
    pub fn registry_name(&self) -> (name: &'static str)
        ensures
            *self == DecorationType::Bush1x1 ==> name@ == "Bush1x1"@,
    {
        match *self {
            DecorationType::Bush1x1 => "Bush1x1",
        }
    }
}

/// A shared decoration prototype: the image drawn for every placement.
#[derive(Clone, Copy, Debug, PartialEq, Eq, Structural)]
pub struct Decoration {
    pub image: u64,
}

/// The registry of decoration prototypes, built once at startup.
pub struct DecorationLibrary {
    pub decorations: PrototypeLibrary<Decoration>,
}

impl DecorationLibrary {
    /// A library populated with the standard decoration set, its images
    /// loaded through `asset_loader`.
    pub fn new(asset_loader: &mut AssetLoader) -> (lib: DecorationLibrary)
        requires
            old(asset_loader).wf(),
            old(asset_loader).next_handle < u64::MAX,
        ensures
            final(asset_loader).wf(),
            lib.decorations.wf(),
            lib.decorations.names_view() == seq!["Bush1x1"@],
            lib.decorations.contains_name("Bush1x1"@),
            lib.decorations.spec_lookup("Bush1x1"@).image as int == loaded_handle(
                old(asset_loader).entries(),
                "/bush-1.png"@,
                AssetKind::Image,
                old(asset_loader).loads_performed(),
            ),
            final(asset_loader).entries() == loaded_entries(
                old(asset_loader).entries(),
                "/bush-1.png"@,
                AssetKind::Image,
                old(asset_loader).loads_performed(),
            ),
            final(asset_loader).loads_performed() == loaded_next(
                old(asset_loader).entries(),
                "/bush-1.png"@,
                AssetKind::Image,
                old(asset_loader).loads_performed(),
            ),
    {
        let mut lib = DecorationLibrary { decorations: PrototypeLibrary::new() };
        lib.load_assets(asset_loader);
        lib
    }

    /// Register the standard decoration set.
    fn load_assets(&mut self, asset_loader: &mut AssetLoader)
        requires
            old(self).decorations.wf(),
            old(self).decorations.names_view() == Seq::<Seq<char>>::empty(),
            old(asset_loader).wf(),
            old(asset_loader).next_handle < u64::MAX,
        ensures
            final(asset_loader).wf(),
            final(self).decorations.wf(),
            final(self).decorations.names_view() == seq!["Bush1x1"@],
            final(self).decorations.contains_name("Bush1x1"@),
            final(self).decorations.spec_lookup("Bush1x1"@).image as int == loaded_handle(
                old(asset_loader).entries(),
                "/bush-1.png"@,
                AssetKind::Image,
                old(asset_loader).loads_performed(),
            ),
            final(asset_loader).entries() == loaded_entries(
                old(asset_loader).entries(),
                "/bush-1.png"@,
                AssetKind::Image,
                old(asset_loader).loads_performed(),
            ),
            final(asset_loader).loads_performed() == loaded_next(
                old(asset_loader).entries(),
                "/bush-1.png"@,
                AssetKind::Image,
                old(asset_loader).loads_performed(),
            ),
    {
        let image = asset_loader.load_image("/bush-1.png");
        let name: String = String::from_str("Bush1x1");
        self.decorations.register(name, Decoration { image });
        proof {
            assert(self.decorations.names_view() =~= seq!["Bush1x1"@]);
        }
    }
}

} // verus!
