//! The world grid and its visibility culling.
//!
//! A `World` owns a two-dimensional array of `Tile` cells. Each cell refers
//! to a shared `TileMeta` prototype by arena index, plus any decoration
//! placements, so per-cell data stays small and prototypes are stored once.
//! The central algorithm, `get_tiles`, converts a camera rectangle in pixel
//! space into the exact inclusive sub-grid of tiles covering it, clamped at
//! the trailing edges; `get_visible_subset` adds the sub-tile pixel offsets
//! a renderer needs for smooth scrolling.

use vstd::prelude::*;
use vstd::string::StringExecFns;
use vstd::arithmetic::div_mod::lemma_div_is_ordered;
use vstd::arithmetic::div_mod::lemma_div_multiples_vanish;
use vstd::arithmetic::div_mod::lemma_div_pos_is_pos;
use vstd::arithmetic::div_mod::lemma_fundamental_div_mod;
use vstd::arithmetic::div_mod::lemma_fundamental_div_mod_converse;
use vstd::arithmetic::div_mod::lemma_mod_bound;
use vstd::arithmetic::div_mod::lemma_multiply_divide_lt;
use vstd::arithmetic::mul::lemma_mul_is_commutative;
use vstd::arithmetic::mul::lemma_mul_upper_bound;
use crate::assets::AssetKind;
use crate::assets::AssetLoader;
use crate::assets::find_entry;
use crate::assets::find_entry_from;
use crate::assets::loaded_entries;
use crate::assets::loaded_handle;
use crate::assets::loaded_next;
use crate::camera::Camera;
use crate::entity::DecorationLibrary;
use crate::library::PrototypeLibrary;

verus! {

/// Width of one tile, in pixels.
pub const TILE_WIDTH: i64 = 64;

/// Height of one tile, in pixels.
pub const TILE_HEIGHT: i64 = 64;

/// Bound on the number of rows and columns of a grid.
pub const GRID_DIM_LIMIT: usize = 0x10_0000;

/// Bound on the pixel size of one tile.
pub const TILE_DIM_LIMIT: i64 = 0x10_0000;

/// Data common to every tile of one type (the flyweight the cells share):
/// the image drawn for it and whether actors may walk on it.
#[derive(Clone, Copy, Debug, PartialEq, Eq, Structural)]
pub struct TileMeta {
    pub image: u64,
    pub is_walkable: bool,
}

/// One grid cell: the arena index of its shared prototype, plus the arena
/// indices of the decorations placed on it, in draw order.
#[derive(Debug)]
pub struct Tile {
    pub meta: usize,
    pub decorations: Vec<usize>,
}

/// The mathematical content of a tile: prototype index and decoration
/// indices.
#[verifier::ext_equal]
pub ghost struct TileView {
    pub meta: int,
    pub decorations: Seq<int>,
}

impl View for Tile {
    type V = TileView;

    open spec fn view(&self) -> TileView {
        TileView {
            meta: self.meta as int,
            decorations: self.decorations@.map_values(|d: usize| d as int),
        }
    }
}

impl Tile {
    /// A copy of the cell: same prototype index, same decoration placements.
    pub fn duplicate(&self) -> (t: Tile)
        ensures
            t@ == self@,
    {
        let n = self.decorations.len();
        let mut decorations: Vec<usize> = Vec::new();
        let mut k: usize = 0;
        while k < n
            invariant
                k <= n,
                n == self.decorations.len(),
                decorations@.len() == k,
                forall|m: int| 0 <= m < k ==> decorations@[m] == self.decorations@[m],
            decreases n - k,
        {
            decorations.push(self.decorations[k]);
            k = k + 1;
        }
        let t = Tile { meta: self.meta, decorations };
        proof {
            assert(t@.decorations =~= self@.decorations);
            assert(t@ =~= self@);
        }
        t
    }
}

/// The registry of tile prototypes, built once at startup.
pub struct TileLibrary {
    pub tiles: PrototypeLibrary<TileMeta>,
}

impl TileLibrary {
    /// A library populated with the standard tile set — walkable grass and
    /// unwalkable water — their images loaded through `asset_loader`.
    pub fn new(asset_loader: &mut AssetLoader) -> (lib: TileLibrary)
        requires
            old(asset_loader).wf(),
            old(asset_loader).next_handle < u64::MAX - 1,
        ensures
            final(asset_loader).wf(),
            lib.tiles.wf(),
            lib.tiles.names_view() == seq!["Grass"@, "Water"@],
            lib.tiles.contains_name("Grass"@) && lib.tiles.contains_name("Water"@),
            lib.tiles.spec_lookup("Grass"@).is_walkable == true,
            lib.tiles.spec_lookup("Water"@).is_walkable == false,
            ({
                let s0 = old(asset_loader).entries();
                let n0 = old(asset_loader).loads_performed();
                let s1 = loaded_entries(s0, "/grass-1.png"@, AssetKind::Image, n0);
                let n1 = loaded_next(s0, "/grass-1.png"@, AssetKind::Image, n0);
                &&& lib.tiles.spec_lookup("Grass"@).image as int == loaded_handle(
                    s0,
                    "/grass-1.png"@,
                    AssetKind::Image,
                    n0,
                )
                &&& lib.tiles.spec_lookup("Water"@).image as int == loaded_handle(
                    s1,
                    "/water-3.png"@,
                    AssetKind::Image,
                    n1,
                )
                &&& final(asset_loader).entries() == loaded_entries(
                    s1,
                    "/water-3.png"@,
                    AssetKind::Image,
                    n1,
                )
                &&& final(asset_loader).loads_performed() == loaded_next(
                    s1,
                    "/water-3.png"@,
                    AssetKind::Image,
                    n1,
                )
            }),
    {
        let mut lib = TileLibrary { tiles: PrototypeLibrary::new() };
        lib.populate(asset_loader);
        lib
    }

    /// Register the standard tile set.
    fn populate(&mut self, asset_loader: &mut AssetLoader)
        requires
            old(self).tiles.wf(),
            old(self).tiles.names_view() == Seq::<Seq<char>>::empty(),
            old(asset_loader).wf(),
            old(asset_loader).next_handle < u64::MAX - 1,
        ensures
            final(asset_loader).wf(),
            final(self).tiles.wf(),
            final(self).tiles.names_view() == seq!["Grass"@, "Water"@],
            final(self).tiles.contains_name("Grass"@) && final(self).tiles.contains_name(
                "Water"@,
            ),
            final(self).tiles.spec_lookup("Grass"@).is_walkable == true,
            final(self).tiles.spec_lookup("Water"@).is_walkable == false,
            ({
                let s0 = old(asset_loader).entries();
                let n0 = old(asset_loader).loads_performed();
                let s1 = loaded_entries(s0, "/grass-1.png"@, AssetKind::Image, n0);
                let n1 = loaded_next(s0, "/grass-1.png"@, AssetKind::Image, n0);
                &&& final(self).tiles.spec_lookup("Grass"@).image as int == loaded_handle(
                    s0,
                    "/grass-1.png"@,
                    AssetKind::Image,
                    n0,
                )
                &&& final(self).tiles.spec_lookup("Water"@).image as int == loaded_handle(
                    s1,
                    "/water-3.png"@,
                    AssetKind::Image,
                    n1,
                )
                &&& final(asset_loader).entries() == loaded_entries(
                    s1,
                    "/water-3.png"@,
                    AssetKind::Image,
                    n1,
                )
                &&& final(asset_loader).loads_performed() == loaded_next(
                    s1,
                    "/water-3.png"@,
                    AssetKind::Image,
                    n1,
                )
            }),
    {
        proof {
            reveal_strlit("Grass");
            reveal_strlit("Water");
            assert("Grass"@[0] == 'G' && "Water"@[0] == 'W');
            assert("Grass"@ != "Water"@);
        }
        let grass_image = asset_loader.load_image("/grass-1.png");
        let grass_name: String = String::from_str("Grass");
        self.tiles.register(grass_name, TileMeta { image: grass_image, is_walkable: true });
        let water_image = asset_loader.load_image("/water-3.png");
        let water_name: String = String::from_str("Water");
        self.tiles.register(water_name, TileMeta { image: water_image, is_walkable: false });
        proof {
            assert(self.tiles.names_view() =~= seq!["Grass"@, "Water"@]);
        }
    }
}

/// The sub-tile pixel offset for a camera edge: how far the first visible
/// (possibly partial) tile must be pulled back so scrolling by less than one
/// tile produces smooth motion. Zero when the edge sits on a tile boundary.
pub open spec fn sub_tile_offset(edge: int, size: int) -> int {
    if edge % size == 0 {
        0
    } else {
        size - edge % size
    }
}

/// The world: a grid of tiles over shared prototypes, the libraries those
/// prototypes live in, and the asset cache their images came from.
pub struct World {
    pub name: String,
    pub data: Vec<Vec<Tile>>,
    pub rows: usize,
    pub columns: usize,
    pub tile_width: i64,
    pub tile_height: i64,
    pub asset_loader: AssetLoader,
    pub tile_library: TileLibrary,
    pub decorations_library: DecorationLibrary,
}

impl World {
    /// A cell is well-formed when every arena index it holds points into the
    /// world's libraries.
    pub open spec fn tile_ok(self, t: Tile) -> bool {
        &&& t@.meta < self.tile_library.tiles.protos_view().len()
        &&& forall|k: int|
            0 <= k < t@.decorations.len() ==> #[trigger] t@.decorations[k]
                < self.decorations_library.decorations.protos_view().len()
    }

    /// The grid invariant: `rows` rows of `columns` cells each, positive
    /// bounded tile sizes, every cell pointing into the libraries, and
    /// well-formed libraries and cache.
    pub open spec fn wf(self) -> bool {
        &&& self.data@.len() == self.rows
        &&& self.rows <= GRID_DIM_LIMIT
        &&& self.columns <= GRID_DIM_LIMIT
        &&& 0 < self.tile_width <= TILE_DIM_LIMIT
        &&& 0 < self.tile_height <= TILE_DIM_LIMIT
        &&& forall|i: int| 0 <= i < self.rows ==> (#[trigger] self.data@[i])@.len() == self.columns
        &&& forall|i: int, j: int|
            0 <= i < self.rows && 0 <= j < self.columns ==> self.tile_ok(
                #[trigger] self.data@[i]@[j],
            )
        &&& self.tile_library.tiles.wf()
        &&& self.decorations_library.decorations.wf()
        &&& self.asset_loader.wf()
    }

    /// The width of the world in pixels.
    pub open spec fn width(self) -> int {
        self.columns * self.tile_width
    }

    /// The height of the world in pixels.
    pub open spec fn height(self) -> int {
        self.rows * self.tile_height
    }

    /// The column of the tile containing pixel column `left`.
    pub open spec fn first_col(self, left: int) -> int {
        left / (self.tile_width as int)
    }

    /// The last column the visible subset covers for a camera edge at
    /// `right`: the tile containing it, clamped to the last grid column.
    pub open spec fn last_col(self, right: int) -> int {
        if right / (self.tile_width as int) < self.columns {
            right / (self.tile_width as int)
        } else {
            self.columns - 1
        }
    }

    /// The row of the tile containing pixel row `top`.
    pub open spec fn first_row(self, top: int) -> int {
        top / (self.tile_height as int)
    }

    /// The last row the visible subset covers for a camera edge at
    /// `bottom`, clamped to the last grid row.
    pub open spec fn last_row(self, bottom: int) -> int {
        if bottom / (self.tile_height as int) < self.rows {
            bottom / (self.tile_height as int)
        } else {
            self.rows - 1
        }
    }

    /// An empty ten-column world with the standard libraries populated:
    /// grass and water tiles, a bush decoration. Rows are pushed afterwards.
    pub fn new(name: String) -> (w: World)
        ensures
            w.wf(),
            w.name == name,
            w.rows == 0,
            w.columns == 10,
            w.data@.len() == 0,
            w.tile_width == TILE_WIDTH,
            w.tile_height == TILE_HEIGHT,
            w.tile_library.tiles.names_view() == seq!["Grass"@, "Water"@],
            w.tile_library.tiles.contains_name("Grass"@),
            w.tile_library.tiles.contains_name("Water"@),
            w.decorations_library.decorations.contains_name("Bush1x1"@),
            w.tile_library.tiles.spec_lookup("Grass"@).is_walkable == true,
            w.tile_library.tiles.spec_lookup("Water"@).is_walkable == false,
            w.tile_library.tiles.spec_lookup("Grass"@).image == 0,
            w.tile_library.tiles.spec_lookup("Water"@).image == 1,
            w.decorations_library.decorations.names_view() == seq!["Bush1x1"@],
            w.decorations_library.decorations.spec_lookup("Bush1x1"@).image == 2,
            w.asset_loader.wf(),
            w.asset_loader.loads_performed() == 3,
    {
        proof {
            reveal_strlit("/grass-1.png");
            reveal_strlit("/water-3.png");
            reveal_strlit("/bush-1.png");
            assert("/grass-1.png"@[1] == 'g' && "/water-3.png"@[1] == 'w' && "/bush-1.png"@[1]
                == 'b');
        }
        let mut asset_loader = AssetLoader::new();
        let tile_library = TileLibrary::new(&mut asset_loader);
        let decorations_library = DecorationLibrary::new(&mut asset_loader);
        proof {
            let pg = "/grass-1.png"@;
            let pw = "/water-3.png"@;
            let pb = "/bush-1.png"@;
            let e0 = Seq::<(Seq<char>, AssetKind, int)>::empty();
            assert(find_entry(e0, pg) == None::<int>);
            let e1 = loaded_entries(e0, pg, AssetKind::Image, 0);
            assert(e1 == e0.push((pg, AssetKind::Image, 0)));
            assert(find_entry_from(e1, pw, 1) == None::<int>);
            assert(find_entry_from(e1, pw, 0) == None::<int>);
            let e2 = loaded_entries(e1, pw, AssetKind::Image, 1);
            assert(e2 == e1.push((pw, AssetKind::Image, 1)));
            assert(find_entry_from(e2, pb, 2) == None::<int>);
            assert(find_entry_from(e2, pb, 1) == None::<int>);
            assert(find_entry_from(e2, pb, 0) == None::<int>);
        }
        World {
            name,
            data: Vec::new(),
            rows: 0,
            columns: 10,
            tile_width: TILE_WIDTH,
            tile_height: TILE_HEIGHT,
            asset_loader,
            tile_library,
            decorations_library,
        }
    }

    /// The width of the world in pixels.
    pub fn get_width(&self) -> (w: i64)
        requires
            self.wf(),
        ensures
            w == self.width(),
    {
        proof {
            lemma_mul_upper_bound(
                self.columns as int,
                GRID_DIM_LIMIT as int,
                self.tile_width as int,
                TILE_DIM_LIMIT as int,
            );
        }
        (self.columns as i64) * self.tile_width
    }

    /// The height of the world in pixels.
    pub fn get_height(&self) -> (h: i64)
        requires
            self.wf(),
        ensures
            h == self.height(),
    {
        proof {
            lemma_mul_upper_bound(
                self.rows as int,
                GRID_DIM_LIMIT as int,
                self.tile_height as int,
                TILE_DIM_LIMIT as int,
            );
        }
        (self.rows as i64) * self.tile_height
    }

    /// Append one row of cells at the bottom of the grid.
    pub fn push_row(&mut self, row: Vec<Tile>)
        requires
            old(self).wf(),
            row@.len() == old(self).columns,
            old(self).rows < GRID_DIM_LIMIT,
            forall|j: int| 0 <= j < row@.len() ==> old(self).tile_ok(#[trigger] row@[j]),
        ensures
            final(self).wf(),
            final(self).rows == old(self).rows + 1,
            final(self).data@ == old(self).data@.push(row),
            final(self).name == old(self).name,
            final(self).columns == old(self).columns,
            final(self).tile_width == old(self).tile_width,
            final(self).tile_height == old(self).tile_height,
            final(self).asset_loader == old(self).asset_loader,
            final(self).tile_library == old(self).tile_library,
            final(self).decorations_library == old(self).decorations_library,
    {
        self.data.push(row);
        self.rows = self.rows + 1;
    }

    /// A walkable grass cell carrying the given decoration placements.
    pub fn generate_grass_tile(&self, decorations: Vec<usize>) -> (t: Tile)
        requires
            self.tile_library.tiles.wf(),
            self.tile_library.tiles.contains_name("Grass"@),
            forall|k: int|
                0 <= k < decorations@.len() ==> #[trigger] decorations@[k]
                    < self.decorations_library.decorations.protos_view().len(),
        ensures
            t@.meta == self.tile_library.tiles.index_of("Grass"@),
            t@.decorations == decorations@.map_values(|d: usize| d as int),
            self.tile_ok(t),
    {
        let meta = self.tile_library.tiles.lookup_index("Grass");
        Tile { meta, decorations }
    }

    /// An unwalkable water cell.
    pub fn generate_water_tile(&self) -> (t: Tile)
        requires
            self.tile_library.tiles.wf(),
            self.tile_library.tiles.contains_name("Water"@),
        ensures
            t@.meta == self.tile_library.tiles.index_of("Water"@),
            t@.decorations == Seq::<int>::empty(),
            self.tile_ok(t),
    {
        let meta = self.tile_library.tiles.lookup_index("Water");
        let t = Tile { meta, decorations: Vec::new() };
        proof {
            assert(t@.decorations =~= Seq::<int>::empty());
        }
        t
    }

    /// The index bounds the culling algorithm lands on are inside the grid,
    /// and the visible range is never empty.
    proof fn lemma_culling_bounds(self, left: int, right: int, top: int, bottom: int)
        requires
            self.wf(),
            0 <= left <= right,
            0 <= top <= bottom,
            left < self.width(),
            top < self.height(),
        ensures
            0 <= self.first_col(left) <= self.last_col(right) < self.columns,
            0 <= self.first_row(top) <= self.last_row(bottom) < self.rows,
    {
        let tw = self.tile_width as int;
        let th = self.tile_height as int;
        lemma_div_pos_is_pos(left, tw);
        lemma_div_pos_is_pos(top, th);
        lemma_mul_is_commutative(self.columns as int, tw);
        lemma_multiply_divide_lt(left, tw, self.columns as int);
        lemma_mul_is_commutative(self.rows as int, th);
        lemma_multiply_divide_lt(top, th, self.rows as int);
        lemma_div_is_ordered(left, right, tw);
        lemma_div_is_ordered(top, bottom, th);
    }

    /// The minimal inclusive sub-grid of tiles covering the camera
    /// rectangle `[left, right] x [top, bottom]`, in row-major order. The
    /// trailing edges are clamped to the grid; the leading edges must fall
    /// inside the world, which the camera guarantees.
    pub fn get_tiles(&self, left: i64, right: i64, top: i64, bottom: i64) -> (tiles: Vec<Vec<Tile>>)
        requires
            self.wf(),
            0 <= left <= right,
            0 <= top <= bottom,
            left < self.width(),
            top < self.height(),
        ensures
            tiles@.len() == self.last_row(bottom as int) - self.first_row(top as int) + 1,
            forall|a: int|
                0 <= a < tiles@.len() ==> (#[trigger] tiles@[a])@.len() == self.last_col(
                    right as int,
                ) - self.first_col(left as int) + 1,
            forall|a: int, b: int|
                0 <= a < tiles@.len() && 0 <= b < tiles@[a]@.len() ==> (#[trigger] tiles@[a]@[b])@
                    == self.data@[self.first_row(top as int) + a]@[self.first_col(left as int)
                    + b]@,
    {
        proof {
            self.lemma_culling_bounds(left as int, right as int, top as int, bottom as int);
        }
        let idx_left = (left / self.tile_width) as usize;
        let mut idx_right_wide = right / self.tile_width;
        if idx_right_wide >= self.columns as i64 {
            idx_right_wide = self.columns as i64 - 1;
        }
        let idx_right = idx_right_wide as usize;
        let idx_top = (top / self.tile_height) as usize;
        let mut idx_bottom_wide = bottom / self.tile_height;
        if idx_bottom_wide >= self.rows as i64 {
            idx_bottom_wide = self.rows as i64 - 1;
        }
        let idx_bottom = idx_bottom_wide as usize;

        let mut tiles: Vec<Vec<Tile>> = Vec::new();
        let mut i: usize = idx_top;
        while i <= idx_bottom
            invariant
                self.wf(),
                idx_top == self.first_row(top as int),
                idx_bottom == self.last_row(bottom as int),
                idx_left == self.first_col(left as int),
                idx_right == self.last_col(right as int),
                idx_top <= i <= idx_bottom + 1,
                idx_bottom < self.rows,
                idx_left <= idx_right < self.columns,
                tiles@.len() == i - idx_top,
                forall|a: int|
                    0 <= a < tiles@.len() ==> (#[trigger] tiles@[a])@.len() == idx_right - idx_left
                        + 1,
                forall|a: int, b: int|
                    0 <= a < tiles@.len() && 0 <= b <= idx_right - idx_left ==> (
                    #[trigger] tiles@[a]@[b])@ == self.data@[idx_top + a]@[idx_left + b]@,
            decreases idx_bottom + 1 - i,
        {
            let mut row_out: Vec<Tile> = Vec::new();
            let mut j: usize = idx_left;
            while j <= idx_right
                invariant
                    self.wf(),
                    idx_top <= i <= idx_bottom,
                    idx_bottom < self.rows,
                    idx_left <= j <= idx_right + 1,
                    idx_right < self.columns,
                    row_out@.len() == j - idx_left,
                    forall|b: int|
                        0 <= b < row_out@.len() ==> (#[trigger] row_out@[b])@ == self.data@[
                            i as int]@[idx_left + b]@,
                decreases idx_right + 1 - j,
            {
                row_out.push(self.data[i][j].duplicate());
                j = j + 1;
            }
            tiles.push(row_out);
            i = i + 1;
        }
        tiles
    }

    /// The visible subset for a camera: the covering sub-grid plus the
    /// sub-tile pixel offsets of the camera's leading edges, which the
    /// renderer subtracts when positioning the first visible column and row.
    pub fn get_visible_subset(&self, camera: &Camera) -> (r: (Vec<Vec<Tile>>, i64, i64))
        requires
            self.wf(),
            camera.wf(),
            0 <= camera.left,
            0 <= camera.top,
            camera.left < self.width(),
            camera.top < self.height(),
        ensures
            r.0@.len() == self.last_row(camera.bottom as int) - self.first_row(camera.top as int)
                + 1,
            forall|a: int|
                0 <= a < r.0@.len() ==> (#[trigger] r.0@[a])@.len() == self.last_col(
                    camera.right as int,
                ) - self.first_col(camera.left as int) + 1,
            forall|a: int, b: int|
                0 <= a < r.0@.len() && 0 <= b < r.0@[a]@.len() ==> (#[trigger] r.0@[a]@[b])@
                    == self.data@[self.first_row(camera.top as int) + a]@[self.first_col(
                    camera.left as int,
                ) + b]@,
            r.1 == sub_tile_offset(camera.left as int, self.tile_width as int),
            r.2 == sub_tile_offset(camera.top as int, self.tile_height as int),
    {
        let left = camera.get_left();
        let right = camera.get_right();
        let top = camera.get_top();
        let bottom = camera.get_bottom();
        let tiles = self.get_tiles(left, right, top, bottom);
        proof {
            lemma_mod_bound(left as int, self.tile_width as int);
            lemma_mod_bound(top as int, self.tile_height as int);
        }
        let rem_x = left % self.tile_width;
        let offset_x = if rem_x == 0 {
            0
        } else {
            self.tile_width - rem_x
        };
        let rem_y = top % self.tile_height;
        let offset_y = if rem_y == 0 {
            0
        } else {
            self.tile_height - rem_y
        };
        (tiles, offset_x, offset_y)
    }
    /// The cell the standard demo map puts at offset `(r, c)` of the block
    /// it appends: a water pond in the middle, one bush on a grass cell
    /// above it, grass everywhere else.
    pub open spec fn world_one_tile(self, r: int, c: int) -> TileView {
        let grass = self.tile_library.tiles.index_of("Grass"@);
        let water = self.tile_library.tiles.index_of("Water"@);
        let bush = self.decorations_library.decorations.index_of("Bush1x1"@);
        if 3 <= r <= 6 && 3 <= c <= 6 {
            TileView { meta: water, decorations: Seq::<int>::empty() }
        } else if r == 2 && c == 4 {
            TileView { meta: grass, decorations: seq![bush] }
        } else {
            TileView { meta: grass, decorations: Seq::<int>::empty() }
        }
    }

    /// Append the standard demo map: ten rows of ten cells, laid out as
    /// `world_one_tile` describes.
    pub fn load_world_1(&mut self)
        requires
            old(self).wf(),
            old(self).columns == 10,
            old(self).rows + 10 <= GRID_DIM_LIMIT,
            old(self).tile_library.tiles.contains_name("Grass"@),
            old(self).tile_library.tiles.contains_name("Water"@),
            old(self).decorations_library.decorations.contains_name("Bush1x1"@),
        ensures
            final(self).wf(),
            final(self).rows == old(self).rows + 10,
            forall|i: int| 0 <= i < old(self).rows ==> final(self).data@[i] == old(self).data@[i],
            forall|i: int, j: int|
                0 <= i < 10 && 0 <= j < 10 ==> (#[trigger] final(self).data@[old(self).rows
                    + i]@[j])@ == old(self).world_one_tile(i, j),
            final(self).name == old(self).name,
            final(self).columns == old(self).columns,
            final(self).tile_width == old(self).tile_width,
            final(self).tile_height == old(self).tile_height,
            final(self).asset_loader == old(self).asset_loader,
            final(self).tile_library == old(self).tile_library,
            final(self).decorations_library == old(self).decorations_library,
    {
        let mut i: usize = 0;
        while i < 10
            invariant
                self.wf(),
                0 <= i <= 10,
                self.columns == 10,
                self.rows == old(self).rows + i,
                old(self).rows + 10 <= GRID_DIM_LIMIT,
                self.name == old(self).name,
                self.tile_width == old(self).tile_width,
                self.tile_height == old(self).tile_height,
                self.asset_loader == old(self).asset_loader,
                self.tile_library == old(self).tile_library,
                self.decorations_library == old(self).decorations_library,
                old(self).tile_library.tiles.contains_name("Grass"@),
                old(self).tile_library.tiles.contains_name("Water"@),
                old(self).decorations_library.decorations.contains_name("Bush1x1"@),
                forall|k: int| 0 <= k < old(self).rows ==> self.data@[k] == old(self).data@[k],
                forall|r: int, c: int|
                    0 <= r < i && 0 <= c < 10 ==> (#[trigger] self.data@[old(self).rows + r]@[c])@
                        == old(self).world_one_tile(r, c),
            decreases 10 - i,
        {
            let mut row: Vec<Tile> = Vec::new();
            let mut j: usize = 0;
            while j < 10
                invariant
                    self.wf(),
                    0 <= j <= 10,
                    i < 10,
                    self.tile_library == old(self).tile_library,
                    self.decorations_library == old(self).decorations_library,
                    old(self).tile_library.tiles.contains_name("Grass"@),
                    old(self).tile_library.tiles.contains_name("Water"@),
                    old(self).decorations_library.decorations.contains_name("Bush1x1"@),
                    row@.len() == j,
                    forall|c: int|
                        0 <= c < j ==> (#[trigger] row@[c])@ == old(self).world_one_tile(
                            i as int,
                            c,
                        ),
                    forall|c: int| 0 <= c < j ==> self.tile_ok(#[trigger] row@[c]),
                decreases 10 - j,
            {
                let t = if 3 <= i && i <= 6 && 3 <= j && j <= 6 {
                    self.generate_water_tile()
                } else if i == 2 && j == 4 {
                    let bush = self.decorations_library.decorations.lookup_index("Bush1x1");
                    let mut placements: Vec<usize> = Vec::new();
                    placements.push(bush);
                    let t = self.generate_grass_tile(placements);
                    proof {
                        assert(t@.decorations =~= seq![
                            self.decorations_library.decorations.index_of("Bush1x1"@),
                        ]);
                    }
                    t
                } else {
                    self.generate_grass_tile(Vec::new())
                };
                row.push(t);
                j = j + 1;
            }
            self.push_row(row);
            i = i + 1;
        }
    }
}

/// Index mapping: for any world-space point with non-negative coordinates,
/// the tile containing it — the unique tile whose pixel extent covers the
/// point — is the one at column `x / tile_width` and row `y / tile_height`.
pub proof fn lemma_index_mapping(x: int, y: int, tile_width: int, tile_height: int)
    requires
        x >= 0,
        y >= 0,
        tile_width > 0,
        tile_height > 0,
    ensures
        ({
            let col = x / tile_width;
            let row = y / tile_height;
            &&& col * tile_width <= x < (col + 1) * tile_width
            &&& row * tile_height <= y < (row + 1) * tile_height
            &&& forall|c: int| #![trigger c * tile_width] c * tile_width <= x < (c + 1) * tile_width ==> c == col
            &&& forall|r: int| #![trigger r * tile_height] r * tile_height <= y < (r + 1) * tile_height ==> r == row
        }),
{
    lemma_tile_axis_mapping(x, tile_width);
    lemma_tile_axis_mapping(y, tile_height);
}

/// The one-axis core of the index mapping law.
proof fn lemma_tile_axis_mapping(x: int, size: int)
    requires
        x >= 0,
        size > 0,
    ensures
        (x / size) * size <= x < (x / size + 1) * size,
        forall|c: int| #![trigger c * size] c * size <= x < (c + 1) * size ==> c == x / size,
{
    let q = x / size;
    lemma_fundamental_div_mod(x, size);
    lemma_mod_bound(x, size);
    lemma_mul_is_commutative(q, size);
    assert((q + 1) * size == q * size + size) by (nonlinear_arith);
    assert forall|c: int| #![trigger c * size] c * size <= x < (c + 1) * size implies c == q by {
        assert((c + 1) * size == c * size + size) by (nonlinear_arith);
        lemma_fundamental_div_mod_converse(x, size, c, x - c * size);
    }
}

/// Inclusive coverage: any grid cell whose pixel extent intersects the
/// camera rectangle lies inside the index window `get_tiles` copies, and so
/// appears in any matrix meeting the contract of `get_tiles` — at row
/// `row - first_row(top)`, column `col - first_col(left)`.
pub proof fn lemma_inclusive_coverage(
    w: World,
    tiles: Seq<Vec<Tile>>,
    left: int,
    right: int,
    top: int,
    bottom: int,
    row: int,
    col: int,
)
    requires
        w.wf(),
        0 <= left <= right,
        0 <= top <= bottom,
        left < w.width(),
        top < w.height(),
        0 <= row < w.rows,
        0 <= col < w.columns,
        col * w.tile_width <= right,
        left < (col + 1) * w.tile_width,
        row * w.tile_height <= bottom,
        top < (row + 1) * w.tile_height,
        tiles.len() == w.last_row(bottom) - w.first_row(top) + 1,
        forall|a: int|
            0 <= a < tiles.len() ==> (#[trigger] tiles[a])@.len() == w.last_col(right)
                - w.first_col(left) + 1,
        forall|a: int, b: int|
            0 <= a < tiles.len() && 0 <= b < tiles[a]@.len() ==> (#[trigger] tiles[a]@[b])@
                == w.data@[w.first_row(top) + a]@[w.first_col(left) + b]@,
    ensures
        w.first_col(left) <= col <= w.last_col(right),
        w.first_row(top) <= row <= w.last_row(bottom),
        tiles[row - w.first_row(top)]@[col - w.first_col(left)]@ == w.data@[row]@[col]@,
{
    let tw = w.tile_width as int;
    let th = w.tile_height as int;
    lemma_axis_coverage(left, right, col, tw);
    lemma_axis_coverage(top, bottom, row, th);
    let a = row - w.first_row(top);
    let b = col - w.first_col(left);
    assert(tiles[a]@[b]@ == w.data@[w.first_row(top) + a]@[w.first_col(left) + b]@);
}

/// The one-axis core of the coverage law: a tile extent that intersects
/// `[low, high]` has its index between `low / size` and `high / size`.
proof fn lemma_axis_coverage(low: int, high: int, c: int, size: int)
    requires
        size > 0,
        0 <= low <= high,
        0 <= c,
        c * size <= high,
        low < (c + 1) * size,
    ensures
        low / size <= c <= high / size,
{
    lemma_mul_is_commutative(c, size);
    lemma_div_is_ordered(c * size, high, size);
    lemma_div_multiples_vanish(c, size);
    lemma_mul_is_commutative(c + 1, size);
    lemma_multiply_divide_lt(low, size, c + 1);
}


} // verus!
