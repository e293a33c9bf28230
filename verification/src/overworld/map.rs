//! The village map: tiles, walkability and encounter zones.

use vstd::prelude::*;

verus! {

pub const MAP_WIDTH: i32 = 30;
pub const MAP_HEIGHT: i32 = 20;

/// Tile kinds.
pub const TILE_GRASS: u8 = 0;
pub const TILE_PATH: u8 = 1;
pub const TILE_WALL: u8 = 2;
pub const TILE_WATER: u8 = 3;
pub const TILE_BUILDING: u8 = 4;
pub const TILE_DOOR: u8 = 5;
pub const TILE_TOWER: u8 = 6;
pub const TILE_TALL_GRASS: u8 = 7;
pub const TILE_CAVE_GROUND: u8 = 8;

/// A tile map stored row by row, with a flag per tile marking random
/// encounter zones.
pub struct TileMap {
    pub width: i32,
    pub height: i32,
    pub tiles: Vec<u8>,
    pub encounter_zones: Vec<bool>,
}

impl TileMap {
    /// Both layers cover exactly `width * height` tiles.
    pub open spec fn wf(&self) -> bool {
        &&& 0 < self.width
        &&& 0 < self.height
        &&& self.tiles@.len() == self.width * self.height
        &&& self.encounter_zones@.len() == self.width * self.height
        &&& self.width * self.height <= usize::MAX
    }

    pub open spec fn in_bounds(&self, x: int, y: int) -> bool {
        0 <= x < self.width && 0 <= y < self.height
    }

    /// Tile at a position; outside the map everything is wall.
    pub open spec fn tile(&self, x: int, y: int) -> u8 {
        if self.in_bounds(x, y) {
            self.tiles@[y * self.width + x]
        } else {
            TILE_WALL
        }
    }

    pub open spec fn zone(&self, x: int, y: int) -> bool {
        self.in_bounds(x, y) && self.encounter_zones@[y * self.width + x]
    }

    /// Index of a position in row-major order, if it is on the map.
    pub fn idx(&self, x: i32, y: i32) -> (r: Option<usize>)
        requires
            self.wf(),
        ensures
            self.in_bounds(x as int, y as int) ==> r == Some((y * self.width + x) as usize) && y * self.width + x < self.width * self.height,
            !self.in_bounds(x as int, y as int) ==> r is None,
    {
        if x < 0 || y < 0 || x >= self.width || y >= self.height {
            return None;
        }
        proof {
            assert(y * self.width + x < self.width * self.height) by (nonlinear_arith)
                requires
                    0 <= x < self.width,
                    0 <= y < self.height,
            ;
            assert(0 <= y * self.width) by (nonlinear_arith)
                requires
                    0 <= y,
                    0 < self.width,
            ;
            assert(y * self.width <= 0x7fff_ffff * 0x7fff_ffff) by (nonlinear_arith)
                requires
                    0 <= y <= 0x7fff_ffff,
                    0 < self.width <= 0x7fff_ffff,
            ;
        }
        Some((y as i64 * self.width as i64 + x as i64) as usize)
    }

    pub fn get(&self, x: i32, y: i32) -> (t: u8)
        requires
            self.wf(),
        ensures
            t == self.tile(x as int, y as int),
    {
        match self.idx(x, y) {
            Some(i) => self.tiles[i],
            None => TILE_WALL,
        }
    }

    /// Grass, path, doors, tall grass and cave ground can be walked on;
    /// walls, water, building interiors and the tower cannot.
    pub fn is_walkable(&self, x: i32, y: i32) -> (b: bool)
        requires
            self.wf(),
        ensures
            b == walkable(self.tile(x as int, y as int)),
    {
        let t = self.get(x, y);
        t != TILE_WALL && t != TILE_WATER && t != TILE_BUILDING && t != TILE_TOWER
    }

    pub fn is_encounter_zone(&self, x: i32, y: i32) -> (b: bool)
        requires
            self.wf(),
        ensures
            b == self.zone(x as int, y as int),
    {
        match self.idx(x, y) {
            Some(i) => self.encounter_zones[i],
            None => false,
        }
    }
}

pub open spec fn walkable(t: u8) -> bool {
    t != TILE_WALL && t != TILE_WATER && t != TILE_BUILDING && t != TILE_TOWER
}

/// The village layout before encounter zones are marked, by precedence:
/// the fence, the tower and its door, the elder's house, the inn and the
/// item shop with their doors, the pond, the two roads, the border wall,
/// grass everywhere else.
pub open spec fn base_tile(x: int, y: int) -> u8 {
    if y == 8 && 3 <= x < 8 {
        TILE_WALL
    } else if x == 26 && y == 5 {
        TILE_DOOR
    } else if 2 <= y < 6 && 25 <= x < 28 {
        TILE_TOWER
    } else if x == 10 && y == 13 {
        TILE_DOOR
    } else if 13 <= y < 17 && 8 <= x < 13 {
        TILE_BUILDING
    } else if x == 22 && y == 6 {
        TILE_DOOR
    } else if 3 <= y < 7 && 20 <= x < 25 {
        TILE_BUILDING
    } else if x == 5 && y == 6 {
        TILE_DOOR
    } else if 3 <= y < 7 && 3 <= x < 8 {
        TILE_BUILDING
    } else if 14 <= y < 18 && 22 <= x < 27 {
        TILE_WATER
    } else if x == 15 && 1 <= y < 19 {
        TILE_PATH
    } else if (y == 10 || y == 11) && 1 <= x < 29 {
        TILE_PATH
    } else if x == 0 || y == 0 || x == 29 || y == 19 {
        TILE_WALL
    } else {
        TILE_GRASS
    }
}

/// Areas where encounters may happen, with the tile they get: tall grass
/// north of town and at the forest edge, cave ground in the south-east.
pub open spec fn zone_area(x: int, y: int) -> Option<u8> {
    if 2 <= y < 6 && 9 <= x < 14 {
        Some(TILE_TALL_GRASS)
    } else if 14 <= y < 18 && 16 <= x < 21 {
        Some(TILE_CAVE_GROUND)
    } else if 12 <= y < 17 && 2 <= x < 6 {
        Some(TILE_TALL_GRASS)
    } else {
        None
    }
}

/// Open ground (grass or path) inside an encounter area becomes an
/// encounter zone.
pub open spec fn village_zone(x: int, y: int) -> bool {
    zone_area(x, y) is Some && (base_tile(x, y) == TILE_GRASS || base_tile(x, y) == TILE_PATH)
}

pub open spec fn village_tile(x: int, y: int) -> u8 {
    if village_zone(x, y) {
        zone_area(x, y)->0
    } else {
        base_tile(x, y)
    }
}

fn tile_and_zone(x: i32, y: i32) -> (r: (u8, bool))
    ensures
        r.0 == village_tile(x as int, y as int),
        r.1 == village_zone(x as int, y as int),
{
    let base: u8 = if y == 8 && 3 <= x && x < 8 {
        TILE_WALL
    } else if x == 26 && y == 5 {
        TILE_DOOR
    } else if 2 <= y && y < 6 && 25 <= x && x < 28 {
        TILE_TOWER
    } else if x == 10 && y == 13 {
        TILE_DOOR
    } else if 13 <= y && y < 17 && 8 <= x && x < 13 {
        TILE_BUILDING
    } else if x == 22 && y == 6 {
        TILE_DOOR
    } else if 3 <= y && y < 7 && 20 <= x && x < 25 {
        TILE_BUILDING
    } else if x == 5 && y == 6 {
        TILE_DOOR
    } else if 3 <= y && y < 7 && 3 <= x && x < 8 {
        TILE_BUILDING
    } else if 14 <= y && y < 18 && 22 <= x && x < 27 {
        TILE_WATER
    } else if x == 15 && 1 <= y && y < 19 {
        TILE_PATH
    } else if (y == 10 || y == 11) && 1 <= x && x < 29 {
        TILE_PATH
    } else if x == 0 || y == 0 || x == 29 || y == 19 {
        TILE_WALL
    } else {
        TILE_GRASS
    };
    let area: Option<u8> = if 2 <= y && y < 6 && 9 <= x && x < 14 {
        Some(TILE_TALL_GRASS)
    } else if 14 <= y && y < 18 && 16 <= x && x < 21 {
        Some(TILE_CAVE_GROUND)
    } else if 12 <= y && y < 17 && 2 <= x && x < 6 {
        Some(TILE_TALL_GRASS)
    } else {
        None
    };
    match area {
        Some(t) => {
            if base == TILE_GRASS || base == TILE_PATH {
                (t, true)
            } else {
                (base, false)
            }
        },
        None => (base, false),
    }
}

/// The village map: 30 by 20 tiles laid out as `village_tile`, with the
/// encounter zones of `village_zone`.
pub fn generate_tile_map() -> (m: TileMap)
    ensures
        m.wf(),
        m.width == MAP_WIDTH,
        m.height == MAP_HEIGHT,
        forall|x: int, y: int| 0 <= x < MAP_WIDTH && 0 <= y < MAP_HEIGHT ==> #[trigger] m.tile(x, y) == village_tile(x, y),
        forall|x: int, y: int| 0 <= x < MAP_WIDTH && 0 <= y < MAP_HEIGHT ==> #[trigger] m.zone(x, y) == village_zone(x, y),
{
    let mut tiles: Vec<u8> = Vec::new();
    let mut zones: Vec<bool> = Vec::new();
    let mut y: i32 = 0;
    while y < MAP_HEIGHT
        invariant
            0 <= y <= MAP_HEIGHT,
            tiles@.len() == y * MAP_WIDTH,
            zones@.len() == y * MAP_WIDTH,
            forall|k: int| 0 <= k < y * MAP_WIDTH ==> #[trigger] tiles@[k] == village_tile(k % 30, k / 30)
                && zones@[k] == village_zone(k % 30, k / 30),
        decreases MAP_HEIGHT - y,
    {
        let mut x: i32 = 0;
        while x < MAP_WIDTH
            invariant
                0 <= y < MAP_HEIGHT,
                0 <= x <= MAP_WIDTH,
                tiles@.len() == y * MAP_WIDTH + x,
                zones@.len() == y * MAP_WIDTH + x,
                forall|k: int| 0 <= k < y * MAP_WIDTH + x ==> #[trigger] tiles@[k] == village_tile(k % 30, k / 30)
                    && zones@[k] == village_zone(k % 30, k / 30),
            decreases MAP_WIDTH - x,
        {
            let (t, z) = tile_and_zone(x, y);
            proof {
                let k = y * MAP_WIDTH + x;
                assert(k % 30 == x && k / 30 == y) by (nonlinear_arith)
                    requires
                        k == y * 30 + x,
                        0 <= x < 30,
                        0 <= y,
                ;
            }
            let ghost k = y * MAP_WIDTH + x;
            let ghost t0 = tiles@;
            let ghost z0 = zones@;
            tiles.push(t);
            zones.push(z);
            proof {
                assert forall|k2: int| 0 <= k2 < k + 1 implies #[trigger] tiles@[k2] == village_tile(k2 % 30, k2 / 30)
                    && zones@[k2] == village_zone(k2 % 30, k2 / 30) by {
                    if k2 < k {
                        assert(tiles@[k2] == t0[k2]);
                        assert(zones@[k2] == z0[k2]);
                    }
                }
            }
            x = x + 1;
        }
        y = y + 1;
    }
    let m = TileMap { width: MAP_WIDTH, height: MAP_HEIGHT, tiles, encounter_zones: zones };
    proof {
        assert forall|x: int, y: int| 0 <= x < MAP_WIDTH && 0 <= y < MAP_HEIGHT implies m.tile(x, y) == village_tile(x, y)
            && m.zone(x, y) == village_zone(x, y) by {
            let k = y * 30 + x;
            assert(k % 30 == x && k / 30 == y && 0 <= k < 600) by (nonlinear_arith)
                requires
                    k == y * 30 + x,
                    0 <= x < 30,
                    0 <= y < 20,
            ;
        }
    }
    m
}

} // verus!
