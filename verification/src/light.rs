//! Limits and buffer layout of tiled light culling.
use vstd::prelude::*;

verus! {

/// Number of light slots in the GPU light buffer.
pub const MAX_LIGHTS: usize = 256;
/// Number of light indices each screen tile can hold.
pub const MAX_LIGHTS_PER_TILE: usize = 64;
/// Side of a square screen tile, in pixels.
pub const TILE_SIZE: u32 = 16;
/// Size in bytes of the GPU light storage buffer (a 48-byte stride per slot).
pub const LIGHT_BUFFER_SIZE: u64 = 256 * 48;
/// Size in bytes of one light index in the tile grid.
pub const LIGHT_INDEX_BYTES: usize = 4;

/// Number of tiles needed to cover `extent` pixels.
pub open spec fn tiles_for(extent: int) -> int {
    (extent + TILE_SIZE - 1) / (TILE_SIZE as int)
}

/// Number of tiles along one screen axis of `extent` pixels: the fewest tiles
/// whose span covers the axis.
pub fn tile_count(extent: u32) -> (r: u32)
    requires
        extent <= u32::MAX - TILE_SIZE,
    ensures
        r == tiles_for(extent as int),
        r * TILE_SIZE >= extent,
        (r as int) * (TILE_SIZE as int) < extent + TILE_SIZE,
{
    (extent + TILE_SIZE - 1) / TILE_SIZE
}

/// The tile grid laid over a surface and the sizes of the buffers it needs.
#[derive(Clone, Copy, Debug, PartialEq, Eq, Structural)]
pub struct TileGrid {
    pub tiles_x: u32,
    pub tiles_y: u32,
    pub num_tiles: usize,
    /// Bytes of the per-tile light index lists.
    pub light_grid_bytes: u64,
    /// Bytes of the per-tile light counters.
    pub light_index_count_bytes: u64,
}

/// The surfaces whose tile grid and buffers fit the machine's integers.
pub open spec fn grid_fits(width: int, height: int) -> bool {
    &&& 0 <= width <= u32::MAX - TILE_SIZE
    &&& 0 <= height <= u32::MAX - TILE_SIZE
    &&& tiles_for(width) * tiles_for(height) <= u32::MAX
    &&& tiles_for(width) * tiles_for(height) * (MAX_LIGHTS_PER_TILE as int) * (LIGHT_INDEX_BYTES as int) <= usize::MAX
}

/// The tile grid of a `width` by `height` surface.
pub open spec fn grid_of(width: int, height: int) -> TileGrid {
    let n = tiles_for(width) * tiles_for(height);
    TileGrid {
        tiles_x: tiles_for(width) as u32,
        tiles_y: tiles_for(height) as u32,
        num_tiles: n as usize,
        light_grid_bytes: (n * MAX_LIGHTS_PER_TILE * LIGHT_INDEX_BYTES) as u64,
        light_index_count_bytes: (n * LIGHT_INDEX_BYTES) as u64,
    }
}

impl TileGrid {
    /// The tile grid for a surface of `width` by `height` pixels.
    pub fn for_surface(width: u32, height: u32) -> (r: TileGrid)
        requires
            grid_fits(width as int, height as int),
        ensures
            r == grid_of(width as int, height as int),
            r.tiles_x * TILE_SIZE >= width,
            (r.tiles_x as int) * (TILE_SIZE as int) < width + TILE_SIZE,
            r.tiles_y * TILE_SIZE >= height,
            (r.tiles_y as int) * (TILE_SIZE as int) < height + TILE_SIZE,
            r.num_tiles == r.tiles_x * r.tiles_y,
            r.light_grid_bytes == r.num_tiles * MAX_LIGHTS_PER_TILE * LIGHT_INDEX_BYTES,
            r.light_index_count_bytes == r.num_tiles * LIGHT_INDEX_BYTES,
    {
        let tiles_x = tile_count(width);
        let tiles_y = tile_count(height);
        let num_tiles = (tiles_x * tiles_y) as usize;
        assert(num_tiles * MAX_LIGHTS_PER_TILE * LIGHT_INDEX_BYTES <= usize::MAX);
        let light_grid_size = num_tiles * MAX_LIGHTS_PER_TILE;
        let light_grid_bytes = (light_grid_size * LIGHT_INDEX_BYTES) as u64;
        let light_index_count_bytes = (num_tiles * LIGHT_INDEX_BYTES) as u64;
        TileGrid { tiles_x, tiles_y, num_tiles, light_grid_bytes, light_index_count_bytes }
    }

    /// The tile grid for a surface of `width` by `height` pixels, or `None`
    /// when the grid or its buffer sizes do not fit the machine's integers.
    pub fn checked_for_surface(width: u32, height: u32) -> (r: Option<TileGrid>)
        ensures
            r is Some <==> grid_fits(width as int, height as int),
            r matches Some(g) ==> g == grid_of(width as int, height as int),
            r matches Some(g) ==> {
                &&& g.tiles_x * TILE_SIZE >= width
                &&& (g.tiles_x as int) * (TILE_SIZE as int) < width + TILE_SIZE
                &&& g.tiles_y * TILE_SIZE >= height
                &&& (g.tiles_y as int) * (TILE_SIZE as int) < height + TILE_SIZE
                &&& g.num_tiles == g.tiles_x * g.tiles_y
                &&& g.light_grid_bytes == g.num_tiles * MAX_LIGHTS_PER_TILE * LIGHT_INDEX_BYTES
                &&& g.light_index_count_bytes == g.num_tiles * LIGHT_INDEX_BYTES
            },
    {
        if width > u32::MAX - TILE_SIZE || height > u32::MAX - TILE_SIZE {
            return None;
        }
        let tiles_x = tile_count(width);
        let tiles_y = tile_count(height);
        let num_tiles = match tiles_x.checked_mul(tiles_y) {
            Some(n) => n as usize,
            None => return None,
        };
        match num_tiles.checked_mul(MAX_LIGHTS_PER_TILE * LIGHT_INDEX_BYTES) {
            Some(_) => Some(TileGrid::for_surface(width, height)),
            None => None,
        }
    }
}

/// The tile grid of a surface whose grid fits the machine's integers covers
/// every pixel with the fewest tiles along each axis, has one tile per
/// (column, row) pair, and sizes its buffers by the tile count.
pub proof fn lemma_grid_covers_surface(width: int, height: int)
    requires
        grid_fits(width, height),
    ensures
        grid_of(width, height).tiles_x * TILE_SIZE >= width,
        (grid_of(width, height).tiles_x as int) * (TILE_SIZE as int) < width + TILE_SIZE,
        grid_of(width, height).tiles_y * TILE_SIZE >= height,
        (grid_of(width, height).tiles_y as int) * (TILE_SIZE as int) < height + TILE_SIZE,
        grid_of(width, height).num_tiles == grid_of(width, height).tiles_x * grid_of(width, height).tiles_y,
        grid_of(width, height).light_grid_bytes == grid_of(width, height).num_tiles * MAX_LIGHTS_PER_TILE
            * LIGHT_INDEX_BYTES,
        grid_of(width, height).light_index_count_bytes == grid_of(width, height).num_tiles
            * LIGHT_INDEX_BYTES,
{
    let x = tiles_for(width);
    let y = tiles_for(height);
    assert(0 <= x && 0 <= y);
    assert(x * y >= 0) by (nonlinear_arith)
        requires
            0 <= x,
            0 <= y,
    ;
}

/// Byte offset of light slot `index` in a buffer of `light_size`-byte lights.
pub fn light_offset(index: u32, light_size: u64) -> (r: u64)
    requires
        index * light_size <= u64::MAX,
    ensures
        r == index * light_size,
{
    index as u64 * light_size
}

/// The light array as uploaded to the GPU: exactly `MAX_LIGHTS` entries, the
/// given lights first (those past the limit dropped), `empty` in every slot
/// after them.
pub fn padded_lights<L: Copy>(lights: &[L], empty: L) -> (r: Vec<L>)
    ensures
        r@.len() == MAX_LIGHTS,
        forall|i: int| 0 <= i < MAX_LIGHTS ==> #[trigger] r@[i] == if i < lights@.len() {
            lights@[i]
        } else {
            empty
        },
{
    let mut out: Vec<L> = Vec::with_capacity(MAX_LIGHTS);
    let mut i: usize = 0;
    while i < MAX_LIGHTS
        invariant
            i <= MAX_LIGHTS,
            out@.len() == i,
            forall|j: int| 0 <= j < i ==> #[trigger] out@[j] == if j < lights@.len() {
                lights@[j]
            } else {
                empty
            },
        decreases MAX_LIGHTS - i,
    {
        if i < lights.len() {
            out.push(lights[i]);
        } else {
            out.push(empty);
        }
        i = i + 1;
    }
    out
}

} // verus!
