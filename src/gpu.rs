//! Video memory and its decoded tile cache.
//!
//! Tile data sits in the first 0x1800 bytes of video memory: 384 tiles of
//! 16 bytes, two bytes per row of 8 pixels. The first byte of a row holds the
//! low bit of each pixel, the second the high bit; bit 7 is the leftmost pixel.
//! The cache holds tile `t`, row `r`, column `c` at `t * 64 + r * 8 + c`.
use crate::memory_map::{OAM_SIZE, TILE_RAM_SIZE, VRAM_SIZE};
use crate::registers::bit_set;
use vstd::prelude::*;

verus! {

/// Number of tiles in the tile cache.
pub const TILE_COUNT: usize = 384;

/// Number of pixels in the tile cache.
pub const TILE_PIXELS: usize = 24576;

/// The colour index of one pixel of a tile.
#[derive(Clone, Copy, Debug, PartialEq, Eq, Structural)]
pub enum TilePixelValue {
    Zero,
    One,
    Two,
    Three,
}

/// The pixel whose low bit is `low` and high bit is `high`.
pub open spec fn pixel_from_bits(low: bool, high: bool) -> TilePixelValue {
    match (low, high) {
        (false, false) => TilePixelValue::Zero,
        (true, false) => TilePixelValue::One,
        (false, true) => TilePixelValue::Two,
        (true, true) => TilePixelValue::Three,
    }
}

/// Pixel number `i` of the cache, decoded from video memory: its row's bytes
/// are at `2 * (i / 8)` and `2 * (i / 8) + 1`, and its column is `i % 8`.
pub open spec fn pixel_at(vram: Seq<u8>, i: int) -> TilePixelValue {
    let row_start = 2 * (i / 8);
    let bit = (7 - i % 8) as u8;
    pixel_from_bits(bit_set(vram[row_start], bit), bit_set(vram[row_start + 1], bit))
}

/// Video memory, the tile cache decoded from it, and object attribute memory.
pub struct Gpu {
    vram: Vec<u8>,
    tile_set: Vec<TilePixelValue>,
    /// Object attribute memory: the descriptors of movable objects.
    oam: Vec<u8>,
}

impl Gpu {
    /// Buffers have their sizes, and every pixel of the cache is the one that
    /// video memory encodes.
    pub closed spec fn wf(&self) -> bool {
        &&& self.vram@.len() == VRAM_SIZE
        &&& self.oam@.len() == OAM_SIZE
        &&& self.tile_set@.len() == TILE_PIXELS
        &&& forall|i: int|
            0 <= i < TILE_PIXELS ==> #[trigger] self.tile_set@[i] == pixel_at(self.vram@, i)
    }

    pub closed spec fn vram_view(&self) -> Seq<u8> {
        self.vram@
    }

    pub closed spec fn oam_view(&self) -> Seq<u8> {
        self.oam@
    }

    /// All of memory zero, every pixel `Zero`.
    pub fn new() -> (r: Gpu)
        ensures
            r.wf(),
            r.vram_view() == Seq::new(VRAM_SIZE as nat, |i: int| 0u8),
            r.oam_view() == Seq::new(OAM_SIZE as nat, |i: int| 0u8),
    {
        let vram = zeroed(VRAM_SIZE);
        let oam = zeroed(OAM_SIZE);
        let mut tile_set: Vec<TilePixelValue> = Vec::new();
        let mut n: usize = 0;
        while n < TILE_PIXELS
            invariant
                n <= TILE_PIXELS,
                tile_set@.len() == n,
                forall|i: int| 0 <= i < n ==> #[trigger] tile_set@[i] == TilePixelValue::Zero,
            decreases TILE_PIXELS - n,
        {
            tile_set.push(TilePixelValue::Zero);
            n = n + 1;
        }
        assert forall|i: int| 0 <= i < TILE_PIXELS implies #[trigger] tile_set@[i] == pixel_at(
            vram@,
            i,
        ) by {
            let b = (7 - i % 8) as u8;
            assert((0u8 >> b) & 1 == 0) by (bit_vector);
        }
        Gpu { vram, tile_set, oam }
    }

    /// Reads a byte of video memory.
    pub fn read_vram(&self, offset: usize) -> (r: u8)
        requires
            self.wf(),
            offset < VRAM_SIZE,
        ensures
            r == self.vram_view()[offset as int],
    {
        self.vram[offset]
    }

    /// Writes a byte of video memory. A write into tile data decodes again the
    /// one row of the cache that the byte belongs to.
    pub fn write_vram(&mut self, offset: usize, value: u8)
        requires
            old(self).wf(),
            offset < VRAM_SIZE,
        ensures
            final(self).wf(),
            final(self).vram_view() == old(self).vram_view().update(offset as int, value),
            final(self).oam_view() == old(self).oam_view(),
    {
        self.vram.set(offset, value);
        if offset >= TILE_RAM_SIZE {
            proof {
                assert forall|i: int| 0 <= i < TILE_PIXELS implies #[trigger] self.tile_set@[i]
                    == pixel_at(self.vram@, i) by {
                    assert(pixel_at(old(self).vram@, i) == pixel_at(self.vram@, i));
                }
            }
            return;
        }
        let row_start = offset - offset % 2;
        let low = self.vram[row_start];
        let high = self.vram[row_start + 1];
        // The row's pixels begin at tile * 64 + row * 8, which is 4 * row_start.
        let first = row_start * 4;
        let mut column: usize = 0;
        while column < 8
            invariant
                column <= 8,
                row_start == offset - offset % 2,
                first == row_start * 4,
                offset < TILE_RAM_SIZE,
                low == self.vram@[row_start as int],
                high == self.vram@[row_start as int + 1],
                self.vram@ == old(self).vram@.update(offset as int, value),
                self.vram@.len() == VRAM_SIZE,
                self.oam@ == old(self).oam@,
                self.tile_set@.len() == TILE_PIXELS,
                forall|i: int|
                    0 <= i < TILE_PIXELS && !(first <= i < first + column) ==> #[trigger] self.tile_set@[i]
                        == old(self).tile_set@[i],
                forall|i: int|
                    first <= i < first + column ==> #[trigger] self.tile_set@[i] == pixel_at(
                        self.vram@,
                        i,
                    ),
            decreases 8 - column,
        {
            let bit = (7 - column) as u8;
            let low_set = ((low >> bit) & 1) == 1;
            let high_set = ((high >> bit) & 1) == 1;
            let pixel = match (low_set, high_set) {
                (false, false) => TilePixelValue::Zero,
                (true, false) => TilePixelValue::One,
                (false, true) => TilePixelValue::Two,
                (true, true) => TilePixelValue::Three,
            };
            proof {
                let i = first + column;
                assert(i / 8 == row_start / 2);
                assert(i % 8 == column);
            }
            self.tile_set.set(first + column, pixel);
            column = column + 1;
        }
        proof {
            assert forall|i: int| 0 <= i < TILE_PIXELS implies #[trigger] self.tile_set@[i]
                == pixel_at(self.vram@, i) by {
                if !(first <= i < first + 8) {
                    assert(2 * (i / 8) != offset && 2 * (i / 8) + 1 != offset);
                    assert(pixel_at(old(self).vram@, i) == pixel_at(self.vram@, i));
                }
            }
        }
    }

    /// The pixel at `column` of `row` of `tile`.
    pub fn tile_pixel(&self, tile: usize, row: usize, column: usize) -> (r: TilePixelValue)
        requires
            self.wf(),
            tile < TILE_COUNT,
            row < 8,
            column < 8,
        ensures
            r == pixel_from_bits(
                bit_set(self.vram_view()[tile * 16 + row * 2], (7 - column) as u8),
                bit_set(self.vram_view()[tile * 16 + row * 2 + 1], (7 - column) as u8),
            ),
    {
        let i = tile * 64 + row * 8 + column;
        assert(i / 8 == tile * 8 + row && i % 8 == column);
        self.tile_set[i]
    }

    /// Reads a byte of object attribute memory.
    pub fn read_oam(&self, offset: usize) -> (r: u8)
        requires
            self.wf(),
            offset < OAM_SIZE,
        ensures
            r == self.oam_view()[offset as int],
    {
        self.oam[offset]
    }

    /// Writes a byte of object attribute memory.
    pub fn write_oam(&mut self, offset: usize, value: u8)
        requires
            old(self).wf(),
            offset < OAM_SIZE,
        ensures
            final(self).wf(),
            final(self).oam_view() == old(self).oam_view().update(offset as int, value),
            final(self).vram_view() == old(self).vram_view(),
    {
        self.oam.set(offset, value);
    }
}

impl Default for Gpu {
    fn default() -> (r: Gpu)
        ensures
            r.wf(),
            r.vram_view() == Seq::new(VRAM_SIZE as nat, |i: int| 0u8),
            r.oam_view() == Seq::new(OAM_SIZE as nat, |i: int| 0u8),
    {
        Gpu::new()
    }
}

/// A buffer of `n` zero bytes.
pub fn zeroed(n: usize) -> (r: Vec<u8>)
    ensures
        r@ == Seq::new(n as nat, |i: int| 0u8),
{
    let mut v: Vec<u8> = Vec::new();
    let mut k: usize = 0;
    while k < n
        invariant
            k <= n,
            v@ == Seq::new(k as nat, |i: int| 0u8),
        decreases n - k,
    {
        v.push(0);
        k = k + 1;
        assert(v@ =~= Seq::new(k as nat, |i: int| 0u8));
    }
    v
}

} // verus!
