//! Chip geometry: the page size and page count of a model, and the sector and
//! block sizes that the hardware derives from them.

use vstd::arithmetic::div_mod::lemma_mod_multiples_basic;
use vstd::prelude::*;

verus! {

/// Pages in one sector, the smallest unit that can be erased.
pub const PAGES_PER_SECTOR: u32 = 16;

/// Sectors in one 32 KiB-class block.
pub const SECTORS_PER_BLOCK_32K: u32 = 8;

/// 32 KiB-class blocks in one 64 KiB-class block.
pub const BLOCKS_32K_PER_BLOCK_64K: u32 = 2;

/// Number of distinct addresses that the three address bytes of a command
/// frame can express.
pub const ADDRESS_SPACE: u32 = 0x100_0000;

/// What a geometry must satisfy to be usable by the driver: pages hold at
/// least one byte, every byte of the chip has a 24-bit address, and the
/// largest erase block has a size that fits in a `u32`.
pub open spec fn valid_geometry(page_size: nat, n_pages: nat) -> bool {
    &&& 0 < page_size
    &&& page_size * n_pages <= ADDRESS_SPACE
    &&& page_size * 256 <= u32::MAX
}

/// Total number of bytes of model `M`.
pub open spec fn capacity<M: FlashModel>() -> nat {
    (M::PAGE_SIZE * M::N_PAGES) as nat
}

/// Bytes in one sector of model `M`.
pub open spec fn sector_size<M: FlashModel>() -> nat {
    (M::PAGE_SIZE * 16) as nat
}

/// Sectors of model `M`.
pub open spec fn n_sectors<M: FlashModel>() -> nat {
    (M::N_PAGES / 16) as nat
}

/// Bytes in one 32 KiB-class block of model `M`.
pub open spec fn block_32k_size<M: FlashModel>() -> nat {
    sector_size::<M>() * 8
}

/// 32 KiB-class blocks of model `M`.
pub open spec fn n_blocks_32k<M: FlashModel>() -> nat {
    n_sectors::<M>() / 8
}

/// Bytes in one 64 KiB-class block of model `M`.
pub open spec fn block_64k_size<M: FlashModel>() -> nat {
    block_32k_size::<M>() * 2
}

/// 64 KiB-class blocks of model `M`.
pub open spec fn n_blocks_64k<M: FlashModel>() -> nat {
    n_blocks_32k::<M>() / 2
}

/// A chip model. An implementation chooses the two base constants and proves
/// that they form a valid geometry; everything else is derived from them and
/// cannot be chosen independently.
pub trait FlashModel: Sized {
    /// Bytes in one page, the largest unit one program command can write.
    const PAGE_SIZE: u32;

    /// Number of pages on the chip.
    const N_PAGES: u32;

    /// The obligation of every model: its base constants are a valid geometry.
    proof fn geometry_is_valid()
        ensures
            valid_geometry(Self::PAGE_SIZE as nat, Self::N_PAGES as nat),
    ;

    /// `PAGE_SIZE × N_PAGES`.
    fn capacity() -> (r: u32)
        ensures
            r == Self::PAGE_SIZE * Self::N_PAGES,
    {
        proof {
            Self::geometry_is_valid();
        }
        Self::PAGE_SIZE * Self::N_PAGES
    }

    /// `PAGE_SIZE × 16`.
    fn sector_size() -> (r: u32)
        ensures
            r == Self::PAGE_SIZE * 16,
    {
        proof {
            Self::geometry_is_valid();
        }
        Self::PAGE_SIZE * PAGES_PER_SECTOR
    }

    /// `N_PAGES / 16`.
    fn n_sectors() -> (r: u32)
        ensures
            r == Self::N_PAGES / 16,
    {
        Self::N_PAGES / PAGES_PER_SECTOR
    }

    /// `SECTOR_SIZE × 8`.
    fn block_32k_size() -> (r: u32)
        ensures
            r == Self::PAGE_SIZE * 128,
    {
        proof {
            Self::geometry_is_valid();
        }
        Self::sector_size() * SECTORS_PER_BLOCK_32K
    }

    /// `N_SECTORS / 8`.
    fn n_blocks_32k() -> (r: u32)
        ensures
            r == Self::N_PAGES / 128,
    {
        Self::n_sectors() / SECTORS_PER_BLOCK_32K
    }

    /// `BLOCK_32K_SIZE × 2`.
    fn block_64k_size() -> (r: u32)
        ensures
            r == Self::PAGE_SIZE * 256,
    {
        proof {
            Self::geometry_is_valid();
        }
        Self::block_32k_size() * BLOCKS_32K_PER_BLOCK_64K
    }

    /// `N_BLOCKS_32K / 2`.
    fn n_blocks_64k() -> (r: u32)
        ensures
            r == Self::N_PAGES / 256,
    {
        Self::n_blocks_32k() / BLOCKS_32K_PER_BLOCK_64K
    }
}

/// Every erase unit of a valid model is a whole number of pages, each larger
/// unit is a whole number of the next smaller one, and where the page count
/// is a multiple of 256 the units of each size tile the chip exactly.
pub proof fn derived_sizes_are_page_multiples<M: FlashModel>()
    ensures
        0 < M::PAGE_SIZE,
        capacity::<M>() <= ADDRESS_SPACE,
        sector_size::<M>() == 16 * M::PAGE_SIZE,
        block_32k_size::<M>() == 8 * sector_size::<M>(),
        block_64k_size::<M>() == 2 * block_32k_size::<M>(),
        sector_size::<M>() % (M::PAGE_SIZE as nat) == 0,
        block_32k_size::<M>() % sector_size::<M>() == 0,
        block_64k_size::<M>() % block_32k_size::<M>() == 0,
        M::N_PAGES % 256 == 0 ==> {
            &&& n_sectors::<M>() * sector_size::<M>() == capacity::<M>()
            &&& n_blocks_32k::<M>() * block_32k_size::<M>() == capacity::<M>()
            &&& n_blocks_64k::<M>() * block_64k_size::<M>() == capacity::<M>()
        },
{
    M::geometry_is_valid();
    let p = M::PAGE_SIZE as int;
    let n = M::N_PAGES as int;
    lemma_mod_multiples_basic(16, p);
    lemma_mod_multiples_basic(8, 16 * p);
    lemma_mod_multiples_basic(2, 128 * p);
    if n % 256 == 0 {
        let s = n / 16;
        let b = n / 128;
        let c = n / 256;
        assert(s * 16 == n && b * 128 == n && c * 256 == n);
        assert(s * (p * 16) == p * (s * 16)) by (nonlinear_arith);
        assert(b * (p * 128) == p * (b * 128)) by (nonlinear_arith);
        assert(c * (p * 256) == p * (c * 256)) by (nonlinear_arith);
    }
}

/// The 4 MiB chip: 16384 pages of 256 bytes.
#[derive(Debug, Clone, Copy, PartialEq, Eq)]
pub struct W25Q32;

impl FlashModel for W25Q32 {
    const PAGE_SIZE: u32 = 256;

    const N_PAGES: u32 = 16384;

    proof fn geometry_is_valid()
        ensures
            Self::PAGE_SIZE == 256,
            Self::N_PAGES == 16384,
    {
    }
}

/// The 8 MiB chip: 32768 pages of 256 bytes.
#[derive(Debug, Clone, Copy, PartialEq, Eq)]
pub struct W25Q64;

impl FlashModel for W25Q64 {
    const PAGE_SIZE: u32 = 256;

    const N_PAGES: u32 = 32768;

    proof fn geometry_is_valid()
        ensures
            Self::PAGE_SIZE == 256,
            Self::N_PAGES == 32768,
    {
    }
}

/// The 16 MiB chip: 65536 pages of 256 bytes.
#[derive(Debug, Clone, Copy, PartialEq, Eq)]
pub struct W25Q128;

impl FlashModel for W25Q128 {
    const PAGE_SIZE: u32 = 256;

    const N_PAGES: u32 = 65536;

    proof fn geometry_is_valid()
        ensures
            Self::PAGE_SIZE == 256,
            Self::N_PAGES == 65536,
    {
    }
}

} // verus!
