//! Geometry of the XT25F32B SPI NOR flash on the PineTime.
use vstd::prelude::*;

verus! {

/// The XTX XT25F32B, a 4 MiB 25-series SPI NOR flash chip.
#[derive(Clone, Copy, Debug, PartialEq, Eq, Structural)]
pub struct XT25F32B;

impl XT25F32B {
    /// Bytes written by one page program.
    pub const PAGE_SIZE: usize = 256;

    /// Bytes cleared by one sector erase.
    pub const SECTOR_SIZE: usize = 4 * 1024;

    /// Bytes cleared by one block erase.
    pub const BLOCK_SIZE: usize = 64 * 1024;

    /// Bytes on the chip.
    pub const CHIP_SIZE: usize = 4 * 1024 * 1024;

    /// The page write size of the flash chip
    pub fn page_write_size(&self) -> (r: usize)
        ensures
            r == Self::PAGE_SIZE,
    {
        Self::PAGE_SIZE
    }

    /// The sector erase size of the flash chip
    pub fn sector_erase_size(&self) -> (r: usize)
        ensures
            r == Self::SECTOR_SIZE,
    {
        Self::SECTOR_SIZE
    }

    /// The block erase size of the flash chip
    pub fn block_erase_size(&self) -> (r: usize)
        ensures
            r == Self::BLOCK_SIZE,
    {
        Self::BLOCK_SIZE
    }

    /// The total size of the flash chip
    pub fn chip_size(&self) -> (r: usize)
        ensures
            r == Self::CHIP_SIZE,
    {
        Self::CHIP_SIZE
    }
}

/// The erase and program units nest: a sector is a whole number of pages, a
/// block a whole number of sectors, and the chip a whole number of blocks, so
/// an address aligned to a larger unit is aligned to every smaller one.
pub proof fn lemma_geometry_nests()
    ensures
        XT25F32B::SECTOR_SIZE == 16 * XT25F32B::PAGE_SIZE,
        XT25F32B::BLOCK_SIZE == 16 * XT25F32B::SECTOR_SIZE,
        XT25F32B::CHIP_SIZE == 64 * XT25F32B::BLOCK_SIZE,
        XT25F32B::CHIP_SIZE <= u32::MAX,
{
}

} // verus!
