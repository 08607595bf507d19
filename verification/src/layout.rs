//! The memory layout of a 1 KiB card: sixteen sectors of four blocks each,
//! and the role each block plays within its sector.

use vstd::prelude::*;

verus! {

/// Number of sectors on the card.
pub const SECTOR_COUNT: u8 = 16;

/// Number of blocks in every sector.
pub const BLOCKS_PER_SECTOR: u8 = 4;

/// Number of blocks on the card.
pub const BLOCK_COUNT: u8 = 64;

/// What a block holds, by its place in its sector.
#[derive(Clone, Copy, Debug, PartialEq, Eq, Structural)]
pub enum BlockRole {
    /// Block 0 of sector 0: factory-written identity data, read-only by convention.
    ManufacturerBlock,
    /// The last block of a sector: KeyA, the access bits and KeyB.
    TrailerBlock,
    /// Any other block.
    DataBlock,
}

/// The role of block `relative_block` of sector `sector_index`.
pub open spec fn role_of(sector_index: int, relative_block: int) -> BlockRole {
    if sector_index == 0 && relative_block == 0 {
        BlockRole::ManufacturerBlock
    } else if relative_block == 3 {
        BlockRole::TrailerBlock
    } else {
        BlockRole::DataBlock
    }
}

/// The absolute number of block `relative_block` of sector `sector_index`.
pub open spec fn block_number(sector_index: int, relative_block: int) -> int {
    sector_index * 4 + relative_block
}

/// The short name under which a role appears in a report.
pub open spec fn role_label(role: BlockRole) -> Seq<char> {
    match role {
        BlockRole::ManufacturerBlock => "MFD"@,
        BlockRole::TrailerBlock => "TRAILER"@,
        BlockRole::DataBlock => "DATA"@,
    }
}

/// Labels the block at `relative_block` within `sector_index`.
pub fn classify(sector_index: u8, relative_block: u8) -> (role: BlockRole)
    ensures
        role == role_of(sector_index as int, relative_block as int),
        sector_index == 0 && relative_block == 0 ==> role == BlockRole::ManufacturerBlock,
        relative_block == 3 ==> role == BlockRole::TrailerBlock,
        !(sector_index == 0 && relative_block == 0) && relative_block != 3 ==> role
            == BlockRole::DataBlock,
{
    if sector_index == 0 && relative_block == 0 {
        BlockRole::ManufacturerBlock
    } else if relative_block == 3 {
        BlockRole::TrailerBlock
    } else {
        BlockRole::DataBlock
    }
}

impl BlockRole {
    /// The short name of this role.
    pub fn label(&self) -> (name: &'static str)
        ensures
            name@ == role_label(*self),
    {
        match self {
            BlockRole::ManufacturerBlock => "MFD",
            BlockRole::TrailerBlock => "TRAILER",
            BlockRole::DataBlock => "DATA",
        }
    }
}

/// The report name of the block at `rel_block` within `sector`.
pub fn get_block_type(sector: u8, rel_block: u8) -> (name: &'static str)
    ensures
        name@ == role_label(role_of(sector as int, rel_block as int)),
{
    classify(sector, rel_block).label()
}

/// The absolute number of a block, from its sector and its place in it.
pub fn absolute_block(sector_index: u8, relative_block: u8) -> (block: u8)
    requires
        sector_index < SECTOR_COUNT,
        relative_block < BLOCKS_PER_SECTOR,
    ensures
        block == block_number(sector_index as int, relative_block as int),
        block < BLOCK_COUNT,
        block / 4 == sector_index,
        block % 4 == relative_block,
{
    sector_index * BLOCKS_PER_SECTOR + relative_block
}

/// The sector that holds `absolute_block`.
pub fn owning_sector(absolute_block: u8) -> (sector_index: u8)
    ensures
        sector_index == absolute_block / 4,
        absolute_block < BLOCK_COUNT ==> sector_index < SECTOR_COUNT,
{
    absolute_block / BLOCKS_PER_SECTOR
}

/// The place of `absolute_block` within its sector.
pub fn relative_block(absolute_block: u8) -> (relative: u8)
    ensures
        relative == absolute_block % 4,
        relative < BLOCKS_PER_SECTOR,
        absolute_block == block_number((absolute_block / 4) as int, relative as int),
{
    absolute_block % BLOCKS_PER_SECTOR
}

/// Every block of a card has exactly one role: the first block of the first
/// sector is the manufacturer block, the last block of each sector is its
/// trailer, and all the others hold data.
pub proof fn lemma_roles_partition_the_card(sector_index: int, relative_block: int)
    requires
        0 <= sector_index < 16,
        0 <= relative_block < 4,
    ensures
        role_of(0, 0) == BlockRole::ManufacturerBlock,
        role_of(sector_index, 3) == BlockRole::TrailerBlock,
        (sector_index != 0 || relative_block != 0) && relative_block != 3 ==> role_of(
            sector_index,
            relative_block,
        ) == BlockRole::DataBlock,
        role_of(sector_index, relative_block) == BlockRole::ManufacturerBlock <==> sector_index
            == 0 && relative_block == 0,
        role_of(sector_index, relative_block) == BlockRole::TrailerBlock <==> relative_block == 3,
{
}

} // verus!
