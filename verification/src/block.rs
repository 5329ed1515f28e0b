//! The block data model: a block's variant tag, its free-form text content,
//! and its position and measured size on the board.

use vstd::prelude::*;

use crate::geom::{in_world, COORD_LIMIT, WorldVec};

verus! {

/// The variant tag of a block. `Button` blocks carry no behaviour; only
/// `Label` blocks are created and rendered.
#[derive(Clone, Copy, Debug, PartialEq, Eq, Structural)]
pub enum BlockType {
    Button,
    Label,
}

/// The text a tag is written to the store's type column as.
pub open spec fn spec_column_text(b: BlockType) -> Seq<char> {
    if b is Button {
        "Button"@
    } else {
        "Label"@
    }
}

/// The tag a stored type column reads back as: the `Button` text maps to
/// `Button`, anything else to `Label`.
pub open spec fn spec_tag_of_column(s: Seq<char>) -> BlockType {
    if s == "Button"@ {
        BlockType::Button
    } else {
        BlockType::Label
    }
}

/// Law: a tag written to the type column reads back as itself, for both
/// variants.
pub proof fn lemma_tag_round_trips(b: BlockType)
    ensures
        spec_tag_of_column(spec_column_text(b)) == b,
{
    reveal_strlit("Button");
    reveal_strlit("Label");
    assert("Button"@.len() == 6);
    assert("Label"@.len() == 5);
    assert("Label"@ != "Button"@);
}

impl BlockType {
    /// The tag's name, as it is written to the store's type column.
    pub fn column_text(&self) -> (r: String)
        ensures
            r@ == spec_column_text(*self),
    {
        match self {
            BlockType::Button => "Button".to_owned(),
            BlockType::Label => "Label".to_owned(),
        }
    }

    /// The tag read back from a stored type column: the inverse of
    /// `column_text`. Unknown text reads as `Label`, the only tag the
    /// application creates.
    pub fn from_column_text(text: &str) -> (r: BlockType)
        ensures
            r == spec_tag_of_column(text@),
    {
        let stored: String = text.to_owned();
        let button: String = "Button".to_owned();
        if stored == button {
            BlockType::Button
        } else {
            BlockType::Label
        }
    }
}

/// A block resident in memory: identity, variant tag and text content.
#[derive(Debug)]
pub struct Block {
    pub id: String,
    pub block_type: BlockType,
    pub block_data: String,
}

impl Clone for Block {
    fn clone(&self) -> (r: Block)
        ensures
            r == self,
    {
        Block {
            id: self.id.clone(),
            block_type: self.block_type,
            block_data: self.block_data.clone(),
        }
    }
}

/// Where a block sits in world space, together with its size once it has
/// been measured; a freshly created block has size zero in both axes.
#[derive(Debug)]
pub struct BlockPosition {
    pub id: String,
    pub x: i64,
    pub y: i64,
    pub size: WorldVec,
}

impl Clone for BlockPosition {
    fn clone(&self) -> (r: BlockPosition)
        ensures
            r == self,
    {
        BlockPosition { id: self.id.clone(), x: self.x, y: self.y, size: self.size }
    }
}

impl BlockPosition {
    /// The position and the size lie within the world range, and the size
    /// is non-negative.
    pub open spec fn wf(self) -> bool {
        &&& in_world(self.x as int)
        &&& in_world(self.y as int)
        &&& 0 <= self.size.x <= COORD_LIMIT
        &&& 0 <= self.size.y <= COORD_LIMIT
    }

    /// The point `(x, y)` falls on this block: within
    /// `[position, position + size]` in both axes.
    pub open spec fn spec_contains_point(self, x: int, y: int) -> bool {
        &&& self.x <= x <= self.x + self.size.x
        &&& self.y <= y <= self.y + self.size.y
    }

    /// Runtime hit test of one block against a world-space point.
    pub fn contains_point(&self, x: i64, y: i64) -> (r: bool)
        requires
            self.wf(),
            in_world(x as int),
            in_world(y as int),
        ensures
            r == self.spec_contains_point(x as int, y as int),
    {
        x >= self.x && x <= self.x + self.size.x && y >= self.y && y <= self.y + self.size.y
    }
}

} // verus!
