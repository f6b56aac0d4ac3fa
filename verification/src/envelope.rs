//! The response envelope: a JSON object whose member `blocks` is an array of
//! blocks, each an object with a string `blockType` and a payload `data`.

use crate::json::{items, json_document, json_items, json_members, json_text, member, parse_document, text};
use serde_json::Value;
use vstd::prelude::*;

verus! {

/// Name of the envelope member that holds the blocks.
pub const BLOCKS_KEY: &'static str = "blocks";

/// Name, on the wire, of a block's type identifier.
pub const BLOCK_TYPE_KEY: &'static str = "blockType";

/// Name of a block's payload.
pub const DATA_KEY: &'static str = "data";

/// One section of a response: a type identifier and a payload whose shape
/// depends on that type. The payload is kept as it arrived and decoded only
/// on demand.
#[derive(Debug)]
pub struct Block {
    pub block_type: String,
    pub data: Value,
}

/// A block as the contracts speak of it.
pub struct BlockView {
    pub block_type: Seq<char>,
    pub data: Value,
}

impl View for Block {
    type V = BlockView;

    open spec fn view(&self) -> BlockView {
        BlockView { block_type: self.block_type@, data: self.data }
    }
}

/// What keeps an element of `blocks` from being a block.
#[derive(Debug, Clone, Copy, PartialEq, Eq, Structural)]
pub enum BlockDefect {
    /// It has no member `blockType` (or is no object at all).
    NoBlockType,
    /// Its `blockType` is not a string.
    BlockTypeNotString,
    /// It has no member `data`.
    NoData,
}

/// What keeps a JSON document from being an envelope.
#[derive(Debug, Clone, Copy, PartialEq, Eq, Structural)]
pub enum ShapeError {
    /// The document has no member `blocks` (or is no object at all).
    NoBlocks,
    /// `blocks` is not an array.
    BlocksNotArray,
    /// The element at `index` is the first that is not a block.
    BadBlock { index: usize, defect: BlockDefect },
}

/// Why a response body yields no blocks.
#[derive(Debug)]
pub enum EnvelopeError {
    /// The body is not JSON. This is the parser's own error.
    Json(serde_json::Error),
    /// The body is JSON of the wrong shape.
    Shape(ShapeError),
}

/// The defect of one element of `blocks`, if it has one. `blockType` is
/// looked at before `data`.
pub open spec fn block_defect(item: Value) -> Option<BlockDefect> {
    let members = json_members(item);
    if !members.contains_key(BLOCK_TYPE_KEY@) {
        Some(BlockDefect::NoBlockType)
    } else if json_text(members[BLOCK_TYPE_KEY@]) is None {
        Some(BlockDefect::BlockTypeNotString)
    } else if !members.contains_key(DATA_KEY@) {
        Some(BlockDefect::NoData)
    } else {
        None
    }
}

/// The block that an element without defect spells.
pub open spec fn block_of(item: Value) -> BlockView
    recommends
        block_defect(item) is None,
{
    let members = json_members(item);
    BlockView { block_type: json_text(members[BLOCK_TYPE_KEY@])->0, data: members[DATA_KEY@] }
}

/// The first element with a defect, by position, and its defect.
pub open spec fn first_defect(items: Seq<Value>) -> Option<(int, BlockDefect)>
    decreases items.len(),
{
    if items.len() == 0 {
        None
    } else {
        match first_defect(items.drop_last()) {
            Some(found) => Some(found),
            None => match block_defect(items.last()) {
                Some(defect) => Some((items.len() - 1, defect)),
                None => None,
            },
        }
    }
}

/// The blocks of an envelope in the order of the document, or the reason
/// why `root` is no envelope.
pub open spec fn envelope_blocks(root: Value) -> Result<Seq<BlockView>, ShapeError> {
    let members = json_members(root);
    if !members.contains_key(BLOCKS_KEY@) {
        Err(ShapeError::NoBlocks)
    } else {
        match json_items(members[BLOCKS_KEY@]) {
            None => Err(ShapeError::BlocksNotArray),
            Some(items) => match first_defect(items) {
                Some((index, defect)) => Err(ShapeError::BadBlock { index: index as usize, defect }),
                None => Ok(items.map_values(|item: Value| block_of(item))),
            },
        }
    }
}

/// The blocks that a response body spells, or the reason why it spells
/// none.
pub open spec fn envelope_of(body: Seq<u8>) -> Result<Seq<BlockView>, EnvelopeError> {
    match json_document(body) {
        Err(e) => Err(EnvelopeError::Json(e)),
        Ok(root) => match envelope_blocks(root) {
            Ok(blocks) => Ok(blocks),
            Err(e) => Err(EnvelopeError::Shape(e)),
        },
    }
}

/// The views of a sequence of blocks.
pub open spec fn block_views(blocks: Seq<Block>) -> Seq<BlockView> {
    blocks.map_values(|block: Block| block@)
}

/// A defect, where there is one, lies inside the sequence, belongs to the
/// element at its position, and no element before it has one.
pub proof fn lemma_first_defect(items: Seq<Value>)
    ensures
        (match first_defect(items) {
            Some((index, defect)) => {
                &&& 0 <= index < items.len()
                &&& block_defect(items[index]) == Some(defect)
                &&& forall|j: int| 0 <= j < index ==> block_defect(#[trigger] items[j]) is None
            },
            None => forall|j: int| 0 <= j < items.len() ==> block_defect(#[trigger] items[j]) is None,
        }),
    decreases items.len(),
{
    if items.len() > 0 {
        let front = items.drop_last();
        lemma_first_defect(front);
        assert forall|j: int| 0 <= j < front.len() implies front[j] == items[j] by {}
    }
}

/// The blocks of an envelope are the elements of `blocks`, one for one and
/// in order: each with the text of its `blockType` and with its `data` as
/// the document holds it.
pub proof fn lemma_envelope_blocks(root: Value)
    requires
        envelope_blocks(root) is Ok,
    ensures
        json_members(root).contains_key(BLOCKS_KEY@),
        json_items(json_members(root)[BLOCKS_KEY@]) is Some,
        ({
            let items = json_items(json_members(root)[BLOCKS_KEY@])->0;
            let blocks = envelope_blocks(root)->Ok_0;
            &&& blocks.len() == items.len()
            &&& forall|i: int|
                0 <= i < items.len() ==> {
                    &&& block_defect(#[trigger] items[i]) is None
                    &&& blocks[i].block_type == json_text(json_members(items[i])[BLOCK_TYPE_KEY@])->0
                    &&& blocks[i].data == json_members(items[i])[DATA_KEY@]
                }
        }),
{
    lemma_first_defect(json_items(json_members(root)[BLOCKS_KEY@])->0);
}

/// Reads one element of `blocks`.
pub fn read_block(item: &Value) -> (r: Result<Block, BlockDefect>)
    ensures
        match r {
            Ok(block) => block_defect(*item) is None && block@ == block_of(*item),
            Err(defect) => block_defect(*item) == Some(defect),
        },
{
    let block_type = match member(item, BLOCK_TYPE_KEY) {
        None => { return Err(BlockDefect::NoBlockType); },
        Some(value) => match text(value) {
            None => { return Err(BlockDefect::BlockTypeNotString); },
            Some(s) => s,
        },
    };
    match member(item, DATA_KEY) {
        None => Err(BlockDefect::NoData),
        Some(data) => Ok(Block { block_type: block_type.to_owned(), data: data.clone() }),
    }
}

/// Reads the blocks out of a parsed document. Members other than `blocks`,
/// and members of a block other than `blockType` and `data`, are ignored.
pub fn blocks_of(root: &Value) -> (r: Result<Vec<Block>, ShapeError>)
    ensures
        match r {
            Ok(blocks) => envelope_blocks(*root) == Ok::<Seq<BlockView>, ShapeError>(block_views(blocks@)),
            Err(e) => envelope_blocks(*root) == Err::<Seq<BlockView>, ShapeError>(e),
        },
{
    let list = match member(root, BLOCKS_KEY) {
        None => { return Err(ShapeError::NoBlocks); },
        Some(value) => match items(value) {
            None => { return Err(ShapeError::BlocksNotArray); },
            Some(list) => list,
        },
    };
    let mut blocks: Vec<Block> = Vec::new();
    let mut i: usize = 0;
    while i < list.len()
        invariant
            i <= list.len(),
            json_members(*root).contains_key(BLOCKS_KEY@),
            json_items(json_members(*root)[BLOCKS_KEY@]) == Some(list@),
            first_defect(list@.take(i as int)) is None,
            blocks.len() == i,
            forall|j: int| 0 <= j < i ==> (#[trigger] blocks[j])@ == block_of(list[j]),
        decreases list.len() - i,
    {
        proof {
            assert(list@.take(i + 1).drop_last() =~= list@.take(i as int));
        }
        match read_block(&list[i]) {
            Err(defect) => {
                proof {
                    lemma_defect_in_prefix(list@, i as int, defect);
                }
                return Err(ShapeError::BadBlock { index: i, defect });
            },
            Ok(block) => {
                blocks.push(block);
            },
        }
        i = i + 1;
    }
    proof {
        assert(list@.take(i as int) =~= list@);
        assert(block_views(blocks@) =~= list@.map_values(|item: Value| block_of(item)));
    }
    Ok(blocks)
}

/// A defect found after a clean prefix is the first of the whole sequence.
proof fn lemma_defect_in_prefix(items: Seq<Value>, index: int, defect: BlockDefect)
    requires
        0 <= index < items.len(),
        first_defect(items.take(index)) is None,
        block_defect(items[index]) == Some(defect),
    ensures
        first_defect(items) == Some((index, defect)),
{
    assert(items.take(index + 1).drop_last() =~= items.take(index));
    lemma_defect_persists(items, index + 1);
}

/// The first defect of a prefix is the first defect of the whole.
proof fn lemma_defect_persists(items: Seq<Value>, len: int)
    requires
        0 <= len <= items.len(),
        first_defect(items.take(len)) is Some,
    ensures
        first_defect(items) == first_defect(items.take(len)),
    decreases items.len() - len,
{
    if len < items.len() {
        assert(items.take(len + 1).drop_last() =~= items.take(len));
        lemma_defect_persists(items, len + 1);
    } else {
        assert(items.take(len) =~= items);
    }
}

/// Parses a response body into its blocks; see [`envelope_of`].
pub fn parse_envelope(body: &[u8]) -> (r: Result<Vec<Block>, EnvelopeError>)
    ensures
        match r {
            Ok(blocks) => envelope_of(body@) == Ok::<Seq<BlockView>, EnvelopeError>(block_views(blocks@)),
            Err(e) => envelope_of(body@) == Err::<Seq<BlockView>, EnvelopeError>(e),
        },
{
    match parse_document(body) {
        Err(e) => Err(EnvelopeError::Json(e)),
        Ok(root) => match blocks_of(&root) {
            Ok(blocks) => Ok(blocks),
            Err(e) => Err(EnvelopeError::Shape(e)),
        },
    }
}

} // verus!
