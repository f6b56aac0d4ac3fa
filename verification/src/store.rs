//! The typed block store: the blocks of one response, found by type and
//! decoded on demand into whatever shape the caller asks for.

use crate::envelope::{block_views, Block, BlockView};
use serde_json::Value;
use vstd::hash_map::StringHashMap;
use vstd::prelude::*;
use vstd::string::StringExecFns;

verus! {

/// The blocks of one response, indexed by block type, and the endpoint that
/// was asked for them. Read-only once built.
pub struct SibResponse {
    url: String,
    blocks: StringHashMap<Block>,
}

/// A store as the contracts speak of it.
pub struct SibResponseView {
    /// The endpoint as the caller gave it, without the query that the request
    /// added.
    pub url: Seq<char>,
    /// The blocks by type.
    pub blocks: Map<Seq<char>, BlockView>,
}

impl View for SibResponse {
    type V = SibResponseView;

    closed spec fn view(&self) -> SibResponseView {
        SibResponseView { url: self.url@, blocks: self.blocks@.map_values(|block: Block| block@) }
    }
}

/// A payload that did not decode into the shape asked for.
#[derive(Debug)]
pub struct BlockError<E> {
    /// The block type that was asked for.
    pub block_type: String,
    /// The endpoint that the store came from.
    pub url: String,
    /// What the decoder reported.
    pub cause: E,
}

/// A decode failure as the contracts speak of it.
pub struct BlockErrorView<E> {
    pub block_type: Seq<char>,
    pub url: Seq<char>,
    pub cause: E,
}

impl<E> View for BlockError<E> {
    type V = BlockErrorView<E>;

    open spec fn view(&self) -> BlockErrorView<E> {
        BlockErrorView { block_type: self.block_type@, url: self.url@, cause: self.cause }
    }
}

/// The index of a list of blocks: each block under its type. Of two blocks
/// with one type the later stays.
pub open spec fn index_blocks(blocks: Seq<BlockView>) -> Map<Seq<char>, BlockView>
    decreases blocks.len(),
{
    if blocks.len() == 0 {
        Map::empty()
    } else {
        index_blocks(blocks.drop_last()).insert(blocks.last().block_type, blocks.last())
    }
}

/// The store of a list of blocks under an endpoint.
pub open spec fn store_of(url: Seq<char>, blocks: Seq<BlockView>) -> SibResponseView {
    SibResponseView { url, blocks: index_blocks(blocks) }
}

/// What asking a store for a block type comes to, given what the decoder
/// makes of the payload. Without a block of that type the decoder is not
/// asked, and the answer is `Ok(None)` whatever `decoded` is.
pub open spec fn block_outcome<T, E>(
    store: SibResponseView,
    block_type: Seq<char>,
    decoded: Result<T, E>,
) -> Result<Option<T>, BlockErrorView<E>> {
    if !store.blocks.contains_key(block_type) {
        Ok(None)
    } else {
        match decoded {
            Ok(value) => Ok(Some(value)),
            Err(cause) => Err(BlockErrorView { block_type, url: store.url, cause }),
        }
    }
}

/// Whether a decoder may be handed the payload of a block type: it may if
/// the store holds no such block, since it is then not called.
pub open spec fn can_ask<'s, T, E, F: FnOnce(&'s Value) -> Result<T, E>>(
    store: SibResponseView,
    block_type: Seq<char>,
    decode: F,
) -> bool {
    store.blocks.contains_key(block_type) ==> decode.requires((&store.blocks[block_type].data,))
}

/// Whether `answer` is what a store gives when asked for a block type with a
/// decoder: `Ok(None)` without such a block, and else what [`block_outcome`]
/// makes of something that the decoder returns for the payload of that
/// block.
pub open spec fn may_answer<'s, T, E, F: FnOnce(&'s Value) -> Result<T, E>>(
    store: SibResponseView,
    block_type: Seq<char>,
    decode: F,
    answer: Result<Option<T>, BlockErrorView<E>>,
) -> bool {
    if store.blocks.contains_key(block_type) {
        exists|decoded: Result<T, E>|
            {
                &&& #[trigger] decode.ensures((&store.blocks[block_type].data,), decoded)
                &&& answer == block_outcome(store, block_type, decoded)
            }
    } else {
        answer == Ok::<Option<T>, BlockErrorView<E>>(None)
    }
}

/// The view of an answer.
pub open spec fn outcome_view<T, E>(r: Result<Option<T>, BlockError<E>>) -> Result<
    Option<T>,
    BlockErrorView<E>,
> {
    match r {
        Ok(value) => Ok(value),
        Err(e) => Err(e@),
    }
}

/// Whether `part` stands somewhere in `whole`, character for character.
pub open spec fn occurs_in(part: Seq<char>, whole: Seq<char>) -> bool {
    exists|at: int|
        0 <= at && at + part.len() <= whole.len() && #[trigger] whole.subrange(at, at + part.len())
            == part
}

/// The text of a decode failure.
pub open spec fn failure_message(block_type: Seq<char>, url: Seq<char>) -> Seq<char> {
    "Failed to deserialize "@ + block_type + " for "@ + url
}

impl<E> BlockError<E> {
    /// Says which block type of which endpoint did not decode.
    pub fn message(&self) -> (r: String)
        ensures
            r@ == failure_message(self@.block_type, self@.url),
    {
        let mut out = String::from_str("Failed to deserialize ");
        out.append(self.block_type.as_str());
        out.append(" for ");
        out.append(self.url.as_str());
        out
    }
}

impl SibResponse {
    #[verifier::type_invariant]
    spec fn keyed_by_type(&self) -> bool {
        forall|key: Seq<char>| #[trigger]
            self.blocks@.contains_key(key) ==> self.blocks@[key].block_type@ == key
    }

    /// Indexes the blocks of a response to `url`.
    pub fn new(url: &str, blocks: Vec<Block>) -> (r: SibResponse)
        ensures
            r@ == store_of(url@, block_views(blocks@)),
    {
        let ghost all = block_views(blocks@);
        let mut index: StringHashMap<Block> = StringHashMap::new();
        for block in it: blocks
            invariant
                block_views(it.seq()) == all,
                forall|key: Seq<char>| #[trigger]
                    index@.contains_key(key) ==> index@[key].block_type@ == key,
                index@.map_values(|block: Block| block@) =~= index_blocks(all.take(it.index())),
        {
            proof {
                assert(all.take(it.index() + 1).drop_last() =~= all.take(it.index()));
            }
            let key = block.block_type.clone();
            index.insert(key, block);
        }
        proof {
            assert(all.take(all.len() as int) =~= all);
        }
        SibResponse { url: url.to_owned(), blocks: index }
    }

    /// The endpoint that the store came from, as the caller gave it.
    pub fn url(&self) -> (r: &str)
        ensures
            r@ == self@.url,
    {
        self.url.as_str()
    }

    /// The number of block types that the store holds.
    pub fn len(&self) -> (r: usize)
        ensures
            r == self@.blocks.len(),
    {
        proof {
            assert(self@.blocks.dom() =~= self.blocks@.dom());
        }
        self.blocks.len()
    }

    /// The block of a type, if the store holds one. It stands under its own
    /// type.
    pub fn block(&self, block_type: &str) -> (r: Option<&Block>)
        ensures
            (match r {
                Some(block) => {
                    &&& self@.blocks.contains_key(block_type@)
                    &&& block@ == self@.blocks[block_type@]
                    &&& block.block_type@ == block_type@
                },
                None => !self@.blocks.contains_key(block_type@),
            }),
    {
        proof {
            use_type_invariant(self);
        }
        self.blocks.get(block_type)
    }

    /// Looks up the block of a type and decodes its payload with `decode`.
    ///
    /// No block of that type is `Ok(None)`, and `decode` is not called. A
    /// payload that decodes is `Ok(Some(..))`. One that does not is an error
    /// that names the block type and the endpoint and holds what `decode`
    /// reported. The store is not changed either way.
    pub fn get_block<'s, T, E, F>(&'s self, block_type: &str, decode: F) -> (r: Result<
        Option<T>,
        BlockError<E>,
    >) where F: FnOnce(&'s Value) -> Result<T, E>
        requires
            can_ask(self@, block_type@, decode),
        ensures
            may_answer(self@, block_type@, decode, outcome_view(r)),
    {
        match self.block(block_type) {
            None => Ok(None),
            Some(block) => decode_result(decode(&block.data), block_type, self.url.as_str()),
        }
    }
}

/// Turns what a decoder made of a payload into the answer of the store: the
/// value as it is, a failure with the block type and the endpoint beside it.
pub fn decode_result<T, E>(decoded: Result<T, E>, block_type: &str, url: &str) -> (r: Result<
    Option<T>,
    BlockError<E>,
>)
    ensures
        outcome_view(r) == match decoded {
            Ok(value) => Ok::<Option<T>, BlockErrorView<E>>(Some(value)),
            Err(cause) => Err(BlockErrorView { block_type: block_type@, url: url@, cause }),
        },
{
    match decoded {
        Ok(value) => Ok(Some(value)),
        Err(cause) => Err(BlockError { block_type: block_type.to_owned(), url: url.to_owned(), cause }),
    }
}

/// A block type is in the index exactly if a block of the list has it.
pub proof fn lemma_index_keys(blocks: Seq<BlockView>, key: Seq<char>)
    ensures
        index_blocks(blocks).contains_key(key) <==> exists|i: int|
            0 <= i < blocks.len() && (#[trigger] blocks[i]).block_type == key,
    decreases blocks.len(),
{
    if blocks.len() > 0 {
        let front = blocks.drop_last();
        lemma_index_keys(front, key);
        if index_blocks(blocks).contains_key(key) {
            if blocks.last().block_type == key {
                assert(blocks[blocks.len() - 1].block_type == key);
            } else {
                let i = choose|i: int| 0 <= i < front.len() && (#[trigger] front[i]).block_type == key;
                assert(blocks[i].block_type == key);
            }
        }
        if exists|i: int| 0 <= i < blocks.len() && (#[trigger] blocks[i]).block_type == key {
            let i = choose|i: int| 0 <= i < blocks.len() && (#[trigger] blocks[i]).block_type == key;
            if i < front.len() {
                assert(front[i].block_type == key);
            }
        }
    }
}

/// Every block in the index stands under its own type.
pub proof fn lemma_index_keyed_by_type(blocks: Seq<BlockView>, key: Seq<char>)
    requires
        index_blocks(blocks).contains_key(key),
    ensures
        index_blocks(blocks)[key].block_type == key,
    decreases blocks.len(),
{
    if blocks.len() > 0 && blocks.last().block_type != key {
        lemma_index_keyed_by_type(blocks.drop_last(), key);
    }
}

/// Of the blocks of one type the index holds the last: a block that no later
/// block of the list shares its type with is the one found under that type.
pub proof fn lemma_index_last_wins(blocks: Seq<BlockView>, i: int)
    requires
        0 <= i < blocks.len(),
        forall|j: int| i < j < blocks.len() ==> (#[trigger] blocks[j]).block_type != blocks[i].block_type,
    ensures
        index_blocks(blocks).contains_key(blocks[i].block_type),
        index_blocks(blocks)[blocks[i].block_type] == blocks[i],
    decreases blocks.len(),
{
    if i < blocks.len() - 1 {
        let front = blocks.drop_last();
        assert(blocks[blocks.len() - 1].block_type != blocks[i].block_type);
        assert forall|j: int| i < j < front.len() implies (#[trigger] front[j]).block_type
            != front[i].block_type by {
            assert(blocks[j].block_type != blocks[i].block_type);
        }
        lemma_index_last_wins(front, i);
    }
}

/// The index is finite and holds no more entries than the list has blocks.
pub proof fn lemma_index_size(blocks: Seq<BlockView>)
    ensures
        index_blocks(blocks).dom().finite(),
        index_blocks(blocks).len() <= blocks.len(),
    decreases blocks.len(),
{
    if blocks.len() > 0 {
        lemma_index_size(blocks.drop_last());
    }
}

/// A block type that no block of a response has is answered with `Ok(None)`,
/// never with an error, whatever a decoder would make of anything.
pub proof fn lemma_absent_is_none<T, E>(
    url: Seq<char>,
    blocks: Seq<BlockView>,
    block_type: Seq<char>,
    decoded: Result<T, E>,
)
    requires
        forall|i: int| 0 <= i < blocks.len() ==> (#[trigger] blocks[i]).block_type != block_type,
    ensures
        block_outcome(store_of(url, blocks), block_type, decoded) == Ok::<
            Option<T>,
            BlockErrorView<E>,
        >(None),
{
    lemma_index_keys(blocks, block_type);
}

/// A block type that a block of a response has, asked for with a decoder
/// that makes a value of the payload, is answered with that value.
pub proof fn lemma_present_is_decoded<T, E>(
    url: Seq<char>,
    blocks: Seq<BlockView>,
    i: int,
    value: T,
)
    requires
        0 <= i < blocks.len(),
    ensures
        block_outcome::<T, E>(store_of(url, blocks), blocks[i].block_type, Ok(value)) == Ok::<
            Option<T>,
            BlockErrorView<E>,
        >(Some(value)),
{
    lemma_index_keys(blocks, blocks[i].block_type);
}

/// A block type that a block of a response has, asked for with a decoder
/// that fails on the payload, is answered with an error that holds the block
/// type asked for, the endpoint of the store and the decoder's own error.
pub proof fn lemma_failure_names_block<T, E>(
    url: Seq<char>,
    blocks: Seq<BlockView>,
    i: int,
    cause: E,
)
    requires
        0 <= i < blocks.len(),
    ensures
        block_outcome::<T, E>(store_of(url, blocks), blocks[i].block_type, Err(cause)) == Err::<
            Option<T>,
            BlockErrorView<E>,
        >(BlockErrorView { block_type: blocks[i].block_type, url, cause }),
{
    lemma_index_keys(blocks, blocks[i].block_type);
}

/// The text of a decode failure spells both the block type and the endpoint.
pub proof fn lemma_message_names_block(block_type: Seq<char>, url: Seq<char>)
    ensures
        occurs_in(block_type, failure_message(block_type, url)),
        occurs_in(url, failure_message(block_type, url)),
{
    let message = failure_message(block_type, url);
    let head = "Failed to deserialize "@;
    let link = " for "@;
    let at = head.len() as int;
    let then = at + block_type.len() + link.len();
    assert(message.subrange(at, at + block_type.len()) =~= block_type);
    assert(message.subrange(then, then + url.len()) =~= url);
}

/// Asking one store twice for one block type, with two decoders, gives each
/// time what that time's decoder made of the payload: a failure of the one
/// takes nothing from the success of the other, in either order.
pub proof fn lemma_decodes_are_independent<T1, E1, T2, E2>(
    store: SibResponseView,
    block_type: Seq<char>,
    failed: E1,
    decoded: T2,
)
    requires
        store.blocks.contains_key(block_type),
    ensures
        block_outcome::<T1, E1>(store, block_type, Err(failed)) is Err,
        block_outcome::<T2, E2>(store, block_type, Ok(decoded)) == Ok::<
            Option<T2>,
            BlockErrorView<E2>,
        >(Some(decoded)),
{
}

} // verus!
