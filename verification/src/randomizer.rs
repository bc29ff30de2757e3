//! The randomizer that decides which block falls next.
//!
//! Blocks are dealt from a pool. The pool is filled with whole sets, each
//! holding one block of every kind, and a block that is dealt leaves the
//! pool. So no kind can stay away for long, and none comes much more often
//! than the others.

use rand::Rng;
use vstd::prelude::*;

verus! {

/// The number of kinds of block. The kinds are numbered from 0.
pub const BLOCK_KINDS: i32 = 7;

/// The number of sets that go into the pool when it has run empty.
pub const REFILL_SETS: usize = 2;

/// One block of every kind, in the order of their numbers.
pub open spec fn one_set() -> Seq<i32> {
    Seq::new(BLOCK_KINDS as nat, |kind: int| kind as i32)
}

/// `sets` sets of blocks, one after the other.
pub open spec fn block_sets(sets: nat) -> Seq<i32>
    decreases sets,
{
    if sets == 0 {
        Seq::empty()
    } else {
        block_sets((sets - 1) as nat) + one_set()
    }
}

/// Whether every number in `pool` is the number of a kind of block.
pub open spec fn holds_blocks(pool: Seq<i32>) -> bool {
    forall|i: int| 0 <= i < pool.len() ==> 0 <= #[trigger] pool[i] < BLOCK_KINDS
}

/// What a randomizer holds: the blocks in its pool, and how many blocks it
/// has dealt (counted modulo 2^32, starting from the number it was made
/// with).
pub struct Pool {
    pub blocks: Seq<i32>,
    pub block_id: u32,
}

impl Pool {
    /// The pool as it is when a block is dealt: refilled if it was empty.
    pub open spec fn stocked(self) -> Seq<i32> {
        if self.blocks.len() == 0 {
            block_sets(REFILL_SETS as nat)
        } else {
            self.blocks
        }
    }

    /// The state after the block at `index` of `blocks` was dealt from them.
    pub open spec fn dealt(self, blocks: Seq<i32>, index: int) -> Pool {
        Pool {
            blocks: blocks.remove(index),
            block_id: if self.block_id == u32::MAX {
                0
            } else {
                (self.block_id + 1) as u32
            },
        }
    }
}

/// Deals blocks from a pool that it refills with whole sets.
pub struct OpionatedRandomizer {
    block_pool: Vec<i32>,
    block_id: u32,
}

impl View for OpionatedRandomizer {
    type V = Pool;

    closed spec fn view(&self) -> Pool {
        Pool { blocks: self.block_pool@, block_id: self.block_id }
    }
}

/// `rand::Rng::gen_range` on the generator that `rand::thread_rng` returns:
/// some number that is at least `low` and less than `high`. Which one is
/// left open. The call panics unless `low < high`.
#[verifier::external_body]
fn gen_range(low: i32, high: i32) -> (number: i32)
    requires
        low < high,
    ensures
        low <= number < high,
{
    rand::thread_rng().gen_range(low, high)
}

impl OpionatedRandomizer {
    /// Whether the pool holds nothing but blocks, and no more of them than
    /// can be counted.
    pub closed spec fn wf(&self) -> bool {
        &&& self.block_pool.len() <= i32::MAX
        &&& holds_blocks(self.block_pool@)
    }

    /// A randomizer with an empty pool that has dealt `block_id` blocks.
    pub fn new(block_id: u32) -> (randomizer: Self)
        ensures
            randomizer.wf(),
            randomizer@.blocks.len() == 0,
            randomizer@.block_id == block_id,
    {
        Self { block_pool: Vec::new(), block_id }
    }

    /// The number of blocks dealt so far.
    pub fn block_id(&self) -> (block_id: u32)
        ensures
            block_id == self@.block_id,
    {
        self.block_id
    }

    /// The blocks in the pool, in the order in which they lie there.
    pub fn pool(&self) -> (pool: Vec<i32>)
        ensures
            pool@ == self@.blocks,
    {
        self.block_pool.clone()
    }

    /// Some number from `first` to `last`, both included.
    pub fn actual_random_between(first: i32, last: i32) -> (number: i32)
        requires
            first <= last < i32::MAX,
        ensures
            first <= number <= last,
    {
        gen_range(first, last + 1)
    }

    /// Adds `sets` sets of blocks to the pool.
    pub fn fillup(&mut self, sets: usize)
        requires
            old(self).wf(),
            old(self)@.blocks.len() + BLOCK_KINDS * sets <= i32::MAX,
        ensures
            final(self).wf(),
            final(self)@.blocks == old(self)@.blocks + block_sets(sets as nat),
            final(self)@.block_id == old(self)@.block_id,
    {
        let mut set: usize = 0;
        while set < sets
            invariant
                set <= sets,
                self.wf(),
                old(self)@.blocks.len() + BLOCK_KINDS * sets <= i32::MAX,
                self.block_pool@ == old(self).block_pool@ + block_sets(set as nat),
                self.block_id == old(self).block_id,
            decreases sets - set,
        {
            let ghost before = self.block_pool@;
            proof {
                lemma_block_sets_len(set as nat);
            }
            let mut random_number: i32 = 0;
            while random_number < BLOCK_KINDS
                invariant
                    0 <= random_number <= BLOCK_KINDS,
                    holds_blocks(self.block_pool@),
                    before.len() + BLOCK_KINDS <= i32::MAX,
                    self.block_pool@ == before + one_set().take(random_number as int),
                    self.block_id == old(self).block_id,
                decreases BLOCK_KINDS - random_number,
            {
                self.block_pool.push(random_number);
                random_number = random_number + 1;
            }
            assert(one_set().take(BLOCK_KINDS as int) == one_set());
            assert(self.block_pool@ == old(self).block_pool@ + block_sets((set + 1) as nat));
            set = set + 1;
        }
    }

    /// Deals the block at `index` of the pool: the block leaves the pool and
    /// is counted.
    pub fn take(&mut self, index: usize) -> (block: i32)
        requires
            old(self).wf(),
            index < old(self)@.blocks.len(),
        ensures
            final(self).wf(),
            block == old(self)@.blocks[index as int],
            0 <= block < BLOCK_KINDS,
            final(self)@ == old(self)@.dealt(old(self)@.blocks, index as int),
    {
        self.block_id = self.block_id.wrapping_add(1);
        self.block_pool.remove(index)
    }

    /// A number from `first` to `last`, both included. Asked for a number
    /// from 0 to 6, the randomizer deals a block from the pool, which it
    /// first refills if it is empty: the number is that of the block's kind.
    /// Any other number is drawn without a look at the pool.
    pub fn random_between(&mut self, first: i32, last: i32) -> (number: i32)
        requires
            old(self).wf(),
            (first == 0 && last == BLOCK_KINDS - 1) || first <= last < i32::MAX,
        ensures
            final(self).wf(),
            first <= number <= last,
            first == 0 && last == BLOCK_KINDS - 1 ==> exists|index: int|
                {
                    &&& 0 <= index < old(self)@.stocked().len()
                    &&& number == #[trigger] old(self)@.stocked()[index]
                    &&& final(self)@ == old(self)@.dealt(old(self)@.stocked(), index)
                },
            !(first == 0 && last == BLOCK_KINDS - 1) ==> final(self)@ == old(self)@,
    {
        if first == 0 && last == BLOCK_KINDS - 1 {
            if self.block_pool.len() == 0 {
                proof {
                    lemma_block_sets_len(REFILL_SETS as nat);
                }
                self.fillup(REFILL_SETS);
                assert(self.block_pool@ == old(self)@.stocked());
            }
            let len = self.block_pool.len();
            let index = Self::actual_random_between(0, len as i32 - 1) as usize;
            assert(self@.blocks == old(self)@.stocked());
            assert(self@.block_id == old(self)@.block_id);
            let block = self.take(index);
            assert(block == old(self)@.stocked()[index as int]);
            assert(self@ == old(self)@.dealt(old(self)@.stocked(), index as int));
            block
        } else {
            Self::actual_random_between(first, last)
        }
    }
}

/// In `sets` sets the kinds repeat in the order of their numbers: the block
/// at index `i` is of the kind `i % 7`. So every kind is there `sets` times.
pub proof fn lemma_block_sets_index(sets: nat, i: int)
    requires
        0 <= i < BLOCK_KINDS * sets,
    ensures
        block_sets(sets).len() == BLOCK_KINDS * sets,
        block_sets(sets)[i] == i % (BLOCK_KINDS as int),
    decreases sets,
{
    lemma_block_sets_len(sets);
    lemma_block_sets_len((sets - 1) as nat);
    if i < BLOCK_KINDS * (sets - 1) {
        lemma_block_sets_index((sets - 1) as nat, i);
    } else {
        assert(block_sets(sets)[i] == one_set()[i - BLOCK_KINDS * (sets - 1)]);
    }
}

/// Sets of blocks hold nothing but blocks.
pub proof fn lemma_block_sets_hold_blocks(sets: nat)
    ensures
        holds_blocks(block_sets(sets)),
{
    lemma_block_sets_len(sets);
    assert forall|i: int| 0 <= i < block_sets(sets).len() implies 0 <= #[trigger] block_sets(
        sets,
    )[i] < BLOCK_KINDS by {
        lemma_block_sets_index(sets, i);
    }
}

/// A block that is dealt is one of the blocks that were in the pool, and the
/// other blocks stay in the pool in their order.
pub proof fn lemma_dealing_keeps_the_rest(pool: Pool, blocks: Seq<i32>, index: int, i: int)
    requires
        0 <= index < blocks.len(),
        0 <= i < blocks.len() - 1,
    ensures
        pool.dealt(blocks, index).blocks.len() == blocks.len() - 1,
        pool.dealt(blocks, index).blocks[i] == if i < index {
            blocks[i]
        } else {
            blocks[i + 1]
        },
{
}

/// `sets` sets hold seven blocks each.
pub proof fn lemma_block_sets_len(sets: nat)
    ensures
        block_sets(sets).len() == BLOCK_KINDS * sets,
    decreases sets,
{
    if sets > 0 {
        lemma_block_sets_len((sets - 1) as nat);
    }
}

} // verus!
