//! Assembly of captured samples into fixed-size recognition blocks.
use vstd::prelude::*;

verus! {

/// Collects captured samples and hands them out in blocks of exactly `block_size`.
pub struct AudioBlockAssembler<T> {
    block_size: usize,
    pending: Vec<T>,
}

/// Abstract state of an [`AudioBlockAssembler`]: the block size and the samples
/// that have not yet been handed out, oldest first.
pub struct AssemblerView<T> {
    pub block_size: nat,
    pub pending: Seq<T>,
}

impl<T> View for AudioBlockAssembler<T> {
    type V = AssemblerView<T>;

    closed spec fn view(&self) -> AssemblerView<T> {
        AssemblerView { block_size: self.block_size as nat, pending: self.pending@ }
    }
}

impl<T: Copy> AudioBlockAssembler<T> {
    /// Creates an empty assembler for blocks of `block_size` samples.
    pub fn new(block_size: usize) -> (r: AudioBlockAssembler<T>)
        requires
            block_size > 0,
        ensures
            r@.block_size == block_size,
            r@.pending == Seq::<T>::empty(),
    {
        AudioBlockAssembler { block_size, pending: Vec::new() }
    }

    /// How many more samples the next block still needs.
    pub fn remaining(&self) -> (r: usize)
        ensures
            r == if self@.pending.len() < self@.block_size {
                self@.block_size - self@.pending.len()
            } else {
                0
            },
    {
        self.block_size.saturating_sub(self.pending.len())
    }

    /// Number of samples waiting for the next block.
    pub fn pending_len(&self) -> (r: usize)
        ensures
            r == self@.pending.len(),
    {
        self.pending.len()
    }

    /// Appends `samples` after the pending samples.
    pub fn push(&mut self, samples: &[T])
        requires
            old(self)@.pending.len() + samples@.len() <= usize::MAX,
        ensures
            final(self)@.block_size == old(self)@.block_size,
            final(self)@.pending == old(self)@.pending + samples@,
    {
        let mut i: usize = 0;
        while i < samples.len()
            invariant
                i <= samples@.len(),
                self.block_size == old(self).block_size,
                self.pending@ == old(self).pending@ + samples@.subrange(0, i as int),
            decreases samples@.len() - i,
        {
            self.pending.push(samples[i]);
            proof {
                assert(samples@.subrange(0, i + 1) == samples@.subrange(0, i as int).push(samples@[i as int]));
            }
            i = i + 1;
        }
        proof {
            assert(samples@.subrange(0, samples@.len() as int) == samples@);
        }
    }

    /// Takes the oldest `block_size` pending samples as one block, or returns
    /// `None` (changing nothing) while fewer are pending.
    pub fn take_block(&mut self) -> (r: Option<Vec<T>>)
        ensures
            final(self)@.block_size == old(self)@.block_size,
            old(self)@.pending.len() < old(self)@.block_size ==> {
                &&& r.is_none()
                &&& final(self)@.pending == old(self)@.pending
            },
            old(self)@.pending.len() >= old(self)@.block_size ==> {
                &&& r.is_some()
                &&& r.unwrap()@ == old(self)@.pending.subrange(0, old(self)@.block_size as int)
                &&& final(self)@.pending == old(self)@.pending.subrange(
                    old(self)@.block_size as int,
                    old(self)@.pending.len() as int,
                )
            },
    {
        if self.pending.len() < self.block_size {
            return None;
        }
        let mut block = self.pending.split_off(self.block_size);
        std::mem::swap(&mut block, &mut self.pending);
        Some(block)
    }

    /// Discards the pending samples.
    pub fn clear(&mut self)
        ensures
            final(self)@.block_size == old(self)@.block_size,
            final(self)@.pending == Seq::<T>::empty(),
    {
        self.pending.clear();
    }
}

/// Handing out a block loses and reorders nothing: the block followed by what
/// stays pending is exactly what was pending before.
pub proof fn lemma_block_then_rest_is_pending<T>(pending: Seq<T>, block_size: nat)
    requires
        block_size <= pending.len(),
    ensures
        pending.subrange(0, block_size as int) + pending.subrange(block_size as int, pending.len() as int)
            == pending,
{
    assert(pending.subrange(0, block_size as int) + pending.subrange(block_size as int, pending.len() as int)
        =~= pending);
}

/// Taking blocks until fewer than `block_size` samples are pending: the blocks
/// handed out, oldest first, and the samples left pending.
pub open spec fn drain_blocks<T>(pending: Seq<T>, block_size: nat) -> (Seq<Seq<T>>, Seq<T>)
    decreases pending.len(),
{
    if block_size == 0 || pending.len() < block_size {
        (Seq::empty(), pending)
    } else {
        let (blocks, rest) = drain_blocks(pending.subrange(block_size as int, pending.len() as int), block_size);
        (seq![pending.subrange(0, block_size as int)] + blocks, rest)
    }
}

/// Draining an assembler (calling `take_block` until it returns `None`) hands
/// out only complete blocks of `block_size` samples and leaves fewer than
/// `block_size` pending; the blocks followed by what stays pending are exactly
/// the samples that were pending, in order.
pub proof fn lemma_drain_blocks<T>(pending: Seq<T>, block_size: nat)
    requires
        block_size > 0,
    ensures
        ({
            let (blocks, rest) = drain_blocks(pending, block_size);
            &&& forall|i: int| 0 <= i < blocks.len() ==> (#[trigger] blocks[i]).len() == block_size
            &&& rest.len() < block_size
            &&& blocks.flatten() + rest == pending
        }),
    decreases pending.len(),
{
    if pending.len() >= block_size {
        let head = pending.subrange(0, block_size as int);
        let tail = pending.subrange(block_size as int, pending.len() as int);
        lemma_drain_blocks(tail, block_size);
        let (blocks, rest) = drain_blocks(tail, block_size);
        let all = seq![head] + blocks;
        assert forall|i: int| 0 <= i < all.len() implies (#[trigger] all[i]).len() == block_size by {
            if i > 0 {
                assert(all[i] == blocks[i - 1]);
            }
        }
        lemma_flatten_cons(head, blocks);
        assert(head + tail =~= pending);
        assert(all.flatten() + rest =~= head + (blocks.flatten() + rest));
    } else {
        assert(Seq::<Seq<T>>::empty().flatten() =~= Seq::<T>::empty());
        assert(Seq::<T>::empty() + pending =~= pending);
    }
}

/// Flattening a sequence of blocks that starts with `head`.
proof fn lemma_flatten_cons<T>(head: Seq<T>, blocks: Seq<Seq<T>>)
    ensures
        (seq![head] + blocks).flatten() == head + blocks.flatten(),
{
    let all = seq![head] + blocks;
    assert(all.drop_first() =~= blocks);
    assert(all.first() == head);
}

} // verus!
