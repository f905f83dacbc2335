//! Memory blocks held only to move the statistics under observation.

use vstd::prelude::*;

verus! {

/// What is known of one block: how many bytes were asked for and whether
/// they were written.
pub struct BlockModel {
    pub bytes: nat,
    pub filled: bool,
}

/// One block. A block that is not filled has its bytes reserved and none of
/// them written; a filled block has every byte written with zero.
pub struct StressBlock {
    bytes: usize,
    filled: bool,
    memory: Vec<u8>,
}

/// The blocks in the order they were pushed.
pub struct StressBuffers {
    blocks: Vec<StressBlock>,
}

impl StressBlock {
    /// The written part of the block is what the block says of itself.
    pub closed spec fn wf(&self) -> bool {
        if self.filled {
            &&& self.memory@.len() == self.bytes
            &&& forall|i: int| 0 <= i < self.memory@.len() ==> self.memory@[i] == 0u8
        } else {
            self.memory@.len() == 0
        }
    }

    pub closed spec fn model(&self) -> BlockModel {
        BlockModel { bytes: self.bytes as nat, filled: self.filled }
    }

    /// What the block holds written.
    pub closed spec fn written(&self) -> Seq<u8> {
        self.memory@
    }

    /// A filled block holds as many zero bytes as were asked for; a reserved
    /// block holds nothing written.
    pub proof fn lemma_written(&self)
        requires
            self.wf(),
        ensures
            self.model().filled ==> self.written() == Seq::new(self.model().bytes, |i: int| 0u8),
            !self.model().filled ==> self.written() == Seq::<u8>::empty(),
    {
        if self.filled {
            assert(self.memory@ =~= Seq::new(self.bytes as nat, |i: int| 0u8));
        } else {
            assert(self.memory@ =~= Seq::<u8>::empty());
        }
    }

    /// Takes a block of `bytes` bytes from the allocator, written with zero
    /// if `filled`, untouched otherwise.
    pub fn allocate(bytes: usize, filled: bool) -> (block: StressBlock)
        ensures
            block.wf(),
            block.model() == (BlockModel { bytes: bytes as nat, filled }),
    {
        let memory: Vec<u8> = if filled {
            vec![0u8; bytes]
        } else {
            Vec::with_capacity(bytes)
        };
        StressBlock { bytes, filled, memory }
    }

    /// The bytes that were asked for.
    pub fn bytes(&self) -> (bytes: usize)
        ensures
            bytes == self.model().bytes,
    {
        self.bytes
    }

    /// Whether the bytes were written.
    pub fn is_filled(&self) -> (filled: bool)
        ensures
            filled == self.model().filled,
    {
        self.filled
    }
}

impl View for StressBuffers {
    type V = Seq<BlockModel>;

    closed spec fn view(&self) -> Seq<BlockModel> {
        Seq::new(self.blocks@.len(), |i: int| self.blocks@[i].model())
    }
}

impl StressBuffers {
    /// Every block is well formed.
    pub closed spec fn wf(&self) -> bool {
        forall|i: int| 0 <= i < self.blocks@.len() ==> (#[trigger] self.blocks@[i]).wf()
    }

    /// The list after a push of a block of `bytes` bytes onto `list`.
    pub open spec fn pushed(list: Seq<BlockModel>, bytes: nat, filled: bool) -> Seq<BlockModel> {
        list.push(BlockModel { bytes, filled })
    }

    /// The list after a pop from `list`: without its youngest block, or
    /// `list` itself where it holds none.
    pub open spec fn popped(list: Seq<BlockModel>) -> Seq<BlockModel> {
        if list.len() == 0 {
            list
        } else {
            list.drop_last()
        }
    }

    /// Pushing a block and popping right after gives the list back, whatever
    /// it held before.
    pub proof fn lemma_push_then_pop(list: Seq<BlockModel>, bytes: nat, filled: bool)
        ensures
            Self::popped(Self::pushed(list, bytes, filled)) == list,
            Self::popped(Self::pushed(list, bytes, filled)).len() == list.len(),
    {
        assert(list.push(BlockModel { bytes, filled }).drop_last() =~= list);
    }

    /// Popping from a list without blocks leaves it without blocks.
    pub proof fn lemma_pop_of_empty()
        ensures
            Self::popped(Seq::<BlockModel>::empty()) == Seq::<BlockModel>::empty(),
    {
    }

    /// A list without blocks.
    pub fn new() -> (list: Self)
        ensures
            list.wf(),
            list@ == Seq::<BlockModel>::empty(),
    {
        let list = StressBuffers { blocks: Vec::new() };
        assert(list@ =~= Seq::<BlockModel>::empty());
        list
    }

    /// The number of blocks held.
    pub fn len(&self) -> (count: usize)
        ensures
            count == self@.len(),
    {
        self.blocks.len()
    }

    /// Takes a block of `bytes` bytes from the allocator and pushes it.
    pub fn push(&mut self, bytes: usize, filled: bool)
        requires
            old(self).wf(),
        ensures
            final(self).wf(),
            final(self)@ == Self::pushed(old(self)@, bytes as nat, filled),
    {
        let block = StressBlock::allocate(bytes, filled);
        self.blocks.push(block);
        assert(self@ =~= Self::pushed(old(self)@, bytes as nat, filled));
    }

    /// Gives the youngest block back to the allocator; does nothing where no
    /// block is held.
    pub fn pop(&mut self)
        requires
            old(self).wf(),
        ensures
            final(self).wf(),
            final(self)@ == Self::popped(old(self)@),
    {
        let _ = self.blocks.pop();
        assert(self@ =~= Self::popped(old(self)@));
    }

    /// What is known of the block at `index`, counted from the oldest.
    pub fn block(&self, index: usize) -> (block: &StressBlock)
        requires
            self.wf(),
            index < self@.len(),
        ensures
            block.wf(),
            block.model() == self@[index as int],
    {
        &self.blocks[index]
    }
}

} // verus!
