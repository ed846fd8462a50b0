//! The decisions of block synchronisation: when to sync, what to ask the
//! other nodes, and which blocks to import.

use crate::msg::block::{Block, BlockHash, BlockHeight};
use vstd::prelude::*;

verus! {

/// How many blocks one round of synchronisation asks for.
pub const BLOCK_COUNT: u64 = 10;

/// A request for the hashes of `count` blocks from `begin_height` on.
#[derive(Debug, Clone, Copy, PartialEq, Eq)]
pub struct ReqBlockHash {
    pub begin_height: BlockHeight,
    pub count: u64,
}

/// A request for `count` blocks from `begin_height` on.
#[derive(Debug, Clone, Copy, PartialEq, Eq)]
pub struct ReqBlock {
    pub begin_height: BlockHeight,
    pub count: u64,
}

/// The hashes of consecutive blocks.
#[derive(Debug, Clone, PartialEq, Eq)]
pub struct RspBlockHash {
    pub hash_list: Vec<BlockHash>,
}

/// Consecutive blocks.
#[derive(Debug, Clone, PartialEq, Eq)]
pub struct RspBlock {
    pub block_list: Vec<Block>,
}

/// Why a round of synchronisation failed.
#[derive(Debug, Clone, Copy, PartialEq, Eq)]
pub enum SyncError {
    /// Fewer or more blocks came than hashes.
    BlockCountMismatch,
}

/// A block to import, at its height, with the hash the network gave.
pub struct BlockImport {
    pub height: BlockHeight,
    pub block: Block,
    pub hash: BlockHash,
}

/// The outcome of a round: the blocks to import, whether the node has
/// caught up (fewer than `BLOCK_COUNT` blocks came), and the height it
/// reaches.
pub struct SyncRound {
    pub imports: Vec<BlockImport>,
    pub finished: bool,
    pub new_height: BlockHeight,
}

/// The waiting time between checks: ten block intervals.
pub fn sync_interval(block_interval: u64) -> (i: u64)
    requires
        block_interval * 10 <= u64::MAX,
    ensures
        i == block_interval * 10,
{
    block_interval * 10
}

/// Whether to sync: not while a block was committed within the interval.
pub fn should_sync(last_commited_time: u64, interval: u64, now: u64) -> (r: bool)
    requires
        last_commited_time + interval <= u64::MAX,
    ensures
        r == (last_commited_time + interval <= now),
{
    !(last_commited_time + interval > now)
}

/// The request for the hashes of the blocks after `block_height`.
pub fn block_hash_request(block_height: BlockHeight) -> (r: ReqBlockHash)
    requires
        block_height < u64::MAX,
    ensures
        r.begin_height == block_height + 1,
        r.count == BLOCK_COUNT,
{
    ReqBlockHash { begin_height: block_height + 1, count: BLOCK_COUNT }
}

/// The request for the blocks whose hashes came.
pub fn block_request(block_height: BlockHeight, rsp: &RspBlockHash) -> (r: ReqBlock)
    requires
        block_height < u64::MAX,
    ensures
        r.begin_height == block_height + 1,
        r.count == rsp.hash_list@.len(),
{
    ReqBlock { begin_height: block_height + 1, count: rsp.hash_list.len() as u64 }
}

/// Pairs the blocks that came with their hashes, at the heights after
/// `block_height`; refuses the round where the counts differ.
pub fn sync_round(block_height: BlockHeight, rsp_hash: RspBlockHash, rsp_block: RspBlock) -> (r:
    Result<SyncRound, SyncError>)
    requires
        rsp_block.block_list@.len() == rsp_hash.hash_list@.len() ==> block_height
            + rsp_hash.hash_list@.len() <= u64::MAX,
    ensures
        rsp_block.block_list@.len() != rsp_hash.hash_list@.len() ==> r == Err::<
            SyncRound,
            SyncError,
        >(SyncError::BlockCountMismatch),
        rsp_block.block_list@.len() == rsp_hash.hash_list@.len() ==> (r matches Ok(round) && {
            let n = rsp_hash.hash_list@.len();
            &&& round.imports@.len() == n
            &&& round.finished == (n < BLOCK_COUNT)
            &&& round.new_height == block_height + n
            &&& forall|i: int|
                0 <= i < n ==> (#[trigger] round.imports@[i]).height == block_height + i + 1
                    && round.imports@[i].block == rsp_block.block_list@[i]
                    && round.imports@[i].hash == rsp_hash.hash_list@[i]
        }),
{
    let count = rsp_hash.hash_list.len();
    if rsp_block.block_list.len() != count {
        return Err(SyncError::BlockCountMismatch);
    }
    let ghost hashes = rsp_hash.hash_list@;
    let ghost blocks = rsp_block.block_list@;
    let mut imports: Vec<BlockImport> = Vec::new();
    let mut index: usize = 0;
    for block in it: rsp_block.block_list
        invariant
            it.seq() == blocks,
            index == it.index(),
            blocks.len() == count,
            hashes.len() == count,
            block_height + count <= u64::MAX,
            hashes == rsp_hash.hash_list@,
            imports@.len() == index,
            forall|i: int|
                0 <= i < index ==> (#[trigger] imports@[i]).height == block_height + i + 1
                    && imports@[i].block == blocks[i] && imports@[i].hash == hashes[i],
    {
        let hash = rsp_hash.hash_list[index];
        imports.push(BlockImport { height: block_height + index as u64 + 1, block, hash });
        index = index + 1;
    }
    let n = count as u64;
    Ok(SyncRound { imports, finished: n < BLOCK_COUNT, new_height: block_height + n })
}

/// What the synchronisation loop does after a round: another round while
/// the node has not caught up, a notice of the height it reached once it
/// has, and a stop (until the next check) when the round failed.
#[derive(Debug, Clone, Copy, PartialEq, Eq, Structural)]
pub enum SyncLoopStep {
    NextRound,
    Notify(BlockHeight),
    Stop,
}

/// The step after a round whose outcome is `None` (it failed) or whether
/// it finished and the height it reached.
pub fn after_sync_round(outcome: Option<(bool, BlockHeight)>) -> (s: SyncLoopStep)
    ensures
        match outcome {
            None => s == SyncLoopStep::Stop,
            Some((finished, height)) => if finished {
                s == SyncLoopStep::Notify(height)
            } else {
                s == SyncLoopStep::NextRound
            },
        },
{
    match outcome {
        None => SyncLoopStep::Stop,
        Some((finished, height)) => if finished {
            SyncLoopStep::Notify(height)
        } else {
            SyncLoopStep::NextRound
        },
    }
}

/// The answer to a request for block hashes, built block after block: the
/// hashes of the heights from `begin_height` on, until a block is missing
/// or `count` hashes are there.
pub struct HashListReply {
    begin_height: BlockHeight,
    count: u64,
    done: bool,
    hashes: Vec<BlockHash>,
}

impl HashListReply {
    pub closed spec fn begin_height(&self) -> BlockHeight {
        self.begin_height
    }

    pub closed spec fn count(&self) -> u64 {
        self.count
    }

    /// Whether a block was found missing.
    pub closed spec fn done(&self) -> bool {
        self.done
    }

    /// The hashes collected so far.
    pub closed spec fn hashes(&self) -> Seq<BlockHash> {
        self.hashes@
    }

    pub open spec fn wf(&self) -> bool {
        &&& self.hashes().len() <= self.count()
        &&& self.count() == 0 || self.begin_height() + self.count() - 1 <= u64::MAX
    }

    /// The empty answer to `req`.
    pub fn new(req: ReqBlockHash) -> (r: Self)
        requires
            req.count == 0 || req.begin_height + req.count - 1 <= u64::MAX,
        ensures
            r.wf(),
            r.begin_height() == req.begin_height,
            r.count() == req.count,
            !r.done(),
            r.hashes() == Seq::<BlockHash>::empty(),
    {
        HashListReply { begin_height: req.begin_height, count: req.count, done: false, hashes: Vec::new() }
    }

    /// The height whose hash to read next: `None` once a block was missing
    /// or all `count` hashes are there.
    pub fn next_height(&self) -> (h: Option<BlockHeight>)
        requires
            self.wf(),
        ensures
            h == if self.done() || self.hashes().len() == self.count() {
                None
            } else {
                Some((self.begin_height() + self.hashes().len()) as BlockHeight)
            },
    {
        if self.done || self.hashes.len() as u64 == self.count {
            None
        } else {
            Some(self.begin_height + self.hashes.len() as u64)
        }
    }

    /// Records what was read at the next height: its hash, or `None` where
    /// the block is missing, which ends the answer.
    pub fn record(&mut self, read: Option<BlockHash>)
        requires
            old(self).wf(),
            !old(self).done(),
            old(self).hashes().len() < old(self).count(),
        ensures
            final(self).wf(),
            final(self).begin_height() == old(self).begin_height(),
            final(self).count() == old(self).count(),
            match read {
                Some(h) => !final(self).done() && final(self).hashes() == old(self).hashes().push(h),
                None => final(self).done() && final(self).hashes() == old(self).hashes(),
            },
    {
        match read {
            Some(h) => self.hashes.push(h),
            None => self.done = true,
        }
    }

    /// The hashes of the answer.
    pub fn into_hashes(self) -> (v: Vec<BlockHash>)
        ensures
            v@ == self.hashes(),
    {
        self.hashes
    }
}

} // verus!
