use std::collections::VecDeque;
use vstd::prelude::*;

verus! {

/// Number of recent block hashes a window keeps.
pub const WINDOW_CAPACITY: usize = 64;

/// Distance from head, in blocks, of the safe block once enough blocks exist.
pub const SAFE_DISTANCE: usize = 32;

/// Distance from head, in blocks, of the finalized block once enough blocks exist.
pub const FINALIZED_DISTANCE: usize = 64;

/// A 32-byte block hash.
#[derive(Clone, Copy, Debug, PartialEq, Eq)]
pub struct BlockHash {
    pub bytes: [u8; 32],
}

/// The (head, safe, finalized) triple announced to the consensus engine.
#[derive(Clone, Copy, Debug, PartialEq, Eq)]
pub struct ForkchoiceState {
    pub head_block_hash: BlockHash,
    pub safe_block_hash: BlockHash,
    pub finalized_block_hash: BlockHash,
}

/// Index of the entry `distance` blocks behind the newest, clamped to the oldest.
pub open spec fn behind(len: int, distance: int) -> int {
    if len >= distance {
        len - distance
    } else {
        0
    }
}

/// Forkchoice state derived from a non-empty oldest-first hash sequence.
pub open spec fn state_of(s: Seq<BlockHash>) -> ForkchoiceState {
    ForkchoiceState {
        head_block_hash: s.last(),
        safe_block_hash: s[behind(s.len() as int, SAFE_DISTANCE as int)],
        finalized_block_hash: s[behind(s.len() as int, FINALIZED_DISTANCE as int)],
    }
}

/// The hash sequence after appending `h`, the oldest entry dropped once the
/// capacity is passed.
pub open spec fn appended(s: Seq<BlockHash>, h: BlockHash) -> Seq<BlockHash> {
    if s.len() < WINDOW_CAPACITY {
        s.push(h)
    } else {
        s.push(h).drop_first()
    }
}

/// The forkchoice state where one block is head, safe and finalized at once.
pub open spec fn single_block_state(h: BlockHash) -> ForkchoiceState {
    ForkchoiceState { head_block_hash: h, safe_block_hash: h, finalized_block_hash: h }
}

/// Bounded, oldest-first sequence of the most recent block hashes.
pub struct ForkchoiceWindow {
    recent_hashes: VecDeque<BlockHash>,
}

impl View for ForkchoiceWindow {
    type V = Seq<BlockHash>;

    closed spec fn view(&self) -> Seq<BlockHash> {
        self.recent_hashes@
    }
}

impl ForkchoiceWindow {
    /// Holds between one and `WINDOW_CAPACITY` hashes.
    pub open spec fn wf(&self) -> bool {
        1 <= self@.len() <= WINDOW_CAPACITY
    }

    /// A window that knows one block.
    pub fn new(hash: BlockHash) -> (r: ForkchoiceWindow)
        ensures
            r.wf(),
            r@ == seq![hash],
    {
        let mut recent_hashes: VecDeque<BlockHash> = VecDeque::new();
        recent_hashes.push_back(hash);
        proof {
            assert(recent_hashes@ =~= seq![hash]);
        }
        ForkchoiceWindow { recent_hashes }
    }

    pub fn len(&self) -> (r: usize)
        ensures
            r == self@.len(),
    {
        self.recent_hashes.len()
    }

    /// The hash at position `i`, oldest first.
    pub fn get(&self, i: usize) -> (r: Option<BlockHash>)
        ensures
            r == (if i < self@.len() {
                Some(self@[i as int])
            } else {
                None
            }),
    {
        if i < self.recent_hashes.len() {
            Some(self.recent_hashes[i])
        } else {
            None
        }
    }

    /// The newest hash.
    pub fn head(&self) -> (r: BlockHash)
        requires
            self.wf(),
        ensures
            r == self@.last(),
    {
        self.recent_hashes[self.recent_hashes.len() - 1]
    }

    /// Appends the hash of a new block, dropping the oldest past the capacity.
    pub fn push(&mut self, hash: BlockHash)
        requires
            old(self).wf(),
        ensures
            final(self).wf(),
            final(self)@ == appended(old(self)@, hash),
    {
        self.recent_hashes.push_back(hash);
        if self.recent_hashes.len() > WINDOW_CAPACITY {
            let _ = self.recent_hashes.pop_front();
            proof {
                assert(self.recent_hashes@ =~= appended(old(self)@, hash));
            }
        }
    }

    /// The current head, safe and finalized hashes.
    pub fn forkchoice_state(&self) -> (r: ForkchoiceState)
        requires
            self.wf(),
        ensures
            r == state_of(self@),
    {
        let len = self.recent_hashes.len();
        let head = self.recent_hashes[len - 1];
        let safe = self.recent_hashes[len.saturating_sub(SAFE_DISTANCE)];
        let finalized = self.recent_hashes[len.saturating_sub(FINALIZED_DISTANCE)];
        ForkchoiceState { head_block_hash: head, safe_block_hash: safe, finalized_block_hash: finalized }
    }
}

/// The window never holds more than `WINDOW_CAPACITY` hashes, and the oldest
/// one is dropped exactly when a hash would be the one past the capacity.
pub proof fn lemma_window_bound(s: Seq<BlockHash>, h: BlockHash)
    requires
        1 <= s.len() <= WINDOW_CAPACITY,
    ensures
        1 <= appended(s, h).len() <= WINDOW_CAPACITY,
        appended(s, h).last() == h,
        s.len() < WINDOW_CAPACITY ==> appended(s, h) == s.push(h),
        s.len() == WINDOW_CAPACITY ==> appended(s, h) == s.subrange(1, s.len() as int).push(h),
{
    if s.len() == WINDOW_CAPACITY {
        assert(s.push(h).drop_first() =~= s.subrange(1, s.len() as int).push(h));
    }
}

/// The hash sequence after appending each of `hs` in turn.
pub open spec fn appended_all(s: Seq<BlockHash>, hs: Seq<BlockHash>) -> Seq<BlockHash>
    decreases hs.len(),
{
    if hs.len() == 0 {
        s
    } else {
        appended(appended_all(s, hs.drop_last()), hs.last())
    }
}

/// After any number of appends the window holds between one and
/// `WINDOW_CAPACITY` hashes, and exactly the newest ones, oldest first.
pub proof fn lemma_window_fifo(s: Seq<BlockHash>, hs: Seq<BlockHash>)
    requires
        1 <= s.len() <= WINDOW_CAPACITY,
    ensures
        1 <= appended_all(s, hs).len() <= WINDOW_CAPACITY,
        appended_all(s, hs) == (s + hs).subrange(
            behind((s + hs).len() as int, WINDOW_CAPACITY as int),
            (s + hs).len() as int,
        ),
    decreases hs.len(),
{
    if hs.len() == 0 {
        assert((s + hs).subrange(0, (s + hs).len() as int) =~= s);
    } else {
        let dl = hs.drop_last();
        lemma_window_fifo(s, dl);
        let prev = appended_all(s, dl);
        lemma_window_bound(prev, hs.last());
        let all = s + hs;
        assert((s + dl) =~= all.drop_last());
        assert(all.last() == hs.last());
        assert(appended_all(s, hs) =~= all.subrange(
            behind(all.len() as int, WINDOW_CAPACITY as int),
            all.len() as int,
        ));
    }
}

/// Below `SAFE_DISTANCE` hashes the safe hash is the oldest one held, and
/// below `FINALIZED_DISTANCE` so is the finalized hash; with one hash held,
/// head, safe and finalized are that hash. From each distance on, the hash is
/// the one at `len - distance`.
pub proof fn lemma_state_distances(s: Seq<BlockHash>)
    requires
        1 <= s.len(),
    ensures
        s.len() < SAFE_DISTANCE ==> state_of(s).safe_block_hash == s[0],
        s.len() < FINALIZED_DISTANCE ==> state_of(s).finalized_block_hash == s[0],
        s.len() == 1 ==> state_of(s) == single_block_state(s[0]),
        s.len() >= SAFE_DISTANCE ==> state_of(s).safe_block_hash == s[s.len() - SAFE_DISTANCE],
        s.len() >= FINALIZED_DISTANCE ==> state_of(s).finalized_block_hash == s[s.len()
            - FINALIZED_DISTANCE],
{
}

} // verus!
