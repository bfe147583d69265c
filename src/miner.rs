use crate::window::{appended, state_of, BlockHash, ForkchoiceState, ForkchoiceWindow};
use vstd::prelude::*;

verus! {

/// An 8-byte identifier the engine hands out for a payload being built.
#[derive(Clone, Copy, Debug, PartialEq, Eq)]
pub struct PayloadId {
    pub bytes: [u8; 8],
}

/// Why a block-production or announcement tick was abandoned.
#[derive(Clone, Copy, Debug, PartialEq, Eq)]
pub enum MinerError {
    /// The last timestamp is the largest one representable.
    ClockExhausted,
    /// The engine did not accept the forkchoice update.
    InvalidForkchoice,
    /// The engine accepted the forkchoice update but started no payload.
    MissingPayloadId,
    /// The payload builder resolved no payload.
    NoPayload,
    /// The engine did not accept the built payload.
    InvalidPayload,
    /// An engine response arrived that the tick was not waiting for.
    UnexpectedEvent,
}

/// What a block-production tick waits for.
#[derive(Clone, Copy, Debug, PartialEq, Eq)]
pub enum AdvanceStage {
    /// The response to the forkchoice update that carries payload attributes.
    AwaitForkchoice,
    /// The payload builder's answer for the given identifier.
    AwaitPayload,
    /// The response to `new_payload` for the built block with this hash.
    AwaitNewPayload { block_hash: BlockHash },
    /// Nothing: the tick is over.
    Finished,
}

/// One block-production tick in progress.
#[derive(Clone, Copy, Debug, PartialEq, Eq)]
pub struct AdvanceTick {
    /// Timestamp of the block this tick builds.
    pub timestamp: u64,
    pub stage: AdvanceStage,
}

/// An answer from the engine or the payload builder during a tick.
#[derive(Clone, Copy, Debug, PartialEq, Eq)]
pub enum AdvanceEvent {
    ForkchoiceUpdated { valid: bool, payload_id: Option<PayloadId> },
    /// The hash of the resolved block, or `None` where no payload resolved.
    PayloadResolved { block_hash: Option<BlockHash> },
    NewPayload { valid: bool },
}

/// What the caller does next for a tick.
#[derive(Clone, Copy, Debug, PartialEq, Eq)]
pub enum AdvanceAction {
    /// Ask the payload builder for the payload with this identifier, waiting
    /// for a pending one.
    ResolvePayload { payload_id: PayloadId },
    /// Hand the resolved block to the engine through `new_payload`.
    SubmitPayload,
    /// The block is committed: window and clock moved on.
    Committed,
    /// The tick is abandoned; window and clock are as before.
    Failed { error: MinerError },
}

/// The timestamp of the next block: one second after the last, or the wall
/// clock where that is later.
pub open spec fn next_timestamp(last: u64, now: u64) -> int {
    if now > last + 1 {
        now as int
    } else {
        last + 1
    }
}

/// A new block's timestamp is later than the last one, even where the wall
/// clock stands still or runs behind, and is never earlier than the wall clock.
pub proof fn lemma_timestamp_increases(last: u64, now: u64)
    ensures
        next_timestamp(last, now) > last,
        next_timestamp(last, now) >= now,
        now <= last ==> next_timestamp(last, now) == last + 1,
{
}

/// The action that answers `event` in a tick at stage `stage`.
pub open spec fn advance_action(stage: AdvanceStage, event: AdvanceEvent) -> AdvanceAction {
    match (stage, event) {
        (AdvanceStage::AwaitForkchoice, AdvanceEvent::ForkchoiceUpdated { valid, payload_id }) => {
            if !valid {
                AdvanceAction::Failed { error: MinerError::InvalidForkchoice }
            } else {
                match payload_id {
                    Some(id) => AdvanceAction::ResolvePayload { payload_id: id },
                    None => AdvanceAction::Failed { error: MinerError::MissingPayloadId },
                }
            }
        },
        (AdvanceStage::AwaitPayload, AdvanceEvent::PayloadResolved { block_hash }) => {
            match block_hash {
                Some(_) => AdvanceAction::SubmitPayload,
                None => AdvanceAction::Failed { error: MinerError::NoPayload },
            }
        },
        (AdvanceStage::AwaitNewPayload { .. }, AdvanceEvent::NewPayload { valid }) => {
            if valid {
                AdvanceAction::Committed
            } else {
                AdvanceAction::Failed { error: MinerError::InvalidPayload }
            }
        },
        _ => AdvanceAction::Failed { error: MinerError::UnexpectedEvent },
    }
}

/// The stage a tick moves to when `event` answers it at stage `stage`.
pub open spec fn advance_stage(stage: AdvanceStage, event: AdvanceEvent) -> AdvanceStage {
    match advance_action(stage, event) {
        AdvanceAction::ResolvePayload { .. } => AdvanceStage::AwaitPayload,
        AdvanceAction::SubmitPayload => match event {
            AdvanceEvent::PayloadResolved { block_hash: Some(h) } => AdvanceStage::AwaitNewPayload {
                block_hash: h,
            },
            _ => AdvanceStage::Finished,
        },
        _ => AdvanceStage::Finished,
    }
}

/// Block producer of a single-authority chain: a window of recent block
/// hashes and the timestamp of the last block produced.
pub struct PoaMiner {
    window: ForkchoiceWindow,
    last_timestamp: u64,
    interval: u64,
}

impl PoaMiner {
    pub closed spec fn hashes(&self) -> Seq<BlockHash> {
        self.window@
    }

    pub closed spec fn last_timestamp_spec(&self) -> u64 {
        self.last_timestamp
    }

    pub closed spec fn interval_spec(&self) -> u64 {
        self.interval
    }

    pub closed spec fn wf(&self) -> bool {
        self.window.wf()
    }

    /// A producer that starts from the chain's best block, with the clock at
    /// the current wall-clock time and one block every `interval` seconds.
    pub fn new(best_block_hash: BlockHash, now: u64, interval: u64) -> (r: PoaMiner)
        ensures
            r.wf(),
            r.hashes() == seq![best_block_hash],
            r.last_timestamp_spec() == now,
            r.interval_spec() == interval,
    {
        PoaMiner { window: ForkchoiceWindow::new(best_block_hash), last_timestamp: now, interval }
    }

    /// Seconds between two block-production ticks.
    pub fn interval(&self) -> (r: u64)
        ensures
            r == self.interval_spec(),
    {
        self.interval
    }

    /// Timestamp of the last block produced.
    pub fn last_timestamp(&self) -> (r: u64)
        ensures
            r == self.last_timestamp_spec(),
    {
        self.last_timestamp
    }

    /// The recent block hashes, oldest first.
    pub fn recent_hashes(&self) -> (r: Vec<BlockHash>)
        requires
            self.wf(),
        ensures
            r@ == self.hashes(),
    {
        let mut r: Vec<BlockHash> = Vec::new();
        let mut i: usize = 0;
        while i < self.window.len()
            invariant
                i <= self.window@.len(),
                r@ == self.window@.subrange(0, i as int),
            decreases self.window@.len() - i,
        {
            let h = self.window.get(i);
            r.push(h.unwrap());
            proof {
                assert(r@ =~= self.window@.subrange(0, i + 1));
            }
            i = i + 1;
        }
        proof {
            assert(r@ =~= self.window@);
        }
        r
    }

    /// The forkchoice state derived from the committed window.
    pub fn forkchoice_state(&self) -> (r: ForkchoiceState)
        requires
            self.wf(),
        ensures
            r == state_of(self.hashes()),
    {
        self.window.forkchoice_state()
    }

    /// Starts a block-production tick at wall-clock time `now`.
    pub fn start_advance(&self, now: u64) -> (r: Result<AdvanceTick, MinerError>)
        ensures
            self.last_timestamp_spec() < u64::MAX ==> r == Ok::<AdvanceTick, MinerError>(
                AdvanceTick {
                    timestamp: next_timestamp(self.last_timestamp_spec(), now) as u64,
                    stage: AdvanceStage::AwaitForkchoice,
                },
            ),
            self.last_timestamp_spec() == u64::MAX ==> r == Err::<AdvanceTick, MinerError>(
                MinerError::ClockExhausted,
            ),
    {
        if self.last_timestamp == u64::MAX {
            return Err(MinerError::ClockExhausted);
        }
        let next = self.last_timestamp + 1;
        let timestamp = if now > next {
            now
        } else {
            next
        };
        Ok(AdvanceTick { timestamp, stage: AdvanceStage::AwaitForkchoice })
    }

    /// Handles an answer during a tick. Window and clock change only when the
    /// engine accepts the built block: the block's hash is appended and its
    /// timestamp becomes the last one.
    pub fn on_advance_event(&mut self, tick: &mut AdvanceTick, event: AdvanceEvent) -> (r:
        AdvanceAction)
        requires
            old(self).wf(),
        ensures
            final(self).wf(),
            r == advance_action(old(tick).stage, event),
            final(tick).stage == advance_stage(old(tick).stage, event),
            final(tick).timestamp == old(tick).timestamp,
            final(self).interval_spec() == old(self).interval_spec(),
            r == AdvanceAction::Committed ==> final(self).last_timestamp_spec() == old(
                tick,
            ).timestamp && final(self).hashes() == appended(
                old(self).hashes(),
                old(tick).stage->block_hash,
            ),
            r != AdvanceAction::Committed ==> final(self).last_timestamp_spec()
                == old(self).last_timestamp_spec() && final(self).hashes() == old(self).hashes(),
    {
        let stage = tick.stage;
        match (stage, event) {
            (AdvanceStage::AwaitForkchoice, AdvanceEvent::ForkchoiceUpdated { valid, payload_id }) => {
                if !valid {
                    tick.stage = AdvanceStage::Finished;
                    return AdvanceAction::Failed { error: MinerError::InvalidForkchoice };
                }
                match payload_id {
                    Some(id) => {
                        tick.stage = AdvanceStage::AwaitPayload;
                        AdvanceAction::ResolvePayload { payload_id: id }
                    },
                    None => {
                        tick.stage = AdvanceStage::Finished;
                        AdvanceAction::Failed { error: MinerError::MissingPayloadId }
                    },
                }
            },
            (AdvanceStage::AwaitPayload, AdvanceEvent::PayloadResolved { block_hash }) => {
                match block_hash {
                    Some(h) => {
                        tick.stage = AdvanceStage::AwaitNewPayload { block_hash: h };
                        AdvanceAction::SubmitPayload
                    },
                    None => {
                        tick.stage = AdvanceStage::Finished;
                        AdvanceAction::Failed { error: MinerError::NoPayload }
                    },
                }
            },
            (AdvanceStage::AwaitNewPayload { block_hash }, AdvanceEvent::NewPayload { valid }) => {
                tick.stage = AdvanceStage::Finished;
                if valid {
                    self.last_timestamp = tick.timestamp;
                    self.window.push(block_hash);
                    AdvanceAction::Committed
                } else {
                    AdvanceAction::Failed { error: MinerError::InvalidPayload }
                }
            },
            _ => {
                tick.stage = AdvanceStage::Finished;
                AdvanceAction::Failed { error: MinerError::UnexpectedEvent }
            },
        }
    }

    /// Checks the engine's answer to a forkchoice announcement.
    pub fn on_announce_response(&self, valid: bool) -> (r: Result<(), MinerError>)
        ensures
            r == (if valid {
                Ok::<(), MinerError>(())
            } else {
                Err(MinerError::InvalidForkchoice)
            }),
    {
        if valid {
            Ok(())
        } else {
            Err(MinerError::InvalidForkchoice)
        }
    }
}

} // verus!
