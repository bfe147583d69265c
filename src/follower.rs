use crate::json::{normalized, rename_uncles_to_ommers, JsonValue};
use crate::window::{single_block_state, BlockHash, ForkchoiceState};
use vstd::prelude::*;

verus! {

/// Where a relay stands in its life.
#[derive(Clone, Copy, Debug, PartialEq, Eq, Structural)]
pub enum RelayPhase {
    /// Waiting for the subscription to the producer's block stream.
    Subscribing,
    /// Subscribed: relaying each block that is announced.
    Listening,
    /// Ended: no block is fetched any more.
    Stopped,
}

/// What the caller does next for the relay.
#[derive(Debug, PartialEq)]
pub enum RelayAction {
    /// Wait for the next block announcement.
    Listen,
    /// Fetch the full block with this number from the producer.
    FetchBlock { number: u64 },
    /// Decode this normalized tree into the local block type.
    Decode { block: JsonValue },
    /// Hand the decoded block to the engine through `new_payload`, then
    /// announce this forkchoice state.
    Submit { forkchoice: ForkchoiceState },
    /// Drop the current block and wait for the next announcement.
    Skip,
    /// End the relay.
    Stop,
}

/// Block relay of a follower node: mirrors the blocks of a remote producer
/// into the local engine.
pub struct PoaFollower {
    producer_url: String,
    phase: RelayPhase,
    head: Option<BlockHash>,
    stop_on_decode_error: bool,
}

impl PoaFollower {
    pub closed spec fn producer_url_spec(&self) -> Seq<char> {
        self.producer_url@
    }

    pub closed spec fn phase_spec(&self) -> RelayPhase {
        self.phase
    }

    /// Hash of the last block handed to the engine.
    pub closed spec fn head_spec(&self) -> Option<BlockHash> {
        self.head
    }

    pub closed spec fn stops_on_decode_error(&self) -> bool {
        self.stop_on_decode_error
    }

    /// A relay from the producer at `producer_url`, not yet subscribed, that
    /// ends on a block it cannot decode.
    pub fn new(producer_url: String) -> (r: PoaFollower)
        ensures
            r.producer_url_spec() == producer_url@,
            r.phase_spec() == RelayPhase::Subscribing,
            r.head_spec() == None::<BlockHash>,
            r.stops_on_decode_error(),
    {
        PoaFollower { producer_url, phase: RelayPhase::Subscribing, head: None, stop_on_decode_error: true }
    }

    /// Chooses whether a block that cannot be decoded ends the relay (`true`)
    /// or is skipped (`false`).
    pub fn set_stop_on_decode_error(&mut self, stop: bool)
        ensures
            final(self).stops_on_decode_error() == stop,
            final(self).producer_url_spec() == old(self).producer_url_spec(),
            final(self).phase_spec() == old(self).phase_spec(),
            final(self).head_spec() == old(self).head_spec(),
    {
        self.stop_on_decode_error = stop;
    }

    /// The producer's URL, for diagnostics.
    pub fn producer_url(&self) -> (r: &String)
        ensures
            r@ == self.producer_url_spec(),
    {
        &self.producer_url
    }

    pub fn phase(&self) -> (r: RelayPhase)
        ensures
            r == self.phase_spec(),
    {
        self.phase
    }

    pub fn head(&self) -> (r: Option<BlockHash>)
        ensures
            r == self.head_spec(),
    {
        self.head
    }

    /// Handles the outcome of subscribing to the producer's block stream.
    /// A failed subscription ends the relay: it is not retried.
    pub fn on_subscription(&mut self, subscribed: bool) -> (r: RelayAction)
        ensures
            old(self).phase_spec() == RelayPhase::Subscribing && subscribed ==> r
                == RelayAction::Listen && final(self).phase_spec() == RelayPhase::Listening,
            !(old(self).phase_spec() == RelayPhase::Subscribing && subscribed) ==> r
                == RelayAction::Stop && final(self).phase_spec() == RelayPhase::Stopped,
            final(self).head_spec() == old(self).head_spec(),
            final(self).producer_url_spec() == old(self).producer_url_spec(),
            final(self).stops_on_decode_error() == old(self).stops_on_decode_error(),
    {
        if self.phase == RelayPhase::Subscribing && subscribed {
            self.phase = RelayPhase::Listening;
            RelayAction::Listen
        } else {
            self.phase = RelayPhase::Stopped;
            RelayAction::Stop
        }
    }

    /// Handles the announcement of block `number`: fetch it, unless the
    /// relay is not listening.
    pub fn on_new_block(&self, number: u64) -> (r: RelayAction)
        ensures
            self.phase_spec() == RelayPhase::Listening ==> r == (RelayAction::FetchBlock { number }),
            self.phase_spec() != RelayPhase::Listening ==> r == RelayAction::Stop,
    {
        if self.phase == RelayPhase::Listening {
            RelayAction::FetchBlock { number }
        } else {
            RelayAction::Stop
        }
    }

    /// Handles the fetched block: a block that was not found is skipped, a
    /// found one is normalized and handed on for decoding.
    pub fn on_block_fetched(&self, fetched: Option<JsonValue>) -> (r: RelayAction)
        ensures
            self.phase_spec() != RelayPhase::Listening ==> r == RelayAction::Stop,
            self.phase_spec() == RelayPhase::Listening && fetched is None ==> r == RelayAction::Skip,
            self.phase_spec() == RelayPhase::Listening && fetched is Some ==> (r is Decode)
                && r->block@ == normalized(fetched->0@),
    {
        if self.phase != RelayPhase::Listening {
            return RelayAction::Stop;
        }
        match fetched {
            None => RelayAction::Skip,
            Some(block) => RelayAction::Decode { block: rename_uncles_to_ommers(block) },
        }
    }

    /// Handles a block decoded into the local type, with its hash: the block
    /// becomes head, safe and finalized at once.
    pub fn on_block_decoded(&mut self, hash: BlockHash) -> (r: RelayAction)
        ensures
            old(self).phase_spec() == RelayPhase::Listening ==> r == (RelayAction::Submit {
                forkchoice: single_block_state(hash),
            }) && final(self).head_spec() == Some(hash),
            old(self).phase_spec() != RelayPhase::Listening ==> r == RelayAction::Stop
                && final(self).head_spec() == old(self).head_spec(),
            final(self).phase_spec() == old(self).phase_spec(),
            final(self).producer_url_spec() == old(self).producer_url_spec(),
            final(self).stops_on_decode_error() == old(self).stops_on_decode_error(),
    {
        if self.phase != RelayPhase::Listening {
            return RelayAction::Stop;
        }
        self.head = Some(hash);
        RelayAction::Submit {
            forkchoice: ForkchoiceState {
                head_block_hash: hash,
                safe_block_hash: hash,
                finalized_block_hash: hash,
            },
        }
    }

    /// Handles a block that could not be decoded: the relay ends or skips the
    /// block, as chosen.
    pub fn on_decode_failed(&mut self) -> (r: RelayAction)
        ensures
            old(self).phase_spec() == RelayPhase::Listening && !old(self).stops_on_decode_error()
                ==> r == RelayAction::Skip && final(self).phase_spec() == RelayPhase::Listening,
            !(old(self).phase_spec() == RelayPhase::Listening && !old(
                self,
            ).stops_on_decode_error()) ==> r == RelayAction::Stop && final(self).phase_spec()
                == RelayPhase::Stopped,
            final(self).head_spec() == old(self).head_spec(),
            final(self).producer_url_spec() == old(self).producer_url_spec(),
            final(self).stops_on_decode_error() == old(self).stops_on_decode_error(),
    {
        if self.phase == RelayPhase::Listening && !self.stop_on_decode_error {
            RelayAction::Skip
        } else {
            self.phase = RelayPhase::Stopped;
            RelayAction::Stop
        }
    }
}

} // verus!
