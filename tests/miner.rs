use poa_node::miner::{AdvanceAction, AdvanceEvent, AdvanceStage, MinerError, PayloadId, PoaMiner};
use poa_node::window::{BlockHash, ForkchoiceWindow};

fn hash(n: u8) -> BlockHash {
    BlockHash { bytes: [n; 32] }
}

fn pid(n: u8) -> PayloadId {
    PayloadId { bytes: [n; 8] }
}

/// Runs one full, successful tick that produces block `h` at wall-clock `now`.
fn produce(miner: &mut PoaMiner, now: u64, h: BlockHash) -> u64 {
    let mut tick = miner.start_advance(now).unwrap();
    let a = miner.on_advance_event(&mut tick, AdvanceEvent::ForkchoiceUpdated { valid: true, payload_id: Some(pid(1)) });
    assert_eq!(a, AdvanceAction::ResolvePayload { payload_id: pid(1) });
    let a = miner.on_advance_event(&mut tick, AdvanceEvent::PayloadResolved { block_hash: Some(h) });
    assert_eq!(a, AdvanceAction::SubmitPayload);
    let a = miner.on_advance_event(&mut tick, AdvanceEvent::NewPayload { valid: true });
    assert_eq!(a, AdvanceAction::Committed);
    assert_eq!(tick.stage, AdvanceStage::Finished);
    tick.timestamp
}

#[test]
fn scenario_three_ticks_from_one_block() {
    let mut miner = PoaMiner::new(hash(0), 1000, 5);
    let t1 = produce(&mut miner, 1000, hash(1));
    let t2 = produce(&mut miner, 1000, hash(2));
    let t3 = produce(&mut miner, 999, hash(3));
    assert_eq!(miner.recent_hashes(), vec![hash(0), hash(1), hash(2), hash(3)]);
    assert_eq!((t1, t2, t3), (1001, 1002, 1003));
    assert_eq!(miner.last_timestamp(), 1003);
}

#[test]
fn scenario_missing_payload_id_leaves_state() {
    let mut miner = PoaMiner::new(hash(0), 50, 5);
    produce(&mut miner, 60, hash(1));
    let before_hashes = miner.recent_hashes();
    let before_ts = miner.last_timestamp();
    let mut tick = miner.start_advance(70).unwrap();
    let a = miner.on_advance_event(&mut tick, AdvanceEvent::ForkchoiceUpdated { valid: true, payload_id: None });
    assert_eq!(a, AdvanceAction::Failed { error: MinerError::MissingPayloadId });
    assert_eq!(miner.recent_hashes(), before_hashes);
    assert_eq!(miner.last_timestamp(), before_ts);
    let next = miner.start_advance(70).unwrap();
    assert_eq!(next.timestamp, 70);
    assert_eq!(next.stage, AdvanceStage::AwaitForkchoice);
}

#[test]
fn timestamp_follows_wall_clock_when_later() {
    let miner = PoaMiner::new(hash(0), 100, 5);
    assert_eq!(miner.start_advance(250).unwrap().timestamp, 250);
    assert_eq!(miner.start_advance(101).unwrap().timestamp, 101);
    assert_eq!(miner.start_advance(100).unwrap().timestamp, 101);
    assert_eq!(miner.start_advance(3).unwrap().timestamp, 101);
}

#[test]
fn clock_exhausted_at_largest_timestamp() {
    let miner = PoaMiner::new(hash(0), u64::MAX, 5);
    assert_eq!(miner.start_advance(0), Err(MinerError::ClockExhausted));
}

#[test]
fn each_failure_leaves_state() {
    let cases: Vec<(Vec<AdvanceEvent>, MinerError)> = vec![
        (vec![AdvanceEvent::ForkchoiceUpdated { valid: false, payload_id: Some(pid(2)) }], MinerError::InvalidForkchoice),
        (
            vec![
                AdvanceEvent::ForkchoiceUpdated { valid: true, payload_id: Some(pid(2)) },
                AdvanceEvent::PayloadResolved { block_hash: None },
            ],
            MinerError::NoPayload,
        ),
        (
            vec![
                AdvanceEvent::ForkchoiceUpdated { valid: true, payload_id: Some(pid(2)) },
                AdvanceEvent::PayloadResolved { block_hash: Some(hash(9)) },
                AdvanceEvent::NewPayload { valid: false },
            ],
            MinerError::InvalidPayload,
        ),
        (vec![AdvanceEvent::NewPayload { valid: true }], MinerError::UnexpectedEvent),
    ];
    for (events, error) in cases {
        let mut miner = PoaMiner::new(hash(0), 10, 5);
        let mut tick = miner.start_advance(10).unwrap();
        let mut last = AdvanceAction::SubmitPayload;
        for e in events {
            last = miner.on_advance_event(&mut tick, e);
        }
        assert_eq!(last, AdvanceAction::Failed { error });
        assert_eq!(tick.stage, AdvanceStage::Finished);
        assert_eq!(miner.recent_hashes(), vec![hash(0)]);
        assert_eq!(miner.last_timestamp(), 10);
    }
}

#[test]
fn window_keeps_newest_sixty_four() {
    let mut miner = PoaMiner::new(hash(0), 0, 1);
    for n in 1..=63u8 {
        produce(&mut miner, 0, hash(n));
    }
    assert_eq!(miner.recent_hashes().len(), 64);
    assert_eq!(miner.recent_hashes()[0], hash(0));
    produce(&mut miner, 0, hash(64));
    let hs = miner.recent_hashes();
    assert_eq!(hs.len(), 64);
    assert_eq!(hs[0], hash(1));
    assert_eq!(hs[63], hash(64));
    for n in 65..=80u8 {
        produce(&mut miner, 0, hash(n));
    }
    let hs = miner.recent_hashes();
    assert_eq!(hs.len(), 64);
    assert_eq!(hs[0], hash(17));
}

#[test]
fn forkchoice_state_distances() {
    let mut w = ForkchoiceWindow::new(hash(0));
    let s = w.forkchoice_state();
    assert_eq!((s.head_block_hash, s.safe_block_hash, s.finalized_block_hash), (hash(0), hash(0), hash(0)));
    w.push(hash(1));
    let s = w.forkchoice_state();
    assert_eq!((s.head_block_hash, s.safe_block_hash, s.finalized_block_hash), (hash(1), hash(0), hash(0)));
    for n in 2..40u8 {
        w.push(hash(n));
    }
    let s = w.forkchoice_state();
    assert_eq!((s.head_block_hash, s.safe_block_hash, s.finalized_block_hash), (hash(39), hash(8), hash(0)));
    for n in 40..100u8 {
        w.push(hash(n));
    }
    let s = w.forkchoice_state();
    assert_eq!(w.len(), 64);
    assert_eq!((s.head_block_hash, s.safe_block_hash, s.finalized_block_hash), (hash(99), hash(68), hash(36)));
    assert_eq!(w.head(), hash(99));
    assert_eq!(w.get(0), Some(hash(36)));
    assert_eq!(w.get(64), None);
}

#[test]
fn announce_response_checked() {
    let miner = PoaMiner::new(hash(0), 0, 1);
    assert_eq!(miner.on_announce_response(true), Ok(()));
    assert_eq!(miner.on_announce_response(false), Err(MinerError::InvalidForkchoice));
    assert_eq!(miner.interval(), 1);
    assert_eq!(miner.forkchoice_state().head_block_hash, hash(0));
}
