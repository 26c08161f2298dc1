use subspace_node::proof_of_time::slots::{Slot, SlotIterations, STANDARD_SLOT_ITERATIONS};
use subspace_node::proof_of_time::source::{
    BestBlock, PotSource, PotSourceAction, PotSourceError, PotSourceEvent, PotSourceStep,
    PreDigest, StartFrom, LOCAL_PROOFS_CHANNEL_CAPACITY, SLOTS_CHANNEL_CAPACITY,
};
use subspace_node::proof_of_time::timekeeper::{
    run_timekeeper, NewCheckpoints, SlotProof, Timekeeper, TimekeeperAction, TimekeeperEvent,
};

type Seed = [u8; 2];
type Checkpoints = [u8; 3];
type Best = BestBlock<Seed, &'static str, u8, u16>;
type Step = PotSourceStep<Seed, &'static str, u8, u16>;
type TestEvent = TimekeeperEvent<Seed, Checkpoints, &'static str>;
type TestAction = TimekeeperAction<Seed, Checkpoints, &'static str>;

const GENESIS: Seed = [0, 0];
const FUTURE: Seed = [4, 2];

fn slot(number: u64) -> Slot {
    Slot::from(number)
}

fn iterations(n: u32) -> SlotIterations {
    SlotIterations::new(n).unwrap()
}

fn best() -> Best {
    BestBlock::new("0xabcd".to_string())
}

fn read(number: u32) -> Best {
    BestBlock {
        block_authoring_delay: Some(Ok(slot(4))),
        number: Some(Ok(Some(number))),
        pre_digest: Some(Ok(PreDigest { slot: slot(10), future_seed: FUTURE })),
        ..best()
    }
}

fn new(best: Best) -> Step {
    assert!(best.has_first_slot());
    PotSource::new(GENESIS, StartFrom::BestBlock(best))
}

#[test]
fn slot_iterations_are_not_zero() {
    assert!(SlotIterations::new(0).is_none());
    assert_eq!(iterations(5).get(), 5);
    assert_eq!(SlotIterations::standard().get(), 100_000_000);
}

#[test]
fn constants_of_the_source() {
    assert_eq!(STANDARD_SLOT_ITERATIONS, 100_000_000);
    assert_eq!(LOCAL_PROOFS_CHANNEL_CAPACITY, 10);
    assert_eq!(SLOTS_CHANNEL_CAPACITY, 10);
}

#[test]
fn genesis_starts_at_the_first_slot() {
    let step: Step = PotSource::new(GENESIS, StartFrom::Genesis);
    match step {
        PotSourceStep::RunTimekeeper(timekeeper) => {
            assert_eq!(timekeeper.seed, GENESIS);
            assert_eq!(timekeeper.slot, 1);
            assert_eq!(timekeeper.slot_iterations.get(), 100_000_000);
        }
        _ => panic!("nothing has to be read"),
    }
}

#[test]
fn best_block_is_read_in_order() {
    let mut best = match new(best()) {
        PotSourceStep::ReadChainConstants(best) => best,
        _ => panic!("the chain constants come first"),
    };
    best.block_authoring_delay = Some(Ok(slot(4)));
    let mut best = match new(best) {
        PotSourceStep::ReadHeader(best) => best,
        _ => panic!("then the header"),
    };
    best.number = Some(Ok(Some(9)));
    let mut best = match new(best) {
        PotSourceStep::ReadPreDigest(best) => best,
        _ => panic!("then the pre-digest"),
    };
    best.pre_digest = Some(Ok(PreDigest { slot: slot(10), future_seed: FUTURE }));
    let mut best = match new(best) {
        PotSourceStep::ReadSlotIterations(best, first) => {
            assert_eq!(first, slot(15));
            best
        }
        _ => panic!("then the parameters"),
    };
    assert_eq!(best.hash, "0xabcd");
    best.slot_iterations = Some(Ok(iterations(8)));
    match new(best) {
        PotSourceStep::RunTimekeeper(timekeeper) => {
            assert_eq!(timekeeper.seed, FUTURE);
            assert_eq!(timekeeper.slot, 15);
            assert_eq!(timekeeper.slot_iterations.get(), 8);
        }
        _ => panic!("everything has been read"),
    }
}

#[test]
fn empty_chain_starts_from_the_genesis_seed() {
    match new(read(0)) {
        PotSourceStep::ReadSlotIterations(_, first) => assert_eq!(first, slot(1)),
        _ => panic!("the parameters are missing"),
    }
    match new(BestBlock { slot_iterations: Some(Ok(iterations(8))), ..read(0) }) {
        PotSourceStep::RunTimekeeper(timekeeper) => {
            assert_eq!(timekeeper.seed, GENESIS);
            assert_eq!(timekeeper.slot, 1);
            assert_eq!(timekeeper.slot_iterations.get(), 8);
        }
        _ => panic!("everything has been read"),
    }
}

#[test]
fn failed_reads_end_the_source() {
    assert!(matches!(
        new(BestBlock { block_authoring_delay: Some(Err("constants")), ..read(9) }),
        PotSourceStep::Fail(PotSourceError::Api("constants"))
    ));
    assert!(matches!(
        new(BestBlock { number: Some(Err(3)), ..read(9) }),
        PotSourceStep::Fail(PotSourceError::Backend(3))
    ));
    assert!(matches!(
        new(BestBlock { pre_digest: Some(Err(5)), ..read(9) }),
        PotSourceStep::Fail(PotSourceError::Application(5))
    ));
    assert!(matches!(
        new(BestBlock { slot_iterations: Some(Err("parameters")), ..read(9) }),
        PotSourceStep::Fail(PotSourceError::Api("parameters"))
    ));
}

#[test]
fn first_failure_wins() {
    assert!(matches!(
        new(BestBlock {
            block_authoring_delay: Some(Err("constants")),
            number: Some(Err(3)),
            pre_digest: Some(Err(5)),
            ..best()
        }),
        PotSourceStep::Fail(PotSourceError::Api("constants"))
    ));
}

#[test]
fn missing_best_block_is_named() {
    match new(BestBlock { number: Some(Ok(None)), ..read(9) }) {
        PotSourceStep::Fail(PotSourceError::UnknownBlock(text)) => {
            assert_eq!(text, "Parent block 0xabcd not found")
        }
        _ => panic!("the block is unknown"),
    }
}

#[test]
fn first_slot_has_to_have_a_number() {
    let late = |number: u32, at: u64| BestBlock {
        pre_digest: Some(Ok(PreDigest { slot: slot(at), future_seed: FUTURE })),
        ..read(number)
    };
    assert!(late(9, u64::MAX - 5).has_first_slot());
    assert!(!late(9, u64::MAX - 4).has_first_slot());
    assert!(late(0, u64::MAX).has_first_slot());
    assert!(best().has_first_slot());
    match new(late(9, u64::MAX - 5)) {
        PotSourceStep::ReadSlotIterations(_, first) => assert_eq!(first, slot(u64::MAX)),
        _ => panic!("the parameters are missing"),
    }
}

fn timekeeper() -> Timekeeper<Seed> {
    Timekeeper { seed: [1, 1], slot: 15, slot_iterations: iterations(8) }
}

fn slot_proof(n: u8) -> SlotProof<Seed, Checkpoints> {
    SlotProof { checkpoints: [n, n, n], output_seed: [n, n + 1] }
}

fn prove(action: TestAction) -> (Seed, u32) {
    match action {
        TimekeeperAction::Prove(seed, slot_iterations) => (seed, slot_iterations.get()),
        _ => panic!("the next slot is to be proved"),
    }
}

fn try_send(action: TestAction) -> NewCheckpoints<Seed, Checkpoints> {
    match action {
        TimekeeperAction::TrySend(checkpoints) => checkpoints,
        _ => panic!("the checkpoints are to be sent"),
    }
}

#[test]
fn slots_are_chained() {
    let mut timekeeper = timekeeper();
    assert_eq!(prove(run_timekeeper(&mut timekeeper, TestEvent::Started)), ([1, 1], 8));

    let sent = try_send(run_timekeeper(&mut timekeeper, TestEvent::Proved(Ok(slot_proof(2)))));
    assert_eq!((sent.seed, sent.slot, sent.checkpoints), ([1, 1], slot(15), [2, 2, 2]));
    assert_eq!(sent.slot_iterations.get(), 8);
    assert_eq!(prove(run_timekeeper(&mut timekeeper, TestEvent::TrySent(Ok(())))), ([2, 3], 8));

    let sent = try_send(run_timekeeper(&mut timekeeper, TestEvent::Proved(Ok(slot_proof(5)))));
    assert_eq!((sent.seed, sent.slot, sent.checkpoints), ([2, 3], slot(16), [5, 5, 5]));
    assert_eq!(sent.slot_iterations.get(), 8);
    assert_eq!(prove(run_timekeeper(&mut timekeeper, TestEvent::Sent)), ([5, 6], 8));
    assert_eq!(timekeeper.slot, 17);
}

#[test]
fn full_channel_loses_nothing() {
    let mut timekeeper = timekeeper();
    let sent = try_send(run_timekeeper(&mut timekeeper, TestEvent::Proved(Ok(slot_proof(2)))));
    match run_timekeeper(&mut timekeeper, TestEvent::TrySent(Err(sent))) {
        TimekeeperAction::SendBlocking(again) => {
            assert_eq!((again.seed, again.slot, again.checkpoints), ([1, 1], slot(15), [2, 2, 2]))
        }
        _ => panic!("the checkpoints are sent again"),
    }
    assert_eq!(timekeeper.slot, 15);
}

#[test]
fn closed_channel_ends_the_timekeeper() {
    let mut timekeeper = timekeeper();
    assert!(matches!(
        run_timekeeper(&mut timekeeper, TestEvent::ChannelClosed),
        TimekeeperAction::Return(Ok(()))
    ));
}

#[test]
fn failed_proof_ends_the_timekeeper() {
    let mut timekeeper = timekeeper();
    assert!(matches!(
        run_timekeeper(&mut timekeeper, TestEvent::Proved(Err("iterations"))),
        TimekeeperAction::Return(Err("iterations"))
    ));
}

#[test]
fn checkpoints_are_injected_before_their_slot_is_sent() {
    let received = NewCheckpoints {
        seed: [1, 1],
        slot_iterations: iterations(8),
        slot: slot(15),
        checkpoints: [2, 2, 2],
    };
    let info = match PotSource::run(PotSourceEvent::Received(Some(received))) {
        PotSourceAction::Inject(seed, slot_iterations, checkpoints, info) => {
            assert_eq!((seed, slot_iterations.get(), checkpoints), ([1, 1], 8, [2, 2, 2]));
            info
        }
        _ => panic!("the checkpoints go to the verifier first"),
    };
    let action: PotSourceAction<Seed, Checkpoints> =
        PotSource::run(PotSourceEvent::Injected(info));
    match action {
        PotSourceAction::Send(info) => {
            assert_eq!((info.slot, info.checkpoints), (slot(15), [2, 2, 2]))
        }
        _ => panic!("then the slot is sent"),
    }
}

#[test]
fn source_waits_at_the_start_and_after_each_slot() {
    let action: PotSourceAction<Seed, Checkpoints> = PotSource::run(PotSourceEvent::Started);
    assert!(matches!(action, PotSourceAction::Receive));
    let action: PotSourceAction<Seed, Checkpoints> = PotSource::run(PotSourceEvent::Sent);
    assert!(matches!(action, PotSourceAction::Receive));
}

#[test]
fn source_returns_with_its_timekeeper() {
    let action: PotSourceAction<Seed, Checkpoints> =
        PotSource::run(PotSourceEvent::Received(None));
    assert!(matches!(action, PotSourceAction::Return));
}

#[test]
fn published_slots_are_consecutive() {
    let mut timekeeper = timekeeper();
    let mut log: Vec<String> = vec![];
    for n in 0..3 {
        let sent = try_send(run_timekeeper(
            &mut timekeeper,
            TestEvent::Proved(Ok(slot_proof(n))),
        ));
        let mut event = PotSourceEvent::Received(Some(sent));
        loop {
            event = match PotSource::run(event) {
                PotSourceAction::Inject(_, _, checkpoints, info) => {
                    assert_eq!(checkpoints, [n, n, n]);
                    log.push(format!("inject {n}"));
                    PotSourceEvent::Injected(info)
                }
                PotSourceAction::Send(info) => {
                    assert_eq!(info.checkpoints, [n, n, n]);
                    log.push(format!("send {}", info.slot.number));
                    PotSourceEvent::Sent
                }
                PotSourceAction::Receive => break,
                PotSourceAction::Return => panic!("checkpoints were received"),
            };
        }
        let _ = run_timekeeper(&mut timekeeper, TestEvent::TrySent(Ok(())));
    }
    assert_eq!(
        log,
        vec!["inject 0", "send 15", "inject 1", "send 16", "inject 2", "send 17"]
    );
}
