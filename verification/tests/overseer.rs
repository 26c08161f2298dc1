use lru::LruCache;
use std::collections::BTreeMap;
use subspace_node::overseer::events::{
    forward_events, Arrival, BlockImportNotification, BlockInfo, CollationGenerationMessage, Event,
    FinalityNotification, Forward, Handle, Header,
};
use subspace_node::overseer::known::KNOWN_LEAVES_CACHE_SIZE;
use subspace_node::overseer::leaves::{ActivatedLeaf, ActiveLeavesUpdate};
use subspace_node::overseer::state::{
    Overseer, RunAction, RunInput, SIGNAL_CHANNEL_CAPACITY,
};
use subspace_node::primitives::{same_hash, BlockHash, BlockNumber};

type Message = CollationGenerationMessage<u8, u16, u32, u64>;
type TestEvent = Event<u64, Message>;

fn hash(n: u128) -> BlockHash {
    (n, n + 1000)
}

fn block(n: u128, parent: u128, number: BlockNumber) -> BlockInfo {
    BlockInfo { hash: hash(n), parent_hash: hash(parent), number }
}

fn overseer(leaves: Vec<(BlockHash, BlockNumber)>, known: usize) -> Overseer {
    Overseer::new(leaves, BTreeMap::new(), LruCache::new(known))
}

fn active(overseer: &Overseer) -> Vec<(BlockHash, BlockNumber)> {
    overseer.active_leaves().iter().map(|(hash, number)| (*hash, *number)).collect()
}

fn known(overseer: &Overseer) -> Vec<BlockHash> {
    overseer.known_leaves().iter().map(|(hash, _)| *hash).collect()
}

fn ready(overseer: &mut Overseer) -> RunAction<u64, Message> {
    overseer.run(RunInput::Ready)
}

fn receive(overseer: &mut Overseer, event: TestEvent) -> RunAction<u64, Message> {
    overseer.run(RunInput::Received(Some(event)))
}

fn update(activated: Option<(BlockHash, BlockNumber)>, deactivated: &[BlockHash]) -> ActiveLeavesUpdate {
    let mut update = ActiveLeavesUpdate::default();
    update.activated = activated.map(|(hash, number)| ActivatedLeaf { hash, number });
    for hash in deactivated {
        update.deactivated.push(*hash);
    }
    update
}

#[test]
fn hashes_are_the_same_in_both_halves() {
    assert!(same_hash(&(1, 2), &(1, 2)));
    assert!(!same_hash(&(1, 2), &(1, 3)));
    assert!(!same_hash(&(1, 2), &(0, 2)));
}

#[test]
fn start_work_activates_one_leaf() {
    let update = ActiveLeavesUpdate::start_work(ActivatedLeaf { hash: hash(1), number: 7 });
    let leaf = update.activated.as_ref().unwrap();
    assert_eq!(leaf.hash, hash(1));
    assert_eq!(leaf.number, 7);
    assert!(update.deactivated.as_slice().is_empty());
    assert!(!update.is_empty());
}

#[test]
fn stop_work_deactivates_one_hash() {
    let update = ActiveLeavesUpdate::stop_work(hash(1));
    assert!(update.activated.is_none());
    assert_eq!(update.deactivated.as_slice(), &[hash(1)]);
    assert!(!update.is_empty());
}

#[test]
fn default_update_is_empty() {
    assert!(ActiveLeavesUpdate::default().is_empty());
}

#[test]
fn deactivated_hashes_outgrow_their_stack_space() {
    let hashes: Vec<BlockHash> = (0..20).map(hash).collect();
    let update = update(None, &hashes);
    assert_eq!(update.deactivated.as_slice(), hashes.as_slice());
    assert!(update.deactivated.contains(&hash(19)));
    assert!(!update.deactivated.contains(&hash(20)));
    assert_eq!(update.clone().deactivated.as_slice(), hashes.as_slice());
}

#[test]
fn equality_takes_the_fields_as_sets() {
    let a = update(Some((hash(1), 1)), &[hash(2), hash(3)]);
    assert!(a == update(Some((hash(1), 1)), &[hash(3), hash(2)]));
    assert!(a == update(Some((hash(1), 1)), &[hash(3), hash(2), hash(3)]));
    assert!(a == a.clone());
    assert!(a != update(Some((hash(1), 1)), &[hash(2)]));
    assert!(a != update(Some((hash(4), 1)), &[hash(2), hash(3)]));
    assert!(a != update(None, &[hash(2), hash(3)]));
    assert!(update(None, &[]) != a);
}

#[test]
fn equality_of_repeated_hashes_is_symmetric() {
    let repeated = update(None, &[hash(1), hash(1)]);
    let distinct = update(None, &[hash(1), hash(2)]);
    assert!(repeated != distinct);
    assert!(distinct != repeated);
    assert!(repeated == update(None, &[hash(1)]));
}

#[test]
fn equality_tells_activated_leaves_by_their_hash() {
    assert!(update(Some((hash(1), 1)), &[]) == update(Some((hash(1), 2)), &[]));
}

#[test]
fn constants_have_their_values() {
    assert_eq!(KNOWN_LEAVES_CACHE_SIZE, 28800);
    assert_eq!(SIGNAL_CHANNEL_CAPACITY, 64);
}

#[test]
fn startup_notifies_about_each_leaf_in_order() {
    let mut overseer = overseer(vec![(hash(1), 5), (hash(2), 6)], 4);
    for (leaf, number) in [(hash(1), 5), (hash(2), 6)] {
        match ready(&mut overseer) {
            RunAction::UpdateActiveLeaves(u) => {
                let activated = u.activated.as_ref().unwrap();
                assert_eq!((activated.hash, activated.number), (leaf, number));
                assert!(u.deactivated.as_slice().is_empty());
            }
            _ => panic!("a leaf is still to be started"),
        }
    }
    assert!(matches!(ready(&mut overseer), RunAction::ReceiveEvent));
    assert!(matches!(ready(&mut overseer), RunAction::ReceiveEvent));
    assert_eq!(active(&overseer), vec![(hash(1), 5), (hash(2), 6)]);
    assert_eq!(known(&overseer), vec![hash(2), hash(1)]);
}

#[test]
fn startup_takes_the_last_number_of_a_leaf() {
    let mut overseer = overseer(vec![(hash(1), 5), (hash(1), 6)], 4);
    assert!(matches!(ready(&mut overseer), RunAction::UpdateActiveLeaves(_)));
    assert!(matches!(ready(&mut overseer), RunAction::UpdateActiveLeaves(_)));
    assert!(matches!(ready(&mut overseer), RunAction::ReceiveEvent));
    assert_eq!(active(&overseer), vec![(hash(1), 6)]);
}

#[test]
fn imported_block_replaces_its_active_parent() {
    let mut overseer = overseer(vec![(hash(1), 5)], 4);
    ready(&mut overseer);
    match receive(&mut overseer, Handle::block_imported(block(2, 1, 6))) {
        RunAction::UpdateActiveLeaves(u) => {
            assert!(u == update(Some((hash(2), 6)), &[hash(1)]));
            assert_eq!(u.activated.unwrap().number, 6);
        }
        _ => panic!("the import changes the leaves"),
    }
    assert_eq!(active(&overseer), vec![(hash(2), 6)]);
}

#[test]
fn fork_leaves_both_heads_active() {
    let mut overseer = overseer(vec![], 4);
    overseer.block_imported(block(2, 1, 6)).unwrap();
    let fork = overseer.block_imported(block(3, 1, 6)).unwrap();
    assert!(fork == update(Some((hash(3), 6)), &[]));
    assert_eq!(active(&overseer), vec![(hash(2), 6), (hash(3), 6)]);
}

#[test]
fn block_imported_twice_tells_nothing() {
    let mut overseer = overseer(vec![], 4);
    assert!(overseer.block_imported(block(2, 1, 6)).is_some());
    assert!(overseer.block_imported(block(2, 1, 6)).is_none());
    assert!(matches!(
        receive(&mut overseer, Handle::block_imported(block(2, 1, 6))),
        RunAction::ReceiveEvent
    ));
    assert_eq!(active(&overseer), vec![(hash(2), 6)]);
}

#[test]
fn block_that_is_its_own_parent_does_not_stay() {
    let mut overseer = overseer(vec![], 4);
    let u = overseer.block_imported(block(2, 2, 0)).unwrap();
    assert!(u == update(Some((hash(2), 0)), &[hash(2)]));
    assert!(active(&overseer).is_empty());
}

#[test]
fn updates_replayed_give_the_active_leaves() {
    let mut overseer = overseer(vec![(hash(1), 1)], 8);
    let mut replayed: Vec<BlockHash> = vec![];
    let events = vec![
        Handle::block_imported(block(2, 1, 2)),
        Handle::slot_arrived(9),
        Handle::block_imported(block(3, 1, 2)),
        Handle::block_imported(block(4, 3, 3)),
        Handle::block_imported(block(4, 3, 3)),
    ];
    let mut actions = vec![ready(&mut overseer)];
    for event in events {
        actions.push(receive(&mut overseer, event));
    }
    for action in actions {
        if let RunAction::UpdateActiveLeaves(u) = action {
            if let Some(leaf) = &u.activated {
                replayed.push(leaf.hash);
            }
            replayed.retain(|hash| !u.deactivated.contains(hash));
        }
    }
    replayed.sort();
    let leaves: Vec<BlockHash> = active(&overseer).iter().map(|(hash, _)| *hash).collect();
    assert_eq!(replayed, leaves);
    assert_eq!(leaves, vec![hash(2), hash(4)]);
}

#[test]
fn known_leaves_are_the_last_ones_seen() {
    let mut overseer = overseer(vec![], 2);
    overseer.block_imported(block(2, 1, 2));
    overseer.block_imported(block(3, 2, 3));
    assert_eq!(known(&overseer), vec![hash(3), hash(2)]);
    overseer.block_imported(block(4, 3, 4));
    assert_eq!(known(&overseer), vec![hash(4), hash(3)]);
    // Not active any more, so it is taken anew and comes to the front.
    overseer.block_imported(block(3, 2, 3));
    assert_eq!(known(&overseer), vec![hash(3), hash(4)]);
}

#[test]
fn known_leaves_without_capacity_stay_empty() {
    let mut overseer = overseer(vec![], 0);
    assert!(overseer.block_imported(block(2, 1, 2)).is_some());
    assert!(known(&overseer).is_empty());
    assert_eq!(active(&overseer), vec![(hash(2), 2)]);
}

#[test]
fn numbers_agree_along_a_chain() {
    let mut overseer = overseer(vec![], 4);
    let first = block(2, 1, 6);
    assert!(overseer.agrees_with(&first));
    overseer.block_imported(first);
    assert!(overseer.agrees_with(&block(2, 1, 6)));
    assert!(!overseer.agrees_with(&block(2, 1, 7)));
    assert!(overseer.agrees_with(&block(3, 2, 7)));
    assert!(!overseer.agrees_with(&block(3, 2, 8)));
    assert!(overseer.agrees_with(&block(4, 4, 0)));
    assert!(!overseer.agrees_with(&block(4, 4, 1)));
}

#[test]
fn nothing_is_below_the_first_block() {
    let mut overseer = overseer(vec![], 4);
    overseer.block_imported(block(2, 1, 0));
    assert!(overseer.agrees_with(&block(3, 2, 0)));
    assert!(overseer.agrees_with(&block(3, 2, 1)));
    assert!(!overseer.agrees_with(&block(3, 2, 2)));
    // A block is taken whether or not the numbers agree.
    assert!(overseer.block_imported(block(3, 2, 2)).is_some());
    assert_eq!(active(&overseer), vec![(hash(3), 2)]);
}

#[test]
fn leaves_and_blocks_can_be_shown() {
    let leaf = ActivatedLeaf { hash: (1, 2), number: 3 };
    assert_eq!(format!("{leaf:?}"), "ActivatedLeaf { hash: (1, 2), number: 3 }");
    let info = BlockInfo { hash: (1, 2), parent_hash: (3, 4), number: 5 };
    assert_eq!(
        format!("{info:?}"),
        "BlockInfo { hash: (1, 2), parent_hash: (3, 4), number: 5 }"
    );
}

#[test]
fn messages_and_slots_pass_through() {
    let mut overseer = overseer(vec![], 4);
    assert!(matches!(
        receive(&mut overseer, Handle::initialize(1)),
        RunAction::HandleMessage(CollationGenerationMessage::Initialize(1))
    ));
    assert!(matches!(
        receive(&mut overseer, Handle::submit_bundle_equivocation_proof(2)),
        RunAction::HandleMessage(CollationGenerationMessage::BundleEquivocationProof(2))
    ));
    assert!(matches!(
        receive(&mut overseer, Handle::submit_fraud_proof(3)),
        RunAction::HandleMessage(CollationGenerationMessage::FraudProof(3))
    ));
    assert!(matches!(
        receive(&mut overseer, Handle::submit_invalid_transaction_proof(4)),
        RunAction::HandleMessage(CollationGenerationMessage::InvalidTransactionProof(4))
    ));
    assert!(matches!(
        receive(&mut overseer, Handle::slot_arrived(5)),
        RunAction::UpdateNewSlot(5)
    ));
    assert!(active(&overseer).is_empty());
}

#[test]
fn loop_finishes_with_the_events() {
    let mut overseer = overseer(vec![], 4);
    let action: RunAction<u64, Message> = overseer.run(RunInput::Received(None));
    assert!(matches!(action, RunAction::Finish));
}

fn notification() -> BlockImportNotification {
    BlockImportNotification {
        hash: hash(2),
        header: Header { parent_hash: hash(1), number: 6 },
    }
}

fn finality() -> FinalityNotification {
    FinalityNotification {
        hash: hash(8),
        header: Header { parent_hash: hash(7), number: 3 },
    }
}

/// What is sent for the arrivals, and whether the forwarding has ended.
fn forward_all(arrivals: Vec<Arrival<u64>>) -> (Vec<String>, bool) {
    let mut sent = vec![];
    for arrival in arrivals {
        let step: Forward<u64, Message> = forward_events(arrival);
        match step {
            Forward::Send(Event::NewSlot(slot)) => sent.push(format!("slot {slot}")),
            Forward::Send(Event::BlockImported(block)) => sent.push(format!("block {}", block.number)),
            Forward::Send(Event::BlockFinalized(block)) => sent.push(format!("final {}", block.number)),
            Forward::Send(Event::MsgToSubsystem(_)) => panic!("nobody sent a message"),
            Forward::Wait => {}
            Forward::Stop => return (sent, true),
        }
    }
    (sent, false)
}

fn texts(texts: &[&str]) -> Vec<String> {
    texts.iter().map(|text| text.to_string()).collect()
}

#[test]
fn finality_notification_becomes_block_info() {
    let info = BlockInfo::from(finality());
    assert_eq!((info.hash, info.parent_hash, info.number), (hash(8), hash(7), 3));
}

#[test]
fn finality_is_forwarded() {
    let step: Forward<u64, Message> = forward_events(Arrival::Finality(Some(finality())));
    match step {
        Forward::Send(Event::BlockFinalized(info)) => {
            assert_eq!((info.hash, info.parent_hash, info.number), (hash(8), hash(7), 3))
        }
        _ => panic!("finality is forwarded"),
    }
}

#[test]
fn forwarding_goes_on_without_finality() {
    let step: Forward<u64, Message> = forward_events(Arrival::Finality(None));
    assert!(matches!(step, Forward::Wait));
    let arrivals = vec![
        Arrival::Finality(Some(finality())),
        Arrival::Finality(None),
        Arrival::Import(Some(notification())),
        Arrival::Slot(Some(7)),
    ];
    assert_eq!(forward_all(arrivals), (texts(&["final 3", "block 6", "slot 7"]), false));
}

#[test]
fn finality_changes_no_leaf() {
    let mut overseer = overseer(vec![], 4);
    overseer.block_imported(block(2, 1, 6));
    let action = receive(&mut overseer, Handle::block_finalized(block(2, 1, 6)));
    assert!(matches!(action, RunAction::ReceiveEvent));
    let action = receive(&mut overseer, Handle::block_finalized(block(3, 2, 7)));
    assert!(matches!(action, RunAction::ReceiveEvent));
    assert_eq!(active(&overseer), vec![(hash(2), 6)]);
    assert_eq!(known(&overseer), vec![hash(2)]);
}

#[test]
fn notification_becomes_block_info() {
    let info = BlockInfo::from(notification());
    assert_eq!((info.hash, info.parent_hash, info.number), (hash(2), hash(1), 6));
    let copy = info.clone();
    assert_eq!((copy.hash, copy.parent_hash, copy.number), (hash(2), hash(1), 6));
}

#[test]
fn forwarding_sends_blocks_and_slots() {
    let step: Forward<u64, Message> = forward_events(Arrival::Import(Some(notification())));
    match step {
        Forward::Send(Event::BlockImported(info)) => {
            assert_eq!((info.hash, info.parent_hash, info.number), (hash(2), hash(1), 6))
        }
        _ => panic!("an import is forwarded"),
    }
    let step: Forward<u64, Message> = forward_events(Arrival::Slot(Some(3)));
    assert!(matches!(step, Forward::Send(Event::NewSlot(3))));
}

#[test]
fn forwarding_stops_with_imports_or_slots() {
    let step: Forward<u64, Message> = forward_events(Arrival::Import(None));
    assert!(matches!(step, Forward::Stop));
    let step: Forward<u64, Message> = forward_events(Arrival::Slot(None));
    assert!(matches!(step, Forward::Stop));
    let step: Forward<u64, Message> = forward_events(Arrival::Complete);
    assert!(matches!(step, Forward::Stop));
}

#[test]
fn equality_is_transitive() {
    let a = update(Some((hash(1), 1)), &[hash(2), hash(3)]);
    let b = update(Some((hash(1), 1)), &[hash(3), hash(2)]);
    let c = update(Some((hash(1), 1)), &[hash(2), hash(3), hash(2)]);
    assert!(a == b && b == c && a == c);
}

#[test]
fn imports_never_leave_fewer_leaves() {
    let mut overseer = overseer(vec![], 4);
    let mut count = 0;
    for (n, parent) in [(2, 1), (3, 2), (4, 2), (5, 3), (6, 4), (6, 4)] {
        overseer.block_imported(block(n, parent, 1));
        assert!(active(&overseer).len() >= count);
        count = active(&overseer).len();
    }
    assert_eq!(count, 2);
}

#[test]
fn leaves_are_heads() {
    let mut overseer = overseer(vec![], 4);
    let chain = [(2, 1), (3, 2), (4, 2), (5, 4)];
    for (n, parent) in chain {
        overseer.block_imported(block(n, parent, 1));
    }
    for (n, parent) in chain {
        let leaves = overseer.active_leaves();
        assert!(!(leaves.contains_key(&hash(n)) && leaves.contains_key(&hash(parent))));
    }
    assert_eq!(active(&overseer), vec![(hash(3), 1), (hash(5), 1)]);
}

#[test]
fn forwarding_keeps_order_up_to_the_end_of_imports_or_slots() {
    let arrivals = vec![
        Arrival::Slot(Some(1)),
        Arrival::Import(Some(notification())),
        Arrival::Finality(Some(finality())),
        Arrival::Finality(None),
        Arrival::Slot(Some(2)),
        Arrival::Slot(None),
        Arrival::Slot(Some(3)),
    ];
    assert_eq!(
        forward_all(arrivals),
        (texts(&["slot 1", "block 6", "final 3", "slot 2"]), true)
    );
}
