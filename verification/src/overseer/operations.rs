//! What each operation of the overseer does, said of any call of it: `call_ensures` holds of a
//! call's arguments and what it returned.
use crate::overseer::events::{
    forward_events, Arrival, BlockImportNotification, BlockInfo, CollationGenerationMessage, Event,
    FinalityNotification, Forward, Handle,
};
use crate::overseer::known::{cache_capacity, cached_hashes};
use crate::overseer::laws::law_cache_is_ordered_by_recency;
use crate::overseer::leaves::{ActivatedLeaf, ActiveLeavesUpdate, DeactivatedLeaves};
use crate::overseer::state::{Overseer, RunAction, RunInput};
use crate::primitives::{same_hash, BlockHash, BlockNumber};
use lru::LruCache;
use std::collections::BTreeMap;
use vstd::prelude::*;

verus! {

/// The import of a block that is not an active leaf is always reported: the block is activated
/// under its own hash and number, and its parent is deactivated exactly where that was a leaf, or
/// is the block itself.
pub proof fn law_import_is_reported(
    overseer: &mut Overseer,
    block: BlockInfo,
    update: Option<ActiveLeavesUpdate>,
)
    requires
        call_ensures(Overseer::block_imported, (overseer, block), update),
    ensures
        call_requires(Overseer::block_imported, (overseer, block)),
        update is None <==> old(overseer)@.active.contains_key(block.hash),
        update matches Some(told) ==> {
            &&& told.activated matches Some(leaf) && leaf.hash == block.hash && leaf.number
                == block.number
            &&& told.deactivated@.len() <= 1
            &&& forall|hash: BlockHash|
                told.deactivated@.contains(hash) <==> hash == block.parent_hash && (hash
                    == block.hash || old(overseer)@.active.contains_key(hash))
        },
{
    if let Some(told) = update {
        assert forall|hash: BlockHash|
            told.deactivated@.contains(hash) <==> hash == block.parent_hash && (hash == block.hash
                || old(overseer)@.active.contains_key(hash)) by {
            if told.deactivated@.len() > 0 {
                assert(told.deactivated@[0] == block.parent_hash);
            }
        }
    }
}

/// After an import the active leaves are those from before and the block, without its parent, each
/// under its number; the import of an active leaf changes nothing.
pub proof fn law_import_changes_the_leaves(
    overseer: &mut Overseer,
    block: BlockInfo,
    update: Option<ActiveLeavesUpdate>,
)
    requires
        call_ensures(Overseer::block_imported, (overseer, block), update),
    ensures
        old(overseer)@.active.contains_key(block.hash) ==> final(overseer)@ == old(overseer)@,
        !old(overseer)@.active.contains_key(block.hash) ==> forall|hash: BlockHash|
            {
                &&& #[trigger] final(overseer)@.active.contains_key(hash) <==> hash
                    != block.parent_hash && (hash == block.hash || old(overseer)@.active.contains_key(hash))
                &&& final(overseer)@.active.contains_key(hash) ==> final(overseer)@.active[hash]
                    == if hash == block.hash {
                    block.number
                } else {
                    old(overseer)@.active[hash]
                }
            },
        final(overseer)@.pending == old(overseer)@.pending,
        final(overseer)@.known_capacity == old(overseer)@.known_capacity,
{
}

/// A block that becomes an active leaf is the most recent of the known ones; the others follow as
/// they stood, as many as there is room for.
pub proof fn law_imported_block_is_known(
    overseer: &mut Overseer,
    block: BlockInfo,
    update: Option<ActiveLeavesUpdate>,
)
    requires
        call_ensures(Overseer::block_imported, (overseer, block), update),
        !old(overseer)@.active.contains_key(block.hash),
        old(overseer)@.known.no_duplicates(),
        old(overseer)@.known.len() <= old(overseer)@.known_capacity,
    ensures
        ({
            let capacity = old(overseer)@.known_capacity;
            let list = seq![block.hash] + old(overseer)@.known.filter(
                |other: BlockHash| other != block.hash,
            );
            final(overseer)@.known == if list.len() <= capacity {
                list
            } else {
                list.take(capacity as int)
            }
        }),
        final(overseer)@.known.no_duplicates(),
        final(overseer)@.known.len() <= final(overseer)@.known_capacity,
{
    law_cache_is_ordered_by_recency(
        old(overseer)@.known,
        old(overseer)@.known_capacity,
        block.hash,
    );
}

/// The loop tells the subsystem of every imported block that is not an active leaf yet: the block
/// is activated under its own hash and number, and its parent is deactivated exactly where that
/// was a leaf, or is the block itself. The import of an active leaf is passed over.
pub proof fn law_loop_reports_imports<SlotInfo, Message>(
    overseer: &mut Overseer,
    block: BlockInfo,
    action: RunAction<SlotInfo, Message>,
)
    requires
        call_ensures(
            Overseer::run::<SlotInfo, Message>,
            (overseer, RunInput::Received(Some(Event::BlockImported(block)))),
            action,
        ),
    ensures
        old(overseer)@.active.contains_key(block.hash) ==> action is ReceiveEvent,
        !old(overseer)@.active.contains_key(block.hash) ==> (
        action matches RunAction::UpdateActiveLeaves(told) && {
            &&& told.activated matches Some(leaf) && leaf.hash == block.hash && leaf.number
                == block.number
            &&& told.deactivated@.len() <= 1
            &&& forall|hash: BlockHash|
                told.deactivated@.contains(hash) <==> hash == block.parent_hash && (hash
                    == block.hash || old(overseer)@.active.contains_key(hash))
        }),
{
    if let RunAction::UpdateActiveLeaves(told) = action {
        assert forall|hash: BlockHash|
            told.deactivated@.contains(hash) <==> hash == block.parent_hash && (hash == block.hash
                || old(overseer)@.active.contains_key(hash)) by {
            if told.deactivated@.len() > 0 {
                assert(told.deactivated@[0] == block.parent_hash);
            }
        }
    }
}

/// After the loop has taken an imported block that was not an active leaf, the active leaves are
/// those from before and the block, without its parent, each under its number.
pub proof fn law_loop_follows_imports<SlotInfo, Message>(
    overseer: &mut Overseer,
    block: BlockInfo,
    action: RunAction<SlotInfo, Message>,
)
    requires
        call_ensures(
            Overseer::run::<SlotInfo, Message>,
            (overseer, RunInput::Received(Some(Event::BlockImported(block)))),
            action,
        ),
    ensures
        old(overseer)@.active.contains_key(block.hash) ==> final(overseer)@ == old(overseer)@,
        !old(overseer)@.active.contains_key(block.hash) ==> forall|hash: BlockHash|
            {
                &&& #[trigger] final(overseer)@.active.contains_key(hash) <==> hash
                    != block.parent_hash && (hash == block.hash || old(overseer)@.active.contains_key(hash))
                &&& final(overseer)@.active.contains_key(hash) ==> final(overseer)@.active[hash]
                    == if hash == block.hash {
                    block.number
                } else {
                    old(overseer)@.active[hash]
                }
            },
        final(overseer)@.pending == old(overseer)@.pending,
        final(overseer)@.known_capacity == old(overseer)@.known_capacity,
{
}

/// The loop does with an imported block what the import of the block does.
pub proof fn law_loop_imports<SlotInfo, Message>(
    looped: &mut Overseer,
    imported: &mut Overseer,
    block: BlockInfo,
    action: RunAction<SlotInfo, Message>,
    update: Option<ActiveLeavesUpdate>,
)
    requires
        old(looped)@ == old(imported)@,
        call_ensures(
            Overseer::run::<SlotInfo, Message>,
            (looped, RunInput::Received(Some(Event::BlockImported(block)))),
            action,
        ),
        call_ensures(Overseer::block_imported, (imported, block), update),
    ensures
        final(looped)@ == final(imported)@,
        match update {
            Some(told) => action matches RunAction::UpdateActiveLeaves(says) && says@ == told@,
            None => action is ReceiveEvent,
        },
{
}

/// A fork stands beside its sibling: once two different blocks on the same parent have been
/// imported, both new, both are active leaves under their numbers, and their parent is none.
pub proof fn law_forks_are_both_active(
    first: &mut Overseer,
    second: &mut Overseer,
    block: BlockInfo,
    fork: BlockInfo,
    update: Option<ActiveLeavesUpdate>,
    fork_update: Option<ActiveLeavesUpdate>,
)
    requires
        block.parent_hash == fork.parent_hash,
        block.hash != fork.hash,
        block.hash != block.parent_hash,
        fork.hash != fork.parent_hash,
        !old(first)@.active.contains_key(block.hash),
        !old(first)@.active.contains_key(fork.hash),
        call_ensures(Overseer::block_imported, (first, block), update),
        old(second)@ == final(first)@,
        call_ensures(Overseer::block_imported, (second, fork), fork_update),
    ensures
        final(second)@.active.contains_key(block.hash),
        final(second)@.active[block.hash] == block.number,
        final(second)@.active.contains_key(fork.hash),
        final(second)@.active[fork.hash] == fork.number,
        !final(second)@.active.contains_key(block.parent_hash),
        fork_update matches Some(told) && told.deactivated@.len() == 0,
{
}

/// While leaves of the startup are left, the loop takes the first of them: the subsystem is told to
/// start work on it, it becomes active under its number and the most recent known leaf, and
/// nothing else changes. When none is left, the next event is waited for.
pub proof fn law_loop_starts_with_the_leaves<SlotInfo, Message>(
    overseer: &mut Overseer,
    action: RunAction<SlotInfo, Message>,
)
    requires
        call_ensures(
            Overseer::run::<SlotInfo, Message>,
            (overseer, RunInput::<SlotInfo, Message>::Ready),
            action,
        ),
    ensures
        old(overseer)@.pending.len() == 0 ==> action is ReceiveEvent && final(overseer)@ == old(overseer)@,
        old(overseer)@.pending.len() > 0 ==> {
            let (hash, number) = old(overseer)@.pending[0];
            &&& action matches RunAction::UpdateActiveLeaves(told) && {
                &&& told.activated matches Some(leaf) && leaf.hash == hash && leaf.number == number
                &&& told.deactivated@.len() == 0
            }
            &&& old(overseer)@.pending == seq![(hash, number)] + final(overseer)@.pending
            &&& forall|other: BlockHash|
                {
                    &&& #[trigger] final(overseer)@.active.contains_key(other) <==> other == hash
                        || old(overseer)@.active.contains_key(other)
                    &&& final(overseer)@.active.contains_key(other) ==> final(overseer)@.active[other] == if other == hash {
                        number
                    } else {
                        old(overseer)@.active[other]
                    }
                }
            &&& final(overseer)@.known_capacity > 0 ==> final(overseer)@.known.len() > 0 && final(overseer)@.known[0] == hash
        },
        final(overseer)@.known_capacity == old(overseer)@.known_capacity,
{
    if old(overseer)@.pending.len() > 0 {
        assert(old(overseer)@.pending =~= seq![old(overseer)@.pending[0]]
            + old(overseer)@.pending.drop_first());
    }
}

/// The known leaves after a leaf of the startup: that leaf, then the others as they stood, as many
/// as there is room for.
pub proof fn law_started_leaf_is_known<SlotInfo, Message>(
    overseer: &mut Overseer,
    action: RunAction<SlotInfo, Message>,
)
    requires
        call_ensures(
            Overseer::run::<SlotInfo, Message>,
            (overseer, RunInput::<SlotInfo, Message>::Ready),
            action,
        ),
        old(overseer)@.pending.len() > 0,
        old(overseer)@.known.no_duplicates(),
        old(overseer)@.known.len() <= old(overseer)@.known_capacity,
    ensures
        ({
            let hash = old(overseer)@.pending[0].0;
            let capacity = old(overseer)@.known_capacity;
            let list = seq![hash] + old(overseer)@.known.filter(|other: BlockHash| other != hash);
            final(overseer)@.known == if list.len() <= capacity {
                list
            } else {
                list.take(capacity as int)
            }
        }),
{
    law_cache_is_ordered_by_recency(
        old(overseer)@.known,
        old(overseer)@.known_capacity,
        old(overseer)@.pending[0].0,
    );
}

/// Every other event leaves the overseer as it was: a message is handed on as it is, the subsystem
/// is told of a slot as it came, a finalized block is passed over, and when no more events come the
/// loop is finished, and only then.
pub proof fn law_loop_passes_on_the_rest<SlotInfo, Message>(
    overseer: &mut Overseer,
    received: Option<Event<SlotInfo, Message>>,
    action: RunAction<SlotInfo, Message>,
)
    requires
        call_ensures(
            Overseer::run::<SlotInfo, Message>,
            (overseer, RunInput::Received(received)),
            action,
        ),
    ensures
        call_requires(
            Overseer::run::<SlotInfo, Message>,
            (overseer, RunInput::Received(received)),
        ),
        action is Finish <==> received is None,
        received matches Some(Event::MsgToSubsystem(message)) ==> action == RunAction::<
            SlotInfo,
            Message,
        >::HandleMessage(message),
        received matches Some(Event::NewSlot(slot_info)) ==> action == RunAction::<
            SlotInfo,
            Message,
        >::UpdateNewSlot(slot_info),
        received matches Some(Event::BlockFinalized(_)) ==> action is ReceiveEvent,
        !(received matches Some(Event::BlockImported(_))) ==> final(overseer)@ == old(overseer)@,
{
}

/// A new overseer has all of its leaves still to start, and shows the active and the known leaves
/// that it was given.
pub proof fn law_new_overseer(
    leaves: Vec<(BlockHash, BlockNumber)>,
    active_leaves: BTreeMap<BlockHash, BlockNumber>,
    known_leaves: LruCache<BlockHash, ()>,
    overseer: Overseer,
)
    requires
        call_ensures(Overseer::new, (leaves, active_leaves, known_leaves), overseer),
    ensures
        overseer@.pending == leaves@,
        overseer@.active == active_leaves@,
        overseer@.known == cached_hashes(known_leaves),
        overseer@.known_capacity == cache_capacity(known_leaves),
{
}

/// What an overseer shows is what it remembers.
pub proof fn law_overseer_shows_its_leaves(
    overseer: Overseer,
    active: &BTreeMap<BlockHash, BlockNumber>,
    known: &LruCache<BlockHash, ()>,
)
    requires
        call_ensures(Overseer::active_leaves, (&overseer,), active),
        call_ensures(Overseer::known_leaves, (&overseer,), known),
    ensures
        active@ == overseer@.active,
        cached_hashes(*known) == overseer@.known,
        cache_capacity(*known) == overseer@.known_capacity,
{
}

/// The numbers on record disagree with a block exactly where it is an active leaf with another
/// number, or it is none and its parent is a leaf that is not one block below, or it is none and
/// its own parent and not the lowest block.
pub proof fn law_when_numbers_agree(overseer: Overseer, block: BlockInfo, agrees: bool)
    requires
        call_ensures(Overseer::agrees_with, (&overseer, &block), agrees),
    ensures
        !agrees <==> {
            ||| overseer@.active.contains_key(block.hash) && overseer@.active[block.hash]
                != block.number
            ||| !overseer@.active.contains_key(block.hash) && block.parent_hash == block.hash
                && block.number > 0
            ||| !overseer@.active.contains_key(block.hash) && block.parent_hash != block.hash
                && overseer@.active.contains_key(block.parent_hash) && block.number > 0
                && overseer@.active[block.parent_hash] + 1 != block.number
            ||| !overseer@.active.contains_key(block.hash) && block.parent_hash != block.hash
                && overseer@.active.contains_key(block.parent_hash) && block.number == 0
                && overseer@.active[block.parent_hash] > 0
        },
{
}

/// The block that an import notification tells of has the notified hash, and the parent and the
/// number of the notified header.
pub proof fn law_imported_block_is_the_notified_one(n: BlockImportNotification, block: BlockInfo)
    requires
        call_ensures(<BlockInfo as From<BlockImportNotification>>::from, (n,), block),
    ensures
        block.hash == n.hash,
        block.parent_hash == n.header.parent_hash,
        block.number == n.header.number,
{
}

/// The block that a finality notification tells of has the notified hash, and the parent and the
/// number of the notified header.
pub proof fn law_finalized_block_is_the_notified_one(n: FinalityNotification, block: BlockInfo)
    requires
        call_ensures(<BlockInfo as From<FinalityNotification>>::from, (n,), block),
    ensures
        block.hash == n.hash,
        block.parent_hash == n.header.parent_hash,
        block.number == n.header.number,
{
}

/// An imported block is forwarded as imported, and with the hash, the parent and the number that
/// the client notified.
pub proof fn law_imports_are_forwarded_as_notified<SlotInfo, Message>(
    n: BlockImportNotification,
    step: Forward<SlotInfo, Message>,
)
    requires
        call_ensures(
            forward_events::<SlotInfo, Message>,
            (Arrival::<SlotInfo>::Import(Some(n)),),
            step,
        ),
    ensures
        step matches Forward::Send(event) && event matches Event::BlockImported(block) && {
            &&& block.hash == n.hash
            &&& block.parent_hash == n.header.parent_hash
            &&& block.number == n.header.number
        },
{
}

/// A finalized block is forwarded as finalized, and with the hash, the parent and the number that
/// the client notified.
pub proof fn law_finality_is_forwarded_as_notified<SlotInfo, Message>(
    n: FinalityNotification,
    step: Forward<SlotInfo, Message>,
)
    requires
        call_ensures(
            forward_events::<SlotInfo, Message>,
            (Arrival::<SlotInfo>::Finality(Some(n)),),
            step,
        ),
    ensures
        step matches Forward::Send(event) && event matches Event::BlockFinalized(block) && {
            &&& block.hash == n.hash
            &&& block.parent_hash == n.header.parent_hash
            &&& block.number == n.header.number
        },
{
}

/// A slot is forwarded as it came; the forwarding waits on exactly when the finality notifications
/// end, and stops exactly when the imports or the slots do.
pub proof fn law_slots_are_forwarded_and_ends_are_seen<SlotInfo, Message>(
    arrival: Arrival<SlotInfo>,
    step: Forward<SlotInfo, Message>,
)
    requires
        call_ensures(forward_events::<SlotInfo, Message>, (arrival,), step),
    ensures
        arrival matches Arrival::Slot(Some(slot_info)) ==> step == Forward::<
            SlotInfo,
            Message,
        >::Send(Event::NewSlot(slot_info)),
        step is Wait <==> arrival == Arrival::<SlotInfo>::Finality(None),
        step is Stop <==> {
            ||| arrival == Arrival::<SlotInfo>::Import(None)
            ||| arrival == Arrival::<SlotInfo>::Slot(None)
            ||| arrival is Complete
        },
{
}

/// A block that is forwarded and then taken by the loop is activated under the hash and the number
/// that the client notified.
pub proof fn law_notified_blocks_are_activated<SlotInfo, Message>(
    overseer: &mut Overseer,
    n: BlockImportNotification,
    step: Forward<SlotInfo, Message>,
    action: RunAction<SlotInfo, Message>,
)
    requires
        call_ensures(
            forward_events::<SlotInfo, Message>,
            (Arrival::<SlotInfo>::Import(Some(n)),),
            step,
        ),
        step matches Forward::Send(event) && call_ensures(
            Overseer::run::<SlotInfo, Message>,
            (overseer, RunInput::Received(Some(event))),
            action,
        ),
        !old(overseer)@.active.contains_key(n.hash),
        n.hash != n.header.parent_hash,
    ensures
        final(overseer)@.active.contains_key(n.hash),
        final(overseer)@.active[n.hash] == n.header.number,
        !final(overseer)@.active.contains_key(n.header.parent_hash),
        action matches RunAction::UpdateActiveLeaves(told) && told.activated matches Some(leaf)
            && leaf.hash == n.hash && leaf.number == n.header.number,
{
}

/// A handle reports blocks, slots and messages as they are.
pub proof fn law_handle_reports_as_is<SlotInfo, Message>(
    block: BlockInfo,
    slot_info: SlotInfo,
    message: Message,
    imported: Event<SlotInfo, Message>,
    finalized: Event<SlotInfo, Message>,
    slot: Event<SlotInfo, Message>,
    sent: Event<SlotInfo, Message>,
)
    requires
        call_ensures(Handle::block_imported::<SlotInfo, Message>, (block,), imported),
        call_ensures(Handle::block_finalized::<SlotInfo, Message>, (block,), finalized),
        call_ensures(Handle::slot_arrived::<SlotInfo, Message>, (slot_info,), slot),
        call_ensures(Handle::send_msg::<SlotInfo, Message>, (message,), sent),
    ensures
        imported == Event::<SlotInfo, Message>::BlockImported(block),
        finalized == Event::<SlotInfo, Message>::BlockFinalized(block),
        slot == Event::<SlotInfo, Message>::NewSlot(slot_info),
        sent == Event::<SlotInfo, Message>::MsgToSubsystem(message),
{
}

/// What a handle is asked to submit reaches the subsystem as a message of its own kind, as it is.
pub proof fn law_handle_submits_as_is<SlotInfo, C, B, F, I>(
    config: C,
    bundle_proof: B,
    fraud_proof: F,
    transaction_proof: I,
    initialize: Event<SlotInfo, CollationGenerationMessage<C, B, F, I>>,
    bundle: Event<SlotInfo, CollationGenerationMessage<C, B, F, I>>,
    fraud: Event<SlotInfo, CollationGenerationMessage<C, B, F, I>>,
    transaction: Event<SlotInfo, CollationGenerationMessage<C, B, F, I>>,
)
    requires
        call_ensures(Handle::initialize::<SlotInfo, C, B, F, I>, (config,), initialize),
        call_ensures(
            Handle::submit_bundle_equivocation_proof::<SlotInfo, C, B, F, I>,
            (bundle_proof,),
            bundle,
        ),
        call_ensures(
            Handle::submit_fraud_proof::<SlotInfo, C, B, F, I>,
            (fraud_proof,),
            fraud,
        ),
        call_ensures(
            Handle::submit_invalid_transaction_proof::<SlotInfo, C, B, F, I>,
            (transaction_proof,),
            transaction,
        ),
    ensures
        initialize matches Event::MsgToSubsystem(message)
            && message matches CollationGenerationMessage::Initialize(held) && held == config,
        bundle matches Event::MsgToSubsystem(message)
            && message matches CollationGenerationMessage::BundleEquivocationProof(held) && held
            == bundle_proof,
        fraud matches Event::MsgToSubsystem(message)
            && message matches CollationGenerationMessage::FraudProof(held) && held == fraud_proof,
        transaction matches Event::MsgToSubsystem(message)
            && message matches CollationGenerationMessage::InvalidTransactionProof(held) && held
            == transaction_proof,
{
}

/// Two updates are equal exactly when they activate the same hash, or neither does, and every hash
/// is deactivated by both or by neither.
pub proof fn law_when_updates_are_equal(
    update: ActiveLeavesUpdate,
    other: ActiveLeavesUpdate,
    equal: bool,
)
    requires
        call_ensures(<ActiveLeavesUpdate as PartialEq>::eq, (&update, &other), equal),
    ensures
        equal <==> {
            &&& match (update.activated, other.activated) {
                (Some(leaf), Some(other_leaf)) => leaf.hash == other_leaf.hash,
                (None, None) => true,
                _ => false,
            }
            &&& forall|hash: BlockHash|
                update.deactivated@.contains(hash) <==> other.deactivated@.contains(hash)
        },
{
    let left = update@.deactivated_set();
    let right = other@.deactivated_set();
    assert forall|hash: BlockHash| true implies (left.contains(hash)
        <==> update.deactivated@.contains(hash)) && (right.contains(hash)
        <==> other.deactivated@.contains(hash)) by {}
    if forall|hash: BlockHash|
        update.deactivated@.contains(hash) <==> other.deactivated@.contains(hash) {
        assert(left =~= right);
    }
    if left == right {
        assert forall|hash: BlockHash|
            update.deactivated@.contains(hash) <==> other.deactivated@.contains(hash) by {
            assert(left.contains(hash) <==> right.contains(hash));
        }
    }
    if update@.activated_set() == other@.activated_set() {
        if let Some(leaf) = update.activated {
            assert(update@.activated_set().contains(leaf.hash));
        }
        if let Some(leaf) = other.activated {
            assert(other@.activated_set().contains(leaf.hash));
        }
    } else if let (Some(leaf), Some(other_leaf)) = (update.activated, other.activated) {
        assert(leaf.hash != other_leaf.hash);
    }
}

/// Starting work on a leaf activates that leaf and deactivates nothing, stopping work on a hash
/// deactivates that hash and activates nothing, and the default does neither; an update is empty
/// exactly if it does neither.
pub proof fn law_updates_say_what_they_are_made_of(
    leaf: ActivatedLeaf,
    hash: BlockHash,
    start: ActiveLeavesUpdate,
    stop: ActiveLeavesUpdate,
    neither: ActiveLeavesUpdate,
    update: ActiveLeavesUpdate,
    empty: bool,
)
    requires
        call_ensures(ActiveLeavesUpdate::start_work, (leaf,), start),
        call_ensures(ActiveLeavesUpdate::stop_work, (hash,), stop),
        call_ensures(<ActiveLeavesUpdate as Default>::default, (), neither),
        call_ensures(ActiveLeavesUpdate::is_empty, (&update,), empty),
    ensures
        start.activated == Some(leaf),
        start.deactivated@.len() == 0,
        stop.activated is None,
        stop.deactivated@ == seq![hash],
        neither.activated is None,
        neither.deactivated@.len() == 0,
        empty <==> update.activated is None && forall|other: BlockHash|
            !update.deactivated@.contains(other),
{
    if update.deactivated@.len() > 0 {
        assert(update.deactivated@.contains(update.deactivated@[0]));
    }
}

/// Copies of blocks, leaves and updates say what their models say.
pub proof fn law_copies_say_the_same(
    block: BlockInfo,
    leaf: ActivatedLeaf,
    update: ActiveLeavesUpdate,
    block_copy: BlockInfo,
    leaf_copy: ActivatedLeaf,
    update_copy: ActiveLeavesUpdate,
)
    requires
        call_ensures(<BlockInfo as Clone>::clone, (&block,), block_copy),
        call_ensures(<ActivatedLeaf as Clone>::clone, (&leaf,), leaf_copy),
        call_ensures(<ActiveLeavesUpdate as Clone>::clone, (&update,), update_copy),
    ensures
        block_copy == block,
        leaf_copy == leaf,
        update_copy.activated == update.activated,
        update_copy.deactivated@ == update.deactivated@,
{
}

/// A pushed hash comes last, behind those that were there, and each hash that is there is found.
/// Hashes can be pushed as long as twice their bytes fit in the largest allocation.
pub proof fn law_deactivated_hashes_are_a_list(
    leaves: &mut DeactivatedLeaves,
    hash: BlockHash,
    looked_for: BlockHash,
    found: bool,
    slice: &[BlockHash],
)
    requires
        64 * (old(leaves)@.len() + 1) <= isize::MAX,
        call_ensures(DeactivatedLeaves::push, (leaves, hash), ()),
        call_ensures(DeactivatedLeaves::contains, (&*final(leaves), &looked_for), found),
        call_ensures(DeactivatedLeaves::as_slice, (&*final(leaves),), slice),
    ensures
        call_requires(DeactivatedLeaves::push, (leaves, hash)),
        final(leaves)@.len() == old(leaves)@.len() + 1,
        final(leaves)@.last() == hash,
        forall|i: int| 0 <= i < old(leaves)@.len() ==> final(leaves)@[i] == old(leaves)@[i],
        slice@ == final(leaves)@,
        found <==> looked_for == hash || old(leaves)@.contains(looked_for),
{
    assert(final(leaves)@.last() == hash);
    if old(leaves)@.contains(looked_for) {
        let i = old(leaves)@.index_of(looked_for);
        assert(final(leaves)@[i] == looked_for);
    }
    if final(leaves)@.contains(looked_for) && looked_for != hash {
        let i = final(leaves)@.index_of(looked_for);
        assert(old(leaves)@[i] == looked_for);
    }
}

/// Hashes are the same exactly when both of their halves are.
pub proof fn law_same_hash(left: BlockHash, right: BlockHash, same: bool)
    requires
        call_ensures(same_hash, (&left, &right), same),
    ensures
        same <==> left.0 == right.0 && left.1 == right.1,
{
}

} // verus!
