//! What holds of the overseer as a whole.
use crate::overseer::events::{forwarding, Arrival, BlockInfo, Event, Forward};
use crate::overseer::known::{after_put, fits_cache};
use crate::overseer::leaves::{ActivatedLeaf, UpdateView};
use crate::overseer::state::{started, OverseerView, RunActionView, RunInput};
use crate::primitives::{BlockHash, BlockNumber};
use vstd::prelude::*;

verus! {

/// Equality of updates is an equivalence: reflexive, symmetric and transitive.
pub proof fn law_update_equality_is_equivalence(a: UpdateView, b: UpdateView, c: UpdateView)
    ensures
        a.same_as(a),
        a.same_as(b) ==> b.same_as(a),
        a.same_as(b) && b.same_as(c) ==> a.same_as(c),
{
}

/// Neither the order nor the number of times in which hashes are deactivated matters to the
/// equality of updates.
pub proof fn law_update_equality_ignores_order(a: UpdateView, b: UpdateView)
    requires
        a.activated == b.activated,
        forall|hash: BlockHash| a.deactivated.contains(hash) <==> b.deactivated.contains(hash),
    ensures
        a.same_as(b),
{
    assert(a.deactivated_set() =~= b.deactivated_set());
}

/// An update is a delta: the leaves that are active after an import are those that were active
/// before it, with the activated ones added and the deactivated ones taken away.
pub proof fn law_update_is_delta(state: OverseerView, block: BlockInfo)
    ensures
        match state.import_update(block) {
            Some(update) => state.import(block).active.dom() == state.active.dom().union(
                update.activated_set(),
            ).difference(update.deactivated_set()),
            None => state.import(block) == state,
        },
{
    if let Some(update) = state.import_update(block) {
        let next = state.import(block).active.dom();
        let delta = state.active.dom().union(update.activated_set()).difference(
            update.deactivated_set(),
        );
        assert(seq![block.parent_hash][0] == block.parent_hash);
        assert forall|hash: BlockHash| next.contains(hash) <==> delta.contains(hash) by {
            if hash == block.parent_hash && update.deactivated.len() > 0 {
                assert(update.deactivated[0] == hash);
            }
        }
        assert(next =~= delta);
    }
}

/// A block that was just imported, and is not its own parent, is active under its number, while
/// its parent is not active; every other leaf is as it was.
pub proof fn law_import_replaces_parent(state: OverseerView, block: BlockInfo, other: BlockHash)
    requires
        !state.active.contains_key(block.hash),
        block.hash != block.parent_hash,
        other != block.hash,
        other != block.parent_hash,
    ensures
        state.import(block).active.contains_key(block.hash),
        state.import(block).active[block.hash] == block.number,
        !state.import(block).active.contains_key(block.parent_hash),
        state.import(block).active.contains_key(other) == state.active.contains_key(other),
        state.active.contains_key(other) ==> state.import(block).active[other]
            == state.active[other],
{
}

/// Importing a block a second time changes nothing and tells the subsystem nothing.
pub proof fn law_import_is_idempotent(state: OverseerView, block: BlockInfo)
    requires
        block.hash != block.parent_hash,
    ensures
        state.import(block).import(block) == state.import(block),
        state.import(block).import_update(block) is None,
{
}

/// Every update that an import calls for activates the imported block and deactivates its parent
/// or nothing.
pub proof fn law_import_update_shape(state: OverseerView, block: BlockInfo)
    ensures
        state.import_update(block) matches Some(update) ==> {
            &&& !update.is_empty()
            &&& update.activated matches Some(leaf) && leaf.hash == block.hash && leaf.number
                == block.number
            &&& update.deactivated.len() <= 1
            &&& forall|i: int|
                0 <= i < update.deactivated.len() ==> update.deactivated[i] == block.parent_hash
        },
{
}

/// An import never leaves fewer active leaves than there were.
pub proof fn law_import_keeps_leaf_count(state: OverseerView, block: BlockInfo)
    requires
        state.active.dom().finite(),
        block.hash != block.parent_hash,
    ensures
        state.import(block).active.dom().finite(),
        state.import(block).active.dom().len() >= state.active.dom().len(),
{
}

/// Whether every active leaf carries the number that `number_of` gives it.
pub open spec fn numbered_by(
    active: Map<BlockHash, BlockNumber>,
    number_of: spec_fn(BlockHash) -> BlockNumber,
) -> bool {
    forall|hash: BlockHash| #[trigger] active.contains_key(hash) ==> active[hash] == number_of(hash)
}

/// The numbers on record disagree with a block other than its own parent exactly where it is an
/// active leaf with another number, or is none and its parent is one that is not one block below;
/// nothing is below the first block but itself.
pub proof fn law_when_numbers_disagree(state: OverseerView, block: BlockInfo)
    requires
        block.hash != block.parent_hash,
    ensures
        !state.agrees_with(block) <==> if state.active.contains_key(block.hash) {
            state.active[block.hash] != block.number
        } else {
            state.active.contains_key(block.parent_hash) && state.active[block.parent_hash] != (
            if block.number == 0 {
                0
            } else {
                block.number - 1
            })
        },
{
}

/// On one chain, where each hash has one number and a parent is one block below its child, the
/// numbers on record always agree with the imported blocks.
pub proof fn law_numbers_stay_consistent(
    state: OverseerView,
    block: BlockInfo,
    number_of: spec_fn(BlockHash) -> BlockNumber,
)
    requires
        numbered_by(state.active, number_of),
        block.number == number_of(block.hash),
        block.number == 0 ==> number_of(block.parent_hash) == 0,
        block.number > 0 ==> number_of(block.parent_hash) + 1 == block.number,
    ensures
        state.agrees_with(block),
        numbered_by(state.import(block).active, number_of),
{
}

/// The startup keeps the numbers consistent if its leaves carry theirs.
pub proof fn law_startup_keeps_numbers_consistent(
    state: OverseerView,
    number_of: spec_fn(BlockHash) -> BlockNumber,
)
    requires
        numbered_by(state.active, number_of),
        forall|i: int|
            0 <= i < state.pending.len() ==> (#[trigger] state.pending[i]).1 == number_of(
                state.pending[i].0,
            ),
    ensures
        numbered_by(startup(state).0.active, number_of),
    decreases state.pending.len(),
{
    if state.pending.len() > 0 {
        let next = state.start_next();
        assert(state.pending[0].1 == number_of(state.pending[0].0));
        assert forall|i: int| 0 <= i < next.pending.len() implies (#[trigger] next.pending[i]).1
            == number_of(next.pending[i].0) by {
            assert(next.pending[i] == state.pending[i + 1]);
        }
        law_startup_keeps_numbers_consistent(next, number_of);
    }
}

/// Whether no active leaf is the parent of another.
pub open spec fn no_leaf_is_parent(
    active: Map<BlockHash, BlockNumber>,
    parent_of: spec_fn(BlockHash) -> BlockHash,
) -> bool {
    forall|hash: BlockHash|
        active.contains_key(hash) ==> !active.contains_key(#[trigger] parent_of(hash))
}

/// As long as no block is imported after its own child, the active leaves are heads: no active
/// leaf is the parent of another.
pub proof fn law_leaves_are_heads(
    state: OverseerView,
    block: BlockInfo,
    parent_of: spec_fn(BlockHash) -> BlockHash,
)
    requires
        no_leaf_is_parent(state.active, parent_of),
        block.parent_hash == parent_of(block.hash),
        block.hash != block.parent_hash,
        forall|hash: BlockHash|
            state.active.contains_key(hash) ==> #[trigger] parent_of(hash) != block.hash,
    ensures
        no_leaf_is_parent(state.import(block).active, parent_of),
{
}

/// The states and updates of the startup, one step of the loop for each pending leaf.
pub open spec fn startup(state: OverseerView) -> (OverseerView, Seq<UpdateView>)
    decreases state.pending.len(),
{
    if state.pending.len() == 0 {
        (state, Seq::empty())
    } else {
        let (next, action) = state.run(RunInput::<(), ()>::Ready);
        let (end, updates) = startup(next);
        match action {
            RunActionView::UpdateActiveLeaves(update) => (end, seq![update] + updates),
            _ => (end, updates),
        }
    }
}

/// The first event is waited for only once the subsystem has been told of all the leaves of the
/// startup.
pub proof fn law_events_wait_for_startup<SlotInfo, Message>(state: OverseerView)
    ensures
        state.run(RunInput::<SlotInfo, Message>::Ready).1 is ReceiveEvent <==> state.pending.len()
            == 0,
{
}

/// The active leaves once `leaves` have been activated in order; the last number given wins.
pub open spec fn with_leaves(
    active: Map<BlockHash, BlockNumber>,
    leaves: Seq<(BlockHash, BlockNumber)>,
) -> Map<BlockHash, BlockNumber>
    decreases leaves.len(),
{
    if leaves.len() == 0 {
        active
    } else {
        with_leaves(active.insert(leaves[0].0, leaves[0].1), leaves.drop_first())
    }
}

/// The startup notifies about each leaf once, in order, before any event is waited for; at its
/// end exactly the given leaves have joined the active ones.
pub proof fn law_startup(state: OverseerView)
    ensures
        startup(state).0.pending.len() == 0,
        startup(state).0.active == with_leaves(state.active, state.pending),
        startup(state).0.known_capacity == state.known_capacity,
        startup(state).0.known == after_puts(
            state.known,
            state.known_capacity,
            state.pending.map_values(|leaf: (BlockHash, BlockNumber)| leaf.0),
        ),
        startup(state).1 == state.pending.map_values(
            |leaf: (BlockHash, BlockNumber)|
                UpdateView {
                    activated: Some(ActivatedLeaf { hash: leaf.0, number: leaf.1 }),
                    deactivated: Seq::empty(),
                },
        ),
    decreases state.pending.len(),
{
    let hashes = state.pending.map_values(|leaf: (BlockHash, BlockNumber)| leaf.0);
    let updates = state.pending.map_values(
        |leaf: (BlockHash, BlockNumber)|
            UpdateView {
                activated: Some(ActivatedLeaf { hash: leaf.0, number: leaf.1 }),
                deactivated: Seq::empty(),
            },
    );
    if state.pending.len() == 0 {
        assert(startup(state).1 =~= updates);
        assert(hashes =~= Seq::empty());
    } else {
        let next = state.start_next();
        law_startup(next);
        assert(hashes.drop_first() =~= next.pending.map_values(
            |leaf: (BlockHash, BlockNumber)| leaf.0,
        ));
        assert(startup(state).1 =~= updates);
    }
}

/// What a cache holds once all of `hashes` have been put into it in order.
pub open spec fn after_puts(
    cached: Seq<BlockHash>,
    capacity: nat,
    hashes: Seq<BlockHash>,
) -> Seq<BlockHash>
    decreases hashes.len(),
{
    if hashes.len() == 0 {
        cached
    } else {
        after_puts(after_put(cached, capacity, hashes[0]), capacity, hashes.drop_first())
    }
}

/// Without a hash that is not there, hashes are what they are.
proof fn lemma_without_absent(hashes: Seq<BlockHash>, hash: BlockHash)
    requires
        forall|i: int| 0 <= i < hashes.len() ==> hashes[i] != hash,
    ensures
        hashes.filter(|other: BlockHash| other != hash) == hashes,
    decreases hashes.len(),
{
    reveal(Seq::filter);
    if hashes.len() > 0 {
        lemma_without_absent(hashes.drop_last(), hash);
        assert(hashes.drop_last().push(hashes.last()) =~= hashes);
    }
}

/// Without the hash at `at`, which is there only once, the others stand as they stood.
proof fn lemma_without_present(hashes: Seq<BlockHash>, at: int, hash: BlockHash)
    requires
        0 <= at < hashes.len(),
        hashes[at] == hash,
        forall|i: int| 0 <= i < hashes.len() && i != at ==> hashes[i] != hash,
    ensures
        hashes.filter(|other: BlockHash| other != hash) == hashes.remove(at),
    decreases hashes.len(),
{
    reveal(Seq::filter);
    let before = hashes.drop_last();
    if at == hashes.len() - 1 {
        lemma_without_absent(before, hash);
        assert(hashes.remove(at) =~= before);
    } else {
        lemma_without_present(before, at, hash);
        assert(hashes.remove(at) =~= before.remove(at).push(hashes.last()));
    }
}

/// The cache is a list by recency: a hash that is put comes first, the others follow as they
/// stood, and as many of them are kept as the capacity admits.
pub proof fn law_cache_is_ordered_by_recency(
    cached: Seq<BlockHash>,
    capacity: nat,
    hash: BlockHash,
)
    requires
        cached.no_duplicates(),
        cached.len() <= capacity,
    ensures
        ({
            let list = seq![hash] + cached.filter(|other: BlockHash| other != hash);
            after_put(cached, capacity, hash) == if list.len() <= capacity {
                list
            } else {
                list.take(capacity as int)
            }
        }),
{
    if cached.contains(hash) {
        let at = cached.index_of(hash);
        assert(cached[at] == hash);
        lemma_without_present(cached, at, hash);
    } else {
        lemma_without_absent(cached, hash);
    }
    let list = seq![hash] + cached.filter(|other: BlockHash| other != hash);
    if list.len() > capacity {
        assert(!cached.contains(hash));
        assert(after_put(cached, capacity, hash) =~= list.take(capacity as int));
    }
}

/// The known leaves stay within their capacity, and none is listed twice.
pub proof fn law_known_leaves_bounded(cached: Seq<BlockHash>, capacity: nat, hash: BlockHash)
    requires
        fits_cache(cached, capacity),
    ensures
        fits_cache(after_put(cached, capacity, hash), capacity),
        capacity > 0 ==> after_put(cached, capacity, hash)[0] == hash,
{
    if cached.contains(hash) {
        let rest = cached.remove(cached.index_of(hash));
        let at = cached.index_of(hash);
        assert(cached[at] == hash);
        assert forall|i: int| 0 <= i < rest.len() implies rest[i] != hash by {
            if i < at {
                assert(rest[i] == cached[i]);
            } else {
                assert(rest[i] == cached[i + 1]);
            }
        }
    }
}

/// A hash at position `at` moves back by at most one place when another is put.
proof fn lemma_put_moves_back_by_one(
    cached: Seq<BlockHash>,
    capacity: nat,
    at: int,
    hash: BlockHash,
) -> (next: int)
    requires
        fits_cache(cached, capacity),
        0 <= at < cached.len(),
        at + 1 < capacity,
    ensures
        0 <= next <= at + 1,
        next < after_put(cached, capacity, hash).len(),
        after_put(cached, capacity, hash)[next] == cached[at],
{
    if cached.contains(hash) {
        let found = cached.index_of(hash);
        assert(cached[found] == hash);
        if found == at {
            0
        } else if found < at {
            at
        } else {
            at + 1
        }
    } else {
        at + 1
    }
}

/// A hash at position `at` outlasts so many puts as there are places behind it.
proof fn lemma_outlasts_puts(
    cached: Seq<BlockHash>,
    capacity: nat,
    at: int,
    hashes: Seq<BlockHash>,
)
    requires
        fits_cache(cached, capacity),
        0 <= at < cached.len(),
        at + hashes.len() < capacity,
    ensures
        after_puts(cached, capacity, hashes).contains(cached[at]),
    decreases hashes.len(),
{
    if hashes.len() > 0 {
        let next = lemma_put_moves_back_by_one(cached, capacity, at, hashes[0]);
        law_known_leaves_bounded(cached, capacity, hashes[0]);
        lemma_outlasts_puts(
            after_put(cached, capacity, hashes[0]),
            capacity,
            next,
            hashes.drop_first(),
        );
    }
}

/// The leaves seen last are known: as many as the capacity admits, whatever was known before.
pub proof fn law_recent_leaves_are_known(
    cached: Seq<BlockHash>,
    capacity: nat,
    hashes: Seq<BlockHash>,
    i: int,
)
    requires
        fits_cache(cached, capacity),
        hashes.len() <= capacity,
        0 <= i < hashes.len(),
    ensures
        after_puts(cached, capacity, hashes).contains(hashes[i]),
    decreases hashes.len(),
{
    let next = after_put(cached, capacity, hashes[0]);
    law_known_leaves_bounded(cached, capacity, hashes[0]);
    if i == 0 {
        lemma_outlasts_puts(next, capacity, 0, hashes.drop_first());
    } else {
        law_recent_leaves_are_known(next, capacity, hashes.drop_first(), i - 1);
        assert(hashes.drop_first()[i - 1] == hashes[i]);
    }
}

/// Messages and slots reach the subsystem as they came in, and leave the overseer as it was.
pub proof fn law_messages_and_slots_pass_through<SlotInfo, Message>(
    state: OverseerView,
    message: Message,
    slot_info: SlotInfo,
)
    ensures
        state.run(RunInput::<SlotInfo, Message>::Received(Some(Event::MsgToSubsystem(message))))
            == (state, RunActionView::<SlotInfo, Message>::HandleMessage(message)),
        state.run(RunInput::<SlotInfo, Message>::Received(Some(Event::NewSlot(slot_info)))) == (
            state,
            RunActionView::<SlotInfo, Message>::UpdateNewSlot(slot_info),
        ),
{
}

/// A finalized block leaves the overseer as it was, and the next event is waited for.
pub proof fn law_finality_changes_no_leaf<SlotInfo, Message>(state: OverseerView, block: BlockInfo)
    ensures
        state.run(RunInput::<SlotInfo, Message>::Received(Some(Event::BlockFinalized(block)))) == (
            state,
            RunActionView::<SlotInfo, Message>::ReceiveEvent,
        ),
{
}

/// Imported blocks, finalized blocks and slots are all forwarded as long as they come.
pub proof fn law_every_notification_is_forwarded<SlotInfo, Message>(arrival: Arrival<SlotInfo>)
    ensures
        forwarding::<SlotInfo, Message>(arrival) is Send <==> match arrival {
            Arrival::Import(n) => n is Some,
            Arrival::Finality(n) => n is Some,
            Arrival::Slot(slot_info) => slot_info is Some,
            Arrival::Complete => false,
        },
{
}

/// The state and the updates once `events` have been taken in order, one step of the loop each.
pub open spec fn after_events<SlotInfo, Message>(
    state: OverseerView,
    events: Seq<Event<SlotInfo, Message>>,
) -> (OverseerView, Seq<UpdateView>)
    decreases events.len(),
{
    if events.len() == 0 {
        (state, Seq::empty())
    } else {
        let (next, action) = state.run(RunInput::Received(Some(events[0])));
        let (end, updates) = after_events(next, events.drop_first());
        match action {
            RunActionView::UpdateActiveLeaves(update) => (end, seq![update] + updates),
            _ => (end, updates),
        }
    }
}

/// What a subsystem holds that starts from `leaves` and applies each update in turn.
pub open spec fn apply_updates(leaves: Set<BlockHash>, updates: Seq<UpdateView>) -> Set<BlockHash>
    decreases updates.len(),
{
    if updates.len() == 0 {
        leaves
    } else {
        apply_updates(
            leaves.union(updates[0].activated_set()).difference(updates[0].deactivated_set()),
            updates.drop_first(),
        )
    }
}

/// A subsystem that applies every update it is sent always holds the overseer's active leaves,
/// whatever events come in between.
pub proof fn law_updates_track_active_leaves<SlotInfo, Message>(
    state: OverseerView,
    events: Seq<Event<SlotInfo, Message>>,
)
    ensures
        apply_updates(state.active.dom(), after_events(state, events).1) == after_events(
            state,
            events,
        ).0.active.dom(),
    decreases events.len(),
{
    if events.len() > 0 {
        let (next, action) = state.run(RunInput::Received(Some(events[0])));
        law_updates_track_active_leaves(next, events.drop_first());
        let rest = after_events(next, events.drop_first()).1;
        if let Event::BlockImported(block) = events[0] {
            law_update_is_delta(state, block);
        }
        if let RunActionView::UpdateActiveLeaves(update) = action {
            assert((seq![update] + rest).drop_first() =~= rest);
        }
    }
}

/// The same of the startup: its updates carry the leaves that were active before it over to those
/// that are active at its end.
pub proof fn law_startup_updates_track_active_leaves(state: OverseerView)
    ensures
        apply_updates(state.active.dom(), startup(state).1) == startup(state).0.active.dom(),
    decreases state.pending.len(),
{
    if state.pending.len() > 0 {
        let next = state.start_next();
        law_startup_updates_track_active_leaves(next);
        let update = started(
            ActivatedLeaf { hash: state.pending[0].0, number: state.pending[0].1 },
        );
        let rest = startup(next).1;
        assert((seq![update] + rest).drop_first() =~= rest);
        assert(state.active.dom().union(update.activated_set()).difference(
            update.deactivated_set(),
        ) =~= next.active.dom());
    }
}

/// The known leaves are what the activated ones have left in the cache, in the order of the
/// updates.
pub proof fn law_known_leaves_follow_updates<SlotInfo, Message>(
    state: OverseerView,
    events: Seq<Event<SlotInfo, Message>>,
)
    ensures
        after_events(state, events).0.known_capacity == state.known_capacity,
        after_events(state, events).0.known == after_puts(
            state.known,
            state.known_capacity,
            after_events(state, events).1.map_values(
                |update: UpdateView| update.activated_hash()->0,
            ),
        ),
    decreases events.len(),
{
    let hash_of = |update: UpdateView| update.activated_hash()->0;
    if events.len() == 0 {
        assert(after_events(state, events).1.map_values(hash_of) =~= Seq::empty());
    } else {
        let (next, action) = state.run(RunInput::Received(Some(events[0])));
        law_known_leaves_follow_updates(next, events.drop_first());
        let rest = after_events(next, events.drop_first()).1;
        if let RunActionView::UpdateActiveLeaves(update) = action {
            assert((seq![update] + rest).map_values(hash_of).drop_first() =~= rest.map_values(
                hash_of,
            ));
        }
    }
}

/// The forwarding ends exactly when the imports or the slots do.
pub proof fn law_forwarding_stops_with_imports_or_slots<SlotInfo, Message>(
    arrival: Arrival<SlotInfo>,
)
    requires
        !(arrival is Complete),
    ensures
        forwarding::<SlotInfo, Message>(arrival) is Stop <==> arrival == Arrival::<
            SlotInfo,
        >::Import(None) || arrival == Arrival::<SlotInfo>::Slot(None),
{
}

/// The events that are sent for `arrivals`: the loop goes on until it stops.
pub open spec fn forwarded<SlotInfo, Message>(arrivals: Seq<Arrival<SlotInfo>>) -> Seq<
    Event<SlotInfo, Message>,
>
    decreases arrivals.len(),
{
    if arrivals.len() == 0 {
        Seq::empty()
    } else {
        match forwarding::<SlotInfo, Message>(arrivals[0]) {
            Forward::Send(event) => seq![event] + forwarded(arrivals.drop_first()),
            Forward::Wait => forwarded(arrivals.drop_first()),
            Forward::Stop => Seq::empty(),
        }
    }
}

/// The events that `arrivals` bring, in order: one for each that brings any.
pub open spec fn brought<SlotInfo, Message>(arrivals: Seq<Arrival<SlotInfo>>) -> Seq<
    Event<SlotInfo, Message>,
> {
    arrivals.filter(
        |arrival: Arrival<SlotInfo>| forwarding::<SlotInfo, Message>(arrival) is Send,
    ).map_values(
        |arrival: Arrival<SlotInfo>| forwarding::<SlotInfo, Message>(arrival)->Send_0,
    )
}

/// As long as neither the imports nor the slots end, everything that arrives is forwarded, in
/// order and once, and the forwarding goes on with what comes next; the end of the finality
/// notifications changes nothing.
pub proof fn law_forwarding_goes_on<SlotInfo, Message>(
    arrivals: Seq<Arrival<SlotInfo>>,
    next: Seq<Arrival<SlotInfo>>,
)
    requires
        forall|i: int|
            0 <= i < arrivals.len() ==> !(#[trigger] forwarding::<SlotInfo, Message>(
                arrivals[i],
            ) is Stop),
    ensures
        forwarded::<SlotInfo, Message>(arrivals + next) == brought::<SlotInfo, Message>(arrivals)
            + forwarded::<SlotInfo, Message>(next),
    decreases arrivals.len(),
{
    let brings = |arrival: Arrival<SlotInfo>| forwarding::<SlotInfo, Message>(arrival) is Send;
    let event_of = |arrival: Arrival<SlotInfo>| forwarding::<SlotInfo, Message>(arrival)->Send_0;
    if arrivals.len() == 0 {
        assert(arrivals + next =~= next);
        reveal(Seq::filter);
        assert(brought::<SlotInfo, Message>(arrivals) =~= Seq::empty());
    } else {
        let first = seq![arrivals[0]];
        let rest = arrivals.drop_first();
        assert((arrivals + next).drop_first() =~= rest + next);
        assert forall|i: int| 0 <= i < rest.len() implies !(#[trigger] forwarding::<
            SlotInfo,
            Message,
        >(rest[i]) is Stop) by {
            assert(rest[i] == arrivals[i + 1]);
        }
        law_forwarding_goes_on::<SlotInfo, Message>(rest, next);
        assert(arrivals =~= first + rest);
        Seq::filter_distributes_over_add(first, rest, brings);
        assert(!(forwarding::<SlotInfo, Message>(arrivals[0]) is Stop));
        assert(first.filter(brings) =~= if brings(arrivals[0]) {
            first
        } else {
            Seq::empty()
        }) by {
            reveal(Seq::filter);
            assert(first.drop_last() =~= Seq::empty());
            assert(first.drop_last().filter(brings) =~= Seq::empty());
        }
        assert(brought::<SlotInfo, Message>(arrivals) =~= first.filter(brings).map_values(event_of)
            + brought::<SlotInfo, Message>(rest));
    }
}

/// Everything that arrives before the imports or the slots end is forwarded, in order and once,
/// and nothing that arrives after that.
pub proof fn law_forwarding_keeps_order<SlotInfo, Message>(
    before: Seq<Arrival<SlotInfo>>,
    end: Arrival<SlotInfo>,
    after: Seq<Arrival<SlotInfo>>,
)
    requires
        forall|i: int|
            0 <= i < before.len() ==> !(#[trigger] forwarding::<SlotInfo, Message>(
                before[i],
            ) is Stop),
        forwarding::<SlotInfo, Message>(end) is Stop,
    ensures
        forwarded::<SlotInfo, Message>(before + seq![end] + after) == brought::<SlotInfo, Message>(
            before,
        ),
{
    assert(before + seq![end] + after =~= before + (seq![end] + after));
    law_forwarding_goes_on::<SlotInfo, Message>(before, seq![end] + after);
    assert((seq![end] + after)[0] == end);
}

} // verus!
