//! The overseer's own state, and what it does about each event.
use crate::overseer::events::{BlockInfo, Event};
use crate::overseer::known::{after_put, cache_capacity, cache_put, cached_hashes, fits_cache};
use crate::overseer::leaves::{ActivatedLeaf, ActiveLeavesUpdate, UpdateView};
use crate::primitives::{same_hash, BlockHash, BlockNumber};
use lru::LruCache;
use std::collections::BTreeMap;
use vstd::prelude::*;

verus! {

/// Capacity of a signal channel between a subsystem and the overseer.
pub const SIGNAL_CHANNEL_CAPACITY: usize = 64;

/// The overseer.
pub struct Overseer {
    /// The leaves to activate at startup.
    leaves: Vec<(BlockHash, BlockNumber)>,
    /// How many of `leaves` have been activated.
    started: usize,
    /// The active leaves with their numbers.
    active_leaves: BTreeMap<BlockHash, BlockNumber>,
    /// The leaves that were seen of late.
    known_leaves: LruCache<BlockHash, ()>,
}

/// What the overseer remembers.
pub struct OverseerView {
    /// The leaves that startup has still to activate, in order.
    pub pending: Seq<(BlockHash, BlockNumber)>,
    /// The active leaves with their numbers.
    pub active: Map<BlockHash, BlockNumber>,
    /// The known leaves, from the most to the least recently seen.
    pub known: Seq<BlockHash>,
    /// How many known leaves are remembered at most.
    pub known_capacity: nat,
}

impl OverseerView {
    /// The state in which `hash` is active under `number` and has just been seen.
    pub open spec fn activate(self, hash: BlockHash, number: BlockNumber) -> OverseerView {
        OverseerView {
            active: self.active.insert(hash, number),
            known: after_put(self.known, self.known_capacity, hash),
            ..self
        }
    }

    /// The state once the first pending leaf has been activated.
    pub open spec fn start_next(self) -> OverseerView {
        OverseerView {
            pending: self.pending.drop_first(),
            ..self.activate(self.pending[0].0, self.pending[0].1)
        }
    }

    /// The state once `block` has been imported: a block that is not yet an active leaf becomes
    /// one, and its parent is one no longer.
    pub open spec fn import(self, block: BlockInfo) -> OverseerView {
        if self.active.contains_key(block.hash) {
            self
        } else {
            let activated = self.activate(block.hash, block.number);
            OverseerView { active: activated.active.remove(block.parent_hash), ..activated }
        }
    }

    /// What the import of `block` has to tell the subsystem.
    pub open spec fn import_update(self, block: BlockInfo) -> Option<UpdateView> {
        if self.active.contains_key(block.hash) {
            None
        } else {
            Some(
                UpdateView {
                    activated: Some(ActivatedLeaf { hash: block.hash, number: block.number }),
                    deactivated: if self.active.contains_key(block.parent_hash)
                        || block.parent_hash == block.hash {
                        seq![block.parent_hash]
                    } else {
                        Seq::empty()
                    },
                },
            )
        }
    }

    /// Whether the numbers on record agree with `block`: a leaf that is imported again has kept
    /// its number, and an active parent is one block below.
    pub open spec fn agrees_with(self, block: BlockInfo) -> bool {
        if self.active.contains_key(block.hash) {
            self.active[block.hash] == block.number
        } else {
            let active = self.active.insert(block.hash, block.number);
            active.contains_key(block.parent_hash) ==> active[block.parent_hash] == number_below(
                block.number,
            )
        }
    }

    /// One step of the overseer's loop: the next state and what is to be done.
    pub open spec fn run<SlotInfo, Message>(self, input: RunInput<SlotInfo, Message>) -> (
        OverseerView,
        RunActionView<SlotInfo, Message>,
    ) {
        match input {
            RunInput::Ready => if self.pending.len() > 0 {
                let (hash, number) = self.pending[0];
                (
                    self.start_next(),
                    RunActionView::UpdateActiveLeaves(started(ActivatedLeaf { hash, number })),
                )
            } else {
                (self, RunActionView::ReceiveEvent)
            },
            RunInput::Received(Some(Event::MsgToSubsystem(message))) => (
                self,
                RunActionView::HandleMessage(message),
            ),
            RunInput::Received(Some(Event::NewSlot(slot_info))) => (
                self,
                RunActionView::UpdateNewSlot(slot_info),
            ),
            RunInput::Received(Some(Event::BlockFinalized(_))) => (
                self,
                RunActionView::ReceiveEvent,
            ),
            RunInput::Received(Some(Event::BlockImported(block))) => (
                self.import(block),
                match self.import_update(block) {
                    Some(update) => RunActionView::UpdateActiveLeaves(update),
                    None => RunActionView::ReceiveEvent,
                },
            ),
            RunInput::Received(None) => (self, RunActionView::Finish),
        }
    }
}

/// The number of the block below one numbered `number`; the lowest block has none below it.
pub open spec fn number_below(number: BlockNumber) -> BlockNumber {
    if number == 0 {
        0
    } else {
        (number - 1) as BlockNumber
    }
}

/// The update that starts work on `leaf`.
pub open spec fn started(leaf: ActivatedLeaf) -> UpdateView {
    UpdateView { activated: Some(leaf), deactivated: Seq::empty() }
}

/// What moves the overseer's loop on.
pub enum RunInput<SlotInfo, Message> {
    /// The loop has just begun, or the last action has been carried out.
    Ready,
    /// The event that was waited for, or `None` if no more will come.
    Received(Option<Event<SlotInfo, Message>>),
}

/// What the overseer's loop does next. Whether the subsystem succeeds or fails at it makes no
/// difference to the overseer.
pub enum RunAction<SlotInfo, Message> {
    /// Tell the subsystem of a change in the active leaves.
    UpdateActiveLeaves(ActiveLeavesUpdate),
    /// Hand the subsystem a message.
    HandleMessage(Message),
    /// Tell the subsystem of a new slot.
    UpdateNewSlot(SlotInfo),
    /// Wait for the next event.
    ReceiveEvent,
    /// Return: no event will come any more.
    Finish,
}

/// What an action says.
pub enum RunActionView<SlotInfo, Message> {
    UpdateActiveLeaves(UpdateView),
    HandleMessage(Message),
    UpdateNewSlot(SlotInfo),
    ReceiveEvent,
    Finish,
}

impl<SlotInfo, Message> View for RunAction<SlotInfo, Message> {
    type V = RunActionView<SlotInfo, Message>;

    open spec fn view(&self) -> RunActionView<SlotInfo, Message> {
        match *self {
            RunAction::UpdateActiveLeaves(update) => RunActionView::UpdateActiveLeaves(update@),
            RunAction::HandleMessage(message) => RunActionView::HandleMessage(message),
            RunAction::UpdateNewSlot(slot_info) => RunActionView::UpdateNewSlot(slot_info),
            RunAction::ReceiveEvent => RunActionView::ReceiveEvent,
            RunAction::Finish => RunActionView::Finish,
        }
    }
}

impl View for Overseer {
    type V = OverseerView;

    closed spec fn view(&self) -> OverseerView {
        OverseerView {
            pending: if self.started <= self.leaves@.len() {
                self.leaves@.skip(self.started as int)
            } else {
                Seq::empty()
            },
            active: self.active_leaves@,
            known: cached_hashes(self.known_leaves),
            known_capacity: cache_capacity(self.known_leaves),
        }
    }
}

impl Overseer {
    /// Create a new overseer.
    pub fn new(
        leaves: Vec<(BlockHash, BlockNumber)>,
        active_leaves: BTreeMap<BlockHash, BlockNumber>,
        known_leaves: LruCache<BlockHash, ()>,
    ) -> (overseer: Self)
        ensures
            overseer@ == (OverseerView {
                pending: leaves@,
                active: active_leaves@,
                known: cached_hashes(known_leaves),
                known_capacity: cache_capacity(known_leaves),
            }),
    {
        assert(leaves@.skip(0) =~= leaves@);
        Overseer { leaves, started: 0, active_leaves, known_leaves }
    }

    /// The active leaves with their numbers.
    pub fn active_leaves(&self) -> (active: &BTreeMap<BlockHash, BlockNumber>)
        ensures
            active@ == self@.active,
    {
        &self.active_leaves
    }

    /// The leaves that were seen of late.
    pub fn known_leaves(&self) -> (known: &LruCache<BlockHash, ()>)
        ensures
            cached_hashes(*known) == self@.known,
            cache_capacity(*known) == self@.known_capacity,
    {
        &self.known_leaves
    }

    /// One step of the overseer's loop.
    pub fn run<SlotInfo, Message>(&mut self, input: RunInput<SlotInfo, Message>) -> (action:
        RunAction<SlotInfo, Message>)
        ensures
            final(self)@ == old(self)@.run(input).0,
            action@ == old(self)@.run(input).1,
            action is UpdateActiveLeaves ==> fits_cache(
                final(self)@.known,
                final(self)@.known_capacity,
            ),
    {
        match input {
            RunInput::Ready => {
                match self.start_next() {
                    Some(update) => RunAction::UpdateActiveLeaves(update),
                    None => RunAction::ReceiveEvent,
                }
            },
            RunInput::Received(received) => match received {
                Some(msg) => match msg {
                    Event::MsgToSubsystem(message) => RunAction::HandleMessage(message),
                    Event::BlockImported(block) => match self.block_imported(block) {
                        Some(update) => RunAction::UpdateActiveLeaves(update),
                        None => RunAction::ReceiveEvent,
                    },
                    // Finality changes no leaf, and the subsystem has no part in it.
                    Event::BlockFinalized(_) => RunAction::ReceiveEvent,
                    Event::NewSlot(slot_info) => RunAction::UpdateNewSlot(slot_info),
                },
                None => RunAction::Finish,
            },
        }
    }

    /// Activates the next leaf of the startup, if there is one, and returns the update about it.
    fn start_next(&mut self) -> (update: Option<ActiveLeavesUpdate>)
        ensures
            old(self)@.pending.len() == 0 ==> update is None && final(self)@ == old(self)@,
            old(self)@.pending.len() > 0 ==> {
                &&& final(self)@ == old(self)@.start_next()
                &&& fits_cache(final(self)@.known, final(self)@.known_capacity)
                &&& update matches Some(u) && u@ == started(
                    ActivatedLeaf {
                        hash: old(self)@.pending[0].0,
                        number: old(self)@.pending[0].1,
                    },
                )
            },
    {
        broadcast use vstd::laws_cmp::group_laws_cmp;

        if self.started < self.leaves.len() {
            let (hash, number) = self.leaves[self.started];
            self.started = self.started + 1;
            let _ = self.active_leaves.insert(hash, number);
            cache_put(&mut self.known_leaves, hash);
            assert(self@.pending =~= old(self)@.pending.drop_first());
            Some(ActiveLeavesUpdate::start_work(ActivatedLeaf { hash, number }))
        } else {
            None
        }
    }

    /// Takes note of an imported block and returns the update that it calls for.
    ///
    /// The block is taken even where the numbers on record do not agree with it: `agrees_with`
    /// tells.
    pub fn block_imported(&mut self, block: BlockInfo) -> (update: Option<ActiveLeavesUpdate>)
        ensures
            final(self)@ == old(self)@.import(block),
            update is Some == old(self)@.import_update(block) is Some,
            update matches Some(u) ==> {
                &&& Some(u@) == old(self)@.import_update(block)
                &&& !u@.is_empty()
                &&& fits_cache(final(self)@.known, final(self)@.known_capacity)
            },
    {
        broadcast use vstd::laws_cmp::group_laws_cmp;

        if self.active_leaves.contains_key(&block.hash) {
            return None;
        }
        self.active_leaves.insert(block.hash, block.number);

        cache_put(&mut self.known_leaves, block.hash);
        let mut update = ActiveLeavesUpdate::start_work(
            ActivatedLeaf { hash: block.hash, number: block.number },
        );

        if self.active_leaves.remove(&block.parent_hash).is_some() {
            update.deactivated.push(block.parent_hash);
        }
        assert(self@.active =~= old(self)@.import(block).active);

        if !update.is_empty() {
            Some(update)
        } else {
            None
        }
    }

    /// Whether the numbers on record agree with `block`.
    pub fn agrees_with(&self, block: &BlockInfo) -> (agrees: bool)
        ensures
            agrees == self@.agrees_with(*block),
    {
        broadcast use vstd::laws_cmp::group_laws_cmp;

        let below: BlockNumber = block.number.saturating_sub(1);
        match self.active_leaves.get(&block.hash) {
            Some(number) => *number == block.number,
            None => if same_hash(&block.parent_hash, &block.hash) {
                block.number == below
            } else {
                match self.active_leaves.get(&block.parent_hash) {
                    Some(number) => *number == below,
                    None => true,
                }
            },
        }
    }
}

} // verus!
