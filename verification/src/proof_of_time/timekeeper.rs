//! The timekeeper: proves one slot after the other.
use crate::proof_of_time::slots::{Slot, SlotIterations, SlotNumber};
use vstd::prelude::*;

verus! {

/// Proof of time slot information
#[derive(Debug)]
pub struct NewCheckpoints<Seed, Checkpoints> {
    /// Proof of time seed
    pub seed: Seed,
    /// Iterations per slot
    pub slot_iterations: SlotIterations,
    /// Slot number
    pub slot: Slot,
    /// Proof of time checkpoints
    pub checkpoints: Checkpoints,
}

/// What proving a slot yields.
#[derive(Debug)]
pub struct SlotProof<Seed, Checkpoints> {
    /// Proof of time checkpoints
    pub checkpoints: Checkpoints,
    /// The seed that the output of the checkpoints gives for the next slot.
    pub output_seed: Seed,
}

/// Where the timekeeper stands.
#[derive(Debug)]
pub struct Timekeeper<Seed> {
    /// The seed of the slot to prove.
    pub seed: Seed,
    /// The slot to prove, or to send.
    pub slot: SlotNumber,
    /// Iterations per slot
    pub slot_iterations: SlotIterations,
}

/// What moves the timekeeper on.
pub enum TimekeeperEvent<Seed, Checkpoints, Error> {
    /// The timekeeper is started.
    Started,
    /// Proving has come to an end.
    Proved(Result<SlotProof<Seed, Checkpoints>, Error>),
    /// The attempt to send without waiting went through, or gave the checkpoints back.
    TrySent(Result<(), NewCheckpoints<Seed, Checkpoints>>),
    /// The checkpoints were sent after waiting for room.
    Sent,
    /// The channel is closed: the checkpoints could not be sent.
    ChannelClosed,
}

/// What the timekeeper does next.
pub enum TimekeeperAction<Seed, Checkpoints, Error> {
    /// Prove a slot from this seed with so many iterations.
    Prove(Seed, SlotIterations),
    /// Try to send the checkpoints without waiting.
    TrySend(NewCheckpoints<Seed, Checkpoints>),
    /// Send the checkpoints, and wait until there is room for them.
    SendBlocking(NewCheckpoints<Seed, Checkpoints>),
    /// Return.
    Return(Result<(), Error>),
}

/// Whether the event lets the timekeeper go on to the next slot.
pub open spec fn ends_slot<Seed, Checkpoints, Error>(
    event: TimekeeperEvent<Seed, Checkpoints, Error>,
) -> bool {
    event is Sent || (event matches TimekeeperEvent::TrySent(Ok(_)))
}

impl<Seed> Timekeeper<Seed> {
    /// The timekeeper at the next slot.
    pub open spec fn next_slot(self) -> Timekeeper<Seed> {
        Timekeeper { slot: (self.slot + 1) as SlotNumber, ..self }
    }

    /// What the timekeeper sends for a proof.
    pub open spec fn report<Checkpoints>(self, proof: SlotProof<Seed, Checkpoints>) -> NewCheckpoints<
        Seed,
        Checkpoints,
    > {
        NewCheckpoints {
            seed: self.seed,
            slot_iterations: self.slot_iterations,
            slot: Slot { number: self.slot },
            checkpoints: proof.checkpoints,
        }
    }

    /// One step of the timekeeper's loop: where it stands then and what it does.
    pub open spec fn run<Checkpoints, Error>(
        self,
        event: TimekeeperEvent<Seed, Checkpoints, Error>,
    ) -> (Timekeeper<Seed>, TimekeeperAction<Seed, Checkpoints, Error>) {
        match event {
            TimekeeperEvent::Started => (
                self,
                TimekeeperAction::Prove(self.seed, self.slot_iterations),
            ),
            TimekeeperEvent::Proved(Ok(proof)) => (
                Timekeeper { seed: proof.output_seed, ..self },
                TimekeeperAction::TrySend(self.report(proof)),
            ),
            TimekeeperEvent::Proved(Err(error)) => (self, TimekeeperAction::Return(Err(error))),
            TimekeeperEvent::TrySent(Err(checkpoints)) => (
                self,
                TimekeeperAction::SendBlocking(checkpoints),
            ),
            TimekeeperEvent::TrySent(Ok(_)) | TimekeeperEvent::Sent => (
                self.next_slot(),
                TimekeeperAction::Prove(self.seed, self.slot_iterations),
            ),
            TimekeeperEvent::ChannelClosed => (self, TimekeeperAction::Return(Ok(()))),
        }
    }
}

/// Runs the timekeeper by one step.
///
/// Slot numbers must not run out.
pub fn run_timekeeper<Seed: Copy, Checkpoints, Error>(
    timekeeper: &mut Timekeeper<Seed>,
    event: TimekeeperEvent<Seed, Checkpoints, Error>,
) -> (action: TimekeeperAction<Seed, Checkpoints, Error>)
    requires
        ends_slot(event) ==> old(timekeeper).slot < SlotNumber::MAX,
    ensures
        *final(timekeeper) == old(timekeeper).run(event).0,
        action == old(timekeeper).run(event).1,
{
    match event {
        TimekeeperEvent::Started => TimekeeperAction::Prove(
            timekeeper.seed,
            timekeeper.slot_iterations,
        ),
        TimekeeperEvent::Proved(proved) => match proved {
            Ok(proof) => {
                let slot_info = NewCheckpoints {
                    seed: timekeeper.seed,
                    slot_iterations: timekeeper.slot_iterations,
                    slot: Slot::from(timekeeper.slot),
                    checkpoints: proof.checkpoints,
                };

                timekeeper.seed = proof.output_seed;

                TimekeeperAction::TrySend(slot_info)
            },
            Err(error) => TimekeeperAction::Return(Err(error)),
        },
        TimekeeperEvent::TrySent(sent) => match sent {
            Ok(_) => {
                timekeeper.slot = timekeeper.slot + 1;
                TimekeeperAction::Prove(timekeeper.seed, timekeeper.slot_iterations)
            },
            Err(slot_info) => TimekeeperAction::SendBlocking(slot_info),
        },
        TimekeeperEvent::Sent => {
            timekeeper.slot = timekeeper.slot + 1;
            TimekeeperAction::Prove(timekeeper.seed, timekeeper.slot_iterations)
        },
        TimekeeperEvent::ChannelClosed => TimekeeperAction::Return(Ok(())),
    }
}

} // verus!
