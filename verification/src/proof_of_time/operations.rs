//! What each operation of the source and its timekeeper does, said of any call of it:
//! `call_ensures` holds of a call's arguments and what it returned.
use crate::primitives::BlockNumber;
use crate::proof_of_time::slots::{Slot, SlotIterations, SlotNumber};
use crate::proof_of_time::source::{
    BestBlock, PotSlotInfo, PotSource, PotSourceAction, PotSourceError, PotSourceEvent,
    PotSourceStep, PreDigest, StartFrom,
};
use crate::proof_of_time::timekeeper::{
    run_timekeeper, NewCheckpoints, SlotProof, Timekeeper, TimekeeperAction, TimekeeperEvent,
};
use vstd::prelude::*;

verus! {

/// Once all has been read of the best block, the timekeeper starts: on an empty chain at the first
/// slot with the genesis seed, on any other with the seed of the best block's future proof of time,
/// as many slots behind the one after the best block's as authoring is delayed; either way with
/// the iterations that were read.
pub proof fn law_timekeeper_start<Seed, Api, Backend, Digest>(
    genesis_seed: Seed,
    best: BestBlock<Seed, Api, Backend, Digest>,
    delay: Slot,
    number: BlockNumber,
    pre_digest: PreDigest<Seed>,
    slot_iterations: SlotIterations,
    step: PotSourceStep<Seed, Api, Backend, Digest>,
)
    requires
        best.block_authoring_delay == Some(Ok::<Slot, Api>(delay)),
        best.number == Some(Ok::<Option<BlockNumber>, Backend>(Some(number))),
        best.pre_digest == Some(Ok::<PreDigest<Seed>, Digest>(pre_digest)),
        best.slot_iterations == Some(Ok::<SlotIterations, Api>(slot_iterations)),
        number > 0 ==> pre_digest.slot.number + delay.number < SlotNumber::MAX,
        call_ensures(
            PotSource::new::<Seed, Api, Backend, Digest>,
            (genesis_seed, StartFrom::BestBlock(best)),
            step,
        ),
    ensures
        step matches PotSourceStep::RunTimekeeper(timekeeper) && {
            &&& number == 0 ==> timekeeper.seed == genesis_seed
            &&& number == 0 ==> timekeeper.slot == 1
            &&& number > 0 ==> timekeeper.seed == pre_digest.future_seed
            &&& number > 0 ==> timekeeper.slot - pre_digest.slot.number == delay.number + 1
            &&& timekeeper.slot_iterations@ == slot_iterations@
        },
{
}

/// The iterations are asked for the very slot at which the timekeeper starts then, whatever they
/// come to.
pub proof fn law_iterations_are_those_of_the_first_slot<Seed, Api, Backend, Digest>(
    genesis_seed: Seed,
    best: BestBlock<Seed, Api, Backend, Digest>,
    slot_iterations: SlotIterations,
    delay: Slot,
    number: BlockNumber,
    pre_digest: PreDigest<Seed>,
    asked: PotSourceStep<Seed, Api, Backend, Digest>,
    step: PotSourceStep<Seed, Api, Backend, Digest>,
)
    requires
        best.block_authoring_delay == Some(Ok::<Slot, Api>(delay)),
        best.number == Some(Ok::<Option<BlockNumber>, Backend>(Some(number))),
        best.pre_digest == Some(Ok::<PreDigest<Seed>, Digest>(pre_digest)),
        best.slot_iterations is None,
        number > 0 ==> pre_digest.slot.number + delay.number < SlotNumber::MAX,
        call_ensures(
            PotSource::new::<Seed, Api, Backend, Digest>,
            (genesis_seed, StartFrom::BestBlock(best)),
            asked,
        ),
        call_ensures(
            PotSource::new::<Seed, Api, Backend, Digest>,
            (
                genesis_seed,
                StartFrom::BestBlock(
                    BestBlock { slot_iterations: Some(Ok(slot_iterations)), ..best },
                ),
            ),
            step,
        ),
    ensures
        asked matches PotSourceStep::ReadSlotIterations(read, slot) && {
            &&& read == best
            &&& number == 0 ==> slot.number == 1
            &&& number > 0 ==> slot.number - pre_digest.slot.number == delay.number + 1
            &&& step matches PotSourceStep::RunTimekeeper(timekeeper) && timekeeper.slot
                == slot.number
        },
{
}

/// The chain constants are read first, then the header, then the pre-digest, each only once those
/// before it are there; what was read so far is kept.
pub proof fn law_reads_are_made_in_order<Seed, Api, Backend, Digest>(
    genesis_seed: Seed,
    best: BestBlock<Seed, Api, Backend, Digest>,
    step: PotSourceStep<Seed, Api, Backend, Digest>,
)
    requires
        call_ensures(
            PotSource::new::<Seed, Api, Backend, Digest>,
            (genesis_seed, StartFrom::BestBlock(best)),
            step,
        ),
    ensures
        best.block_authoring_delay is None <==> step is ReadChainConstants,
        step is ReadHeader <==> (best.block_authoring_delay matches Some(Ok(_))) && best.number is
            None,
        step is ReadPreDigest <==> (best.block_authoring_delay matches Some(Ok(_))) && (
        best.number matches Some(Ok(Some(_)))) && best.pre_digest is None,
        step is ReadSlotIterations <==> (best.block_authoring_delay matches Some(Ok(_))) && (
        best.number matches Some(Ok(Some(_)))) && (best.pre_digest matches Some(Ok(_)))
            && best.slot_iterations is None,
        step matches PotSourceStep::ReadChainConstants(read) ==> read == best,
        step matches PotSourceStep::ReadHeader(read) ==> read == best,
        step matches PotSourceStep::ReadPreDigest(read) ==> read == best,
        step matches PotSourceStep::ReadSlotIterations(read, _) ==> read == best,
{
}

/// The first read that failed ends the making of a source, with its own error; a best block that
/// is not found is named in the text about it.
pub proof fn law_first_failure_ends_it<Seed, Api, Backend, Digest>(
    genesis_seed: Seed,
    best: BestBlock<Seed, Api, Backend, Digest>,
    step: PotSourceStep<Seed, Api, Backend, Digest>,
)
    requires
        call_ensures(
            PotSource::new::<Seed, Api, Backend, Digest>,
            (genesis_seed, StartFrom::BestBlock(best)),
            step,
        ),
    ensures
        best.block_authoring_delay matches Some(Err(error)) ==> step == PotSourceStep::<
            Seed,
            Api,
            Backend,
            Digest,
        >::Fail(PotSourceError::Api(error)),
        best.block_authoring_delay matches Some(Ok(_)) ==> {
            &&& best.number matches Some(Err(error)) ==> step == PotSourceStep::<
                Seed,
                Api,
                Backend,
                Digest,
            >::Fail(PotSourceError::Backend(error))
            &&& best.number matches Some(Ok(None)) ==> (step matches PotSourceStep::Fail(error)
                && error matches PotSourceError::UnknownBlock(text) && text@ == "Parent block "@
                + best.hash@ + " not found"@)
            &&& best.number matches Some(Ok(Some(_))) ==> {
                &&& best.pre_digest matches Some(Err(error)) ==> step == PotSourceStep::<
                    Seed,
                    Api,
                    Backend,
                    Digest,
                >::Fail(PotSourceError::Application(error))
                &&& best.pre_digest matches Some(Ok(_)) ==> (best.slot_iterations matches Some(
                    Err(error),
                ) ==> step == PotSourceStep::<Seed, Api, Backend, Digest>::Fail(
                    PotSourceError::Api(error),
                ))
            }
        },
        step is Fail ==> {
            ||| best.block_authoring_delay matches Some(Err(_))
            ||| best.number matches Some(Err(_))
            ||| best.number matches Some(Ok(None))
            ||| best.pre_digest matches Some(Err(_))
            ||| best.slot_iterations matches Some(Err(_))
        },
{
}

/// Without a best block the timekeeper starts at the first slot with the genesis seed and the
/// standard iterations.
pub proof fn law_start_from_genesis<Seed, Api, Backend, Digest>(
    genesis_seed: Seed,
    standard: SlotIterations,
    step: PotSourceStep<Seed, Api, Backend, Digest>,
)
    requires
        call_ensures(SlotIterations::standard, (), standard),
        call_ensures(
            PotSource::new::<Seed, Api, Backend, Digest>,
            (genesis_seed, StartFrom::Genesis),
            step,
        ),
    ensures
        step matches PotSourceStep::RunTimekeeper(timekeeper) && timekeeper.seed == genesis_seed
            && timekeeper.slot == 1 && timekeeper.slot_iterations@ == standard@,
        standard@ == 100_000_000,
{
}

/// A step towards a source can be made unless all is read that the first slot depends on, on a
/// chain that is not empty, and it would lie beyond the last slot number; and that is what is
/// tested for.
pub proof fn law_when_the_first_slot_has_a_number<Seed, Api, Backend, Digest>(
    genesis_seed: Seed,
    best: BestBlock<Seed, Api, Backend, Digest>,
    fits: bool,
)
    requires
        call_ensures(BestBlock::<Seed, Api, Backend, Digest>::has_first_slot, (&best,), fits),
    ensures
        fits ==> call_requires(
            PotSource::new::<Seed, Api, Backend, Digest>,
            (genesis_seed, StartFrom::BestBlock(best)),
        ),
        call_requires(
            PotSource::new::<Seed, Api, Backend, Digest>,
            (genesis_seed, StartFrom::Genesis),
        ),
        match (best.block_authoring_delay, best.number, best.pre_digest) {
            (Some(Ok(delay)), Some(Ok(Some(number))), Some(Ok(pre_digest))) => !fits <==> number
                > 0 && pre_digest.slot.number + delay.number >= SlotNumber::MAX,
            _ => fits,
        },
{
}

/// At first nothing but the hash of the best block is known.
pub proof fn law_nothing_is_read_at_first<Seed, Api, Backend, Digest>(
    hash: String,
    best: BestBlock<Seed, Api, Backend, Digest>,
)
    requires
        call_ensures(BestBlock::<Seed, Api, Backend, Digest>::new, (hash,), best),
    ensures
        best.hash == hash,
        best.block_authoring_delay is None,
        best.number is None,
        best.pre_digest is None,
        best.slot_iterations is None,
{
}

/// The verifier is given all that was received, as it was received, and the slot that goes with it
/// is the received one with the received checkpoints.
pub proof fn law_received_checkpoints_are_injected<Seed, Checkpoints: Copy>(
    received: NewCheckpoints<Seed, Checkpoints>,
    action: PotSourceAction<Seed, Checkpoints>,
)
    requires
        call_ensures(
            PotSource::run::<Seed, Checkpoints>,
            (PotSourceEvent::Received(Some(received)),),
            action,
        ),
    ensures
        action matches PotSourceAction::Inject(seed, slot_iterations, checkpoints, info) && {
            &&& seed == received.seed
            &&& slot_iterations == received.slot_iterations
            &&& checkpoints == received.checkpoints
            &&& info.slot == received.slot
            &&& info.checkpoints == received.checkpoints
        },
{
}

/// A slot is sent as it is once its checkpoints are injected, and at no other time; the source
/// waits at the start and after each slot, and returns when nothing more is to come.
pub proof fn law_source_sends_what_was_injected<Seed, Checkpoints: Copy>(
    info: PotSlotInfo<Checkpoints>,
    event: PotSourceEvent<Seed, Checkpoints>,
    action: PotSourceAction<Seed, Checkpoints>,
)
    requires
        call_ensures(PotSource::run::<Seed, Checkpoints>, (event,), action),
    ensures
        action == PotSourceAction::<Seed, Checkpoints>::Send(info) <==> event
            == PotSourceEvent::<Seed, Checkpoints>::Injected(info),
        action is Receive <==> event is Started || event is Sent,
        action is Return <==> event == PotSourceEvent::<Seed, Checkpoints>::Received(None),
        action is Inject <==> (event matches PotSourceEvent::Received(Some(_))),
{
}

/// A slot that was proved is reported under its number with the seed and the iterations that it was
/// proved with and the checkpoints of the proof, and the next one is to be proved from the output.
pub proof fn law_proved_slot_is_reported<Seed: Copy, Checkpoints, Error>(
    timekeeper: &mut Timekeeper<Seed>,
    proved: SlotProof<Seed, Checkpoints>,
    action: TimekeeperAction<Seed, Checkpoints, Error>,
)
    requires
        call_ensures(
            run_timekeeper::<Seed, Checkpoints, Error>,
            (timekeeper, TimekeeperEvent::Proved(Ok(proved))),
            action,
        ),
    ensures
        action matches TimekeeperAction::TrySend(report) && {
            &&& report.seed == old(timekeeper).seed
            &&& report.slot_iterations == old(timekeeper).slot_iterations
            &&& report.slot.number == old(timekeeper).slot
            &&& report.checkpoints == proved.checkpoints
        },
        final(timekeeper).seed == proved.output_seed,
        final(timekeeper).slot == old(timekeeper).slot,
        final(timekeeper).slot_iterations == old(timekeeper).slot_iterations,
{
}

/// Once a slot is sent, at once or after a wait, the next one is proved: from the seed at hand and
/// with the same iterations.
pub proof fn law_sent_slot_is_followed_by_the_next<Seed: Copy, Checkpoints, Error>(
    timekeeper: &mut Timekeeper<Seed>,
    event: TimekeeperEvent<Seed, Checkpoints, Error>,
    action: TimekeeperAction<Seed, Checkpoints, Error>,
)
    requires
        event is Sent || event == TimekeeperEvent::<Seed, Checkpoints, Error>::TrySent(Ok(())),
        old(timekeeper).slot < SlotNumber::MAX,
        call_ensures(
            run_timekeeper::<Seed, Checkpoints, Error>,
            (timekeeper, event),
            action,
        ),
    ensures
        call_requires(run_timekeeper::<Seed, Checkpoints, Error>, (timekeeper, event)),
        action matches TimekeeperAction::Prove(seed, slot_iterations) && seed == old(timekeeper).seed && slot_iterations == old(timekeeper).slot_iterations,
        final(timekeeper).seed == old(timekeeper).seed,
        final(timekeeper).slot == old(timekeeper).slot + 1,
        final(timekeeper).slot_iterations == old(timekeeper).slot_iterations,
{
}

/// At the start the slot at hand is proved; checkpoints that found no room are sent with a wait, as
/// they are; a failed proof is returned, and a closed channel ends the timekeeper without an error.
/// None of these changes where the timekeeper stands, or can fail to be answered.
pub proof fn law_timekeeper_stays_at_its_slot<Seed: Copy, Checkpoints, Error>(
    timekeeper: &mut Timekeeper<Seed>,
    event: TimekeeperEvent<Seed, Checkpoints, Error>,
    action: TimekeeperAction<Seed, Checkpoints, Error>,
)
    requires
        match event {
            TimekeeperEvent::Started | TimekeeperEvent::ChannelClosed => true,
            TimekeeperEvent::TrySent(sent) => sent is Err,
            TimekeeperEvent::Proved(proved) => proved is Err,
            TimekeeperEvent::Sent => false,
        },
        call_ensures(
            run_timekeeper::<Seed, Checkpoints, Error>,
            (timekeeper, event),
            action,
        ),
    ensures
        call_requires(run_timekeeper::<Seed, Checkpoints, Error>, (timekeeper, event)),
        *final(timekeeper) == *old(timekeeper),
        event is Started ==> (action matches TimekeeperAction::Prove(seed, slot_iterations) && seed
            == old(timekeeper).seed && slot_iterations == old(timekeeper).slot_iterations),
        event matches TimekeeperEvent::TrySent(Err(checkpoints)) ==> action == TimekeeperAction::<
            Seed,
            Checkpoints,
            Error,
        >::SendBlocking(checkpoints),
        event matches TimekeeperEvent::Proved(Err(error)) ==> action == TimekeeperAction::<
            Seed,
            Checkpoints,
            Error,
        >::Return(Err(error)),
        event is ChannelClosed ==> action == TimekeeperAction::<Seed, Checkpoints, Error>::Return(
            Ok(()),
        ),
{
}

/// A slot made from a number has that number; iterations are so many as were asked for, and there
/// are none only for zero.
pub proof fn law_slots_and_iterations_hold_their_numbers(
    number: SlotNumber,
    slot: Slot,
    iterations: u32,
    made: Option<SlotIterations>,
    slot_iterations: SlotIterations,
    count: u32,
)
    requires
        call_ensures(<Slot as From<SlotNumber>>::from, (number,), slot),
        call_ensures(SlotIterations::new, (iterations,), made),
        call_ensures(SlotIterations::get, (slot_iterations,), count),
    ensures
        slot.number == number,
        made is None <==> iterations == 0,
        made matches Some(some) ==> some@ == iterations,
        count == slot_iterations@,
        count > 0,
{
}

} // verus!
