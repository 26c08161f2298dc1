//! What holds of the source of proofs of time as a whole.
use crate::primitives::BlockNumber;
use crate::proof_of_time::slots::{Slot, SlotIterations, SlotNumber};
use crate::proof_of_time::source::{
    slot_info, source_action, BestBlock, PotSlotInfo, PotSourceAction, PotSourceErrorView,
    PotSourceEvent, PotSourceStepView, PreDigest,
};
use crate::proof_of_time::timekeeper::{
    NewCheckpoints, SlotProof, Timekeeper, TimekeeperAction, TimekeeperEvent,
};
use vstd::prelude::*;

verus! {

/// A run of the timekeeper up to the point where it asks for the next proof.
pub struct TimekeeperRun<Seed, Checkpoints, Error> {
    /// Where the timekeeper stands.
    pub timekeeper: Timekeeper<Seed>,
    /// What it does next.
    pub next: TimekeeperAction<Seed, Checkpoints, Error>,
    /// What it did at the beginning of each slot so far.
    pub requests: Seq<TimekeeperAction<Seed, Checkpoints, Error>>,
    /// What went through the channel for each slot so far.
    pub sent: Seq<Option<NewCheckpoints<Seed, Checkpoints>>>,
}

impl<Seed, Checkpoints, Error> TimekeeperRun<Seed, Checkpoints, Error> {
    /// The beginning of a run.
    pub open spec fn begin(timekeeper: Timekeeper<Seed>) -> Self {
        let (started, next) = timekeeper.run(TimekeeperEvent::Started);
        TimekeeperRun { timekeeper: started, next, requests: Seq::empty(), sent: Seq::empty() }
    }

    /// The run with one more slot that is proved and sent. If the channel is full at first, the
    /// timekeeper waits for room.
    pub open spec fn prove_slot(
        self,
        proof: SlotProof<Seed, Checkpoints>,
        channel_full: bool,
    ) -> Self {
        let requests = self.requests.push(self.next);
        let (proved, try_send) = self.timekeeper.run(
            TimekeeperEvent::<Seed, Checkpoints, Error>::Proved(Ok(proof)),
        );
        match try_send {
            TimekeeperAction::TrySend(checkpoints) => if channel_full {
                let (waiting, send) = proved.run(
                    TimekeeperEvent::<Seed, Checkpoints, Error>::TrySent(Err(checkpoints)),
                );
                match send {
                    TimekeeperAction::SendBlocking(checkpoints) => {
                        let (timekeeper, next) = waiting.run(TimekeeperEvent::Sent);
                        let sent = self.sent.push(Some(checkpoints));
                        TimekeeperRun { timekeeper, next, requests, sent }
                    },
                    next => {
                        let sent = self.sent.push(None);
                        TimekeeperRun { timekeeper: waiting, next, requests, sent }
                    },
                }
            } else {
                let (timekeeper, next) = proved.run(TimekeeperEvent::TrySent(Ok(())));
                let sent = self.sent.push(Some(checkpoints));
                TimekeeperRun { timekeeper, next, requests, sent }
            },
            next => {
                let sent = self.sent.push(None);
                TimekeeperRun { timekeeper: proved, next, requests, sent }
            },
        }
    }

    /// The run of a timekeeper through so many slots as there are proofs.
    pub open spec fn prove_slots(
        timekeeper: Timekeeper<Seed>,
        proofs: Seq<SlotProof<Seed, Checkpoints>>,
        channel_full: spec_fn(int) -> bool,
    ) -> Self
        decreases proofs.len(),
    {
        if proofs.len() == 0 {
            Self::begin(timekeeper)
        } else {
            Self::prove_slots(timekeeper, proofs.drop_last(), channel_full).prove_slot(
                proofs.last(),
                channel_full(proofs.len() - 1),
            )
        }
    }
}

/// The seed of the `k`th slot that is proved: the one to start from, then the output of the slot
/// before.
pub open spec fn chained_seed<Seed, Checkpoints>(
    start: Seed,
    proofs: Seq<SlotProof<Seed, Checkpoints>>,
    k: int,
) -> Seed {
    if k == 0 {
        start
    } else {
        proofs[k - 1].output_seed
    }
}

/// What is reported of the `k`th slot that is proved.
pub open spec fn chained_report<Seed, Checkpoints>(
    timekeeper: Timekeeper<Seed>,
    proofs: Seq<SlotProof<Seed, Checkpoints>>,
    k: int,
) -> NewCheckpoints<Seed, Checkpoints> {
    NewCheckpoints {
        seed: chained_seed(timekeeper.seed, proofs, k),
        slot_iterations: timekeeper.slot_iterations,
        slot: Slot { number: (timekeeper.slot + k) as SlotNumber },
        checkpoints: proofs[k].checkpoints,
    }
}

/// The timekeeper asks for the proof of every slot from the output of the slot before, always with
/// the same iterations, and sends every slot once and in order with the seed and the iterations
/// that it was proved with: slot numbers go up by one from the first, and a full channel loses
/// nothing.
pub proof fn law_slots_are_chained<Seed, Checkpoints, Error>(
    timekeeper: Timekeeper<Seed>,
    proofs: Seq<SlotProof<Seed, Checkpoints>>,
    channel_full: spec_fn(int) -> bool,
)
    requires
        timekeeper.slot + proofs.len() <= SlotNumber::MAX,
    ensures
        ({
            let run = TimekeeperRun::<Seed, Checkpoints, Error>::prove_slots(
                timekeeper,
                proofs,
                channel_full,
            );
            &&& run.requests.len() == proofs.len()
            &&& forall|k: int|
                0 <= k < proofs.len() ==> #[trigger] run.requests[k] == TimekeeperAction::<
                    Seed,
                    Checkpoints,
                    Error,
                >::Prove(
                    chained_seed(timekeeper.seed, proofs, k),
                    timekeeper.slot_iterations,
                )
            &&& run.sent.len() == proofs.len()
            &&& forall|k: int|
                0 <= k < proofs.len() ==> #[trigger] run.sent[k] == Some(
                    chained_report(timekeeper, proofs, k),
                )
            &&& run.timekeeper == Timekeeper {
                seed: chained_seed(timekeeper.seed, proofs, proofs.len() as int),
                slot: (timekeeper.slot + proofs.len()) as SlotNumber,
                slot_iterations: timekeeper.slot_iterations,
            }
            &&& run.next == TimekeeperAction::<Seed, Checkpoints, Error>::Prove(
                chained_seed(timekeeper.seed, proofs, proofs.len() as int),
                timekeeper.slot_iterations,
            )
        }),
    decreases proofs.len(),
{
    if proofs.len() > 0 {
        law_slots_are_chained::<Seed, Checkpoints, Error>(
            timekeeper,
            proofs.drop_last(),
            channel_full,
        );
    }
}

/// What the source does from an event on, if the timekeeper sends `received` and then no more.
pub open spec fn source_actions<Seed, Checkpoints>(
    event: PotSourceEvent<Seed, Checkpoints>,
    received: Seq<NewCheckpoints<Seed, Checkpoints>>,
) -> Seq<PotSourceAction<Seed, Checkpoints>>
    decreases
        received.len(),
        match event {
            PotSourceEvent::Received(Some(_)) => 3nat,
            PotSourceEvent::Injected(_) => 2nat,
            PotSourceEvent::Started | PotSourceEvent::Sent => 1nat,
            PotSourceEvent::Received(None) => 0nat,
        },
{
    let action = source_action(event);
    match action {
        PotSourceAction::Receive => if received.len() > 0 {
            seq![action] + source_actions(
                PotSourceEvent::Received(Some(received[0])),
                received.drop_first(),
            )
        } else {
            seq![action] + source_actions(PotSourceEvent::Received(None), received)
        },
        PotSourceAction::Inject(_, _, _, info) => seq![action] + source_actions(
            PotSourceEvent::Injected(info),
            received,
        ),
        PotSourceAction::Send(_) => seq![action] + source_actions(PotSourceEvent::Sent, received),
        PotSourceAction::Return => seq![action],
    }
}

/// Whether from the action at `at` on the source waits, gives the verifier the checkpoints that it
/// received, and then sends their slot.
pub open spec fn publishes_at<Seed, Checkpoints>(
    actions: Seq<PotSourceAction<Seed, Checkpoints>>,
    at: int,
    received: NewCheckpoints<Seed, Checkpoints>,
) -> bool {
    &&& actions[at] == PotSourceAction::<Seed, Checkpoints>::Receive
    &&& actions[at + 1] == PotSourceAction::Inject(
        received.seed,
        received.slot_iterations,
        received.checkpoints,
        PotSlotInfo { slot: received.slot, checkpoints: received.checkpoints },
    )
    &&& actions[at + 2] == PotSourceAction::<Seed, Checkpoints>::Send(
        PotSlotInfo { slot: received.slot, checkpoints: received.checkpoints },
    )
}

/// The source takes the checkpoints one by one: of each it first gives the verifier the
/// checkpoints and then sends the slot, both once, before it waits for the next ones; when no
/// more come it returns.
pub proof fn law_injects_before_sending<Seed, Checkpoints>(
    event: PotSourceEvent<Seed, Checkpoints>,
    received: Seq<NewCheckpoints<Seed, Checkpoints>>,
)
    requires
        event is Started || event is Sent,
    ensures
        ({
            let actions = source_actions(event, received);
            let n = received.len() as int;
            &&& actions.len() == 3 * n + 2
            &&& forall|i: int|
                0 <= i < n ==> publishes_at(actions, 3 * i, #[trigger] received[i])
            &&& actions[3 * n] is Receive
            &&& actions[3 * n + 1] is Return
        }),
    decreases received.len(),
{
    let actions = source_actions(event, received);
    let n = received.len() as int;
    if n == 0 {
        let end = source_actions(PotSourceEvent::Received(None), received);
        assert(end =~= seq![PotSourceAction::Return]);
        assert(actions =~= seq![PotSourceAction::Receive, PotSourceAction::Return]);
    } else {
        let first = received[0];
        let rest = received.drop_first();
        let later = source_actions(PotSourceEvent::Sent, rest);
        law_injects_before_sending(PotSourceEvent::Sent, rest);
        let injected = source_actions(PotSourceEvent::Injected(slot_info(first)), rest);
        let taken = source_actions(PotSourceEvent::Received(Some(first)), rest);
        assert(injected == seq![PotSourceAction::Send(slot_info(first))] + later);
        assert(taken == seq![source_action(PotSourceEvent::Received(Some(first)))] + injected);
        assert(actions == seq![PotSourceAction::Receive] + taken);
        assert forall|j: int| 3 <= j < actions.len() implies actions[j] == later[j - 3] by {
            assert(actions[j] == taken[j - 1]);
            assert(taken[j - 1] == injected[j - 2]);
        }
        assert(actions[3 * n] == later[3 * (n - 1)]);
        assert(actions[3 * n + 1] == later[3 * (n - 1) + 1]);
        assert forall|i: int| 0 <= i < n implies publishes_at(
            actions,
            3 * i,
            #[trigger] received[i],
        ) by {
            if i > 0 {
                assert(publishes_at(later, 3 * (i - 1), rest[i - 1]));
                assert(actions[3 * i] == later[3 * (i - 1)]);
                assert(actions[3 * i + 1] == later[3 * (i - 1) + 1]);
                assert(actions[3 * i + 2] == later[3 * (i - 1) + 2]);
            }
        }
    }
}

/// The slots that the source sends follow each other without a gap, each with the checkpoints
/// that were proved for it and that the verifier was given before.
pub proof fn law_published_slots_are_consecutive<Seed, Checkpoints, Error>(
    timekeeper: Timekeeper<Seed>,
    proofs: Seq<SlotProof<Seed, Checkpoints>>,
    channel_full: spec_fn(int) -> bool,
    k: int,
)
    requires
        timekeeper.slot + proofs.len() <= SlotNumber::MAX,
        0 <= k < proofs.len(),
    ensures
        ({
            let sent = TimekeeperRun::<Seed, Checkpoints, Error>::prove_slots(
                timekeeper,
                proofs,
                channel_full,
            ).sent;
            let received = sent.map_values(
                |checkpoints: Option<NewCheckpoints<Seed, Checkpoints>>| checkpoints->0,
            );
            let actions = source_actions(PotSourceEvent::Started, received);
            let info = PotSlotInfo {
                slot: Slot { number: (timekeeper.slot + k) as SlotNumber },
                checkpoints: proofs[k].checkpoints,
            };
            &&& actions[3 * k + 1] == PotSourceAction::Inject(
                chained_seed(timekeeper.seed, proofs, k),
                timekeeper.slot_iterations,
                proofs[k].checkpoints,
                info,
            )
            &&& actions[3 * k + 2] == PotSourceAction::<Seed, Checkpoints>::Send(info)
        }),
{
    law_slots_are_chained::<Seed, Checkpoints, Error>(timekeeper, proofs, channel_full);
    let sent = TimekeeperRun::<Seed, Checkpoints, Error>::prove_slots(
        timekeeper,
        proofs,
        channel_full,
    ).sent;
    let received = sent.map_values(
        |checkpoints: Option<NewCheckpoints<Seed, Checkpoints>>| checkpoints->0,
    );
    law_injects_before_sending(PotSourceEvent::Started, received);
    assert(publishes_at(
        source_actions(PotSourceEvent::Started, received),
        3 * k,
        received[k],
    ));
    assert(sent[k] == Some(chained_report(timekeeper, proofs, k)));
    assert(received[k] == chained_report(timekeeper, proofs, k));
}

/// What a chain answers when a source is made from its best block.
pub struct Chain<Seed, Api, Backend, Digest> {
    pub block_authoring_delay: Result<Slot, Api>,
    pub number: Result<Option<BlockNumber>, Backend>,
    pub pre_digest: Result<PreDigest<Seed>, Digest>,
    pub slot_iterations: spec_fn(Slot) -> Result<SlotIterations, Api>,
}

/// How many things have not been read of the best block.
pub open spec fn missing<Seed, Api, Backend, Digest>(
    best: BestBlock<Seed, Api, Backend, Digest>,
) -> nat {
    (if best.block_authoring_delay is None {
        1nat
    } else {
        0nat
    }) + (if best.number is None {
        1nat
    } else {
        0nat
    }) + (if best.pre_digest is None {
        1nat
    } else {
        0nat
    }) + (if best.slot_iterations is None {
        1nat
    } else {
        0nat
    })
}

/// The end of the way to a new source: whatever is asked for is read from the chain.
pub open spec fn make_source<Seed, Api, Backend, Digest>(
    best: BestBlock<Seed, Api, Backend, Digest>,
    genesis_seed: Seed,
    chain: Chain<Seed, Api, Backend, Digest>,
) -> PotSourceStepView<Seed, Api, Backend, Digest>
    decreases missing(best),
{
    match best.next_step(genesis_seed) {
        PotSourceStepView::ReadChainConstants => make_source(
            BestBlock { block_authoring_delay: Some(chain.block_authoring_delay), ..best },
            genesis_seed,
            chain,
        ),
        PotSourceStepView::ReadHeader => make_source(
            BestBlock { number: Some(chain.number), ..best },
            genesis_seed,
            chain,
        ),
        PotSourceStepView::ReadPreDigest => make_source(
            BestBlock { pre_digest: Some(chain.pre_digest), ..best },
            genesis_seed,
            chain,
        ),
        PotSourceStepView::ReadSlotIterations(slot) => make_source(
            BestBlock { slot_iterations: Some((chain.slot_iterations)(slot)), ..best },
            genesis_seed,
            chain,
        ),
        end => end,
    }
}

/// A new source ends with the first failure in the order of the reads, or else with a timekeeper
/// at the slot after the best block, seeded by its future proof of time and with the iterations
/// of that very slot; on an empty chain, with one at the first slot and the genesis seed.
pub proof fn law_source_starts_after_best_block<Seed, Api, Backend, Digest>(
    hash: String,
    genesis_seed: Seed,
    chain: Chain<Seed, Api, Backend, Digest>,
)
    ensures
        make_source(BestBlock::unread(hash), genesis_seed, chain) == match (
            chain.block_authoring_delay,
            chain.number,
            chain.pre_digest,
        ) {
            (Err(error), _, _) => PotSourceStepView::Fail(PotSourceErrorView::Api(error)),
            (_, Err(error), _) => PotSourceStepView::Fail(PotSourceErrorView::Backend(error)),
            (_, Ok(None), _) => PotSourceStepView::Fail(
                PotSourceErrorView::UnknownBlock("Parent block "@ + hash@ + " not found"@),
            ),
            (_, _, Err(error)) => PotSourceStepView::Fail(PotSourceErrorView::Application(error)),
            (Ok(delay), Ok(Some(number)), Ok(pre_digest)) => {
                let slot = if number == 0 {
                    1
                } else {
                    pre_digest.slot.number + delay.number + 1
                };
                match (chain.slot_iterations)(Slot { number: slot as SlotNumber }) {
                    Err(error) => PotSourceStepView::Fail(PotSourceErrorView::Api(error)),
                    Ok(slot_iterations) => PotSourceStepView::RunTimekeeper {
                        seed: if number == 0 {
                            genesis_seed
                        } else {
                            pre_digest.future_seed
                        },
                        slot,
                        slot_iterations: slot_iterations@,
                    },
                }
            },
        },
{
    reveal_with_fuel(make_source, 5);
}

} // verus!
