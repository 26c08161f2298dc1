//! The source of proofs of time.
use crate::primitives::BlockNumber;
use crate::proof_of_time::slots::{Slot, SlotIterations, SlotNumber, STANDARD_SLOT_ITERATIONS};
use crate::proof_of_time::timekeeper::{NewCheckpoints, Timekeeper};
use vstd::prelude::*;
use vstd::string::StringExecFns;

verus! {

/// Capacity of the channel from the timekeeper to the source.
pub const LOCAL_PROOFS_CHANNEL_CAPACITY: usize = 10;

/// Capacity of the channel of slots that the source offers.
pub const SLOTS_CHANNEL_CAPACITY: usize = 10;

/// Proof of time slot information
#[derive(Debug)]
pub struct PotSlotInfo<Checkpoints> {
    /// Slot number
    pub slot: Slot,
    /// Proof of time checkpoints
    pub checkpoints: Checkpoints,
}

/// What is read of the pre-digest of a block.
#[derive(Debug)]
pub struct PreDigest<Seed> {
    /// The slot of the block.
    pub slot: Slot,
    /// The seed that its future proof of time gives.
    pub future_seed: Seed,
}

/// What has been read so far about the best block, each thing once it has been asked for.
#[derive(Debug)]
pub struct BestBlock<Seed, Api, Backend, Digest> {
    /// The hash of the block, as it is written.
    pub hash: String,
    /// By how many slots authoring is delayed, among the chain constants.
    pub block_authoring_delay: Option<Result<Slot, Api>>,
    /// The number in the block's header, if the block has one.
    pub number: Option<Result<Option<BlockNumber>, Backend>>,
    /// The pre-digest in the block's header.
    pub pre_digest: Option<Result<PreDigest<Seed>, Digest>>,
    /// The iterations that the parameters set for the first slot.
    pub slot_iterations: Option<Result<SlotIterations, Api>>,
}

/// What the timekeeper starts from.
#[derive(Debug)]
pub enum StartFrom<Seed, Api, Backend, Digest> {
    /// The best block of the chain.
    BestBlock(BestBlock<Seed, Api, Backend, Digest>),
    /// Nothing but the genesis seed.
    Genesis,
}

/// Why a source could not be made.
#[derive(Debug)]
pub enum PotSourceError<Api, Backend, Digest> {
    /// A call into the runtime failed.
    Api(Api),
    /// The header could not be read.
    Backend(Backend),
    /// The block is not known; the text says which.
    UnknownBlock(String),
    /// The pre-digest could not be extracted.
    Application(Digest),
}

/// What the making of a source has to do next.
#[derive(Debug)]
pub enum PotSourceStep<Seed, Api, Backend, Digest> {
    /// Read the block authoring delay of the chain constants.
    ReadChainConstants(BestBlock<Seed, Api, Backend, Digest>),
    /// Read the header.
    ReadHeader(BestBlock<Seed, Api, Backend, Digest>),
    /// Extract the pre-digest from the header.
    ReadPreDigest(BestBlock<Seed, Api, Backend, Digest>),
    /// Read the iterations that the parameters set for this slot.
    ReadSlotIterations(BestBlock<Seed, Api, Backend, Digest>, Slot),
    /// Run the timekeeper from here on.
    RunTimekeeper(Timekeeper<Seed>),
    /// Give up.
    Fail(PotSourceError<Api, Backend, Digest>),
}

/// What a step says.
pub enum PotSourceStepView<Seed, Api, Backend, Digest> {
    ReadChainConstants,
    ReadHeader,
    ReadPreDigest,
    ReadSlotIterations(Slot),
    RunTimekeeper { seed: Seed, slot: int, slot_iterations: u32 },
    Fail(PotSourceErrorView<Api, Backend, Digest>),
}

/// What an error says.
pub enum PotSourceErrorView<Api, Backend, Digest> {
    Api(Api),
    Backend(Backend),
    UnknownBlock(Seq<char>),
    Application(Digest),
}

impl<Api, Backend, Digest> View for PotSourceError<Api, Backend, Digest> {
    type V = PotSourceErrorView<Api, Backend, Digest>;

    open spec fn view(&self) -> PotSourceErrorView<Api, Backend, Digest> {
        match *self {
            PotSourceError::Api(error) => PotSourceErrorView::Api(error),
            PotSourceError::Backend(error) => PotSourceErrorView::Backend(error),
            PotSourceError::UnknownBlock(text) => PotSourceErrorView::UnknownBlock(text@),
            PotSourceError::Application(error) => PotSourceErrorView::Application(error),
        }
    }
}

impl<Seed, Api, Backend, Digest> View for PotSourceStep<Seed, Api, Backend, Digest> {
    type V = PotSourceStepView<Seed, Api, Backend, Digest>;

    open spec fn view(&self) -> PotSourceStepView<Seed, Api, Backend, Digest> {
        match *self {
            PotSourceStep::ReadChainConstants(_) => PotSourceStepView::ReadChainConstants,
            PotSourceStep::ReadHeader(_) => PotSourceStepView::ReadHeader,
            PotSourceStep::ReadPreDigest(_) => PotSourceStepView::ReadPreDigest,
            PotSourceStep::ReadSlotIterations(_, slot) => PotSourceStepView::ReadSlotIterations(
                slot,
            ),
            PotSourceStep::RunTimekeeper(timekeeper) => PotSourceStepView::RunTimekeeper {
                seed: timekeeper.seed,
                slot: timekeeper.slot as int,
                slot_iterations: timekeeper.slot_iterations@,
            },
            PotSourceStep::Fail(error) => PotSourceStepView::Fail(error@),
        }
    }
}

impl<Seed, Api, Backend, Digest> PotSourceStep<Seed, Api, Backend, Digest> {
    /// What was read so far, which a step that reads on hands back.
    pub open spec fn best_block(self) -> Option<BestBlock<Seed, Api, Backend, Digest>> {
        match self {
            PotSourceStep::ReadChainConstants(best) => Some(best),
            PotSourceStep::ReadHeader(best) => Some(best),
            PotSourceStep::ReadPreDigest(best) => Some(best),
            PotSourceStep::ReadSlotIterations(best, _) => Some(best),
            PotSourceStep::RunTimekeeper(_) => None,
            PotSourceStep::Fail(_) => None,
        }
    }

    /// Whether the step reads on.
    pub open spec fn reads(self) -> bool {
        !(self is RunTimekeeper) && !(self is Fail)
    }
}

/// The first slot to prove: the very first one on an empty chain, else the next one after the
/// best block's slot and the authoring delay.
pub open spec fn first_slot(best_number: BlockNumber, best_slot: Slot, delay: Slot) -> int {
    if best_number == 0 {
        1
    } else {
        best_slot.number + delay.number + 1
    }
}

/// The seed of the first slot: the genesis seed on an empty chain, else that of the future proof
/// of time in the best block.
pub open spec fn first_seed<Seed>(
    best_number: BlockNumber,
    genesis_seed: Seed,
    future_seed: Seed,
) -> Seed {
    if best_number == 0 {
        genesis_seed
    } else {
        future_seed
    }
}

/// The text about a best block that is not found.
pub open spec fn parent_not_found(hash: Seq<char>) -> Seq<char> {
    "Parent block "@ + hash + " not found"@
}

impl<Seed, Api, Backend, Digest> BestBlock<Seed, Api, Backend, Digest> {
    /// Whether the first slot, where it is known already, has a number.
    pub open spec fn first_slot_fits(self) -> bool {
        match (self.block_authoring_delay, self.number, self.pre_digest) {
            (Some(Ok(delay)), Some(Ok(Some(number))), Some(Ok(pre_digest))) => first_slot(
                number,
                pre_digest.slot,
                delay,
            ) <= SlotNumber::MAX,
            _ => true,
        }
    }

    /// What comes next, given what has been read of the best block: the first thing that is still
    /// missing is read, the first failure ends it.
    pub open spec fn next_step(self, genesis_seed: Seed) -> PotSourceStepView<
        Seed,
        Api,
        Backend,
        Digest,
    > {
        match self.block_authoring_delay {
            None => PotSourceStepView::ReadChainConstants,
            Some(Err(error)) => PotSourceStepView::Fail(PotSourceErrorView::Api(error)),
            Some(Ok(delay)) => match self.number {
                None => PotSourceStepView::ReadHeader,
                Some(Err(error)) => PotSourceStepView::Fail(PotSourceErrorView::Backend(error)),
                Some(Ok(None)) => PotSourceStepView::Fail(
                    PotSourceErrorView::UnknownBlock(parent_not_found(self.hash@)),
                ),
                Some(Ok(Some(number))) => match self.pre_digest {
                    None => PotSourceStepView::ReadPreDigest,
                    Some(Err(error)) => PotSourceStepView::Fail(
                        PotSourceErrorView::Application(error),
                    ),
                    Some(Ok(pre_digest)) => {
                        let slot = first_slot(number, pre_digest.slot, delay);
                        match self.slot_iterations {
                            None => PotSourceStepView::ReadSlotIterations(
                                Slot { number: slot as SlotNumber },
                            ),
                            Some(Err(error)) => PotSourceStepView::Fail(
                                PotSourceErrorView::Api(error),
                            ),
                            Some(Ok(slot_iterations)) => PotSourceStepView::RunTimekeeper {
                                seed: first_seed(number, genesis_seed, pre_digest.future_seed),
                                slot,
                                slot_iterations: slot_iterations@,
                            },
                        }
                    },
                },
            },
        }
    }
}

impl<Seed, Api, Backend, Digest> BestBlock<Seed, Api, Backend, Digest> {
    /// The best block with this hash, of which nothing has been read.
    pub fn new(hash: String) -> (best: Self)
        ensures
            best == Self::unread(hash),
    {
        BestBlock {
            hash,
            block_authoring_delay: None,
            number: None,
            pre_digest: None,
            slot_iterations: None,
        }
    }

    /// The best block with this hash, of which nothing has been read.
    pub open spec fn unread(hash: String) -> Self {
        BestBlock {
            hash,
            block_authoring_delay: None,
            number: None,
            pre_digest: None,
            slot_iterations: None,
        }
    }

    /// Whether the first slot, where it is known already, has a number.
    pub fn has_first_slot(&self) -> (fits: bool)
        ensures
            fits == self.first_slot_fits(),
    {
        match (&self.block_authoring_delay, &self.number, &self.pre_digest) {
            (Some(Ok(delay)), Some(Ok(Some(number))), Some(Ok(pre_digest))) => {
                *number == 0 || (delay.number < SlotNumber::MAX && pre_digest.slot.number
                    <= SlotNumber::MAX - 1 - delay.number)
            },
            _ => true,
        }
    }
}

/// What moves the source on.
#[derive(Debug)]
pub enum PotSourceEvent<Seed, Checkpoints> {
    /// The source is started.
    Started,
    /// The checkpoints that were waited for, or `None` if the timekeeper sends no more.
    Received(Option<NewCheckpoints<Seed, Checkpoints>>),
    /// The verifier has taken the checkpoints in; this is the slot that they belong to.
    Injected(PotSlotInfo<Checkpoints>),
    /// The slot was sent, or nobody is there to receive it.
    Sent,
}

/// What the source does next.
#[derive(Debug)]
pub enum PotSourceAction<Seed, Checkpoints> {
    /// Wait for checkpoints from the timekeeper.
    Receive,
    /// Give the verifier the checkpoints that this seed and so many iterations lead to, as
    /// verified. The slot is not to be sent yet.
    Inject(Seed, SlotIterations, Checkpoints, PotSlotInfo<Checkpoints>),
    /// Send the slot. It doesn't matter if the receiver is dropped.
    Send(PotSlotInfo<Checkpoints>),
    /// Return.
    Return,
}

/// The slot that checkpoints from the timekeeper belong to.
pub open spec fn slot_info<Seed, Checkpoints>(
    new_checkpoints: NewCheckpoints<Seed, Checkpoints>,
) -> PotSlotInfo<Checkpoints> {
    PotSlotInfo { slot: new_checkpoints.slot, checkpoints: new_checkpoints.checkpoints }
}

/// One step of the source's loop: checkpoints go to the verifier first, and only once they are
/// there is their slot sent.
pub open spec fn source_action<Seed, Checkpoints>(event: PotSourceEvent<Seed, Checkpoints>) -> PotSourceAction<
    Seed,
    Checkpoints,
> {
    match event {
        PotSourceEvent::Started | PotSourceEvent::Sent => PotSourceAction::Receive,
        PotSourceEvent::Received(Some(new_checkpoints)) => PotSourceAction::Inject(
            new_checkpoints.seed,
            new_checkpoints.slot_iterations,
            new_checkpoints.checkpoints,
            slot_info(new_checkpoints),
        ),
        PotSourceEvent::Received(None) => PotSourceAction::Return,
        PotSourceEvent::Injected(info) => PotSourceAction::Send(info),
    }
}

/// Source of proofs of time.
pub struct PotSource;

impl PotSource {
    /// One step towards a new source, given what has been read so far.
    ///
    /// The number of the first slot must fit.
    pub fn new<Seed, Api, Backend, Digest>(
        genesis_seed: Seed,
        start_from: StartFrom<Seed, Api, Backend, Digest>,
    ) -> (step: PotSourceStep<Seed, Api, Backend, Digest>)
        requires
            start_from matches StartFrom::BestBlock(best) ==> best.first_slot_fits(),
        ensures
            match start_from {
                StartFrom::BestBlock(best) => {
                    &&& step@ == best.next_step(genesis_seed)
                    &&& step.reads() ==> step.best_block() == Some(best)
                },
                StartFrom::Genesis => step@ == (PotSourceStepView::<
                    Seed,
                    Api,
                    Backend,
                    Digest,
                >::RunTimekeeper {
                    seed: genesis_seed,
                    slot: 1,
                    slot_iterations: STANDARD_SLOT_ITERATIONS,
                }),
            },
    {
        match start_from {
            StartFrom::BestBlock(best) => Self::from_best_block(genesis_seed, best),
            StartFrom::Genesis => PotSourceStep::RunTimekeeper(
                Timekeeper {
                    seed: genesis_seed,
                    slot: 1,
                    slot_iterations: SlotIterations::standard(),
                },
            ),
        }
    }

    /// One step towards a source that starts from the best block.
    fn from_best_block<Seed, Api, Backend, Digest>(
        genesis_seed: Seed,
        best: BestBlock<Seed, Api, Backend, Digest>,
    ) -> (step: PotSourceStep<Seed, Api, Backend, Digest>)
        requires
            best.first_slot_fits(),
        ensures
            step@ == best.next_step(genesis_seed),
            step.reads() ==> step.best_block() == Some(best),
    {
        let delay = match best.block_authoring_delay {
            None => return PotSourceStep::ReadChainConstants(best),
            Some(Err(error)) => return PotSourceStep::Fail(PotSourceError::Api(error)),
            Some(Ok(delay)) => delay,
        };
        let number: BlockNumber = match best.number {
            None => return PotSourceStep::ReadHeader(best),
            Some(Err(error)) => return PotSourceStep::Fail(PotSourceError::Backend(error)),
            Some(Ok(None)) => return PotSourceStep::Fail(
                PotSourceError::UnknownBlock(Self::parent_not_found(best.hash)),
            ),
            Some(Ok(Some(number))) => number,
        };
        match best.pre_digest {
            None => PotSourceStep::ReadPreDigest(best),
            Some(Err(error)) => PotSourceStep::Fail(PotSourceError::Application(error)),
            Some(Ok(pre_digest)) => {
                let start_slot: SlotNumber = if number == 0 {
                    1
                } else {
                    // Next slot after the best one seen
                    pre_digest.slot.number + delay.number + 1
                };
                match best.slot_iterations {
                    None => PotSourceStep::ReadSlotIterations(
                        BestBlock { pre_digest: Some(Ok(pre_digest)), ..best },
                        Slot::from(start_slot),
                    ),
                    Some(Err(error)) => PotSourceStep::Fail(PotSourceError::Api(error)),
                    Some(Ok(slot_iterations)) => {
                        let start_seed = if number == 0 {
                            genesis_seed
                        } else {
                            pre_digest.future_seed
                        };
                        PotSourceStep::RunTimekeeper(
                            Timekeeper { seed: start_seed, slot: start_slot, slot_iterations },
                        )
                    },
                }
            },
        }
    }

    /// The text about a best block that is not found.
    fn parent_not_found(hash: String) -> (text: String)
        ensures
            text@ == parent_not_found(hash@),
    {
        let mut text = String::from_str("Parent block ");
        text.append(hash.as_str());
        text.append(" not found");
        text
    }

    /// Runs the source by one step.
    pub fn run<Seed, Checkpoints: Copy>(event: PotSourceEvent<Seed, Checkpoints>) -> (action:
        PotSourceAction<Seed, Checkpoints>)
        ensures
            action == source_action(event),
    {
        match event {
            PotSourceEvent::Started => PotSourceAction::Receive,
            PotSourceEvent::Received(received) => match received {
                Some(new_checkpoints) => {
                    let NewCheckpoints { seed, slot_iterations, slot, checkpoints } =
                        new_checkpoints;

                    PotSourceAction::Inject(
                        seed,
                        slot_iterations,
                        checkpoints,
                        PotSlotInfo { slot, checkpoints },
                    )
                },
                None => PotSourceAction::Return,
            },
            PotSourceEvent::Injected(info) => PotSourceAction::Send(info),
            PotSourceEvent::Sent => PotSourceAction::Receive,
        }
    }
}

} // verus!
