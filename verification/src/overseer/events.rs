//! Events that reach the overseer, and who makes them.
use crate::primitives::{BlockHash, BlockNumber};
use vstd::prelude::*;

verus! {

/// What the overseer reads of a block header.
pub struct Header {
    /// Hash of the parent block.
    pub parent_hash: BlockHash,
    /// The block's number.
    pub number: BlockNumber,
}

/// What the overseer reads of the client's notice that a block was imported.
pub struct BlockImportNotification {
    /// Hash of the imported block.
    pub hash: BlockHash,
    /// Header of the imported block.
    pub header: Header,
}

/// What the overseer reads of the client's notice that a block was finalized.
pub struct FinalityNotification {
    /// Hash of the finalized block.
    pub hash: BlockHash,
    /// Header of the finalized block.
    pub header: Header,
}

/// An event telling the `Overseer` on the particular block
/// that has been imported or finalized.
///
/// This structure exists solely for the purposes of decoupling
/// `Overseer` code from the client code.
#[derive(Debug)]
pub struct BlockInfo {
    /// hash of the block.
    pub hash: BlockHash,
    /// hash of the parent block.
    pub parent_hash: BlockHash,
    /// block's number.
    pub number: BlockNumber,
}

impl Clone for BlockInfo {
    fn clone(&self) -> (block: Self)
        ensures
            block == *self,
    {
        BlockInfo { hash: self.hash, parent_hash: self.parent_hash, number: self.number }
    }
}

/// The block that an import notification speaks of.
pub open spec fn notified_block(n: BlockImportNotification) -> BlockInfo {
    BlockInfo { hash: n.hash, parent_hash: n.header.parent_hash, number: n.header.number }
}

impl From<BlockImportNotification> for BlockInfo {
    fn from(n: BlockImportNotification) -> (block: Self) {
        BlockInfo { hash: n.hash, parent_hash: n.header.parent_hash, number: n.header.number }
    }
}

impl vstd::std_specs::convert::FromSpecImpl<BlockImportNotification> for BlockInfo {
    open spec fn obeys_from_spec() -> bool {
        true
    }

    open spec fn from_spec(n: BlockImportNotification) -> Self {
        notified_block(n)
    }
}

/// The block that a finality notification speaks of.
pub open spec fn finalized_block(n: FinalityNotification) -> BlockInfo {
    BlockInfo { hash: n.hash, parent_hash: n.header.parent_hash, number: n.header.number }
}

impl From<FinalityNotification> for BlockInfo {
    fn from(n: FinalityNotification) -> (block: Self) {
        BlockInfo { hash: n.hash, parent_hash: n.header.parent_hash, number: n.header.number }
    }
}

impl vstd::std_specs::convert::FromSpecImpl<FinalityNotification> for BlockInfo {
    open spec fn obeys_from_spec() -> bool {
        true
    }

    open spec fn from_spec(n: FinalityNotification) -> Self {
        finalized_block(n)
    }
}

/// Messages of the collation generation subsystem. Their contents pass through unread.
pub enum CollationGenerationMessage<Config, BundleProof, Fraud, InvalidTransaction> {
    /// Initialize the collation generation subsystem.
    Initialize(Config),
    /// A proof that a bundle was equivocated.
    BundleEquivocationProof(BundleProof),
    /// A proof of a fraud.
    FraudProof(Fraud),
    /// A proof that a transaction was invalid.
    InvalidTransactionProof(InvalidTransaction),
}

/// An event from outside the overseer scope, such
/// as the substrate framework or user interaction.
pub enum Event<SlotInfo, Message> {
    /// A new block was imported.
    BlockImported(BlockInfo),
    /// A block was finalized.
    BlockFinalized(BlockInfo),
    /// A new slot arrived.
    NewSlot(SlotInfo),
    /// Message as sent to a subsystem.
    MsgToSubsystem(Message),
}

/// The events that a handle sends to the overseer, one for each thing it is asked to report.
pub struct Handle;

impl Handle {
    /// Inform the `Overseer` that that some block was imported.
    pub fn block_imported<SlotInfo, Message>(block: BlockInfo) -> (event: Event<SlotInfo, Message>)
        ensures
            event == Event::<SlotInfo, Message>::BlockImported(block),
    {
        Event::BlockImported(block)
    }

    /// Inform the `Overseer` that some block was finalized.
    pub fn block_finalized<SlotInfo, Message>(block: BlockInfo) -> (event: Event<SlotInfo, Message>)
        ensures
            event == Event::<SlotInfo, Message>::BlockFinalized(block),
    {
        Event::BlockFinalized(block)
    }

    /// Send some message to one of the `Subsystem`s.
    pub fn send_msg<SlotInfo, Message>(msg: Message) -> (event: Event<SlotInfo, Message>)
        ensures
            event == Event::<SlotInfo, Message>::MsgToSubsystem(msg),
    {
        Event::MsgToSubsystem(msg)
    }

    /// Inform the `Overseer` that a new slot was triggered.
    pub fn slot_arrived<SlotInfo, Message>(slot_info: SlotInfo) -> (event: Event<SlotInfo, Message>)
        ensures
            event == Event::<SlotInfo, Message>::NewSlot(slot_info),
    {
        Event::NewSlot(slot_info)
    }

    /// Initialize the collation generation subsystem.
    pub fn initialize<SlotInfo, C, B, F, I>(config: C) -> (event: Event<
        SlotInfo,
        CollationGenerationMessage<C, B, F, I>,
    >)
        ensures
            event == Event::<SlotInfo, CollationGenerationMessage<C, B, F, I>>::MsgToSubsystem(
                CollationGenerationMessage::Initialize(config),
            ),
    {
        Self::send_msg(CollationGenerationMessage::Initialize(config))
    }

    /// Submit a proof that a bundle was equivocated.
    pub fn submit_bundle_equivocation_proof<SlotInfo, C, B, F, I>(
        bundle_equivocation_proof: B,
    ) -> (event: Event<SlotInfo, CollationGenerationMessage<C, B, F, I>>)
        ensures
            event == Event::<SlotInfo, CollationGenerationMessage<C, B, F, I>>::MsgToSubsystem(
                CollationGenerationMessage::BundleEquivocationProof(bundle_equivocation_proof),
            ),
    {
        Self::send_msg(
            CollationGenerationMessage::BundleEquivocationProof(bundle_equivocation_proof),
        )
    }

    /// Submit a fraud proof.
    pub fn submit_fraud_proof<SlotInfo, C, B, F, I>(fraud_proof: F) -> (event: Event<
        SlotInfo,
        CollationGenerationMessage<C, B, F, I>,
    >)
        ensures
            event == Event::<SlotInfo, CollationGenerationMessage<C, B, F, I>>::MsgToSubsystem(
                CollationGenerationMessage::FraudProof(fraud_proof),
            ),
    {
        Self::send_msg(CollationGenerationMessage::FraudProof(fraud_proof))
    }

    /// Submit a proof that a transaction was invalid.
    pub fn submit_invalid_transaction_proof<SlotInfo, C, B, F, I>(
        invalid_transaction_proof: I,
    ) -> (event: Event<SlotInfo, CollationGenerationMessage<C, B, F, I>>)
        ensures
            event == Event::<SlotInfo, CollationGenerationMessage<C, B, F, I>>::MsgToSubsystem(
                CollationGenerationMessage::InvalidTransactionProof(invalid_transaction_proof),
            ),
    {
        Self::send_msg(
            CollationGenerationMessage::InvalidTransactionProof(invalid_transaction_proof),
        )
    }
}

/// What the forwarder sees when one of its streams is ready.
pub enum Arrival<SlotInfo> {
    /// The import stream yielded, or ended.
    Import(Option<BlockImportNotification>),
    /// The finality stream yielded, or ended.
    Finality(Option<FinalityNotification>),
    /// The slot stream yielded, or ended.
    Slot(Option<SlotInfo>),
    /// The import and the slot stream are both complete.
    Complete,
}

/// What the forwarder does about an arrival.
pub enum Forward<SlotInfo, Message> {
    /// Send the event to the overseer and wait for the next arrival.
    Send(Event<SlotInfo, Message>),
    /// Send nothing and wait for the next arrival.
    Wait,
    /// Leave the loop.
    Stop,
}

/// The forwarder's answer to an arrival: imported blocks, finalized blocks and slots go to the
/// overseer. The end of the imports or of the slots ends the forwarding; the end of the finality
/// notifications does not.
pub open spec fn forwarding<SlotInfo, Message>(arrival: Arrival<SlotInfo>) -> Forward<
    SlotInfo,
    Message,
> {
    match arrival {
        Arrival::Import(Some(n)) => Forward::Send(Event::BlockImported(notified_block(n))),
        Arrival::Finality(Some(n)) => Forward::Send(Event::BlockFinalized(finalized_block(n))),
        Arrival::Slot(Some(slot_info)) => Forward::Send(Event::NewSlot(slot_info)),
        Arrival::Finality(None) => Forward::Wait,
        Arrival::Import(None) | Arrival::Slot(None) | Arrival::Complete => Forward::Stop,
    }
}

/// Glues together the `Overseer` and the blockchain events by turning each import notification,
/// each finality notification and each slot into the event to send.
pub fn forward_events<SlotInfo, Message>(arrival: Arrival<SlotInfo>) -> (step: Forward<
    SlotInfo,
    Message,
>)
    ensures
        step == forwarding::<SlotInfo, Message>(arrival),
{
    match arrival {
        Arrival::Import(i) => match i {
            Some(block) => Forward::Send(Handle::block_imported(BlockInfo::from(block))),
            None => Forward::Stop,
        },
        Arrival::Finality(f) => match f {
            Some(block) => Forward::Send(Handle::block_finalized(BlockInfo::from(block))),
            None => Forward::Wait,
        },
        Arrival::Slot(s) => match s {
            Some(slot_info) => Forward::Send(Handle::slot_arrived(slot_info)),
            None => Forward::Stop,
        },
        Arrival::Complete => Forward::Stop,
    }
}

} // verus!
