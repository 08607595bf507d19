//! A card as the workflows take it to be, for the lemmas that speak of
//! whole runs: sixty-four blocks, each sector opened by the KeyA that its
//! trailer holds.
//!
//! Nothing here runs. The model answers what a session permits; which
//! sector is open is the session's to know.

use vstd::prelude::*;
use crate::card::{BlockData, CardIdentity};
use crate::layout::{role_of, BlockRole};
use crate::report::plain_block_texts;
use crate::session::{
    authenticated_for,
    granted,
    outcome_of,
    state_after,
    CardError,
    Command,
    Outcome,
    Reply,
    SessionState,
};

verus! {

/// A card: its identity and what its blocks hold.
pub struct CardModel {
    pub identity: CardIdentity,
    pub blocks: Seq<BlockData>,
}

/// A card has sixty-four blocks.
pub open spec fn card_wf(card: CardModel) -> bool {
    card.blocks.len() == 64
}

/// The KeyA of a sector: the first six bytes of its trailer.
pub open spec fn key_a_of(card: CardModel, sector: u8) -> Seq<u8> {
    card.blocks[4 * sector + 3]@.subrange(0, 6)
}

/// What a card answers to an exchange. It gives its identity when it is
/// selected, accepts the authentication of a sector with the KeyA of that
/// sector and refuses it with any other key, sends the blocks it holds,
/// and does as it is asked otherwise.
pub open spec fn card_reply(card: CardModel, command: Command) -> Reply {
    match command {
        Command::RequestA => Reply::Answered,
        Command::Select => Reply::Identity(card.identity),
        Command::Authenticate { identity, block, key } => if identity == card.identity && key@
            == key_a_of(card, block / 4) {
            Reply::Accepted
        } else {
            Reply::Refused
        },
        Command::Read { block } => Reply::Data(card.blocks[block as int]),
        Command::Write { block, data } => Reply::Accepted,
        Command::Halt => Reply::Accepted,
        Command::StopCrypto => Reply::Accepted,
    }
}

/// A card after an exchange: a write puts the block in place of the one
/// that was there, and nothing else changes what the card holds.
pub open spec fn card_after(card: CardModel, command: Command) -> CardModel {
    match command {
        Command::Write { block, data } => CardModel {
            blocks: card.blocks.update(block as int, data),
            ..card
        },
        _ => card,
    }
}

/// A data block reads back as it was written. Where a sector is open, the
/// write of a block that is neither the manufacturer block nor a trailer
/// is in order and succeeds, and the read of the same block that follows
/// it yields the bytes that were written, unchanged.
pub proof fn lemma_round_trip(state: SessionState, card: CardModel, block: u8, data: BlockData)
    requires
        card_wf(card),
        authenticated_for(state, block),
        role_of(block as int / 4, block as int % 4) == BlockRole::DataBlock,
    ensures
        ({
            let write = Command::Write { block, data };
            let read = Command::Read { block };
            let written = state_after(state, write, card_reply(card, write));
            let stored = card_after(card, write);
            &&& granted(state, write) == Ok::<Command, CardError>(write)
            &&& outcome_of(state, write, card_reply(card, write)) == Ok::<Outcome, CardError>(
                Outcome::Written,
            )
            &&& granted(written, read) == Ok::<Command, CardError>(read)
            &&& outcome_of(written, read, card_reply(stored, read)) == Ok::<Outcome, CardError>(
                Outcome::Block(data),
            )
        }),
{
}

/// What a report says of the four blocks of a sector, reported bare in
/// ascending order.
pub open spec fn sector_plain_texts(card: CardModel, sector: u8) -> Seq<Seq<u8>> {
    let first = 4 * sector;
    plain_block_texts(card.blocks[first]) + plain_block_texts(card.blocks[first + 1])
        + plain_block_texts(card.blocks[first + 2]) + plain_block_texts(card.blocks[first + 3])
}

} // verus!
