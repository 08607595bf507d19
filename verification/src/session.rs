//! One card session: which exchanges with the reader chip are in order, and
//! what each of their replies means.
//!
//! The session makes no exchange itself. Its caller asks it for a
//! [`Command`], carries that out, and settles the [`Reply`] with it.

use vstd::prelude::*;
use crate::card::{BlockData, CardIdentity, SectorKey};
use crate::layout::{BLOCKS_PER_SECTOR, BLOCK_COUNT, SECTOR_COUNT};

verus! {

/// Why an operation of a session did not succeed.
#[derive(Clone, Copy, Debug, PartialEq, Eq, Structural)]
pub enum CardError {
    /// No card answered the poll.
    NoCardPresent,
    /// No single card could be selected.
    SelectFailed,
    /// The card did not accept the key for the sector.
    AuthFailed,
    /// The block lies in a sector that the session is not authenticated for.
    NotAuthenticated,
    /// The block could not be read.
    ReadFailed,
    /// The block could not be written.
    WriteFailed,
    /// The channel to the reader chip failed.
    TransportError,
}

/// The text under which an error is reported.
pub open spec fn error_message(error: CardError) -> Seq<char> {
    match error {
        CardError::NoCardPresent => "No card present"@,
        CardError::SelectFailed => "Select failed"@,
        CardError::AuthFailed => "Auth failed"@,
        CardError::NotAuthenticated => "Not authenticated"@,
        CardError::ReadFailed => "Read failed"@,
        CardError::WriteFailed => "Write failed"@,
        CardError::TransportError => "Transport error"@,
    }
}

impl CardError {
    /// The text under which this error is reported.
    pub fn message(&self) -> (text: &'static str)
        ensures
            text@ == error_message(*self),
    {
        match self {
            CardError::NoCardPresent => "No card present",
            CardError::SelectFailed => "Select failed",
            CardError::AuthFailed => "Auth failed",
            CardError::NotAuthenticated => "Not authenticated",
            CardError::ReadFailed => "Read failed",
            CardError::WriteFailed => "Write failed",
            CardError::TransportError => "Transport error",
        }
    }
}

/// One exchange with the reader chip, for the caller to carry out.
#[derive(Clone, Copy, Debug, PartialEq, Eq)]
pub enum Command {
    /// Ask once whether a card is in the field.
    RequestA,
    /// Run anticollision and select the card that answered.
    Select,
    /// Authenticate the sector that holds `block`, with `key` as KeyA.
    Authenticate { identity: CardIdentity, block: u8, key: SectorKey },
    /// Read the sixteen bytes of `block`.
    Read { block: u8 },
    /// Write `data` to `block`, all sixteen bytes at once.
    Write { block: u8, data: BlockData },
    /// Send the card to its halted state.
    Halt,
    /// Switch off the reader chip's crypto unit.
    StopCrypto,
}

/// What came back from one exchange.
#[derive(Clone, Copy, Debug, PartialEq, Eq)]
pub enum Reply {
    /// A card answered the request.
    Answered,
    /// The card was selected and gave its identity.
    Identity(CardIdentity),
    /// The card or the chip did as it was asked.
    Accepted,
    /// The card sent the block.
    Data(BlockData),
    /// The card answered in the negative, or not at all.
    Refused,
    /// The channel to the reader chip failed.
    ChannelFault,
}

/// What a settled exchange achieved.
#[derive(Clone, Copy, Debug, PartialEq, Eq)]
pub enum Outcome {
    /// A card is in the field.
    Detected,
    /// The card with this identity is selected.
    Selected(CardIdentity),
    /// The sector with this index is open for reading and writing.
    Authenticated(u8),
    /// The bytes of the block that was read.
    Block(BlockData),
    /// The block was written.
    Written,
    /// The card is halted.
    Halted,
    /// The crypto unit is off.
    CryptoStopped,
}

/// Where a session stands.
#[derive(Clone, Copy, Debug, PartialEq, Eq)]
pub enum SessionState {
    /// No card is known.
    Idle,
    /// A card answered the poll and is not selected yet.
    Detected,
    /// A card is selected; no sector of it is open.
    Selected(CardIdentity),
    /// A card is selected and the sector with this index is open.
    Authenticated(CardIdentity, u8),
    /// The card was halted.
    Halted,
}

/// The card that a session has selected, if it has one.
pub open spec fn selected_card(state: SessionState) -> Option<CardIdentity> {
    match state {
        SessionState::Selected(identity) => Some(identity),
        SessionState::Authenticated(identity, _) => Some(identity),
        _ => None,
    }
}

/// Whether `block` lies in the sector that the session has open.
pub open spec fn authenticated_for(state: SessionState, block: u8) -> bool {
    match state {
        SessionState::Authenticated(_, sector) => block < 64 && block / 4 == sector,
        _ => false,
    }
}

/// Whether a command is in order in a state, and the error it meets where
/// it is not.
pub open spec fn permits(state: SessionState, command: Command) -> Result<(), CardError> {
    match command {
        Command::RequestA => Ok(()),
        Command::Select => if state is Detected {
            Ok(())
        } else {
            Err(CardError::SelectFailed)
        },
        Command::Authenticate { identity, block, key } => if selected_card(state) == Some(identity)
            && block < 64 {
            Ok(())
        } else {
            Err(CardError::AuthFailed)
        },
        Command::Read { block } => if authenticated_for(state, block) {
            Ok(())
        } else {
            Err(CardError::NotAuthenticated)
        },
        Command::Write { block, data } => if authenticated_for(state, block) {
            Ok(())
        } else {
            Err(CardError::NotAuthenticated)
        },
        Command::Halt => Ok(()),
        Command::StopCrypto => Ok(()),
    }
}

/// A command, where the state permits it, and else the error it meets.
pub open spec fn granted(state: SessionState, command: Command) -> Result<Command, CardError> {
    match permits(state, command) {
        Ok(_) => Ok(command),
        Err(error) => Err(error),
    }
}

/// The state without its open sector, as switching off the crypto unit
/// leaves it.
pub open spec fn without_crypto(state: SessionState) -> SessionState {
    match state {
        SessionState::Authenticated(identity, _) => SessionState::Selected(identity),
        SessionState::Halted => SessionState::Idle,
        _ => state,
    }
}

/// The state of a session once `reply` to `command` is settled. A command
/// that the state does not permit changes nothing.
pub open spec fn state_after(state: SessionState, command: Command, reply: Reply) -> SessionState {
    if permits(state, command) is Err {
        state
    } else {
        match command {
            Command::RequestA => if reply is Answered {
                SessionState::Detected
            } else {
                SessionState::Idle
            },
            Command::Select => match reply {
                Reply::Identity(identity) => SessionState::Selected(identity),
                _ => SessionState::Idle,
            },
            Command::Authenticate { identity, block, key } => if reply is Accepted {
                SessionState::Authenticated(identity, block / 4)
            } else {
                SessionState::Selected(identity)
            },
            Command::Read { block } => state,
            Command::Write { block, data } => state,
            Command::Halt => SessionState::Halted,
            Command::StopCrypto => without_crypto(state),
        }
    }
}

/// What settling `reply` to `command` yields. A command that the state
/// does not permit yields the error of [`permits`], whatever the reply.
pub open spec fn outcome_of(state: SessionState, command: Command, reply: Reply) -> Result<
    Outcome,
    CardError,
> {
    match permits(state, command) {
        Err(error) => Err(error),
        Ok(_) => match command {
            Command::RequestA => if reply is Answered {
                Ok(Outcome::Detected)
            } else {
                Err(CardError::NoCardPresent)
            },
            Command::Select => match reply {
                Reply::Identity(identity) => Ok(Outcome::Selected(identity)),
                Reply::ChannelFault => Err(CardError::TransportError),
                _ => Err(CardError::SelectFailed),
            },
            Command::Authenticate { identity, block, key } => match reply {
                Reply::Accepted => Ok(Outcome::Authenticated(block / 4)),
                Reply::ChannelFault => Err(CardError::TransportError),
                _ => Err(CardError::AuthFailed),
            },
            Command::Read { block } => match reply {
                Reply::Data(data) => Ok(Outcome::Block(data)),
                _ => Err(CardError::ReadFailed),
            },
            Command::Write { block, data } => if reply is Accepted {
                Ok(Outcome::Written)
            } else {
                Err(CardError::WriteFailed)
            },
            Command::Halt => if reply is Accepted {
                Ok(Outcome::Halted)
            } else {
                Err(CardError::TransportError)
            },
            Command::StopCrypto => if reply is Accepted {
                Ok(Outcome::CryptoStopped)
            } else {
                Err(CardError::TransportError)
            },
        },
    }
}

/// The session with one card, from the poll that finds it to its halt.
#[derive(Clone, Copy, Debug, PartialEq, Eq)]
pub struct CardSession {
    state: SessionState,
}

impl View for CardSession {
    type V = SessionState;

    closed spec fn view(&self) -> SessionState {
        self.state
    }
}

impl CardSession {
    /// A session that knows of no card.
    pub fn new() -> (session: CardSession)
        ensures
            session@ == SessionState::Idle,
    {
        CardSession { state: SessionState::Idle }
    }

    /// Where the session stands.
    pub fn state(&self) -> (state: SessionState)
        ensures
            state == self@,
    {
        self.state
    }

    /// The card that the session has selected, if it has one.
    pub fn card(&self) -> (card: Option<CardIdentity>)
        ensures
            card == selected_card(self@),
    {
        match self.state {
            SessionState::Selected(identity) => Some(identity),
            SessionState::Authenticated(identity, _) => Some(identity),
            _ => None,
        }
    }

    /// Whether a block lies in the sector that the session has open.
    pub fn is_authenticated_for(&self, absolute_block: u8) -> (open: bool)
        ensures
            open == authenticated_for(self@, absolute_block),
    {
        match self.state {
            SessionState::Authenticated(_, sector) => absolute_block < BLOCK_COUNT && absolute_block
                / BLOCKS_PER_SECTOR == sector,
            _ => false,
        }
    }

    /// Whether the session permits a command. The caller carries out only
    /// the commands that it does.
    pub fn permits(&self, command: &Command) -> (verdict: Result<(), CardError>)
        ensures
            verdict == permits(self@, *command),
    {
        match command {
            Command::RequestA => Ok(()),
            Command::Select => match self.state {
                SessionState::Detected => Ok(()),
                _ => Err(CardError::SelectFailed),
            },
            Command::Authenticate { identity, block, key } => {
                let known = match &self.state {
                    SessionState::Selected(selected) => selected.same_card(identity),
                    SessionState::Authenticated(selected, _) => selected.same_card(identity),
                    _ => false,
                };
                if known && *block < BLOCK_COUNT {
                    Ok(())
                } else {
                    Err(CardError::AuthFailed)
                }
            },
            Command::Read { block } => if self.is_authenticated_for(*block) {
                Ok(())
            } else {
                Err(CardError::NotAuthenticated)
            },
            Command::Write { block, data } => if self.is_authenticated_for(*block) {
                Ok(())
            } else {
                Err(CardError::NotAuthenticated)
            },
            Command::Halt => Ok(()),
            Command::StopCrypto => Ok(()),
        }
    }

    /// The command that polls for a card: one attempt, which does not wait.
    /// It is in order in every state, and starts the session afresh.
    pub fn poll_for_card(&self) -> (command: Command)
        ensures
            command == Command::RequestA,
            permits(self@, command) is Ok,
    {
        Command::RequestA
    }

    /// The command that selects the card that answered the poll. It fails
    /// with `SelectFailed` unless a card has just been detected.
    pub fn select(&self) -> (command: Result<Command, CardError>)
        ensures
            command == granted(self@, Command::Select),
            command is Ok <==> self@ is Detected,
    {
        match self.permits(&Command::Select) {
            Ok(_) => Ok(Command::Select),
            Err(error) => Err(error),
        }
    }

    /// The command that authenticates sector `sector_index` of the selected
    /// card with `key`: it names the first block of that sector. It fails
    /// with `AuthFailed`, and asks nothing of the card, unless `identity`
    /// is the card that this session has selected and the card has such a
    /// sector.
    pub fn authenticate(&self, identity: &CardIdentity, sector_index: u8, key: &SectorKey) -> (command:
        Result<Command, CardError>)
        ensures
            sector_index < 16 ==> command == granted(
                self@,
                Command::Authenticate { identity: *identity, block: (sector_index * 4) as u8, key: *key },
            ),
            sector_index >= 16 ==> command == Err::<Command, CardError>(CardError::AuthFailed),
            command is Ok <==> sector_index < 16 && selected_card(self@) == Some(*identity),
    {
        if sector_index >= SECTOR_COUNT {
            return Err(CardError::AuthFailed);
        }
        let command = Command::Authenticate {
            identity: *identity,
            block: sector_index * BLOCKS_PER_SECTOR,
            key: *key,
        };
        match self.permits(&command) {
            Ok(_) => Ok(command),
            Err(error) => Err(error),
        }
    }

    /// The command that reads a block. It fails with `NotAuthenticated`
    /// unless the block lies in the sector that the session has open.
    pub fn read_block(&self, absolute_block: u8) -> (command: Result<Command, CardError>)
        ensures
            command == granted(self@, Command::Read { block: absolute_block }),
            command is Ok <==> authenticated_for(self@, absolute_block),
    {
        let command = Command::Read { block: absolute_block };
        match self.permits(&command) {
            Ok(_) => Ok(command),
            Err(error) => Err(error),
        }
    }

    /// The command that writes all sixteen bytes of a block. It fails with
    /// `NotAuthenticated` unless the block lies in the sector that the
    /// session has open.
    pub fn write_block(&self, absolute_block: u8, data: &BlockData) -> (command: Result<
        Command,
        CardError,
    >)
        ensures
            command == granted(self@, Command::Write { block: absolute_block, data: *data }),
            command is Ok <==> authenticated_for(self@, absolute_block),
    {
        let command = Command::Write { block: absolute_block, data: *data };
        match self.permits(&command) {
            Ok(_) => Ok(command),
            Err(error) => Err(error),
        }
    }

    /// The command that halts the card. It is in order in every state.
    pub fn halt(&self) -> (command: Command)
        ensures
            command == Command::Halt,
            permits(self@, command) is Ok,
    {
        Command::Halt
    }

    /// The command that switches off the crypto unit. It is in order in
    /// every state.
    pub fn stop_crypto(&self) -> (command: Command)
        ensures
            command == Command::StopCrypto,
            permits(self@, command) is Ok,
    {
        Command::StopCrypto
    }

    /// Settles the reply to a command: moves the session on and says what
    /// the exchange achieved. A command that the session does not permit
    /// leaves it as it was and yields the error of [`permits`].
    pub fn settle(&mut self, command: &Command, reply: &Reply) -> (outcome: Result<
        Outcome,
        CardError,
    >)
        ensures
            outcome == outcome_of(old(self)@, *command, *reply),
            final(self)@ == state_after(old(self)@, *command, *reply),
    {
        match self.permits(command) {
            Err(error) => {
                return Err(error);
            },
            Ok(_) => {},
        }
        match command {
            Command::RequestA => match reply {
                Reply::Answered => {
                    self.state = SessionState::Detected;
                    Ok(Outcome::Detected)
                },
                _ => {
                    self.state = SessionState::Idle;
                    Err(CardError::NoCardPresent)
                },
            },
            Command::Select => match reply {
                Reply::Identity(identity) => {
                    self.state = SessionState::Selected(*identity);
                    Ok(Outcome::Selected(*identity))
                },
                Reply::ChannelFault => {
                    self.state = SessionState::Idle;
                    Err(CardError::TransportError)
                },
                _ => {
                    self.state = SessionState::Idle;
                    Err(CardError::SelectFailed)
                },
            },
            Command::Authenticate { identity, block, key } => match reply {
                Reply::Accepted => {
                    let sector = *block / BLOCKS_PER_SECTOR;
                    self.state = SessionState::Authenticated(*identity, sector);
                    Ok(Outcome::Authenticated(sector))
                },
                Reply::ChannelFault => {
                    self.state = SessionState::Selected(*identity);
                    Err(CardError::TransportError)
                },
                _ => {
                    self.state = SessionState::Selected(*identity);
                    Err(CardError::AuthFailed)
                },
            },
            Command::Read { block } => match reply {
                Reply::Data(data) => Ok(Outcome::Block(*data)),
                _ => Err(CardError::ReadFailed),
            },
            Command::Write { block, data } => match reply {
                Reply::Accepted => Ok(Outcome::Written),
                _ => Err(CardError::WriteFailed),
            },
            Command::Halt => {
                self.state = SessionState::Halted;
                match reply {
                    Reply::Accepted => Ok(Outcome::Halted),
                    _ => Err(CardError::TransportError),
                }
            },
            Command::StopCrypto => {
                match self.state {
                    SessionState::Authenticated(identity, _) => {
                        self.state = SessionState::Selected(identity);
                    },
                    SessionState::Halted => {
                        self.state = SessionState::Idle;
                    },
                    _ => {},
                }
                match reply {
                    Reply::Accepted => Ok(Outcome::CryptoStopped),
                    _ => Err(CardError::TransportError),
                }
            },
        }
    }
}

/// Authentication opens one sector and no other. Once sector `opened` is
/// authenticated, all four of its blocks can be read and written, and a
/// read or a write of a block of any other sector fails with
/// `NotAuthenticated`, whatever the card would have answered, and leaves
/// the session as it was.
pub proof fn lemma_authentication_opens_one_sector(
    state: SessionState,
    identity: CardIdentity,
    key: SectorKey,
    opened: u8,
    other: u8,
    relative_block: u8,
    data: BlockData,
    reply: Reply,
)
    requires
        opened < 16,
        other < 16,
        opened != other,
        relative_block < 4,
        selected_card(state) == Some(identity),
    ensures
        ({
            let authenticate = Command::Authenticate { identity, block: (opened * 4) as u8, key };
            let after = state_after(state, authenticate, Reply::Accepted);
            let inside = (opened * 4 + relative_block) as u8;
            let outside = (other * 4 + relative_block) as u8;
            &&& permits(state, authenticate) is Ok
            &&& outcome_of(state, authenticate, Reply::Accepted) == Ok::<Outcome, CardError>(
                Outcome::Authenticated(opened),
            )
            &&& after == SessionState::Authenticated(identity, opened)
            &&& permits(after, Command::Read { block: inside }) is Ok
            &&& permits(after, Command::Write { block: inside, data }) is Ok
            &&& outcome_of(after, Command::Read { block: outside }, reply) == Err::<
                Outcome,
                CardError,
            >(CardError::NotAuthenticated)
            &&& outcome_of(after, Command::Write { block: outside, data }, reply) == Err::<
                Outcome,
                CardError,
            >(CardError::NotAuthenticated)
            &&& state_after(after, Command::Read { block: outside }, reply) == after
            &&& state_after(after, Command::Write { block: outside, data }, reply) == after
        }),
{
}

/// An authentication that the card does not accept leaves no sector open:
/// the card stays selected, and every read and write fails with
/// `NotAuthenticated`.
pub proof fn lemma_failed_authentication_opens_nothing(
    state: SessionState,
    identity: CardIdentity,
    key: SectorKey,
    sector_index: u8,
    answer: Reply,
    block: u8,
    data: BlockData,
)
    requires
        sector_index < 16,
        selected_card(state) == Some(identity),
        !(answer is Accepted),
    ensures
        ({
            let authenticate = Command::Authenticate {
                identity,
                block: (sector_index * 4) as u8,
                key,
            };
            let after = state_after(state, authenticate, answer);
            &&& outcome_of(state, authenticate, answer) is Err
            &&& after == SessionState::Selected(identity)
            &&& permits(after, Command::Read { block }) == Err::<(), CardError>(
                CardError::NotAuthenticated,
            )
            &&& permits(after, Command::Write { block, data }) == Err::<(), CardError>(
                CardError::NotAuthenticated,
            )
        }),
{
}

/// Halting the card and switching off the crypto unit, in either order and
/// whether or not the two exchanges went well, end the session: no card is
/// selected any more, and every read and write fails with
/// `NotAuthenticated`, whatever the card would have answered.
pub proof fn lemma_teardown_ends_the_session(
    state: SessionState,
    halt_reply: Reply,
    stop_reply: Reply,
    block: u8,
    data: BlockData,
    reply: Reply,
)
    ensures
        ({
            let halted_first = state_after(
                state_after(state, Command::Halt, halt_reply),
                Command::StopCrypto,
                stop_reply,
            );
            let stopped_first = state_after(
                state_after(state, Command::StopCrypto, stop_reply),
                Command::Halt,
                halt_reply,
            );
            &&& halted_first == SessionState::Idle
            &&& stopped_first == SessionState::Halted
            &&& forall|ended: SessionState| ended == halted_first || ended == stopped_first ==> {
                &&& selected_card(ended) is None
                &&& outcome_of(ended, Command::Read { block }, reply) == Err::<Outcome, CardError>(
                    CardError::NotAuthenticated,
                )
                &&& outcome_of(ended, Command::Write { block, data }, reply) == Err::<
                    Outcome,
                    CardError,
                >(CardError::NotAuthenticated)
            }
        }),
{
}

/// The only way to an open sector leads through a new selection and a new
/// authentication. One exchange selects a card where none was selected only
/// if it is the selection of a detected card, answered with an identity;
/// and one exchange opens a sector that was not open only if it is the
/// authentication of the selected card, accepted by it.
pub proof fn lemma_access_takes_select_and_authenticate(
    state: SessionState,
    command: Command,
    reply: Reply,
    block: u8,
)
    ensures
        selected_card(state) is None && selected_card(state_after(state, command, reply)) is Some
            ==> state is Detected && command is Select && reply is Identity,
        !authenticated_for(state, block) && authenticated_for(
            state_after(state, command, reply),
            block,
        ) ==> selected_card(state) is Some && command is Authenticate && reply is Accepted,
        selected_card(state) is None ==> !authenticated_for(
            state_after(state, command, reply),
            block,
        ),
{
}

/// The state of a session once a run of exchanges is settled, one after
/// the other.
pub open spec fn state_after_all(state: SessionState, exchanges: Seq<(Command, Reply)>)
    -> SessionState
    decreases exchanges.len(),
{
    if exchanges.len() == 0 {
        state
    } else {
        state_after(
            state_after_all(state, exchanges.drop_last()),
            exchanges.last().0,
            exchanges.last().1,
        )
    }
}

/// A session that has ended stays closed until a card is selected anew.
/// Where no card is selected, no run of exchanges that lacks a selection
/// answered with an identity opens a sector: after it still no card is
/// selected, and every read and write fails with `NotAuthenticated`.
pub proof fn lemma_closed_until_selected(
    state: SessionState,
    exchanges: Seq<(Command, Reply)>,
    block: u8,
    data: BlockData,
    reply: Reply,
)
    requires
        selected_card(state) is None,
        forall|i: int|
            0 <= i < exchanges.len() ==> !((#[trigger] exchanges[i]).0 is Select
                && exchanges[i].1 is Identity),
    ensures
        ({
            let after = state_after_all(state, exchanges);
            &&& selected_card(after) is None
            &&& outcome_of(after, Command::Read { block }, reply) == Err::<Outcome, CardError>(
                CardError::NotAuthenticated,
            )
            &&& outcome_of(after, Command::Write { block, data }, reply) == Err::<
                Outcome,
                CardError,
            >(CardError::NotAuthenticated)
        }),
    decreases exchanges.len(),
{
    if exchanges.len() > 0 {
        let earlier = exchanges.drop_last();
        lemma_closed_until_selected(state, earlier, block, data, reply);
    }
}

/// No sector opens without an authentication that the card accepts. After
/// any run of exchanges that lacks one, the sector that was open before
/// the run, if any, is the only one that can be open: every read and write
/// of a block that was not accessible before fails with `NotAuthenticated`.
pub proof fn lemma_closed_until_authenticated(
    state: SessionState,
    exchanges: Seq<(Command, Reply)>,
    block: u8,
    data: BlockData,
    reply: Reply,
)
    requires
        !authenticated_for(state, block),
        forall|i: int|
            0 <= i < exchanges.len() ==> !((#[trigger] exchanges[i]).0 is Authenticate
                && exchanges[i].1 is Accepted),
    ensures
        ({
            let after = state_after_all(state, exchanges);
            &&& !authenticated_for(after, block)
            &&& outcome_of(after, Command::Read { block }, reply) == Err::<Outcome, CardError>(
                CardError::NotAuthenticated,
            )
            &&& outcome_of(after, Command::Write { block, data }, reply) == Err::<
                Outcome,
                CardError,
            >(CardError::NotAuthenticated)
        }),
    decreases exchanges.len(),
{
    if exchanges.len() > 0 {
        let earlier = exchanges.drop_last();
        lemma_closed_until_authenticated(state, earlier, block, data, reply);
    }
}

} // verus!
