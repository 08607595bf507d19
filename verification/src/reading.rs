//! The read of one sector: it is opened with a key, and its four blocks are
//! read and reported.

use vstd::prelude::*;
use crate::card::{CardIdentity, SectorKey};
use crate::layout::SECTOR_COUNT;
use crate::line::ReportLine;
use crate::model::{card_reply, card_wf, key_a_of, sector_plain_texts, CardModel};
use crate::report::{failure_texts, plain_block_texts, report_failure, report_plain_block, texts};
use crate::session::{
    outcome_of,
    permits,
    selected_card,
    state_after,
    CardError,
    CardSession,
    Command,
    Outcome,
    Reply,
    SessionState,
};
use crate::workflow::{report_teardown, teardown_texts, Step};

verus! {

/// Where the read of a sector stands: the exchange whose reply it awaits.
#[derive(Clone, Copy, Debug, PartialEq, Eq)]
pub enum ReadStage {
    /// The authentication of the sector.
    Authenticating,
    /// The read of the block with this absolute number.
    Reading(u8),
    /// The halt of the card.
    Halting,
    /// The switching off of the crypto unit.
    StoppingCrypto,
    /// Nothing: the read is done.
    Finished,
}

/// The read of a sector as contracts see it.
pub struct ReadView {
    pub session: SessionState,
    pub identity: CardIdentity,
    pub sector: u8,
    pub key: SectorKey,
    pub stage: ReadStage,
}

/// The read of a sector awaits the reply to an exchange that its session
/// permits, and reads blocks of its own sector only.
pub open spec fn read_wf(read: ReadView) -> bool {
    &&& read.sector < 16
    &&& match read.stage {
        ReadStage::Authenticating => selected_card(read.session) == Some(read.identity),
        ReadStage::Reading(block) => block / 4 == read.sector && read.session
            == SessionState::Authenticated(read.identity, read.sector),
        _ => true,
    }
}

/// The exchange whose reply the read of a sector awaits.
pub open spec fn read_command(read: ReadView) -> Option<Command> {
    match read.stage {
        ReadStage::Authenticating => Some(
            Command::Authenticate {
                identity: read.identity,
                block: (4 * read.sector) as u8,
                key: read.key,
            },
        ),
        ReadStage::Reading(block) => Some(Command::Read { block }),
        ReadStage::Halting => Some(Command::Halt),
        ReadStage::StoppingCrypto => Some(Command::StopCrypto),
        ReadStage::Finished => None,
    }
}

/// One step of the read of a sector: the read after `reply` to the
/// exchange it awaited, and what it adds to the report.
///
/// The blocks are read in ascending order and each is reported as it
/// comes. The first error is reported and ends the read; the card is
/// halted and the crypto unit switched off in every case.
pub open spec fn read_step(read: ReadView, reply: Reply) -> (ReadView, Seq<Seq<u8>>) {
    match read_command(read) {
        None => (read, Seq::empty()),
        Some(command) => {
            let session = state_after(read.session, command, reply);
            let outcome = outcome_of(read.session, command, reply);
            match read.stage {
                ReadStage::Authenticating => match outcome {
                    Ok(_) => (
                        ReadView { session, stage: ReadStage::Reading((4 * read.sector) as u8), ..read },
                        Seq::empty(),
                    ),
                    Err(error) => (
                        ReadView { session, stage: ReadStage::Halting, ..read },
                        failure_texts(error),
                    ),
                },
                ReadStage::Reading(block) => match outcome {
                    Ok(Outcome::Block(data)) => (
                        ReadView {
                            session,
                            stage: if block % 4 < 3 {
                                ReadStage::Reading((block + 1) as u8)
                            } else {
                                ReadStage::Halting
                            },
                            ..read
                        },
                        plain_block_texts(data),
                    ),
                    Ok(_) => (ReadView { session, stage: ReadStage::Halting, ..read }, Seq::empty()),
                    Err(error) => (
                        ReadView { session, stage: ReadStage::Halting, ..read },
                        failure_texts(error),
                    ),
                },
                ReadStage::Halting => (
                    ReadView { session, stage: ReadStage::StoppingCrypto, ..read },
                    teardown_texts(outcome),
                ),
                ReadStage::StoppingCrypto => (
                    ReadView { session, stage: ReadStage::Finished, ..read },
                    teardown_texts(outcome),
                ),
                ReadStage::Finished => (read, Seq::empty()),
            }
        },
    }
}

/// The read of one sector, one exchange at a time.
#[derive(Clone, Copy, Debug)]
pub struct SectorRead {
    session: CardSession,
    identity: CardIdentity,
    sector: u8,
    key: SectorKey,
    stage: ReadStage,
}

impl View for SectorRead {
    type V = ReadView;

    closed spec fn view(&self) -> ReadView {
        ReadView {
            session: self.session@,
            identity: self.identity,
            sector: self.sector,
            key: self.key,
            stage: self.stage,
        }
    }
}

impl SectorRead {
    #[verifier::type_invariant]
    spec fn well_formed(self) -> bool {
        read_wf(self@)
    }

    /// Starts the read of sector `sector_index` of the card that `session`
    /// has selected, opening it with `key`. There is none where no card is
    /// selected, or where the card has no such sector. The first step
    /// reports nothing and asks for the authentication of the sector.
    pub fn begin(session: CardSession, sector_index: u8, key: &SectorKey) -> (started: Option<
        (SectorRead, Step),
    >)
        ensures
            started is Some <==> selected_card(session@) is Some && sector_index < 16,
            started is Some ==> {
                let (read, step) = started->0;
                &&& read@ == ReadView {
                    session: session@,
                    identity: selected_card(session@)->0,
                    sector: sector_index,
                    key: *key,
                    stage: ReadStage::Authenticating,
                }
                &&& read_wf(read@)
                &&& texts(step.lines@) == Seq::<Seq<u8>>::empty()
                &&& step.command == read_command(read@)
            },
    {
        if sector_index >= SECTOR_COUNT {
            return None;
        }
        match session.card() {
            None => None,
            Some(identity) => {
                let read = SectorRead {
                    session,
                    identity,
                    sector: sector_index,
                    key: *key,
                    stage: ReadStage::Authenticating,
                };
                let lines: Vec<ReportLine> = Vec::new();
                let command = read.pending();
                Some((read, Step { lines, command }))
            },
        }
    }

    /// The exchange whose reply the read awaits; none once it is done.
    pub fn pending(&self) -> (command: Option<Command>)
        ensures
            command == read_command(self@),
            command is Some ==> permits(self@.session, command->0) is Ok,
            read_wf(self@),
    {
        proof {
            use_type_invariant(self);
        }
        match self.stage {
            ReadStage::Authenticating => Some(
                Command::Authenticate {
                    identity: self.identity,
                    block: 4 * self.sector,
                    key: self.key,
                },
            ),
            ReadStage::Reading(block) => Some(Command::Read { block }),
            ReadStage::Halting => Some(Command::Halt),
            ReadStage::StoppingCrypto => Some(Command::StopCrypto),
            ReadStage::Finished => None,
        }
    }

    /// Whether the read is done.
    pub fn is_finished(&self) -> (done: bool)
        ensures
            done == (self@.stage == ReadStage::Finished),
    {
        match self.stage {
            ReadStage::Finished => true,
            _ => false,
        }
    }

    /// The session of the read, as the exchanges so far have left it.
    pub fn session(&self) -> (session: CardSession)
        ensures
            session@ == self@.session,
    {
        self.session
    }

    /// Takes the reply to the pending exchange, and says what to report
    /// and what to do next. A read that is done stays as it is.
    pub fn advance(&mut self, reply: &Reply) -> (step: Step)
        ensures
            final(self)@ == read_step(old(self)@, *reply).0,
            texts(step.lines@) == read_step(old(self)@, *reply).1,
            step.command == read_command(final(self)@),
            read_wf(final(self)@),
    {
        let mut lines: Vec<ReportLine> = Vec::new();
        let command = match self.pending() {
            None => {
                return Step { lines, command: None };
            },
            Some(command) => command,
        };
        let mut session = self.session;
        let outcome = session.settle(&command, reply);
        let stage = match self.stage {
            ReadStage::Authenticating => match outcome {
                Ok(_) => ReadStage::Reading(4 * self.sector),
                Err(error) => {
                    report_failure(&mut lines, error);
                    ReadStage::Halting
                },
            },
            ReadStage::Reading(block) => match outcome {
                Ok(Outcome::Block(data)) => {
                    report_plain_block(&mut lines, &data);
                    if block % 4 < 3 {
                        ReadStage::Reading(block + 1)
                    } else {
                        ReadStage::Halting
                    }
                },
                Ok(_) => ReadStage::Halting,
                Err(error) => {
                    report_failure(&mut lines, error);
                    ReadStage::Halting
                },
            },
            ReadStage::Halting => {
                report_teardown(&mut lines, outcome);
                ReadStage::StoppingCrypto
            },
            ReadStage::StoppingCrypto => {
                report_teardown(&mut lines, outcome);
                ReadStage::Finished
            },
            ReadStage::Finished => ReadStage::Finished,
        };
        *self = SectorRead {
            session,
            identity: self.identity,
            sector: self.sector,
            key: self.key,
            stage,
        };
        let command = self.pending();
        Step { lines, command }
    }
}

/// A step keeps the read of a sector well formed.
pub proof fn lemma_read_step_keeps_wf(read: ReadView, reply: Reply)
    requires
        read_wf(read),
    ensures
        read_wf(read_step(read, reply).0),
{
}

/// The read of a sector asks only for what its session permits, and
/// touches no block outside its sector.
pub proof fn lemma_read_stays_in_its_sector(read: ReadView)
    requires
        read_wf(read),
    ensures
        read_command(read) is Some ==> permits(read.session, read_command(read)->0) is Ok,
        read_command(read) matches Some(Command::Read { block }) ==> block / 4 == read.sector,
        !(read_command(read) matches Some(Command::Write { .. })),
{
}

/// The greatest number of exchanges that the read of a sector may still
/// make.
pub open spec fn read_exchanges_left(stage: ReadStage) -> nat {
    match stage {
        ReadStage::Authenticating => 7,
        ReadStage::Reading(block) => ((4 - block % 4) + 2) as nat,
        ReadStage::Halting => 2,
        ReadStage::StoppingCrypto => 1,
        ReadStage::Finished => 0,
    }
}

/// The read of a sector comes to its end, and ends the session as it does.
/// Whatever the replies, each exchange brings the read closer to its end,
/// which is at most seven exchanges away; and its last two exchanges are
/// the halt of the card and the switching off of the crypto unit, in that
/// order.
pub proof fn lemma_read_ends_with_teardown(read: ReadView, reply: Reply)
    requires
        read_wf(read),
    ensures
        read_exchanges_left(read.stage) <= 7,
        read_command(read) is None <==> read_exchanges_left(read.stage) == 0,
        read_command(read) is Some ==> read_exchanges_left(read_step(read, reply).0.stage)
            < read_exchanges_left(read.stage),
        read_command(read) is Some && read_command(read_step(read, reply).0) is None
            ==> read_command(read) == Some(Command::StopCrypto),
        read_command(read_step(read, reply).0) == Some(Command::StopCrypto) ==> read_command(read)
            == Some(Command::Halt),
{
}

/// The read of a sector after up to `exchanges` exchanges with a card, and
/// the lines that they add to the report. A read that is done makes no
/// exchange.
pub open spec fn read_run(read: ReadView, card: CardModel, exchanges: nat) -> (
    ReadView,
    Seq<Seq<u8>>,
)
    decreases exchanges,
{
    match read_command(read) {
        Some(command) if exchanges > 0 => {
            let (next, lines) = read_step(read, card_reply(card, command));
            let (last, rest) = read_run(next, card, (exchanges - 1) as nat);
            (last, lines + rest)
        },
        _ => (read, Seq::empty()),
    }
}

/// The read of a sector reports the sector, or the one reason why not.
/// Against a card whose sector opens under the key, the read comes to its
/// end in seven exchanges and reports the four blocks of the sector in
/// ascending order. Against a card whose sector does not open, it comes to
/// its end in three exchanges and reports the failed authentication. In
/// both cases the card is halted and the crypto unit is off at the end.
pub proof fn lemma_read_reports_the_sector(
    session: SessionState,
    identity: CardIdentity,
    sector: u8,
    key: SectorKey,
    card: CardModel,
)
    requires
        selected_card(session) == Some(identity),
        card_wf(card),
        card.identity == identity,
        sector < 16,
    ensures
        ({
            let start = ReadView { session, identity, sector, key, stage: ReadStage::Authenticating };
            let (last, lines) = read_run(start, card, 7);
            &&& last.stage == ReadStage::Finished
            &&& last.session == SessionState::Idle
            &&& key@ == key_a_of(card, sector) ==> lines == sector_plain_texts(card, sector)
            &&& key@ != key_a_of(card, sector) ==> lines == failure_texts(CardError::AuthFailed)
                && read_run(start, card, 3) == (last, lines)
        }),
{
    let start = ReadView { session, identity, sector, key, stage: ReadStage::Authenticating };
    let first = (4 * sector) as u8;
    let none = Seq::<Seq<u8>>::empty();
    let read = |block: int| Command::Read { block: block as u8 };
    if key@ == key_a_of(card, sector) {
        // The seven steps, in order, and then the run, unfolded from its end.
        let (r0, l0) = read_step(start, Reply::Accepted);
        let (r1, l1) = read_step(r0, card_reply(card, read(first + 0)));
        let (r2, l2) = read_step(r1, card_reply(card, read(first + 1)));
        let (r3, l3) = read_step(r2, card_reply(card, read(first + 2)));
        let (h, l4) = read_step(r3, card_reply(card, read(first + 3)));
        let (s, l5) = read_step(h, Reply::Accepted);
        let (f, l6) = read_step(s, Reply::Accepted);
        let t6 = l6 + none;
        assert(read_run(f, card, 0) == (f, none));
        assert(read_run(s, card, 1) == (f, t6));
        let t5 = l5 + t6;
        assert(read_run(h, card, 2) == (f, t5));
        let t4 = l4 + t5;
        assert(read_run(r3, card, 3) == (f, t4));
        let t3 = l3 + t4;
        assert(read_run(r2, card, 4) == (f, t3));
        let t2 = l2 + t3;
        assert(read_run(r1, card, 5) == (f, t2));
        let t1 = l1 + t2;
        assert(read_run(r0, card, 6) == (f, t1));
        assert(read_run(start, card, 7) == (f, l0 + t1));
        assert(l0 + t1 =~= sector_plain_texts(card, sector));
    } else {
        let (h, l0) = read_step(start, Reply::Refused);
        let (s, l1) = read_step(h, Reply::Accepted);
        let (f, l2) = read_step(s, Reply::Accepted);
        assert(read_run(f, card, 0) == (f, none));
        assert(read_run(f, card, 4) == (f, none));
        assert(read_run(s, card, 1) == (f, l2 + none));
        assert(read_run(s, card, 5) == (f, l2 + none));
        assert(read_run(h, card, 2) == (f, l1 + (l2 + none)));
        assert(read_run(h, card, 6) == (f, l1 + (l2 + none)));
        assert(read_run(start, card, 3) == (f, l0 + (l1 + (l2 + none))));
        assert(read_run(start, card, 7) == (f, l0 + (l1 + (l2 + none))));
        assert(l0 + (l1 + (l2 + none)) =~= failure_texts(CardError::AuthFailed));
    }
}

} // verus!
