//! The change of a sector's keys: the sector is read, its trailer is
//! written anew in one piece, and the sector is read again under the new
//! key.

use vstd::prelude::*;
use crate::card::{build_trailer, trailer_bytes, AccessBits, BlockData, CardIdentity, SectorKey};
use crate::layout::{role_of, BlockRole, SECTOR_COUNT};
use crate::line::ReportLine;
use crate::model::{card_after, card_reply, card_wf, key_a_of, sector_plain_texts, CardModel};
use crate::report::{
    after_write_banner,
    after_write_text,
    before_write_banner,
    before_write_text,
    failure_texts,
    plain_block_texts,
    report_failure,
    report_plain_block,
    texts,
};
use crate::session::{
    outcome_of,
    permits,
    selected_card,
    state_after,
    CardError,
    CardSession,
    Command,
    Outcome,
    Reply,
    SessionState,
};
use crate::workflow::{report_teardown, teardown_texts, Step};

verus! {

/// Where a key change stands: the exchange whose reply it awaits.
#[derive(Clone, Copy, Debug, PartialEq, Eq)]
pub enum RotationStage {
    /// The authentication with the current key, before the sector is read.
    AuditAuthenticating,
    /// The read of the block with this absolute number, before the write.
    AuditReading(u8),
    /// The authentication with the current key, before the write.
    Unlocking,
    /// The write of the new trailer.
    Writing,
    /// The authentication with the new key.
    ConfirmAuthenticating,
    /// The read of the block with this absolute number, after the write.
    ConfirmReading(u8),
    /// The halt of the card.
    Halting,
    /// The switching off of the crypto unit.
    StoppingCrypto,
    /// Nothing: the key change is done.
    Finished,
}

/// A key change as contracts see it.
pub struct RotationView {
    pub session: SessionState,
    pub identity: CardIdentity,
    pub sector: u8,
    pub current_key: SectorKey,
    pub new_key: SectorKey,
    pub trailer: BlockData,
    pub stage: RotationStage,
}

/// A key change awaits the reply to an exchange that its session permits,
/// within its own sector.
pub open spec fn rotation_wf(rotation: RotationView) -> bool {
    &&& rotation.sector < 16
    &&& match rotation.stage {
        RotationStage::AuditAuthenticating
        | RotationStage::Unlocking
        | RotationStage::ConfirmAuthenticating => selected_card(rotation.session) == Some(
            rotation.identity,
        ),
        RotationStage::AuditReading(block) | RotationStage::ConfirmReading(block) => block / 4
            == rotation.sector && rotation.session == SessionState::Authenticated(
            rotation.identity,
            rotation.sector,
        ),
        RotationStage::Writing => rotation.session == SessionState::Authenticated(
            rotation.identity,
            rotation.sector,
        ),
        _ => true,
    }
}

/// The exchange whose reply a key change awaits.
pub open spec fn rotation_command(rotation: RotationView) -> Option<Command> {
    let first = (4 * rotation.sector) as u8;
    match rotation.stage {
        RotationStage::AuditAuthenticating | RotationStage::Unlocking => Some(
            Command::Authenticate {
                identity: rotation.identity,
                block: first,
                key: rotation.current_key,
            },
        ),
        RotationStage::AuditReading(block) => Some(Command::Read { block }),
        RotationStage::Writing => Some(
            Command::Write { block: (4 * rotation.sector + 3) as u8, data: rotation.trailer },
        ),
        RotationStage::ConfirmAuthenticating => Some(
            Command::Authenticate { identity: rotation.identity, block: first, key: rotation.new_key },
        ),
        RotationStage::ConfirmReading(block) => Some(Command::Read { block }),
        RotationStage::Halting => Some(Command::Halt),
        RotationStage::StoppingCrypto => Some(Command::StopCrypto),
        RotationStage::Finished => None,
    }
}

/// The stage that follows the stage a key change is in, and what the
/// change adds to the report, given what the pending exchange achieved.
///
/// The sector is opened with the current key and its blocks are reported.
/// Then it is opened again with the current key, and the new trailer is
/// written. Then it is opened with the new key and its blocks are reported
/// again. An authentication or a write that fails is reported and ends the
/// change, and so does a read after the write; a read that fails before the
/// write is reported and ends the reading only. The card is halted and the
/// crypto unit switched off in every case.
pub open spec fn rotation_move(stage: RotationStage, sector: u8, outcome: Result<Outcome, CardError>)
    -> (RotationStage, Seq<Seq<u8>>) {
    match stage {
        RotationStage::AuditAuthenticating => match outcome {
            Ok(_) => (RotationStage::AuditReading((4 * sector) as u8), Seq::empty()),
            Err(error) => (RotationStage::Halting, failure_texts(error)),
        },
        RotationStage::AuditReading(block) => match outcome {
            Ok(Outcome::Block(data)) => (
                if block % 4 < 3 {
                    RotationStage::AuditReading((block + 1) as u8)
                } else {
                    RotationStage::Unlocking
                },
                plain_block_texts(data),
            ),
            Ok(_) => (RotationStage::Unlocking, Seq::empty()),
            Err(error) => (RotationStage::Unlocking, failure_texts(error)),
        },
        RotationStage::Unlocking => match outcome {
            Ok(_) => (RotationStage::Writing, Seq::empty()),
            Err(error) => (RotationStage::Halting, failure_texts(error)),
        },
        RotationStage::Writing => match outcome {
            Ok(_) => (RotationStage::ConfirmAuthenticating, seq![after_write_text()]),
            Err(error) => (RotationStage::Halting, failure_texts(error)),
        },
        RotationStage::ConfirmAuthenticating => match outcome {
            Ok(_) => (RotationStage::ConfirmReading((4 * sector) as u8), Seq::empty()),
            Err(error) => (RotationStage::Halting, failure_texts(error)),
        },
        RotationStage::ConfirmReading(block) => match outcome {
            Ok(Outcome::Block(data)) => (
                if block % 4 < 3 {
                    RotationStage::ConfirmReading((block + 1) as u8)
                } else {
                    RotationStage::Halting
                },
                plain_block_texts(data),
            ),
            Ok(_) => (RotationStage::Halting, Seq::empty()),
            Err(error) => (RotationStage::Halting, failure_texts(error)),
        },
        RotationStage::Halting => (RotationStage::StoppingCrypto, teardown_texts(outcome)),
        RotationStage::StoppingCrypto => (RotationStage::Finished, teardown_texts(outcome)),
        RotationStage::Finished => (RotationStage::Finished, Seq::empty()),
    }
}

/// One step of a key change: the change after `reply` to the exchange it
/// awaited, and what it adds to the report.
pub open spec fn rotation_step(rotation: RotationView, reply: Reply) -> (
    RotationView,
    Seq<Seq<u8>>,
) {
    match rotation_command(rotation) {
        None => (rotation, Seq::empty()),
        Some(command) => {
            let session = state_after(rotation.session, command, reply);
            let outcome = outcome_of(rotation.session, command, reply);
            let (stage, lines) = rotation_move(rotation.stage, rotation.sector, outcome);
            (RotationView { session, stage, ..rotation }, lines)
        },
    }
}

/// The change of the keys of one sector, one exchange at a time.
#[derive(Clone, Copy, Debug)]
pub struct KeyRotation {
    session: CardSession,
    identity: CardIdentity,
    sector: u8,
    current_key: SectorKey,
    new_key: SectorKey,
    trailer: BlockData,
    stage: RotationStage,
}

impl View for KeyRotation {
    type V = RotationView;

    closed spec fn view(&self) -> RotationView {
        RotationView {
            session: self.session@,
            identity: self.identity,
            sector: self.sector,
            current_key: self.current_key,
            new_key: self.new_key,
            trailer: self.trailer,
            stage: self.stage,
        }
    }
}

impl KeyRotation {
    #[verifier::type_invariant]
    spec fn well_formed(self) -> bool {
        rotation_wf(self@)
    }

    /// Starts the change of the keys of sector `sector_index` of the card
    /// that `session` has selected. The sector is opened with `current_key`;
    /// its new trailer is `new_key_a`, then `access`, then `new_key_b`.
    /// There is none where no card is selected, or where the card has no
    /// such sector. The first step reports the banner of the blocks before
    /// the write and asks for the authentication of the sector.
    pub fn begin(
        session: CardSession,
        sector_index: u8,
        current_key: &SectorKey,
        new_key_a: &SectorKey,
        access: &AccessBits,
        new_key_b: &SectorKey,
    ) -> (started: Option<(KeyRotation, Step)>)
        ensures
            started is Some <==> selected_card(session@) is Some && sector_index < 16,
            started is Some ==> {
                let (rotation, step) = started->0;
                &&& rotation@.session == session@
                &&& rotation@.identity == selected_card(session@)->0
                &&& rotation@.sector == sector_index
                &&& rotation@.current_key == *current_key
                &&& rotation@.new_key == *new_key_a
                &&& rotation@.trailer@ == trailer_bytes(new_key_a@, access@, new_key_b@)
                &&& rotation@.stage == RotationStage::AuditAuthenticating
                &&& rotation_wf(rotation@)
                &&& texts(step.lines@) == seq![before_write_text()]
                &&& step.command == rotation_command(rotation@)
            },
    {
        if sector_index >= SECTOR_COUNT {
            return None;
        }
        match session.card() {
            None => None,
            Some(identity) => {
                let rotation = KeyRotation {
                    session,
                    identity,
                    sector: sector_index,
                    current_key: *current_key,
                    new_key: *new_key_a,
                    trailer: build_trailer(new_key_a, access, new_key_b),
                    stage: RotationStage::AuditAuthenticating,
                };
                let mut lines: Vec<ReportLine> = Vec::new();
                lines.push(before_write_banner());
                assert(texts(lines@) =~= seq![before_write_text()]);
                let command = rotation.pending();
                Some((rotation, Step { lines, command }))
            },
        }
    }

    /// The exchange whose reply the key change awaits; none once it is done.
    pub fn pending(&self) -> (command: Option<Command>)
        ensures
            command == rotation_command(self@),
            command is Some ==> permits(self@.session, command->0) is Ok,
            rotation_wf(self@),
    {
        proof {
            use_type_invariant(self);
        }
        let first = 4 * self.sector;
        match self.stage {
            RotationStage::AuditAuthenticating | RotationStage::Unlocking => Some(
                Command::Authenticate { identity: self.identity, block: first, key: self.current_key },
            ),
            RotationStage::AuditReading(block) => Some(Command::Read { block }),
            RotationStage::Writing => Some(Command::Write { block: first + 3, data: self.trailer }),
            RotationStage::ConfirmAuthenticating => Some(
                Command::Authenticate { identity: self.identity, block: first, key: self.new_key },
            ),
            RotationStage::ConfirmReading(block) => Some(Command::Read { block }),
            RotationStage::Halting => Some(Command::Halt),
            RotationStage::StoppingCrypto => Some(Command::StopCrypto),
            RotationStage::Finished => None,
        }
    }

    /// Whether the key change is done.
    pub fn is_finished(&self) -> (done: bool)
        ensures
            done == (self@.stage == RotationStage::Finished),
    {
        match self.stage {
            RotationStage::Finished => true,
            _ => false,
        }
    }

    /// The session of the key change, as the exchanges so far have left it.
    pub fn session(&self) -> (session: CardSession)
        ensures
            session@ == self@.session,
    {
        self.session
    }

    /// Takes the reply to the pending exchange, and says what to report
    /// and what to do next. A key change that is done stays as it is.
    pub fn advance(&mut self, reply: &Reply) -> (step: Step)
        ensures
            final(self)@ == rotation_step(old(self)@, *reply).0,
            texts(step.lines@) == rotation_step(old(self)@, *reply).1,
            step.command == rotation_command(final(self)@),
            rotation_wf(final(self)@),
    {
        let mut lines: Vec<ReportLine> = Vec::new();
        let command = match self.pending() {
            None => {
                return Step { lines, command: None };
            },
            Some(command) => command,
        };
        let mut session = self.session;
        let outcome = session.settle(&command, reply);
        let first = 4 * self.sector;
        let stage = match self.stage {
            RotationStage::AuditAuthenticating => match outcome {
                Ok(_) => RotationStage::AuditReading(first),
                Err(error) => {
                    report_failure(&mut lines, error);
                    RotationStage::Halting
                },
            },
            RotationStage::AuditReading(block) => match outcome {
                Ok(Outcome::Block(data)) => {
                    report_plain_block(&mut lines, &data);
                    if block % 4 < 3 {
                        RotationStage::AuditReading(block + 1)
                    } else {
                        RotationStage::Unlocking
                    }
                },
                Ok(_) => RotationStage::Unlocking,
                Err(error) => {
                    report_failure(&mut lines, error);
                    RotationStage::Unlocking
                },
            },
            RotationStage::Unlocking => match outcome {
                Ok(_) => RotationStage::Writing,
                Err(error) => {
                    report_failure(&mut lines, error);
                    RotationStage::Halting
                },
            },
            RotationStage::Writing => match outcome {
                Ok(_) => {
                    lines.push(after_write_banner());
                    RotationStage::ConfirmAuthenticating
                },
                Err(error) => {
                    report_failure(&mut lines, error);
                    RotationStage::Halting
                },
            },
            RotationStage::ConfirmAuthenticating => match outcome {
                Ok(_) => RotationStage::ConfirmReading(first),
                Err(error) => {
                    report_failure(&mut lines, error);
                    RotationStage::Halting
                },
            },
            RotationStage::ConfirmReading(block) => match outcome {
                Ok(Outcome::Block(data)) => {
                    report_plain_block(&mut lines, &data);
                    if block % 4 < 3 {
                        RotationStage::ConfirmReading(block + 1)
                    } else {
                        RotationStage::Halting
                    }
                },
                Ok(_) => RotationStage::Halting,
                Err(error) => {
                    report_failure(&mut lines, error);
                    RotationStage::Halting
                },
            },
            RotationStage::Halting => {
                report_teardown(&mut lines, outcome);
                RotationStage::StoppingCrypto
            },
            RotationStage::StoppingCrypto => {
                report_teardown(&mut lines, outcome);
                RotationStage::Finished
            },
            RotationStage::Finished => RotationStage::Finished,
        };
        *self = KeyRotation {
            session,
            identity: self.identity,
            sector: self.sector,
            current_key: self.current_key,
            new_key: self.new_key,
            trailer: self.trailer,
            stage,
        };
        let command = self.pending();
        Step { lines, command }
    }
}

/// A step keeps a key change well formed.
pub proof fn lemma_rotation_step_keeps_wf(rotation: RotationView, reply: Reply)
    requires
        rotation_wf(rotation),
    ensures
        rotation_wf(rotation_step(rotation, reply).0),
{
}

/// A key change asks only for what its session permits, and writes one
/// block only: the trailer of its sector, whole. It never writes the
/// manufacturer block, nor any data block.
pub proof fn lemma_rotation_writes_the_trailer_only(rotation: RotationView)
    requires
        rotation_wf(rotation),
    ensures
        rotation_command(rotation) is Some ==> permits(
            rotation.session,
            rotation_command(rotation)->0,
        ) is Ok,
        rotation_command(rotation) matches Some(Command::Write { block, data }) ==> {
            &&& rotation.stage == RotationStage::Writing
            &&& block == 4 * rotation.sector + 3
            &&& role_of(block as int / 4, block as int % 4) == BlockRole::TrailerBlock
            &&& data == rotation.trailer
        },
        rotation_command(rotation) matches Some(Command::Read { block }) ==> block / 4
            == rotation.sector,
{
}

/// A failure at an authentication or at the write ends a key change: its
/// error is reported, and nothing is asked of the card from then on but to
/// halt, and of the chip but to switch off its crypto unit.
pub proof fn lemma_rotation_stops_at_failure(rotation: RotationView, reply: Reply, later: Reply)
    requires
        rotation_wf(rotation),
        rotation_command(rotation) matches Some(command) && (command is Authenticate || command
            is Write),
        !(reply is Accepted),
    ensures
        ({
            let (failed, lines) = rotation_step(rotation, reply);
            let (halted, _) = rotation_step(failed, later);
            &&& outcome_of(rotation.session, rotation_command(rotation)->0, reply) matches Err(error)
                && lines == failure_texts(error)
            &&& failed.stage == RotationStage::Halting
            &&& rotation_command(failed) == Some(Command::Halt)
            &&& rotation_command(halted) == Some(Command::StopCrypto)
            &&& rotation_command(rotation_step(halted, later).0) is None
        }),
{
}

/// The greatest number of exchanges that a key change may still make.
pub open spec fn rotation_exchanges_left(stage: RotationStage) -> nat {
    match stage {
        RotationStage::AuditAuthenticating => 14,
        RotationStage::AuditReading(block) => ((4 - block % 4) + 9) as nat,
        RotationStage::Unlocking => 9,
        RotationStage::Writing => 8,
        RotationStage::ConfirmAuthenticating => 7,
        RotationStage::ConfirmReading(block) => ((4 - block % 4) + 2) as nat,
        RotationStage::Halting => 2,
        RotationStage::StoppingCrypto => 1,
        RotationStage::Finished => 0,
    }
}

/// A key change comes to its end, and ends the session as it does.
/// Whatever the replies, each exchange brings a key change closer to its
/// end, which is at most fourteen exchanges away; and its last two
/// exchanges are the halt of the card and the switching off of the crypto
/// unit, in that order.
pub proof fn lemma_rotation_ends_with_teardown(rotation: RotationView, reply: Reply)
    requires
        rotation_wf(rotation),
    ensures
        rotation_exchanges_left(rotation.stage) <= 14,
        rotation_command(rotation) is None <==> rotation_exchanges_left(rotation.stage) == 0,
        rotation_command(rotation) is Some ==> rotation_exchanges_left(
            rotation_step(rotation, reply).0.stage,
        ) < rotation_exchanges_left(rotation.stage),
        rotation_command(rotation) is Some && rotation_command(rotation_step(rotation, reply).0)
            is None ==> rotation_command(rotation) == Some(Command::StopCrypto),
        rotation_command(rotation_step(rotation, reply).0) == Some(Command::StopCrypto)
            ==> rotation_command(rotation) == Some(Command::Halt),
{
}

/// A key change after up to `exchanges` exchanges with a card, the card as
/// they leave it, and the lines that they add to the report. A key change
/// that is done makes no exchange.
pub open spec fn rotation_run(rotation: RotationView, card: CardModel, exchanges: nat) -> (
    RotationView,
    CardModel,
    Seq<Seq<u8>>,
)
    decreases exchanges,
{
    match rotation_command(rotation) {
        Some(command) if exchanges > 0 => {
            let (next, lines) = rotation_step(rotation, card_reply(card, command));
            let (last, left, rest) = rotation_run(
                next,
                card_after(card, command),
                (exchanges - 1) as nat,
            );
            (last, left, lines + rest)
        },
        _ => (rotation, card, Seq::empty()),
    }
}

/// A key change changes the keys, and nothing else. Against a card whose
/// sector opens under the current key, a key change comes to its end in
/// fourteen exchanges, with the card halted and the crypto unit off. The
/// card then holds the new trailer in the last block of the sector and
/// every other block as before; the sector opens under the new KeyA, and
/// no longer under the current key where the two differ. Below the banner
/// that the start reported, the report holds the four blocks of the sector
/// as they were, the second banner, and the four blocks as they are.
pub proof fn lemma_rotation_changes_the_keys(
    session: SessionState,
    identity: CardIdentity,
    sector: u8,
    current_key: SectorKey,
    new_key: SectorKey,
    trailer: BlockData,
    card: CardModel,
)
    requires
        selected_card(session) == Some(identity),
        card_wf(card),
        card.identity == identity,
        sector < 16,
        current_key@ == key_a_of(card, sector),
        new_key@ == trailer@.subrange(0, 6),
    ensures
        ({
            let start = RotationView {
                session,
                identity,
                sector,
                current_key,
                new_key,
                trailer,
                stage: RotationStage::AuditAuthenticating,
            };
            let first = (4 * sector) as u8;
            let changed = card_after(
                card,
                Command::Write { block: (first + 3) as u8, data: trailer },
            );
            let (last, left, lines) = rotation_run(start, card, 14);
            &&& last.stage == RotationStage::Finished
            &&& last.session == SessionState::Idle
            &&& left == changed
            &&& lines == sector_plain_texts(card, sector) + seq![after_write_text()]
                + sector_plain_texts(changed, sector)
            &&& changed.blocks[first + 3] == trailer
            &&& forall|block: int|
                0 <= block < 64 && block != first + 3 ==> changed.blocks[block]
                    == card.blocks[block]
            &&& card_reply(changed, Command::Authenticate { identity, block: first, key: new_key })
                == Reply::Accepted
            &&& current_key@ != new_key@ ==> card_reply(
                changed,
                Command::Authenticate { identity, block: first, key: current_key },
            ) == Reply::Refused
        }),
{
    let start = RotationView {
        session,
        identity,
        sector,
        current_key,
        new_key,
        trailer,
        stage: RotationStage::AuditAuthenticating,
    };
    let first = (4 * sector) as u8;
    let write = Command::Write { block: (first + 3) as u8, data: trailer };
    let changed = card_after(card, write);
    let none = Seq::<Seq<u8>>::empty();
    let read = |block: int| Command::Read { block: block as u8 };

    // The fourteen steps, in order.
    let (a0, l0) = rotation_step(start, Reply::Accepted);
    let (a1, l1) = rotation_step(a0, card_reply(card, read(first + 0)));
    let (a2, l2) = rotation_step(a1, card_reply(card, read(first + 1)));
    let (a3, l3) = rotation_step(a2, card_reply(card, read(first + 2)));
    let (u, l4) = rotation_step(a3, card_reply(card, read(first + 3)));
    let (w, l5) = rotation_step(u, Reply::Accepted);
    assert(rotation_command(w) == Some(write));
    let (c, l6) = rotation_step(w, Reply::Accepted);
    assert(key_a_of(changed, sector) == new_key@);
    let (c0, l7) = rotation_step(c, Reply::Accepted);
    let (c1, l8) = rotation_step(c0, card_reply(changed, read(first + 0)));
    let (c2, l9) = rotation_step(c1, card_reply(changed, read(first + 1)));
    let (c3, l10) = rotation_step(c2, card_reply(changed, read(first + 2)));
    let (h, l11) = rotation_step(c3, card_reply(changed, read(first + 3)));
    let (s, l12) = rotation_step(h, Reply::Accepted);
    let (f, l13) = rotation_step(s, Reply::Accepted);
    assert(f.session == SessionState::Idle);

    // The run, unfolded from its end.
    let t13 = l13 + none;
    assert(rotation_run(f, changed, 0) == (f, changed, none));
    assert(rotation_run(s, changed, 1) == (f, changed, t13));
    let t12 = l12 + t13;
    assert(rotation_run(h, changed, 2) == (f, changed, t12));
    let t11 = l11 + t12;
    assert(rotation_run(c3, changed, 3) == (f, changed, t11));
    let t10 = l10 + t11;
    assert(rotation_run(c2, changed, 4) == (f, changed, t10));
    let t9 = l9 + t10;
    assert(rotation_run(c1, changed, 5) == (f, changed, t9));
    let t8 = l8 + t9;
    assert(rotation_run(c0, changed, 6) == (f, changed, t8));
    let t7 = l7 + t8;
    assert(rotation_run(c, changed, 7) == (f, changed, t7));
    let t6 = l6 + t7;
    assert(rotation_run(w, card, 8) == (f, changed, t6));
    let t5 = l5 + t6;
    assert(rotation_run(u, card, 9) == (f, changed, t5));
    let t4 = l4 + t5;
    assert(rotation_run(a3, card, 10) == (f, changed, t4));
    let t3 = l3 + t4;
    assert(rotation_run(a2, card, 11) == (f, changed, t3));
    let t2 = l2 + t3;
    assert(rotation_run(a1, card, 12) == (f, changed, t2));
    let t1 = l1 + t2;
    assert(rotation_run(a0, card, 13) == (f, changed, t1));
    let t0 = l0 + t1;
    assert(rotation_run(start, card, 14) == (f, changed, t0));
    assert(t0 =~= sector_plain_texts(card, sector) + seq![after_write_text()]
        + sector_plain_texts(changed, sector));
}

/// A key change with the wrong key changes nothing. Against a card whose
/// sector does not open under the current key, a key change reports the
/// failed authentication, asks for no write, and comes to its end in three
/// exchanges with the card as it was.
pub proof fn lemma_rotation_with_wrong_key_writes_nothing(
    session: SessionState,
    identity: CardIdentity,
    sector: u8,
    current_key: SectorKey,
    new_key: SectorKey,
    trailer: BlockData,
    card: CardModel,
)
    requires
        selected_card(session) == Some(identity),
        card_wf(card),
        card.identity == identity,
        sector < 16,
        current_key@ != key_a_of(card, sector),
    ensures
        ({
            let start = RotationView {
                session,
                identity,
                sector,
                current_key,
                new_key,
                trailer,
                stage: RotationStage::AuditAuthenticating,
            };
            let (last, left, lines) = rotation_run(start, card, 3);
            &&& last.stage == RotationStage::Finished
            &&& last.session == SessionState::Idle
            &&& left == card
            &&& lines == failure_texts(CardError::AuthFailed)
        }),
{
    let start = RotationView {
        session,
        identity,
        sector,
        current_key,
        new_key,
        trailer,
        stage: RotationStage::AuditAuthenticating,
    };
    let none = Seq::<Seq<u8>>::empty();
    let (h, l0) = rotation_step(start, Reply::Refused);
    let (s, l1) = rotation_step(h, Reply::Accepted);
    let (f, l2) = rotation_step(s, Reply::Accepted);
    assert(rotation_run(f, card, 0) == (f, card, none));
    assert(rotation_run(s, card, 1) == (f, card, l2 + none));
    assert(rotation_run(h, card, 2) == (f, card, l1 + (l2 + none)));
    assert(rotation_run(start, card, 3) == (f, card, l0 + (l1 + (l2 + none))));
    assert(l0 + (l1 + (l2 + none)) =~= failure_texts(CardError::AuthFailed));
}

} // verus!
