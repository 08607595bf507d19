//! The dump of a whole card: every sector in turn, opened with one key,
//! its four blocks read and reported.

use vstd::prelude::*;
use crate::card::{CardIdentity, SectorKey};
use crate::line::ReportLine;
use crate::model::{card_reply, card_wf, key_a_of, CardModel};
use crate::report::{
    annotated_block_texts,
    failure_texts,
    report_annotated_block,
    report_failure,
    sector_header,
    sector_header_text,
    texts,
};
use crate::workflow::{report_teardown, teardown_texts, Step};
use crate::session::{
    outcome_of,
    permits,
    selected_card,
    state_after,
    CardError,
    CardSession,
    Command,
    Outcome,
    Reply,
    SessionState,
};

verus! {

/// Where a scan stands: the exchange whose reply it awaits.
#[derive(Clone, Copy, Debug, PartialEq, Eq)]
pub enum ScanStage {
    /// The authentication of the sector with this index.
    Authenticating(u8),
    /// The read of the block with this absolute number.
    Reading(u8),
    /// The halt of the card.
    Halting,
    /// The switching off of the crypto unit.
    StoppingCrypto,
    /// Nothing: the scan is done.
    Finished,
}

/// A scan as contracts see it.
pub struct ScanView {
    pub session: SessionState,
    pub identity: CardIdentity,
    pub key: SectorKey,
    pub stage: ScanStage,
}

/// A scan awaits the reply to an exchange that its session permits: it
/// authenticates sectors of the card that is selected, and reads blocks of
/// the sector that is open.
pub open spec fn scan_wf(scan: ScanView) -> bool {
    match scan.stage {
        ScanStage::Authenticating(sector) => sector < 16 && selected_card(scan.session) == Some(
            scan.identity,
        ),
        ScanStage::Reading(block) => block < 64 && scan.session == SessionState::Authenticated(
            scan.identity,
            block / 4,
        ),
        _ => true,
    }
}

/// The exchange whose reply a scan awaits.
pub open spec fn scan_command(scan: ScanView) -> Option<Command> {
    match scan.stage {
        ScanStage::Authenticating(sector) => Some(
            Command::Authenticate {
                identity: scan.identity,
                block: (4 * sector) as u8,
                key: scan.key,
            },
        ),
        ScanStage::Reading(block) => Some(Command::Read { block }),
        ScanStage::Halting => Some(Command::Halt),
        ScanStage::StoppingCrypto => Some(Command::StopCrypto),
        ScanStage::Finished => None,
    }
}

/// Where a scan goes once it is through with a sector: on to the next
/// one, and after the last to the halt of the card.
pub open spec fn stage_past(sector: u8) -> ScanStage {
    if sector + 1 < 16 {
        ScanStage::Authenticating((sector + 1) as u8)
    } else {
        ScanStage::Halting
    }
}

/// What a scan reports as it leaves a sector: the header of the next one,
/// if there is one.
pub open spec fn texts_past(sector: u8) -> Seq<Seq<u8>> {
    if sector + 1 < 16 {
        seq![sector_header_text((sector + 1) as u8)]
    } else {
        Seq::empty()
    }
}

/// One step of a scan: the scan after `reply` to the exchange it awaited,
/// and what it adds to the report.
///
/// A sector that does not open is reported with its error, and the scan
/// goes on with the next sector. A block that cannot be read ends the scan:
/// its error is reported and the card is halted.
pub open spec fn scan_step(scan: ScanView, reply: Reply) -> (ScanView, Seq<Seq<u8>>) {
    match scan_command(scan) {
        None => (scan, Seq::empty()),
        Some(command) => {
            let session = state_after(scan.session, command, reply);
            let outcome = outcome_of(scan.session, command, reply);
            match scan.stage {
                ScanStage::Authenticating(sector) => match outcome {
                    Ok(_) => (
                        ScanView { session, stage: ScanStage::Reading((4 * sector) as u8), ..scan },
                        Seq::empty(),
                    ),
                    Err(error) => (
                        ScanView { session, stage: stage_past(sector), ..scan },
                        failure_texts(error) + texts_past(sector),
                    ),
                },
                ScanStage::Reading(block) => match outcome {
                    Ok(Outcome::Block(data)) => if block % 4 < 3 {
                        (
                            ScanView { session, stage: ScanStage::Reading((block + 1) as u8), ..scan },
                            annotated_block_texts(block, data),
                        )
                    } else {
                        (
                            ScanView { session, stage: stage_past(block / 4), ..scan },
                            annotated_block_texts(block, data) + texts_past(block / 4),
                        )
                    },
                    Ok(_) => (ScanView { session, stage: ScanStage::Halting, ..scan }, Seq::empty()),
                    Err(error) => (
                        ScanView { session, stage: ScanStage::Halting, ..scan },
                        failure_texts(error),
                    ),
                },
                ScanStage::Halting => (
                    ScanView { session, stage: ScanStage::StoppingCrypto, ..scan },
                    teardown_texts(outcome),
                ),
                ScanStage::StoppingCrypto => (
                    ScanView { session, stage: ScanStage::Finished, ..scan },
                    teardown_texts(outcome),
                ),
                ScanStage::Finished => (scan, Seq::empty()),
            }
        },
    }
}

/// The dump of a whole card, one exchange at a time.
#[derive(Clone, Copy, Debug)]
pub struct MemoryScan {
    session: CardSession,
    identity: CardIdentity,
    key: SectorKey,
    stage: ScanStage,
}

impl View for MemoryScan {
    type V = ScanView;

    closed spec fn view(&self) -> ScanView {
        ScanView {
            session: self.session@,
            identity: self.identity,
            key: self.key,
            stage: self.stage,
        }
    }
}

impl MemoryScan {
    #[verifier::type_invariant]
    spec fn well_formed(self) -> bool {
        scan_wf(self@)
    }

    /// Starts a scan of the card that `session` has selected, opening each
    /// sector with `key`. There is none where no card is selected. The first
    /// step reports the header of sector 0 and asks for its authentication.
    pub fn begin(session: CardSession, key: &SectorKey) -> (started: Option<(MemoryScan, Step)>)
        ensures
            started is Some <==> selected_card(session@) is Some,
            started is Some ==> {
                let (scan, step) = started->0;
                &&& scan@ == ScanView {
                    session: session@,
                    identity: selected_card(session@)->0,
                    key: *key,
                    stage: ScanStage::Authenticating(0),
                }
                &&& scan_wf(scan@)
                &&& texts(step.lines@) == seq![sector_header_text(0)]
                &&& step.command == scan_command(scan@)
            },
    {
        match session.card() {
            None => None,
            Some(identity) => {
                let scan = MemoryScan {
                    session,
                    identity,
                    key: *key,
                    stage: ScanStage::Authenticating(0),
                };
                let mut lines = Vec::new();
                lines.push(sector_header(0));
                assert(texts(lines@) =~= seq![sector_header_text(0)]);
                let command = scan.pending();
                Some((scan, Step { lines, command }))
            },
        }
    }

    /// The exchange whose reply the scan awaits; none once it is done.
    pub fn pending(&self) -> (command: Option<Command>)
        ensures
            command == scan_command(self@),
            command is Some ==> permits(self@.session, command->0) is Ok,
            scan_wf(self@),
    {
        proof {
            use_type_invariant(self);
        }
        match self.stage {
            ScanStage::Authenticating(sector) => Some(
                Command::Authenticate { identity: self.identity, block: 4 * sector, key: self.key },
            ),
            ScanStage::Reading(block) => Some(Command::Read { block }),
            ScanStage::Halting => Some(Command::Halt),
            ScanStage::StoppingCrypto => Some(Command::StopCrypto),
            ScanStage::Finished => None,
        }
    }

    /// Whether the scan is done.
    pub fn is_finished(&self) -> (done: bool)
        ensures
            done == (self@.stage == ScanStage::Finished),
    {
        match self.stage {
            ScanStage::Finished => true,
            _ => false,
        }
    }

    /// The session of the scan, as the exchanges so far have left it.
    pub fn session(&self) -> (session: CardSession)
        ensures
            session@ == self@.session,
    {
        self.session
    }

    /// Takes the reply to the pending exchange, and says what to report
    /// and what to do next. A scan that is done stays as it is.
    pub fn advance(&mut self, reply: &Reply) -> (step: Step)
        ensures
            final(self)@ == scan_step(old(self)@, *reply).0,
            texts(step.lines@) == scan_step(old(self)@, *reply).1,
            step.command == scan_command(final(self)@),
            scan_wf(final(self)@),
    {
        let mut lines: Vec<ReportLine> = Vec::new();
        let command = match self.pending() {
            None => {
                return Step { lines, command: None };
            },
            Some(command) => command,
        };
        let mut session = self.session;
        let outcome = session.settle(&command, reply);
        let stage = match self.stage {
            ScanStage::Authenticating(sector) => match outcome {
                Ok(_) => ScanStage::Reading(4 * sector),
                Err(error) => {
                    report_failure(&mut lines, error);
                    Self::leave_sector(&mut lines, sector)
                },
            },
            ScanStage::Reading(block) => match outcome {
                Ok(Outcome::Block(data)) => {
                    report_annotated_block(&mut lines, block, &data);
                    if block % 4 < 3 {
                        ScanStage::Reading(block + 1)
                    } else {
                        Self::leave_sector(&mut lines, block / 4)
                    }
                },
                Ok(_) => ScanStage::Halting,
                Err(error) => {
                    report_failure(&mut lines, error);
                    ScanStage::Halting
                },
            },
            ScanStage::Halting => {
                report_teardown(&mut lines, outcome);
                ScanStage::StoppingCrypto
            },
            ScanStage::StoppingCrypto => {
                report_teardown(&mut lines, outcome);
                ScanStage::Finished
            },
            ScanStage::Finished => ScanStage::Finished,
        };
        *self = MemoryScan { session, identity: self.identity, key: self.key, stage };
        let command = self.pending();
        Step { lines, command }
    }

    fn leave_sector(lines: &mut Vec<ReportLine>, sector: u8) -> (stage: ScanStage)
        requires
            sector < 16,
        ensures
            stage == stage_past(sector),
            texts(final(lines)@) == texts(old(lines)@) + texts_past(sector),
    {
        if sector + 1 < 16 {
            lines.push(sector_header(sector + 1));
            assert(texts(lines@) =~= texts(old(lines)@) + texts_past(sector));
            ScanStage::Authenticating(sector + 1)
        } else {
            ScanStage::Halting
        }
    }
}

/// A step keeps a scan well formed.
pub proof fn lemma_scan_step_keeps_wf(scan: ScanView, reply: Reply)
    requires
        scan_wf(scan),
    ensures
        scan_wf(scan_step(scan, reply).0),
{
}

/// A scan asks only for what its session permits: no exchange of a scan
/// ever meets `NotAuthenticated`.
pub proof fn lemma_scan_asks_what_is_permitted(scan: ScanView)
    requires
        scan_wf(scan),
    ensures
        scan_command(scan) is Some ==> permits(scan.session, scan_command(scan)->0) is Ok,
{
}

/// A sector that does not open does not end the scan. Whatever the card
/// answers to the authentication of a sector but its acceptance, the scan
/// reports that one error, reads no block of the sector, and goes on to
/// authenticate the next sector under its header; after the last sector it
/// goes on to halt the card.
pub proof fn lemma_locked_sector_is_passed_over(scan: ScanView, sector: u8, reply: Reply)
    requires
        scan_wf(scan),
        scan.stage == ScanStage::Authenticating(sector),
        !(reply is Accepted),
    ensures
        ({
            let (next, lines) = scan_step(scan, reply);
            let error = if reply is ChannelFault {
                CardError::TransportError
            } else {
                CardError::AuthFailed
            };
            &&& sector < 15 ==> next.stage == ScanStage::Authenticating((sector + 1) as u8) && lines
                == failure_texts(error) + seq![sector_header_text((sector + 1) as u8)]
            &&& sector == 15 ==> next.stage == ScanStage::Halting && lines == failure_texts(error)
            &&& selected_card(next.session) == Some(scan.identity)
        }),
{
}

/// The greatest number of exchanges that a scan may still make.
pub open spec fn scan_exchanges_left(stage: ScanStage) -> nat {
    match stage {
        ScanStage::Authenticating(sector) => (5 * (16 - sector) + 2) as nat,
        ScanStage::Reading(block) => ((4 - block % 4) + 5 * (15 - block / 4) + 2) as nat,
        ScanStage::Halting => 2,
        ScanStage::StoppingCrypto => 1,
        ScanStage::Finished => 0,
    }
}

/// A scan comes to its end, and ends the session as it does. Whatever the
/// replies, each exchange brings a scan closer to its end, which is at most
/// eighty-two exchanges away; and the last two exchanges of a scan are the
/// halt of the card and the switching off of the crypto unit, in that
/// order.
pub proof fn lemma_scan_ends_with_teardown(scan: ScanView, reply: Reply)
    requires
        scan_wf(scan),
    ensures
        scan_exchanges_left(scan.stage) <= 82,
        scan_command(scan) is None <==> scan_exchanges_left(scan.stage) == 0,
        scan_command(scan) is Some ==> scan_exchanges_left(scan_step(scan, reply).0.stage)
            < scan_exchanges_left(scan.stage),
        scan_command(scan) is Some && scan_command(scan_step(scan, reply).0) is None
            ==> scan_command(scan) == Some(Command::StopCrypto),
        scan_command(scan_step(scan, reply).0) == Some(Command::StopCrypto) ==> scan_command(scan)
            == Some(Command::Halt),
{
}

/// A scan after up to `exchanges` exchanges with a card, and the lines
/// that they add to the report. A scan that is done makes no exchange.
pub open spec fn scan_run(scan: ScanView, card: CardModel, exchanges: nat) -> (
    ScanView,
    Seq<Seq<u8>>,
)
    decreases exchanges,
{
    match scan_command(scan) {
        Some(command) if exchanges > 0 => {
            let (next, lines) = scan_step(scan, card_reply(card, command));
            let (last, rest) = scan_run(next, card, (exchanges - 1) as nat);
            (last, lines + rest)
        },
        _ => (scan, Seq::empty()),
    }
}

/// What the report of a scan says of one sector, below its header: its
/// four blocks in ascending order where the sector opens under the key, and
/// else the one line of the failed authentication.
pub open spec fn sector_texts(card: CardModel, key: SectorKey, sector: u8) -> Seq<Seq<u8>> {
    if key@ == key_a_of(card, sector) {
        let first = (4 * sector) as u8;
        annotated_block_texts(first, card.blocks[first as int]) + annotated_block_texts(
            (first + 1) as u8,
            card.blocks[first + 1],
        ) + annotated_block_texts((first + 2) as u8, card.blocks[first + 2])
            + annotated_block_texts((first + 3) as u8, card.blocks[first + 3])
    } else {
        failure_texts(CardError::AuthFailed)
    }
}

/// What the report of a scan says of the sectors from `sector` on: for
/// each of them in ascending order its header, and below it what
/// [`sector_texts`] says.
pub open spec fn card_texts(card: CardModel, key: SectorKey, sector: u8) -> Seq<Seq<u8>>
    decreases 16 - sector,
{
    if sector >= 16 {
        Seq::empty()
    } else {
        seq![sector_header_text(sector)] + sector_texts(card, key, sector) + card_texts(
            card,
            key,
            (sector + 1) as u8,
        )
    }
}

/// The exchanges of a scan with one sector: five where the sector opens,
/// one where it does not. They report the sector and lead to the next.
proof fn lemma_scan_passes_sector(scan: ScanView, card: CardModel, sector: u8, exchanges: nat)
    requires
        scan_wf(scan),
        scan.stage == ScanStage::Authenticating(sector),
        card_wf(card),
        card.identity == scan.identity,
        exchanges >= 5,
    ensures
        ({
            let spent: nat = if scan.key@ == key_a_of(card, sector) {
                5
            } else {
                1
            };
            let past = ScanView {
                session: if scan.key@ == key_a_of(card, sector) {
                    SessionState::Authenticated(scan.identity, sector)
                } else {
                    SessionState::Selected(scan.identity)
                },
                stage: stage_past(sector),
                ..scan
            };
            let (last, rest) = scan_run(past, card, (exchanges - spent) as nat);
            scan_run(scan, card, exchanges) == (
                last,
                sector_texts(card, scan.key, sector) + texts_past(sector) + rest,
            )
        }),
{
    let first = (4 * sector) as u8;
    let authenticate = scan_command(scan)->0;
    let (opened, none) = scan_step(scan, card_reply(card, authenticate));
    if scan.key@ == key_a_of(card, sector) {
        assert(none =~= Seq::<Seq<u8>>::empty());
        let (at1, lines0) = scan_step(opened, card_reply(card, Command::Read { block: first }));
        let (at2, lines1) = scan_step(
            at1,
            card_reply(card, Command::Read { block: (first + 1) as u8 }),
        );
        let (at3, lines2) = scan_step(
            at2,
            card_reply(card, Command::Read { block: (first + 2) as u8 }),
        );
        let (past, lines3) = scan_step(
            at3,
            card_reply(card, Command::Read { block: (first + 3) as u8 }),
        );
        let (last, rest) = scan_run(past, card, (exchanges - 5) as nat);
        assert(scan_run(at3, card, (exchanges - 4) as nat) == (last, lines3 + rest));
        assert(scan_run(at2, card, (exchanges - 3) as nat) == (last, lines2 + (lines3 + rest)));
        assert(scan_run(at1, card, (exchanges - 2) as nat) == (
            last,
            lines1 + (lines2 + (lines3 + rest)),
        ));
        assert(scan_run(opened, card, (exchanges - 1) as nat) == (
            last,
            lines0 + (lines1 + (lines2 + (lines3 + rest))),
        ));
        assert(scan_run(scan, card, exchanges) == (
            last,
            none + (lines0 + (lines1 + (lines2 + (lines3 + rest)))),
        ));
        assert(lines3 == annotated_block_texts((first + 3) as u8, card.blocks[first + 3])
            + texts_past(sector));
        assert(none + (lines0 + (lines1 + (lines2 + (lines3 + rest)))) =~= sector_texts(
            card,
            scan.key,
            sector,
        ) + texts_past(sector) + rest);
    } else {
        let (last, rest) = scan_run(opened, card, (exchanges - 1) as nat);
        assert(scan_run(scan, card, exchanges) == (last, none + rest));
        assert(none == failure_texts(CardError::AuthFailed) + texts_past(sector));
    }
}

/// A scan that has come to a sector reports that sector and all that
/// follow it, and ends.
proof fn lemma_scan_from_sector(scan: ScanView, card: CardModel, sector: u8, exchanges: nat)
    requires
        scan_wf(scan),
        scan.stage == ScanStage::Authenticating(sector),
        card_wf(card),
        card.identity == scan.identity,
        exchanges >= 5 * (16 - sector) + 2,
    ensures
        ({
            let (last, lines) = scan_run(scan, card, exchanges);
            &&& last.stage == ScanStage::Finished
            &&& last.session == SessionState::Idle
            &&& seq![sector_header_text(sector)] + lines == card_texts(card, scan.key, sector)
        }),
    decreases 16 - sector,
{
    lemma_scan_passes_sector(scan, card, sector, exchanges);
    let spent: nat = if scan.key@ == key_a_of(card, sector) {
        5
    } else {
        1
    };
    let past = ScanView {
        session: if scan.key@ == key_a_of(card, sector) {
            SessionState::Authenticated(scan.identity, sector)
        } else {
            SessionState::Selected(scan.identity)
        },
        stage: stage_past(sector),
        ..scan
    };
    let left = (exchanges - spent) as nat;
    let (last, rest) = scan_run(past, card, left);
    if sector < 15 {
        let next = (sector + 1) as u8;
        lemma_scan_from_sector(past, card, next, left);
        assert(texts_past(sector) == seq![sector_header_text(next)]);
        assert(seq![sector_header_text(sector)] + (sector_texts(card, scan.key, sector) + texts_past(sector)
            + rest) =~= seq![sector_header_text(sector)] + sector_texts(card, scan.key, sector) + (seq![
            sector_header_text(next),
        ] + rest));
    } else {
        let (stopping, halt_lines) = scan_step(past, Reply::Accepted);
        let (finished, stop_lines) = scan_step(stopping, Reply::Accepted);
        assert(scan_run(finished, card, (left - 2) as nat) == (finished, Seq::<Seq<u8>>::empty()));
        assert(scan_run(stopping, card, (left - 1) as nat) == (
            finished,
            stop_lines + Seq::<Seq<u8>>::empty(),
        ));
        assert(scan_run(past, card, left) == (
            finished,
            halt_lines + (stop_lines + Seq::<Seq<u8>>::empty()),
        ));
        assert(rest =~= Seq::<Seq<u8>>::empty());
        assert(card_texts(card, scan.key, 16) =~= Seq::<Seq<u8>>::empty());
        assert(texts_past(sector) =~= Seq::<Seq<u8>>::empty());
        assert(seq![sector_header_text(sector)] + (sector_texts(card, scan.key, sector) + texts_past(sector)
            + rest) =~= seq![sector_header_text(sector)] + sector_texts(card, scan.key, sector)
            + card_texts(card, scan.key, 16));
    }
}

/// A scan reports the whole card, whichever of its sectors are locked.
/// Against a card that refuses the key for any set of its sectors and
/// accepts it for the others, a scan comes to its end within eighty-two
/// exchanges, with the card halted and the crypto unit off. Its report
/// holds all sixteen sectors in ascending order: under its header, each
/// sector that opens with its four blocks, and each locked sector with the
/// one line of its failed authentication.
pub proof fn lemma_scan_reports_the_whole_card(
    session: SessionState,
    identity: CardIdentity,
    key: SectorKey,
    card: CardModel,
)
    requires
        selected_card(session) == Some(identity),
        card_wf(card),
        card.identity == identity,
    ensures
        ({
            let scan = ScanView { session, identity, key, stage: ScanStage::Authenticating(0) };
            let (last, lines) = scan_run(scan, card, 82);
            &&& last.stage == ScanStage::Finished
            &&& last.session == SessionState::Idle
            &&& seq![sector_header_text(0)] + lines == card_texts(card, key, 0)
        }),
{
    let scan = ScanView { session, identity, key, stage: ScanStage::Authenticating(0) };
    lemma_scan_from_sector(scan, card, 0, 82);
}

} // verus!
