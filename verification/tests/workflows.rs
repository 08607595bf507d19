use mifare_access::card::{build_trailer, factory_access_bits, factory_key, CardIdentity};
use mifare_access::reading::SectorRead;
use mifare_access::rotation::KeyRotation;
use mifare_access::scan::MemoryScan;
use mifare_access::session::{CardError, CardSession, Command, Outcome, Reply, SessionState};
use mifare_access::workflow::Step;

const RUSTED: [u8; 6] = [0x52, 0x75, 0x73, 0x74, 0x65, 0x64];
const FERRIS: [u8; 6] = [0x46, 0x65, 0x72, 0x72, 0x69, 0x73];

/// A card as a reader sees it: sixty-four blocks, opened sector by sector
/// with the KeyA that the sector's trailer holds.
struct Card {
    identity: CardIdentity,
    blocks: [[u8; 16]; 64],
    open: Option<u8>,
    deaf_blocks: Vec<u8>,
    read_only_blocks: Vec<u8>,
    stuck: bool,
    log: Vec<Command>,
}

impl Card {
    fn fresh() -> Card {
        let mut blocks = [[0u8; 16]; 64];
        for (number, block) in blocks.iter_mut().enumerate() {
            if number % 4 == 3 {
                *block = build_trailer(&factory_key(), &factory_access_bits(), &factory_key());
            } else {
                for (i, byte) in block.iter_mut().enumerate() {
                    *byte = (number * 16 + i) as u8;
                }
            }
        }
        Card {
            identity: CardIdentity::Single([0xDE, 0xAD, 0xBE, 0xEF]),
            blocks,
            open: None,
            deaf_blocks: Vec::new(),
            read_only_blocks: Vec::new(),
            stuck: false,
            log: Vec::new(),
        }
    }

    fn rekey(&mut self, sector: u8, key_a: [u8; 6]) {
        self.blocks[sector as usize * 4 + 3][..6].copy_from_slice(&key_a);
    }

    fn perform(&mut self, command: &Command) -> Reply {
        self.log.push(*command);
        match *command {
            Command::RequestA => Reply::Answered,
            Command::Select => Reply::Identity(self.identity),
            Command::Authenticate { identity, block, key } => {
                let sector = block / 4;
                let trailer = self.blocks[sector as usize * 4 + 3];
                if identity == self.identity && trailer[..6] == key {
                    self.open = Some(sector);
                    Reply::Accepted
                } else {
                    self.open = None;
                    Reply::Refused
                }
            }
            Command::Read { block } => {
                if self.open == Some(block / 4) && !self.deaf_blocks.contains(&block) {
                    Reply::Data(self.blocks[block as usize])
                } else {
                    self.open = None;
                    Reply::Refused
                }
            }
            Command::Write { block, data } => {
                if self.open == Some(block / 4) && !self.read_only_blocks.contains(&block) {
                    self.blocks[block as usize] = data;
                    Reply::Accepted
                } else {
                    self.open = None;
                    Reply::Refused
                }
            }
            Command::Halt => {
                self.open = None;
                if self.stuck {
                    Reply::Refused
                } else {
                    Reply::Accepted
                }
            }
            Command::StopCrypto => {
                if self.stuck {
                    Reply::ChannelFault
                } else {
                    Reply::Accepted
                }
            }
        }
    }
}

fn select(card: &mut Card) -> CardSession {
    let mut session = CardSession::new();
    let poll = session.poll_for_card();
    let reply = card.perform(&poll);
    session.settle(&poll, &reply).unwrap();
    let select = session.select().unwrap();
    let reply = card.perform(&select);
    session.settle(&select, &reply).unwrap();
    card.log.clear();
    session
}

fn collect(report: &mut Vec<String>, step: &Step) {
    for line in &step.lines {
        report.push(line.as_str().to_string());
    }
}

fn hex(data: &[u8]) -> String {
    let mut text = String::new();
    for byte in data {
        text.push_str(&format!("{:02x} ", byte));
    }
    text
}

fn run_scan(card: &mut Card) -> (Vec<String>, MemoryScan) {
    let session = select(card);
    let (mut scan, mut step) = MemoryScan::begin(session, &factory_key()).unwrap();
    let mut report = Vec::new();
    collect(&mut report, &step);
    let mut steps = 0;
    while let Some(command) = step.command {
        assert_eq!(scan.pending(), Some(command));
        assert_eq!(scan.session().permits(&command), Ok(()));
        let reply = card.perform(&command);
        step = scan.advance(&reply);
        collect(&mut report, &step);
        steps += 1;
        assert!(steps <= 16 * 5 + 2);
    }
    assert!(scan.is_finished());
    (report, scan)
}

fn run_read(card: &mut Card, sector: u8, key: [u8; 6]) -> (Vec<String>, SectorRead) {
    let session = select(card);
    let (mut read, mut step) = SectorRead::begin(session, sector, &key).unwrap();
    let mut report = Vec::new();
    collect(&mut report, &step);
    let mut steps = 0;
    while let Some(command) = step.command {
        assert_eq!(read.pending(), Some(command));
        assert_eq!(read.session().permits(&command), Ok(()));
        let reply = card.perform(&command);
        step = read.advance(&reply);
        collect(&mut report, &step);
        steps += 1;
        assert!(steps <= 7);
    }
    assert!(read.is_finished());
    (report, read)
}

fn run_rotation(
    card: &mut Card,
    sector: u8,
    current: [u8; 6],
    key_a: [u8; 6],
    key_b: [u8; 6],
) -> (Vec<String>, KeyRotation) {
    let session = select(card);
    let (mut rotation, mut step) = KeyRotation::begin(
        session,
        sector,
        &current,
        &key_a,
        &factory_access_bits(),
        &key_b,
    )
    .unwrap();
    let mut report = Vec::new();
    collect(&mut report, &step);
    let mut steps = 0;
    while let Some(command) = step.command {
        assert_eq!(rotation.pending(), Some(command));
        assert_eq!(rotation.session().permits(&command), Ok(()));
        let reply = card.perform(&command);
        step = rotation.advance(&reply);
        collect(&mut report, &step);
        steps += 1;
        assert!(steps <= 14);
    }
    assert!(rotation.is_finished());
    (report, rotation)
}

fn sector_report(card: &Card, sector: u8) -> Vec<String> {
    let mut lines = Vec::new();
    for relative in 0..4u8 {
        let block = sector * 4 + relative;
        lines.push(format!("\r\nBLOCK {} (REL: {}) | ", block, relative));
        lines.push(hex(&card.blocks[block as usize]));
        lines.push(match (sector, relative) {
            (0, 0) => "| MFD ".to_string(),
            (_, 3) => "| TRAILER ".to_string(),
            _ => "| DATA ".to_string(),
        });
    }
    lines.push("\r\n".to_string());
    lines
}

#[test]
fn a_scan_reports_every_sector_of_a_fresh_card() {
    let mut card = Card::fresh();
    let (report, scan) = run_scan(&mut card);
    let mut expected = Vec::new();
    for sector in 0..16u8 {
        expected.push(format!("\r\n-----------SECTOR {}-----------\r\n", sector));
        expected.extend(sector_report(&card, sector));
    }
    assert_eq!(report, expected);
    assert_eq!(scan.session().state(), SessionState::Idle);
}

#[test]
fn a_scan_starts_with_sector_zero() {
    let mut card = Card::fresh();
    let (report, _) = run_scan(&mut card);
    assert_eq!(
        &report[..5],
        &[
            "\r\n-----------SECTOR 0-----------\r\n".to_string(),
            "\r\nBLOCK 0 (REL: 0) | ".to_string(),
            "00 01 02 03 04 05 06 07 08 09 0a 0b 0c 0d 0e 0f ".to_string(),
            "| MFD ".to_string(),
            "\r\nBLOCK 1 (REL: 1) | ".to_string(),
        ]
    );
}

#[test]
fn a_scan_asks_for_each_sector_and_block_in_ascending_order() {
    let mut card = Card::fresh();
    run_scan(&mut card);
    let mut expected = Vec::new();
    for sector in 0..16u8 {
        expected.push(Command::Authenticate {
            identity: card.identity,
            block: sector * 4,
            key: [0xFF; 6],
        });
        for relative in 0..4u8 {
            expected.push(Command::Read { block: sector * 4 + relative });
        }
    }
    expected.push(Command::Halt);
    expected.push(Command::StopCrypto);
    assert_eq!(card.log, expected);
}

#[test]
fn scan_resilience() {
    let mut card = Card::fresh();
    card.rekey(7, RUSTED);
    let (report, scan) = run_scan(&mut card);
    let mut expected = Vec::new();
    for sector in 0..16u8 {
        expected.push(format!("\r\n-----------SECTOR {}-----------\r\n", sector));
        if sector == 7 {
            expected.push("Auth failed".to_string());
        } else {
            expected.extend(sector_report(&card, sector));
        }
    }
    assert_eq!(report, expected);
    assert_eq!(report.iter().filter(|line| *line == "Auth failed").count(), 1);
    for block in 28..32u8 {
        assert!(!card.log.contains(&Command::Read { block }));
    }
    for block in (0..28u8).chain(32..64u8) {
        assert!(card.log.contains(&Command::Read { block }));
    }
    assert_eq!(&card.log[card.log.len() - 2..], &[Command::Halt, Command::StopCrypto]);
    assert!(scan.is_finished());
}

#[test]
fn a_scan_passes_over_every_locked_sector() {
    let mut card = Card::fresh();
    for sector in [0u8, 1, 8, 15] {
        card.rekey(sector, FERRIS);
    }
    let (report, _) = run_scan(&mut card);
    let mut expected = Vec::new();
    for sector in 0..16u8 {
        expected.push(format!("\r\n-----------SECTOR {}-----------\r\n", sector));
        if [0u8, 1, 8, 15].contains(&sector) {
            expected.push("Auth failed".to_string());
        } else {
            expected.extend(sector_report(&card, sector));
        }
    }
    assert_eq!(report, expected);
    assert_eq!(&card.log[card.log.len() - 2..], &[Command::Halt, Command::StopCrypto]);
}

#[test]
fn a_scan_of_a_card_that_is_locked_throughout() {
    let mut card = Card::fresh();
    for sector in 0..16u8 {
        card.rekey(sector, RUSTED);
    }
    let (report, _) = run_scan(&mut card);
    assert_eq!(report.len(), 32);
    assert_eq!(card.log.len(), 18);
    assert!(card.log.iter().all(|command| !matches!(command, Command::Read { .. })));
}

#[test]
fn a_block_that_cannot_be_read_ends_the_scan() {
    let mut card = Card::fresh();
    card.deaf_blocks.push(9);
    let (report, _) = run_scan(&mut card);
    let mut expected = Vec::new();
    for sector in 0..2u8 {
        expected.push(format!("\r\n-----------SECTOR {}-----------\r\n", sector));
        expected.extend(sector_report(&card, sector));
    }
    expected.push("\r\n-----------SECTOR 2-----------\r\n".to_string());
    expected.push("\r\nBLOCK 8 (REL: 0) | ".to_string());
    expected.push(hex(&card.blocks[8]));
    expected.push("| DATA ".to_string());
    expected.push("Read failed".to_string());
    assert_eq!(report, expected);
    assert_eq!(
        &card.log[card.log.len() - 3..],
        &[Command::Read { block: 9 }, Command::Halt, Command::StopCrypto]
    );
}

#[test]
fn a_scan_reports_a_halt_that_fails() {
    let mut card = Card::fresh();
    card.stuck = true;
    let (report, scan) = run_scan(&mut card);
    assert_eq!(
        &report[report.len() - 2..],
        &["Transport error".to_string(), "Transport error".to_string()]
    );
    assert_eq!(scan.session().state(), SessionState::Idle);
}

#[test]
fn a_scan_needs_a_selected_card() {
    assert!(MemoryScan::begin(CardSession::new(), &factory_key()).is_none());
    let mut detected = CardSession::new();
    detected.settle(&Command::RequestA, &Reply::Answered).unwrap();
    assert!(MemoryScan::begin(detected, &factory_key()).is_none());
}

#[test]
fn a_scan_that_is_done_stays_done() {
    let mut card = Card::fresh();
    let (_, mut scan) = run_scan(&mut card);
    let step = scan.advance(&Reply::Accepted);
    assert!(step.lines.is_empty());
    assert_eq!(step.command, None);
    assert_eq!(scan.pending(), None);
    assert!(scan.is_finished());
}

#[test]
fn a_scan_step_by_step() {
    let mut card = Card::fresh();
    let session = select(&mut card);
    let (mut scan, step) = MemoryScan::begin(session, &factory_key()).unwrap();
    assert_eq!(step.lines.len(), 1);
    assert_eq!(
        step.command,
        Some(Command::Authenticate { identity: card.identity, block: 0, key: [0xFF; 6] })
    );
    let step = scan.advance(&Reply::Refused);
    let texts: Vec<&str> = step.lines.iter().map(|line| line.as_str()).collect();
    assert_eq!(texts, vec!["Auth failed", "\r\n-----------SECTOR 1-----------\r\n"]);
    assert_eq!(
        step.command,
        Some(Command::Authenticate { identity: card.identity, block: 4, key: [0xFF; 6] })
    );
    let step = scan.advance(&Reply::ChannelFault);
    let texts: Vec<&str> = step.lines.iter().map(|line| line.as_str()).collect();
    assert_eq!(texts, vec!["Transport error", "\r\n-----------SECTOR 2-----------\r\n"]);
    let step = scan.advance(&Reply::Accepted);
    assert!(step.lines.is_empty());
    assert_eq!(step.command, Some(Command::Read { block: 8 }));
    assert_eq!(scan.session().state(), SessionState::Authenticated(card.identity, 2));
}

#[test]
fn a_sector_read_reports_four_blocks() {
    let mut card = Card::fresh();
    let (report, read) = run_read(&mut card, 0, [0xFF; 6]);
    assert_eq!(
        report,
        vec![
            "00 01 02 03 04 05 06 07 08 09 0a 0b 0c 0d 0e 0f ",
            "\r\n",
            "10 11 12 13 14 15 16 17 18 19 1a 1b 1c 1d 1e 1f ",
            "\r\n",
            "20 21 22 23 24 25 26 27 28 29 2a 2b 2c 2d 2e 2f ",
            "\r\n",
            "ff ff ff ff ff ff ff 07 80 69 ff ff ff ff ff ff ",
            "\r\n",
        ]
    );
    assert_eq!(
        card.log,
        vec![
            Command::Authenticate { identity: card.identity, block: 0, key: [0xFF; 6] },
            Command::Read { block: 0 },
            Command::Read { block: 1 },
            Command::Read { block: 2 },
            Command::Read { block: 3 },
            Command::Halt,
            Command::StopCrypto,
        ]
    );
    assert_eq!(read.session().state(), SessionState::Idle);
}

#[test]
fn a_sector_read_with_the_wrong_key() {
    let mut card = Card::fresh();
    let (report, _) = run_read(&mut card, 3, RUSTED);
    assert_eq!(report, vec!["Auth failed"]);
    assert_eq!(
        card.log,
        vec![
            Command::Authenticate { identity: card.identity, block: 12, key: RUSTED },
            Command::Halt,
            Command::StopCrypto,
        ]
    );
}

#[test]
fn a_sector_read_stops_at_the_block_that_fails() {
    let mut card = Card::fresh();
    card.deaf_blocks.push(13);
    let (report, _) = run_read(&mut card, 3, [0xFF; 6]);
    assert_eq!(report, vec![hex(&card.blocks[12]), "\r\n".to_string(), "Read failed".to_string()]);
    assert_eq!(
        &card.log[1..],
        &[
            Command::Read { block: 12 },
            Command::Read { block: 13 },
            Command::Halt,
            Command::StopCrypto,
        ]
    );
}

#[test]
fn a_sector_read_needs_a_card_and_a_sector() {
    assert!(SectorRead::begin(CardSession::new(), 0, &factory_key()).is_none());
    let mut card = Card::fresh();
    let session = select(&mut card);
    assert!(SectorRead::begin(session, 16, &factory_key()).is_none());
    assert!(SectorRead::begin(session, 15, &factory_key()).is_some());
}

#[test]
fn a_sector_read_that_is_done_stays_done() {
    let mut card = Card::fresh();
    let (_, mut read) = run_read(&mut card, 1, [0xFF; 6]);
    let step = read.advance(&Reply::Data([0; 16]));
    assert!(step.lines.is_empty());
    assert_eq!(step.command, None);
}

#[test]
fn key_change() {
    let mut card = Card::fresh();
    let before: Vec<[u8; 16]> = card.blocks[4..7].to_vec();
    let (report, rotation) = run_rotation(&mut card, 1, [0xFF; 6], RUSTED, FERRIS);
    let new_trailer = [
        0x52, 0x75, 0x73, 0x74, 0x65, 0x64, 0xFF, 0x07, 0x80, 0x69, 0x46, 0x65, 0x72, 0x72, 0x69,
        0x73,
    ];
    assert_eq!(card.blocks[7], new_trailer);
    assert_eq!(
        report,
        vec![
            "\r\n----Before Write----\r\n".to_string(),
            hex(&before[0]),
            "\r\n".to_string(),
            hex(&before[1]),
            "\r\n".to_string(),
            hex(&before[2]),
            "\r\n".to_string(),
            "ff ff ff ff ff ff ff 07 80 69 ff ff ff ff ff ff ".to_string(),
            "\r\n".to_string(),
            "\r\n----After Write----\r\n".to_string(),
            hex(&before[0]),
            "\r\n".to_string(),
            hex(&before[1]),
            "\r\n".to_string(),
            hex(&before[2]),
            "\r\n".to_string(),
            "52 75 73 74 65 64 ff 07 80 69 46 65 72 72 69 73 ".to_string(),
            "\r\n".to_string(),
        ]
    );
    assert!(rotation.is_finished());

    let mut session = select(&mut card);
    let old = session.authenticate(&card.identity, 1, &[0xFF; 6]).unwrap();
    let reply = card.perform(&old);
    assert_eq!(session.settle(&old, &reply), Err(CardError::AuthFailed));
    assert_eq!(session.read_block(4), Err(CardError::NotAuthenticated));
    let new = session.authenticate(&card.identity, 1, &RUSTED).unwrap();
    let reply = card.perform(&new);
    assert_eq!(session.settle(&new, &reply), Ok(Outcome::Authenticated(1)));
    for (i, block) in (4..7u8).enumerate() {
        let read = session.read_block(block).unwrap();
        let reply = card.perform(&read);
        assert_eq!(session.settle(&read, &reply), Ok(Outcome::Block(before[i])));
    }
    let read = session.read_block(7).unwrap();
    let reply = card.perform(&read);
    assert_eq!(session.settle(&read, &reply), Ok(Outcome::Block(new_trailer)));
}

#[test]
fn a_key_change_asks_for_one_write_of_the_whole_trailer() {
    let mut card = Card::fresh();
    run_rotation(&mut card, 1, [0xFF; 6], RUSTED, FERRIS);
    let id = card.identity;
    assert_eq!(
        card.log,
        vec![
            Command::Authenticate { identity: id, block: 4, key: [0xFF; 6] },
            Command::Read { block: 4 },
            Command::Read { block: 5 },
            Command::Read { block: 6 },
            Command::Read { block: 7 },
            Command::Authenticate { identity: id, block: 4, key: [0xFF; 6] },
            Command::Write {
                block: 7,
                data: [
                    0x52, 0x75, 0x73, 0x74, 0x65, 0x64, 0xFF, 0x07, 0x80, 0x69, 0x46, 0x65, 0x72,
                    0x72, 0x69, 0x73,
                ],
            },
            Command::Authenticate { identity: id, block: 4, key: RUSTED },
            Command::Read { block: 4 },
            Command::Read { block: 5 },
            Command::Read { block: 6 },
            Command::Read { block: 7 },
            Command::Halt,
            Command::StopCrypto,
        ]
    );
}

#[test]
fn a_key_change_leaves_the_other_sectors_alone() {
    let mut card = Card::fresh();
    let before = card.blocks;
    run_rotation(&mut card, 0, [0xFF; 6], RUSTED, FERRIS);
    for block in 0..64usize {
        if block == 3 {
            assert_ne!(card.blocks[block], before[block]);
        } else {
            assert_eq!(card.blocks[block], before[block]);
        }
    }
}

#[test]
fn a_key_change_with_the_wrong_key_writes_nothing() {
    let mut card = Card::fresh();
    card.rekey(1, FERRIS);
    let before = card.blocks;
    let (report, rotation) = run_rotation(&mut card, 1, [0xFF; 6], RUSTED, FERRIS);
    assert_eq!(
        report,
        vec!["\r\n----Before Write----\r\n".to_string(), "Auth failed".to_string()]
    );
    assert_eq!(card.blocks, before);
    assert_eq!(
        card.log,
        vec![
            Command::Authenticate { identity: card.identity, block: 4, key: [0xFF; 6] },
            Command::Halt,
            Command::StopCrypto,
        ]
    );
    assert!(rotation.is_finished());
}

#[test]
fn a_key_change_stops_at_a_write_that_fails() {
    let mut card = Card::fresh();
    card.read_only_blocks.push(7);
    let before = card.blocks;
    let (report, _) = run_rotation(&mut card, 1, [0xFF; 6], RUSTED, FERRIS);
    assert_eq!(report.len(), 10);
    assert_eq!(report[9], "Write failed");
    assert_eq!(card.blocks, before);
    assert_eq!(
        &card.log[5..],
        &[
            Command::Authenticate { identity: card.identity, block: 4, key: [0xFF; 6] },
            Command::Write { block: 7, data: build_trailer(&RUSTED, &factory_access_bits(), &FERRIS) },
            Command::Halt,
            Command::StopCrypto,
        ]
    );
}

#[test]
fn a_key_change_goes_on_after_a_read_that_fails_before_the_write() {
    let mut card = Card::fresh();
    card.deaf_blocks.push(5);
    let (report, _) = run_rotation(&mut card, 1, [0xFF; 6], RUSTED, FERRIS);
    assert_eq!(
        report,
        vec![
            "\r\n----Before Write----\r\n".to_string(),
            hex(&card.blocks[4]),
            "\r\n".to_string(),
            "Read failed".to_string(),
            "\r\n----After Write----\r\n".to_string(),
            hex(&card.blocks[4]),
            "\r\n".to_string(),
            "Read failed".to_string(),
        ]
    );
    assert_eq!(&card.blocks[7][..6], &RUSTED);
}

#[test]
fn a_key_change_needs_a_card_and_a_sector() {
    let bits = factory_access_bits();
    assert!(
        KeyRotation::begin(CardSession::new(), 1, &factory_key(), &RUSTED, &bits, &FERRIS).is_none()
    );
    let mut card = Card::fresh();
    let session = select(&mut card);
    assert!(KeyRotation::begin(session, 16, &factory_key(), &RUSTED, &bits, &FERRIS).is_none());
    let (rotation, step) =
        KeyRotation::begin(session, 15, &factory_key(), &RUSTED, &bits, &FERRIS).unwrap();
    assert_eq!(
        step.command,
        Some(Command::Authenticate { identity: card.identity, block: 60, key: [0xFF; 6] })
    );
    assert_eq!(rotation.pending(), step.command);
}

#[test]
fn round_trip() {
    let mut card = Card::fresh();
    let mut session = select(&mut card);
    let data = [
        0xC0, 0xFF, 0xEE, 0x00, 0x01, 0x02, 0x03, 0x04, 0x05, 0x06, 0x07, 0x08, 0x09, 0x0A, 0x0B,
        0x0C,
    ];
    let auth = session.authenticate(&card.identity, 2, &factory_key()).unwrap();
    let reply = card.perform(&auth);
    session.settle(&auth, &reply).unwrap();
    for block in 8..11u8 {
        let write = session.write_block(block, &data).unwrap();
        let reply = card.perform(&write);
        assert_eq!(session.settle(&write, &reply), Ok(Outcome::Written));
        let read = session.read_block(block).unwrap();
        let reply = card.perform(&read);
        assert_eq!(session.settle(&read, &reply), Ok(Outcome::Block(data)));
    }
}
