use ansluta::bus::BusOp;
use ansluta::cc2500::{encode_frame, Address, COMMAND, STATE};
use ansluta::chip::{new, parse_packet, ChipError, Discovery, CC2500};

fn strobe_of(b: u8) -> Vec<BusOp> {
    vec![
        BusOp::Select,
        BusOp::WaitReady,
        BusOp::WriteByte(b),
        BusOp::Release,
        BusOp::Sleep(20000),
    ]
}

fn fifo_read() -> Vec<BusOp> {
    vec![
        BusOp::Select,
        BusOp::WaitReady,
        BusOp::Query { byte: 0xBF, delay: 200 },
        BusOp::Release,
    ]
}

fn listen() -> Vec<BusOp> {
    let mut v = strobe_of(0x34);
    v.extend(vec![
        BusOp::Select,
        BusOp::WaitReady,
        BusOp::Transfer { bytes: vec![0x01, 0x01], delay: 200 },
        BusOp::Release,
        BusOp::Sleep(200),
        BusOp::Sleep(200),
    ]);
    v.extend(fifo_read());
    v
}

fn rx_reset() -> Vec<BusOp> {
    let mut v = strobe_of(0x36);
    v.extend(strobe_of(0x3A));
    v
}

fn retry() -> Vec<BusOp> {
    let mut v = rx_reset();
    v.extend(listen());
    v
}

fn strobes(ops: &[BusOp]) -> Vec<u8> {
    ops.iter()
        .filter_map(|o| match o {
            BusOp::WriteByte(b) => Some(*b),
            _ => None,
        })
        .collect()
}

#[test]
fn frame_cross_check_light_on_50() {
    let f = encode_frame(COMMAND::LightOn50, Address(1, 2));
    assert_eq!(f.len(), 9);
    assert_eq!(f[6], 0x02);
    assert_eq!(f[4], 1);
    assert_eq!(f[5], 2);
    assert_eq!(f, vec![0x7F, 0x06, 0x55, 0x01, 1, 2, 0x02, 0xAA, 0xFF]);
}

#[test]
fn frame_opcodes() {
    let a = Address(0xAB, 0xCD);
    assert_eq!(encode_frame(COMMAND::LightOff, a), vec![0x7F, 0x06, 0x55, 0x01, 0xAB, 0xCD, 0x01, 0xAA, 0xFF]);
    assert_eq!(encode_frame(COMMAND::LightOn100, a)[6], 0x03);
    assert_eq!(encode_frame(COMMAND::PAIR, a)[6], 0xFF);
}

#[test]
fn strobe_bytes() {
    assert_eq!(CC2500::strobe(STATE::SIDLE), strobe_of(0x36));
    assert_eq!(CC2500::strobe(STATE::STX), strobe_of(0x35));
    assert_eq!(CC2500::strobe(STATE::SFTX), strobe_of(0x3B));
    assert_eq!(CC2500::strobe(STATE::SRES), strobe_of(0x30));
    assert_eq!(CC2500::strobe(STATE::SRX), strobe_of(0x34));
    assert_eq!(CC2500::strobe(STATE::SFRX), strobe_of(0x3A));
}

#[test]
fn register_transactions() {
    assert_eq!(
        CC2500::write_reg(0x0D, 0x5D),
        vec![
            BusOp::Select,
            BusOp::WaitReady,
            BusOp::Transfer { bytes: vec![0x0D, 0x5D], delay: 200 },
            BusOp::Release,
            BusOp::Sleep(200),
        ]
    );
    assert_eq!(CC2500::read_reg(0x3F), fifo_read());
    let r = CC2500::read_reg(0x05);
    assert_eq!(r[2], BusOp::Query { byte: 0x85, delay: 200 });
}

#[test]
fn init_resets_once_before_writes() {
    let ops = CC2500::init();
    assert_eq!(ops[..5].to_vec(), strobe_of(0x30));
    assert_eq!(strobes(&ops), vec![0x30]);
    let first_write = ops.iter().position(|o| matches!(o, BusOp::Transfer { .. })).unwrap();
    assert!(first_write > 2);
    assert_eq!(ops.len(), 5 + 43 * 5);
    assert_eq!(
        ops[ops.len() - 3],
        BusOp::Transfer { bytes: vec![0x3E, 0xFF], delay: 200 }
    );
    assert_eq!(ops[7], BusOp::Transfer { bytes: vec![0x00, 0x29], delay: 200 });
}

#[test]
fn command_without_address_fails() {
    let chip = new();
    assert_eq!(chip.command(COMMAND::LightOff), Err(ChipError::UnknownAddress));
}

#[test]
fn command_sends_fifty_cycles() {
    let mut chip = new();
    chip.set_address(Address(0x12, 0x34));
    assert_eq!(chip.address, Some(Address(0x12, 0x34)));
    let ops = chip.command(COMMAND::LightOn100).unwrap();
    let frame = vec![0x7F, 0x06, 0x55, 0x01, 0x12, 0x34, 0x03, 0xAA, 0xFF];
    let mut cycle = strobe_of(0x36);
    cycle.extend(strobe_of(0x3B));
    cycle.extend(vec![
        BusOp::Select,
        BusOp::WaitReady,
        BusOp::Transfer { bytes: frame, delay: 0 },
        BusOp::Release,
    ]);
    cycle.extend(strobe_of(0x35));
    cycle.push(BusOp::Sleep(10));
    assert_eq!(ops.len(), 50 * cycle.len());
    for k in 0..50 {
        assert_eq!(ops[k * cycle.len()..(k + 1) * cycle.len()].to_vec(), cycle);
    }
}

#[test]
fn discovery_starts_listening() {
    let mut chip = new();
    let step = chip.read_address(Discovery::Start, &vec![]);
    assert_eq!(step.next, Discovery::Listening);
    assert_eq!(step.ops, listen());
    assert!(!step.oversized);
}

#[test]
fn discovery_empty_fifo_listens_again() {
    let mut chip = new();
    let step = chip.read_address(Discovery::Listening, &vec![0]);
    assert_eq!(step.next, Discovery::Listening);
    assert_eq!(step.ops, retry());
    assert!(!step.oversized);
    assert_eq!(chip.address, None);
}

#[test]
fn discovery_oversized_packet_flagged() {
    for n in [9u8, 100, 255] {
        let mut chip = new();
        let step = chip.read_address(Discovery::Listening, &vec![n]);
        assert_eq!(step.next, Discovery::Listening);
        assert_eq!(step.ops, retry());
        assert!(step.oversized);
    }
}

#[test]
fn discovery_reads_reported_length() {
    let mut chip = new();
    let step = chip.read_address(Discovery::Listening, &vec![7]);
    assert_eq!(step.next, Discovery::Receiving);
    let mut expected = Vec::new();
    for _ in 0..7 {
        expected.extend(fifo_read());
    }
    assert_eq!(step.ops, expected);
    assert!(!step.oversized);
}

#[test]
fn discovery_finds_address_after_sync() {
    let mut chip = new();
    let packet = vec![0x55, 0x55, 0x01, 0x12, 0x34, 0x77, 0xAA];
    let step = chip.read_address(Discovery::Receiving, &packet);
    assert_eq!(step.next, Discovery::Found(Address(0x12, 0x34)));
    assert_eq!(step.ops, rx_reset());
    assert_eq!(strobes(&step.ops), vec![0x36, 0x3A]);
    assert_eq!(chip.address, Some(Address(0x12, 0x34)));
}

#[test]
fn discovery_finds_address_without_sync() {
    let mut chip = new();
    let step = chip.read_address(Discovery::Receiving, &vec![0x01, 9, 8, 0, 0xAA]);
    assert_eq!(step.next, Discovery::Found(Address(9, 8)));
}

#[test]
fn discovery_all_sync_is_no_match() {
    let mut chip = new();
    let step = chip.read_address(Discovery::Receiving, &vec![0x55; 8]);
    assert_eq!(step.next, Discovery::Listening);
    assert_eq!(step.ops, retry());
    assert_eq!(chip.address, None);
}

#[test]
fn discovery_short_or_wrong_packet_is_no_match() {
    let mut chip = new();
    chip.set_address(Address(3, 4));
    for p in [
        vec![0x55, 0x01, 0x02],
        vec![0x55, 0x02, 1, 2, 3, 0xAA],
        vec![0x01, 1, 2, 3, 0xAB],
    ] {
        let step = chip.read_address(Discovery::Receiving, &p);
        assert_eq!(step.next, Discovery::Listening);
        assert_eq!(step.ops, retry());
    }
    assert_eq!(chip.address, Some(Address(3, 4)));
}

#[test]
fn discovery_found_is_terminal() {
    let mut chip = new();
    let step = chip.read_address(Discovery::Found(Address(1, 1)), &vec![5]);
    assert_eq!(step.next, Discovery::Found(Address(1, 1)));
    assert!(step.ops.is_empty());
}

#[test]
fn parse_packet_cases() {
    assert_eq!(parse_packet(&vec![]), None);
    assert_eq!(parse_packet(&vec![0x55, 0x55, 0x55, 0x01, 0xA0, 0x0B, 0x00, 0xAA]), Some(Address(0xA0, 0x0B)));
    assert_eq!(parse_packet(&vec![0x55, 0x01, 0xA0, 0x0B, 0x00]), None);
}
