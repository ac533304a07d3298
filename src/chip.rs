use vstd::prelude::*;

use crate::bus::{
    append_plan, ops_model, push_op, read_reg_ops, read_reg_plan, repeat, strobe_ops, strobe_plan,
    write_reg_ops, write_reg_plan, BusOp, OpModel, SETTLE_US, TX_SETTLE_US,
};
use crate::cc2500::{encode_frame, frame, Address, COMMAND, STATE};
use crate::config::{config_table, register_table, REG_FIFO, REG_IOCFG1};

verus! {

/// Number of times a command frame is sent: the link has no acknowledgment.
pub const TX_CYCLES: usize = 50;

/// Longest inbound packet that the protocol accepts.
pub const MAX_PACKET: u8 = 8;

/// Preamble byte that precedes an inbound payload.
pub const SYNC: u8 = 0x55;

/// First byte of a remote's payload.
pub const PAYLOAD_START: u8 = 0x01;

/// Last byte of a remote's payload.
pub const PAYLOAD_END: u8 = 0xAA;

/// The driver's state: the address of the receiver it talks to, once known.
pub struct CC2500 {
    pub address: Option<Address>,
}

/// Errors that end an operation.
#[derive(Debug, Clone, Copy, PartialEq, Eq, Structural)]
pub enum ChipError {
    /// A command was asked for before any receiver address was known.
    UnknownAddress,
}

/// Where address discovery stands.
#[derive(Debug, Clone, Copy, PartialEq, Eq, Structural)]
pub enum Discovery {
    /// Nothing done yet.
    Start,
    /// The last plan read the FIFO length.
    Listening,
    /// The last plan read the packet bytes.
    Receiving,
    /// A remote's packet gave this address (terminal).
    Found(Address),
}

/// One step of discovery: the next state, the plan to run, and whether an
/// oversized packet was seen.
pub struct DiscoveryStep {
    pub next: Discovery,
    pub ops: Vec<BusOp>,
    pub oversized: bool,
}

/// Register writes of `t`, in order.
pub open spec fn writes_plan(t: Seq<(u8, u8)>) -> Seq<OpModel>
    decreases t.len(),
{
    if t.len() == 0 {
        Seq::empty()
    } else {
        writes_plan(t.drop_last()) + write_reg_plan(t.last().0, t.last().1)
    }
}

/// Reset, then the whole configuration table.
pub open spec fn init_plan() -> Seq<OpModel> {
    strobe_plan(STATE::SRES.spec_byte()) + writes_plan(config_table())
}

/// One transmit cycle of frame `f`: idle, flush TX, write the frame with no
/// pause between bytes, enable TX, settle.
pub open spec fn tx_cycle(f: Seq<u8>) -> Seq<OpModel> {
    strobe_plan(STATE::SIDLE.spec_byte()) + strobe_plan(STATE::SFTX.spec_byte()) + seq![
        OpModel::Select,
        OpModel::WaitReady,
        OpModel::Transfer { bytes: f, delay: 0 },
        OpModel::Release,
    ] + strobe_plan(STATE::STX.spec_byte()) + seq![OpModel::Sleep(TX_SETTLE_US)]
}

pub open spec fn command_plan(cmd: COMMAND, a: Address) -> Seq<OpModel> {
    repeat(tx_cycle(frame(cmd, a)), TX_CYCLES as nat)
}

/// Enter receive mode, route packet-received to the ready line, settle, and
/// read the FIFO length.
pub open spec fn listen_plan() -> Seq<OpModel> {
    strobe_plan(STATE::SRX.spec_byte()) + write_reg_plan(REG_IOCFG1, 0x01) + seq![
        OpModel::Sleep(SETTLE_US),
    ] + read_reg_plan(REG_FIFO)
}

/// Leave receive mode and flush the RX FIFO.
pub open spec fn rx_reset_plan() -> Seq<OpModel> {
    strobe_plan(STATE::SIDLE.spec_byte()) + strobe_plan(STATE::SFRX.spec_byte())
}

/// Give up on what was received and listen again.
pub open spec fn retry_plan() -> Seq<OpModel> {
    rx_reset_plan() + listen_plan()
}

/// Read `n` bytes from the FIFO.
pub open spec fn payload_plan(n: nat) -> Seq<OpModel> {
    repeat(read_reg_plan(REG_FIFO), n)
}

/// `s` is where the preamble of `p` ends: every byte before it is a sync
/// byte, and the byte at `s`, if any, is not.
pub open spec fn is_sync_end(p: Seq<u8>, s: int) -> bool {
    &&& 0 <= s <= p.len()
    &&& forall|j: int| 0 <= j < s ==> p[j] == SYNC
    &&& s < p.len() ==> p[s] != SYNC
}

pub open spec fn sync_end(p: Seq<u8>) -> int {
    choose|s: int| is_sync_end(p, s)
}

/// The address that packet `p` carries, if it is a remote's packet: after
/// the preamble, `[0x01, hi, lo, _, 0xAA]`.
pub open spec fn packet_address(p: Seq<u8>) -> Option<Address> {
    let s = sync_end(p);
    if s + 4 < p.len() && p[s] == PAYLOAD_START && p[s + 4] == PAYLOAD_END {
        Some(Address(p[s + 1], p[s + 2]))
    } else {
        None
    }
}

pub proof fn lemma_sync_end(p: Seq<u8>, s: int)
    requires
        is_sync_end(p, s),
    ensures
        sync_end(p) == s,
{
    let t = sync_end(p);
    assert(is_sync_end(p, t));
    if t < s {
        assert(p[t] == SYNC);
    } else if s < t {
        assert(p[s] == SYNC);
    }
}

/// The address found by a step of discovery, if any.
pub open spec fn step_found(phase: Discovery, reads: Seq<u8>) -> Option<Address> {
    match phase {
        Discovery::Receiving => packet_address(reads),
        _ => None,
    }
}

pub open spec fn step_next(phase: Discovery, reads: Seq<u8>) -> Discovery {
    match phase {
        Discovery::Start => Discovery::Listening,
        Discovery::Listening => if reads[0] == 0 || reads[0] > MAX_PACKET {
            Discovery::Listening
        } else {
            Discovery::Receiving
        },
        Discovery::Receiving => match packet_address(reads) {
            Some(a) => Discovery::Found(a),
            None => Discovery::Listening,
        },
        Discovery::Found(a) => Discovery::Found(a),
    }
}

pub open spec fn step_ops(phase: Discovery, reads: Seq<u8>) -> Seq<OpModel> {
    match phase {
        Discovery::Start => listen_plan(),
        Discovery::Listening => if reads[0] == 0 || reads[0] > MAX_PACKET {
            retry_plan()
        } else {
            payload_plan(reads[0] as nat)
        },
        Discovery::Receiving => match packet_address(reads) {
            Some(a) => rx_reset_plan(),
            None => retry_plan(),
        },
        Discovery::Found(a) => Seq::empty(),
    }
}

pub open spec fn step_oversized(phase: Discovery, reads: Seq<u8>) -> bool {
    phase is Listening && reads[0] > MAX_PACKET
}

/// A driver with no known address.
pub fn new() -> (r: CC2500)
    ensures
        r.address is None,
{
    CC2500 { address: None }
}

/// Packet parse: skips the preamble and checks start and end markers.
pub fn parse_packet(p: &Vec<u8>) -> (r: Option<Address>)
    ensures
        r == packet_address(p@),
{
    let mut s: usize = 0;
    while s < p.len() && p[s] == SYNC
        invariant
            s <= p@.len(),
            forall|j: int| 0 <= j < s ==> p@[j] == SYNC,
        decreases p@.len() - s,
    {
        s = s + 1;
    }
    proof {
        lemma_sync_end(p@, s as int);
    }
    if p.len() - s > 4 && p[s] == PAYLOAD_START && p[s + 4] == PAYLOAD_END {
        Some(Address(p[s + 1], p[s + 2]))
    } else {
        None
    }
}

fn rx_reset_ops() -> (r: Vec<BusOp>)
    ensures
        ops_model(r@) == rx_reset_plan(),
{
    let mut v = strobe_ops(STATE::SIDLE.byte());
    append_plan(&mut v, strobe_ops(STATE::SFRX.byte()));
    v
}

fn listen_ops() -> (r: Vec<BusOp>)
    ensures
        ops_model(r@) == listen_plan(),
{
    let mut v = strobe_ops(STATE::SRX.byte());
    append_plan(&mut v, write_reg_ops(REG_IOCFG1, 0x01));
    push_op(&mut v, BusOp::Sleep(SETTLE_US));
    append_plan(&mut v, read_reg_ops(REG_FIFO));
    assert(ops_model(v@) =~= listen_plan());
    v
}

fn retry_ops() -> (r: Vec<BusOp>)
    ensures
        ops_model(r@) == retry_plan(),
{
    let mut v = rx_reset_ops();
    append_plan(&mut v, listen_ops());
    v
}

fn payload_ops(n: u8) -> (r: Vec<BusOp>)
    ensures
        ops_model(r@) == payload_plan(n as nat),
{
    let mut v: Vec<BusOp> = Vec::new();
    let mut i: u8 = 0;
    assert(ops_model(v@) =~= repeat(read_reg_plan(REG_FIFO), 0));
    while i < n
        invariant
            i <= n,
            ops_model(v@) == repeat(read_reg_plan(REG_FIFO), i as nat),
        decreases n - i,
    {
        append_plan(&mut v, read_reg_ops(REG_FIFO));
        i = i + 1;
    }
    v
}

fn tx_cycle_ops(f: &Vec<u8>) -> (r: Vec<BusOp>)
    ensures
        ops_model(r@) == tx_cycle(f@),
{
    let mut v = strobe_ops(STATE::SIDLE.byte());
    append_plan(&mut v, strobe_ops(STATE::SFTX.byte()));
    push_op(&mut v, BusOp::Select);
    push_op(&mut v, BusOp::WaitReady);
    push_op(&mut v, BusOp::Transfer { bytes: f.clone(), delay: 0 });
    push_op(&mut v, BusOp::Release);
    append_plan(&mut v, strobe_ops(STATE::STX.byte()));
    push_op(&mut v, BusOp::Sleep(TX_SETTLE_US));
    assert(ops_model(v@) =~= tx_cycle(f@));
    v
}

impl CC2500 {
    /// Plan of strobe `state`.
    pub fn strobe(state: STATE) -> (r: Vec<BusOp>)
        ensures
            ops_model(r@) == strobe_plan(state.spec_byte()),
    {
        strobe_ops(state.byte())
    }

    /// Plan of a write of `value` to register `reg`.
    pub fn write_reg(reg: u8, value: u8) -> (r: Vec<BusOp>)
        ensures
            ops_model(r@) == write_reg_plan(reg, value),
    {
        write_reg_ops(reg, value)
    }

    /// Plan of a read of register `reg`; its one read byte is the value.
    pub fn read_reg(reg: u8) -> (r: Vec<BusOp>)
        ensures
            ops_model(r@) == read_reg_plan(reg),
    {
        read_reg_ops(reg)
    }

    /// Plan of chip initialisation: reset, then the configuration table.
    pub fn init() -> (r: Vec<BusOp>)
        ensures
            ops_model(r@) == init_plan(),
    {
        let t = register_table();
        let mut v = strobe_ops(STATE::SRES.byte());
        let mut i: usize = 0;
        assert(writes_plan(t@.take(0)) =~= Seq::empty());
        assert(ops_model(v@) =~= strobe_plan(STATE::SRES.spec_byte()) + writes_plan(t@.take(0)));
        while i < t.len()
            invariant
                i <= t@.len(),
                t@ == config_table(),
                ops_model(v@) == strobe_plan(STATE::SRES.spec_byte()) + writes_plan(t@.take(
                    i as int,
                )),
            decreases t@.len() - i,
        {
            let (reg, value) = t[i];
            append_plan(&mut v, write_reg_ops(reg, value));
            assert(t@.take(i as int + 1).drop_last() =~= t@.take(i as int));
            i = i + 1;
            assert(ops_model(v@) =~= strobe_plan(STATE::SRES.spec_byte()) + writes_plan(
                t@.take(i as int),
            ));
        }
        assert(t@.take(i as int) =~= t@);
        v
    }

    /// Plan that sends `cmd` to the known receiver, fifty times over.
    pub fn command(&self, cmd: COMMAND) -> (r: Result<Vec<BusOp>, ChipError>)
        ensures
            match r {
                Ok(v) => self.address is Some && ops_model(v@) == command_plan(
                    cmd,
                    self.address->0,
                ),
                Err(e) => self.address is None && e == ChipError::UnknownAddress,
            },
    {
        match self.address {
            None => Err(ChipError::UnknownAddress),
            Some(a) => {
                let f = encode_frame(cmd, a);
                let mut v: Vec<BusOp> = Vec::new();
                let mut i: usize = 0;
                assert(ops_model(v@) =~= repeat(tx_cycle(f@), 0));
                while i < TX_CYCLES
                    invariant
                        i <= TX_CYCLES,
                        f@ == frame(cmd, a),
                        ops_model(v@) == repeat(tx_cycle(f@), i as nat),
                    decreases TX_CYCLES - i,
                {
                    append_plan(&mut v, tx_cycle_ops(&f));
                    i = i + 1;
                }
                Ok(v)
            },
        }
    }

    /// One step of address discovery. `reads` are the bytes that the plan of
    /// the previous step read back. When a remote's packet is recognised the
    /// address is stored.
    pub fn read_address(&mut self, phase: Discovery, reads: &Vec<u8>) -> (r: DiscoveryStep)
        requires
            phase is Listening ==> reads@.len() == 1,
        ensures
            r.next == step_next(phase, reads@),
            ops_model(r.ops@) == step_ops(phase, reads@),
            r.oversized == step_oversized(phase, reads@),
            final(self).address == match step_found(phase, reads@) {
                Some(a) => Some(a),
                None => old(self).address,
            },
    {
        match phase {
            Discovery::Start => DiscoveryStep {
                next: Discovery::Listening,
                ops: listen_ops(),
                oversized: false,
            },
            Discovery::Listening => {
                let n = reads[0];
                if n == 0 || n > MAX_PACKET {
                    DiscoveryStep { next: Discovery::Listening, ops: retry_ops(), oversized: n > MAX_PACKET }
                } else {
                    DiscoveryStep { next: Discovery::Receiving, ops: payload_ops(n), oversized: false }
                }
            },
            Discovery::Receiving => match parse_packet(reads) {
                Some(a) => {
                    self.address = Some(a);
                    DiscoveryStep { next: Discovery::Found(a), ops: rx_reset_ops(), oversized: false }
                },
                None => DiscoveryStep {
                    next: Discovery::Listening,
                    ops: retry_ops(),
                    oversized: false,
                },
            },
            Discovery::Found(a) => DiscoveryStep {
                next: Discovery::Found(a),
                ops: Vec::new(),
                oversized: false,
            },
        }
    }

    /// Sets the receiver address.
    pub fn set_address(&mut self, address: Address)
        ensures
            final(self).address == Some(address),
    {
        self.address = Some(address);
    }
}

} // verus!
