use vstd::prelude::*;

verus! {

/// One step of work on the peripheral bus. A driver carries out a plan of
/// these in order; the bytes that `Query` steps read are handed back, in
/// order, to whoever made the plan.
#[derive(Debug, Clone, PartialEq, Eq)]
pub enum BusOp {
    /// Assert chip select.
    Select,
    /// Deassert chip select.
    Release,
    /// Block until the chip signals that it is ready.
    WaitReady,
    /// Write one byte in a plain write.
    WriteByte(u8),
    /// One transfer of `bytes`, one segment per byte, each followed by a
    /// pause of `delay` microseconds.
    Transfer { bytes: Vec<u8>, delay: u16 },
    /// One transfer that writes `byte` and then reads one byte back, each
    /// segment followed by a pause of `delay` microseconds.
    Query { byte: u8, delay: u16 },
    /// Wait the given number of microseconds.
    Sleep(u64),
}

/// What a `BusOp` stands for, with the bytes of a transfer as a sequence.
pub enum OpModel {
    Select,
    Release,
    WaitReady,
    WriteByte(u8),
    Transfer { bytes: Seq<u8>, delay: u16 },
    Query { byte: u8, delay: u16 },
    Sleep(u64),
}

impl View for BusOp {
    type V = OpModel;

    open spec fn view(&self) -> OpModel {
        match self {
            BusOp::Select => OpModel::Select,
            BusOp::Release => OpModel::Release,
            BusOp::WaitReady => OpModel::WaitReady,
            BusOp::WriteByte(b) => OpModel::WriteByte(*b),
            BusOp::Transfer { bytes, delay } => OpModel::Transfer { bytes: bytes@, delay: *delay },
            BusOp::Query { byte, delay } => OpModel::Query { byte: *byte, delay: *delay },
            BusOp::Sleep(us) => OpModel::Sleep(*us),
        }
    }
}

/// The meaning of a plan: the model of each of its steps.
pub open spec fn ops_model(v: Seq<BusOp>) -> Seq<OpModel> {
    v.map_values(|o: BusOp| o@)
}

/// `p` repeated `n` times, one copy after another.
pub open spec fn repeat(p: Seq<OpModel>, n: nat) -> Seq<OpModel>
    decreases n,
{
    if n == 0 {
        Seq::empty()
    } else {
        repeat(p, (n - 1) as nat) + p
    }
}

/// Pause after a register write, and between entering receive mode and
/// reading the FIFO length.
pub const SETTLE_US: u64 = 200;

/// Pause after every strobe.
pub const STROBE_SETTLE_US: u64 = 20000;

/// Pause after each transmit cycle of a command.
pub const TX_SETTLE_US: u64 = 10;

/// Pause after each segment of a register transaction.
pub const SEGMENT_DELAY_US: u16 = 200;

/// A one-byte strobe: select, wait, write, release, settle.
pub open spec fn strobe_plan(b: u8) -> Seq<OpModel> {
    seq![
        OpModel::Select,
        OpModel::WaitReady,
        OpModel::WriteByte(b),
        OpModel::Release,
        OpModel::Sleep(STROBE_SETTLE_US),
    ]
}

/// A register write: `[reg, value]` with a pause after each byte, then settle.
pub open spec fn write_reg_plan(reg: u8, value: u8) -> Seq<OpModel> {
    seq![
        OpModel::Select,
        OpModel::WaitReady,
        OpModel::Transfer { bytes: seq![reg, value], delay: SEGMENT_DELAY_US },
        OpModel::Release,
        OpModel::Sleep(SETTLE_US),
    ]
}

/// A register read: the address with the read bit set, then one byte back.
pub open spec fn read_reg_plan(reg: u8) -> Seq<OpModel> {
    seq![
        OpModel::Select,
        OpModel::WaitReady,
        OpModel::Query { byte: reg | 0x80, delay: SEGMENT_DELAY_US },
        OpModel::Release,
    ]
}

pub fn push_op(v: &mut Vec<BusOp>, op: BusOp)
    ensures
        ops_model(final(v)@) == ops_model(old(v)@).push(op@),
{
    v.push(op);
    assert(ops_model(v@) =~= ops_model(old(v)@).push(op@));
}

pub fn append_plan(v: &mut Vec<BusOp>, w: Vec<BusOp>)
    ensures
        ops_model(final(v)@) == ops_model(old(v)@) + ops_model(w@),
{
    let mut w = w;
    let ghost w0 = w@;
    v.append(&mut w);
    assert(ops_model(v@) =~= ops_model(old(v)@) + ops_model(w0));
}

/// The plan of a strobe with opcode byte `b`.
pub fn strobe_ops(b: u8) -> (r: Vec<BusOp>)
    ensures
        ops_model(r@) == strobe_plan(b),
{
    let mut v: Vec<BusOp> = Vec::new();
    push_op(&mut v, BusOp::Select);
    push_op(&mut v, BusOp::WaitReady);
    push_op(&mut v, BusOp::WriteByte(b));
    push_op(&mut v, BusOp::Release);
    push_op(&mut v, BusOp::Sleep(STROBE_SETTLE_US));
    assert(ops_model(v@) =~= strobe_plan(b));
    v
}

/// The plan of a write of `value` to register `reg`.
pub fn write_reg_ops(reg: u8, value: u8) -> (r: Vec<BusOp>)
    ensures
        ops_model(r@) == write_reg_plan(reg, value),
{
    let mut bytes: Vec<u8> = Vec::new();
    bytes.push(reg);
    bytes.push(value);
    let ghost b = bytes@;
    assert(b =~= seq![reg, value]);
    let mut v: Vec<BusOp> = Vec::new();
    push_op(&mut v, BusOp::Select);
    push_op(&mut v, BusOp::WaitReady);
    push_op(&mut v, BusOp::Transfer { bytes, delay: SEGMENT_DELAY_US });
    push_op(&mut v, BusOp::Release);
    push_op(&mut v, BusOp::Sleep(SETTLE_US));
    assert(ops_model(v@) =~= write_reg_plan(reg, value));
    v
}

/// The plan of a read of register `reg`; it reads one byte back.
pub fn read_reg_ops(reg: u8) -> (r: Vec<BusOp>)
    ensures
        ops_model(r@) == read_reg_plan(reg),
{
    let mut v: Vec<BusOp> = Vec::new();
    push_op(&mut v, BusOp::Select);
    push_op(&mut v, BusOp::WaitReady);
    push_op(&mut v, BusOp::Query { byte: reg | 0x80, delay: SEGMENT_DELAY_US });
    push_op(&mut v, BusOp::Release);
    assert(ops_model(v@) =~= read_reg_plan(reg));
    v
}

} // verus!
