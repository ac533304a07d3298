use vstd::prelude::*;

verus! {

/// Address of a paired receiver: the two raw bytes that it answers to.
#[derive(Debug, Clone, Copy, PartialEq, Eq, Structural)]
pub struct Address(pub u8, pub u8);

/// Strobes: one-byte commands that move the chip between its states.
#[derive(Debug, Clone, Copy, PartialEq, Eq, Structural)]
pub enum STATE {
    /// Exit RX / TX.
    SIDLE,
    /// Enable TX.
    STX,
    /// Flush the TX FIFO; only in IDLE or TX underflow.
    SFTX,
    /// Reset the chip.
    SRES,
    /// Enable RX.
    SRX,
    /// Flush the RX FIFO; only in IDLE or RX overflow.
    SFRX,
}

impl STATE {
    /// Wire byte of the strobe.
    pub open spec fn spec_byte(self) -> u8 {
        match self {
            STATE::SIDLE => 0x36,
            STATE::STX => 0x35,
            STATE::SFTX => 0x3B,
            STATE::SRES => 0x30,
            STATE::SRX => 0x34,
            STATE::SFRX => 0x3A,
        }
    }

    pub fn byte(&self) -> (r: u8)
        ensures
            r == self.spec_byte(),
    {
        match self {
            STATE::SIDLE => 0x36,
            STATE::STX => 0x35,
            STATE::SFTX => 0x3B,
            STATE::SRES => 0x30,
            STATE::SRX => 0x34,
            STATE::SFRX => 0x3A,
        }
    }
}

/// Commands understood by the lighting receiver.
#[derive(Debug, Clone, Copy, PartialEq, Eq, Structural)]
pub enum COMMAND {
    LightOff,
    LightOn50,
    LightOn100,
    PAIR,
}

impl COMMAND {
    /// Wire opcode of the command.
    pub open spec fn spec_opcode(self) -> u8 {
        match self {
            COMMAND::LightOff => 0x01,
            COMMAND::LightOn50 => 0x02,
            COMMAND::LightOn100 => 0x03,
            COMMAND::PAIR => 0xFF,
        }
    }

    pub fn opcode(&self) -> (r: u8)
        ensures
            r == self.spec_opcode(),
    {
        match self {
            COMMAND::LightOff => 0x01,
            COMMAND::LightOn50 => 0x02,
            COMMAND::LightOn100 => 0x03,
            COMMAND::PAIR => 0xFF,
        }
    }
}

/// The frame that carries `cmd` to the receiver at `a`.
pub open spec fn frame(cmd: COMMAND, a: Address) -> Seq<u8> {
    seq![0x7F, 0x06, 0x55, 0x01, a.0, a.1, cmd.spec_opcode(), 0xAA, 0xFF]
}

/// Encodes the nine-byte frame of `cmd` for the receiver at `a`.
pub fn encode_frame(cmd: COMMAND, a: Address) -> (r: Vec<u8>)
    ensures
        r@ == frame(cmd, a),
        r@.len() == 9,
{
    let mut v: Vec<u8> = Vec::new();
    v.push(0x7F);
    v.push(0x06);
    v.push(0x55);
    v.push(0x01);
    v.push(a.0);
    v.push(a.1);
    v.push(cmd.opcode());
    v.push(0xAA);
    v.push(0xFF);
    assert(v@ =~= frame(cmd, a));
    v
}

} // verus!
