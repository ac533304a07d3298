use vstd::prelude::*;

verus! {

// Configuration register addresses.
pub const REG_IOCFG2: u8 = 0x00;
/// Routes a status signal to the ready line.
pub const REG_IOCFG1: u8 = 0x01;
pub const REG_IOCFG0: u8 = 0x02;
pub const REG_PKTLEN: u8 = 0x06;
pub const REG_PKTCTRL1: u8 = 0x07;
pub const REG_PKTCTRL0: u8 = 0x08;
pub const REG_ADDR: u8 = 0x09;
pub const REG_CHANNR: u8 = 0x0A;
pub const REG_FSCTRL1: u8 = 0x0B;
pub const REG_FSCTRL0: u8 = 0x0C;
pub const REG_FREQ2: u8 = 0x0D;
pub const REG_FREQ1: u8 = 0x0E;
pub const REG_FREQ0: u8 = 0x0F;
pub const REG_MDMCFG4: u8 = 0x10;
pub const REG_MDMCFG3: u8 = 0x11;
pub const REG_MDMCFG2: u8 = 0x12;
pub const REG_MDMCFG1: u8 = 0x13;
pub const REG_MDMCFG0: u8 = 0x14;
pub const REG_DEVIATN: u8 = 0x15;
pub const REG_MCSM2: u8 = 0x16;
pub const REG_MCSM1: u8 = 0x17;
pub const REG_MCSM0: u8 = 0x18;
pub const REG_FOCCFG: u8 = 0x19;
pub const REG_BSCFG: u8 = 0x1A;
pub const REG_AGCCTRL2: u8 = 0x1B;
pub const REG_AGCCTRL1: u8 = 0x1C;
pub const REG_AGCCTRL0: u8 = 0x1D;
pub const REG_WOREVT1: u8 = 0x1E;
pub const REG_WOREVT0: u8 = 0x1F;
pub const REG_WORCTRL: u8 = 0x20;
pub const REG_FREND1: u8 = 0x21;
pub const REG_FREND0: u8 = 0x22;
pub const REG_FSCAL3: u8 = 0x23;
pub const REG_FSCAL2: u8 = 0x24;
pub const REG_FSCAL1: u8 = 0x25;
pub const REG_FSCAL0: u8 = 0x26;
pub const REG_RCCTRL1: u8 = 0x27;
pub const REG_RCCTRL0: u8 = 0x28;
pub const REG_FSTEST: u8 = 0x29;
pub const REG_TEST2: u8 = 0x2C;
pub const REG_TEST1: u8 = 0x2D;
pub const REG_TEST0: u8 = 0x2E;
/// Power table, burst access.
pub const REG_PATABLE_BURST: u8 = 0x7E;
/// Power table, single access.
pub const REG_PATABLE: u8 = 0x3E;
/// The RX FIFO on reads; its first byte is the packet length.
pub const REG_FIFO: u8 = 0x3F;

/// The configuration written at start-up, in order: RF channel, modulation,
/// packet format, filtering, AGC and calibration, then the output power
/// (0xFF, the maximum) last.
pub open spec fn config_table() -> Seq<(u8, u8)> {
    seq![
        (REG_IOCFG2, 0x29),
        (REG_IOCFG0, 0x06),
        (REG_PKTLEN, 0xFF),
        (REG_PKTCTRL1, 0x04),
        (REG_PKTCTRL0, 0x05),
        (REG_ADDR, 0x01),
        (REG_CHANNR, 0x10),
        (REG_FSCTRL1, 0x09),
        (REG_FSCTRL0, 0x00),
        (REG_FREQ2, 0x5D),
        (REG_FREQ1, 0x93),
        (REG_FREQ0, 0xB1),
        (REG_MDMCFG4, 0x2D),
        (REG_MDMCFG3, 0x3B),
        (REG_MDMCFG2, 0x73),
        (REG_MDMCFG1, 0xA2),
        (REG_MDMCFG0, 0xF8),
        (REG_DEVIATN, 0x01),
        (REG_MCSM2, 0x07),
        (REG_MCSM1, 0x30),
        (REG_MCSM0, 0x18),
        (REG_FOCCFG, 0x1D),
        (REG_BSCFG, 0x1C),
        (REG_AGCCTRL2, 0xC7),
        (REG_AGCCTRL1, 0x00),
        (REG_AGCCTRL0, 0xB2),
        (REG_WOREVT1, 0x87),
        (REG_WOREVT0, 0x6B),
        (REG_WORCTRL, 0xF8),
        (REG_FREND1, 0xB6),
        (REG_FREND0, 0x10),
        (REG_FSCAL3, 0xEA),
        (REG_FSCAL2, 0x0A),
        (REG_FSCAL1, 0x00),
        (REG_FSCAL0, 0x11),
        (REG_RCCTRL1, 0x41),
        (REG_RCCTRL0, 0x00),
        (REG_FSTEST, 0x59),
        (REG_TEST2, 0x88),
        (REG_TEST1, 0x31),
        (REG_TEST0, 0x0B),
        (REG_PATABLE_BURST, 0xFF),
        (REG_PATABLE, 0xFF),
    ]
}

/// The configuration table as a vector.
pub fn register_table() -> (r: Vec<(u8, u8)>)
    ensures
        r@ == config_table(),
{
    let mut t: Vec<(u8, u8)> = Vec::new();
    t.push((REG_IOCFG2, 0x29));
    t.push((REG_IOCFG0, 0x06));
    t.push((REG_PKTLEN, 0xFF));
    t.push((REG_PKTCTRL1, 0x04));
    t.push((REG_PKTCTRL0, 0x05));
    t.push((REG_ADDR, 0x01));
    t.push((REG_CHANNR, 0x10));
    t.push((REG_FSCTRL1, 0x09));
    t.push((REG_FSCTRL0, 0x00));
    t.push((REG_FREQ2, 0x5D));
    t.push((REG_FREQ1, 0x93));
    t.push((REG_FREQ0, 0xB1));
    t.push((REG_MDMCFG4, 0x2D));
    t.push((REG_MDMCFG3, 0x3B));
    t.push((REG_MDMCFG2, 0x73));
    t.push((REG_MDMCFG1, 0xA2));
    t.push((REG_MDMCFG0, 0xF8));
    t.push((REG_DEVIATN, 0x01));
    t.push((REG_MCSM2, 0x07));
    t.push((REG_MCSM1, 0x30));
    t.push((REG_MCSM0, 0x18));
    t.push((REG_FOCCFG, 0x1D));
    t.push((REG_BSCFG, 0x1C));
    t.push((REG_AGCCTRL2, 0xC7));
    t.push((REG_AGCCTRL1, 0x00));
    t.push((REG_AGCCTRL0, 0xB2));
    t.push((REG_WOREVT1, 0x87));
    t.push((REG_WOREVT0, 0x6B));
    t.push((REG_WORCTRL, 0xF8));
    t.push((REG_FREND1, 0xB6));
    t.push((REG_FREND0, 0x10));
    t.push((REG_FSCAL3, 0xEA));
    t.push((REG_FSCAL2, 0x0A));
    t.push((REG_FSCAL1, 0x00));
    t.push((REG_FSCAL0, 0x11));
    t.push((REG_RCCTRL1, 0x41));
    t.push((REG_RCCTRL0, 0x00));
    t.push((REG_FSTEST, 0x59));
    t.push((REG_TEST2, 0x88));
    t.push((REG_TEST1, 0x31));
    t.push((REG_TEST0, 0x0B));
    t.push((REG_PATABLE_BURST, 0xFF));
    t.push((REG_PATABLE, 0xFF));
    assert(t@ =~= config_table());
    t
}

} // verus!
