use vstd::prelude::*;

use crate::bus::{repeat, strobe_plan, write_reg_plan, OpModel};
use crate::cc2500::{frame, Address, COMMAND, STATE};
use crate::chip::{
    command_plan, init_plan, is_sync_end, lemma_sync_end, payload_plan, retry_plan, rx_reset_plan,
    step_found, step_next, step_ops, step_oversized, tx_cycle, writes_plan, Discovery, MAX_PACKET,
    SYNC, TX_CYCLES,
};
use crate::config::config_table;

verus! {

proof fn lemma_writes_plan(t: Seq<(u8, u8)>)
    ensures
        writes_plan(t).len() == 5 * t.len(),
        forall|j: int| 0 <= j < writes_plan(t).len() ==> !(writes_plan(t)[j] is WriteByte),
        t.len() > 0 ==> writes_plan(t)[2] is Transfer,
    decreases t.len(),
{
    if t.len() > 0 {
        lemma_writes_plan(t.drop_last());
        let a = writes_plan(t.drop_last());
        let b = write_reg_plan(t.last().0, t.last().1);
        assert forall|j: int| 0 <= j < writes_plan(t).len() implies !(
        writes_plan(t)[j] is WriteByte) by {
            if j >= a.len() {
                assert(writes_plan(t)[j] == b[j - a.len()]);
            } else {
                assert(writes_plan(t)[j] == a[j]);
            }
        }
        if t.len() == 1 {
            assert(writes_plan(t)[2] == b[2]);
        } else {
            assert(writes_plan(t)[2] == a[2]);
        }
    }
}

/// Initialisation strobes Reset exactly once, and before every register
/// write; it writes at least one register.
pub proof fn law_init_resets_first()
    ensures
        init_plan()[2] == OpModel::WriteByte(STATE::SRES.spec_byte()),
        forall|j: int| 0 <= j < init_plan().len() && j != 2 ==> !(init_plan()[j] is WriteByte),
        forall|j: int| 0 <= j < init_plan().len() && init_plan()[j] is Transfer ==> 2 < j,
        exists|j: int| 0 <= j < init_plan().len() && init_plan()[j] is Transfer,
{
    let s = strobe_plan(STATE::SRES.spec_byte());
    let w = writes_plan(config_table());
    lemma_writes_plan(config_table());
    assert(init_plan()[2] == s[2]);
    assert forall|j: int| 0 <= j < init_plan().len() && j != 2 implies !(
    init_plan()[j] is WriteByte) by {
        if j >= 5 {
            assert(init_plan()[j] == w[j - 5]);
        } else {
            assert(init_plan()[j] == s[j]);
        }
    }
    assert forall|j: int| 0 <= j < init_plan().len() && init_plan()[j] is Transfer implies 2
        < j by {
        if j < 5 {
            assert(init_plan()[j] == s[j]);
        }
    }
    assert(init_plan()[7] == w[2]);
}

proof fn lemma_repeat_block(p: Seq<OpModel>, n: nat, k: int)
    requires
        0 <= k < n,
    ensures
        repeat(p, n).len() == n * p.len(),
        repeat(p, n).subrange(k * p.len(), (k + 1) * p.len()) == p,
    decreases n,
{
    let l = p.len() as int;
    let m = (n - 1) as nat;
    assert((k + 1) * l == k * l + l) by (nonlinear_arith);
    assert(n * l == m * l + l) by (nonlinear_arith)
        requires
            n == m + 1,
    ;
    assert(repeat(p, n) == repeat(p, m) + p);
    if m == 0 {
        assert(repeat(p, m) =~= Seq::empty());
        assert(repeat(p, n).subrange(0, l) =~= p);
    } else if k == m {
        lemma_repeat_block(p, m, 0);
        assert(repeat(p, n).subrange(k * l, (k + 1) * l) =~= p);
    } else {
        lemma_repeat_block(p, m, k);
        assert(k * l + l <= m * l) by (nonlinear_arith)
            requires
                k + 1 <= m,
                0 <= l,
        ;
        assert(0 <= k * l) by (nonlinear_arith)
            requires
                0 <= k,
                0 <= l,
        ;
        assert(repeat(p, n).subrange(k * l, (k + 1) * l) =~= repeat(p, m).subrange(
            k * l,
            (k + 1) * l,
        ));
    }
}

/// A command is sent in exactly fifty cycles; each cycle strobes Idle and
/// Flush-TX, writes the frame, then strobes TX-enable, and strobes nothing
/// else.
pub proof fn law_command_cycles(cmd: COMMAND, a: Address)
    ensures
        ({
            let c = tx_cycle(frame(cmd, a));
            &&& command_plan(cmd, a).len() == TX_CYCLES * c.len()
            &&& forall|k: int|
                0 <= k < TX_CYCLES ==> #[trigger] command_plan(cmd, a).subrange(
                    k * c.len(),
                    (k + 1) * c.len(),
                ) == c
            &&& c[2] == OpModel::WriteByte(STATE::SIDLE.spec_byte())
            &&& c[7] == OpModel::WriteByte(STATE::SFTX.spec_byte())
            &&& c[12] == OpModel::Transfer { bytes: frame(cmd, a), delay: 0 }
            &&& c[16] == OpModel::WriteByte(STATE::STX.spec_byte())
            &&& forall|j: int|
                0 <= j < c.len() && j != 2 && j != 7 && j != 16 ==> !(#[trigger] c[j] is WriteByte)
        }),
{
    let c = tx_cycle(frame(cmd, a));
    lemma_repeat_block(c, TX_CYCLES as nat, 0);
    assert forall|k: int| 0 <= k < TX_CYCLES implies #[trigger] command_plan(cmd, a).subrange(
        k * c.len(),
        (k + 1) * c.len(),
    ) == c by {
        lemma_repeat_block(c, TX_CYCLES as nat, k);
    }
    let idle = strobe_plan(STATE::SIDLE.spec_byte());
    let ftx = strobe_plan(STATE::SFTX.spec_byte());
    let tx = strobe_plan(STATE::STX.spec_byte());
    let mid = seq![
        OpModel::Select,
        OpModel::WaitReady,
        OpModel::Transfer { bytes: frame(cmd, a), delay: 0 },
        OpModel::Release,
    ];
    let tail = seq![OpModel::Sleep(crate::bus::TX_SETTLE_US)];
    assert(c =~= idle + ftx + mid + tx + tail);
    let explicit = seq![
        idle[0], idle[1], idle[2], idle[3], idle[4],
        ftx[0], ftx[1], ftx[2], ftx[3], ftx[4],
        mid[0], mid[1], mid[2], mid[3],
        tx[0], tx[1], tx[2], tx[3], tx[4],
        tail[0],
    ];
    assert(c =~= explicit);
}

/// Discovery of a packet made of sync bytes then `[0x01, hi, lo, x, 0xAA]`,
/// at most eight bytes in all: the length read leads to reading exactly that
/// many bytes, and those bytes give `Address(hi, lo)` with one Idle and one
/// Flush-RX strobe as the last plan.
pub proof fn law_discovery_finds_address(n: nat, hi: u8, lo: u8, x: u8)
    requires
        n + 5 <= MAX_PACKET,
    ensures
        ({
            let len = seq![(n + 5) as u8];
            let p = Seq::new(n, |i: int| SYNC) + seq![0x01u8, hi, lo, x, 0xAAu8];
            &&& step_next(Discovery::Listening, len) == Discovery::Receiving
            &&& step_ops(Discovery::Listening, len) == payload_plan(n + 5)
            &&& !step_oversized(Discovery::Listening, len)
            &&& step_next(Discovery::Receiving, p) == Discovery::Found(Address(hi, lo))
            &&& step_found(Discovery::Receiving, p) == Some(Address(hi, lo))
            &&& step_ops(Discovery::Receiving, p) == strobe_plan(STATE::SIDLE.spec_byte())
                + strobe_plan(STATE::SFRX.spec_byte())
        }),
{
    let p = Seq::new(n, |i: int| SYNC) + seq![0x01u8, hi, lo, x, 0xAAu8];
    assert(p[n as int] == 0x01u8);
    assert(p[n + 1int] == hi);
    assert(p[n + 2int] == lo);
    assert(p[n + 4int] == 0xAAu8);
    assert(is_sync_end(p, n as int));
    lemma_sync_end(p, n as int);
}

/// A FIFO length of zero: nothing is read but the next length, after Idle
/// and Flush-RX; discovery listens again.
pub proof fn law_discovery_empty_fifo()
    ensures
        step_next(Discovery::Listening, seq![0u8]) == Discovery::Listening,
        step_ops(Discovery::Listening, seq![0u8]) == retry_plan(),
        !step_oversized(Discovery::Listening, seq![0u8]),
        step_found(Discovery::Listening, seq![0u8]) is None,
        retry_plan() == rx_reset_plan() + crate::chip::listen_plan(),
        forall|j: int|
            0 <= j < retry_plan().len() && #[trigger] retry_plan()[j] is Query ==> j
                == retry_plan().len() - 2,
{
    lemma_retry_reads_length_only();
}

proof fn lemma_retry_reads_length_only()
    ensures
        forall|j: int|
            0 <= j < retry_plan().len() && #[trigger] retry_plan()[j] is Query ==> j
                == retry_plan().len() - 2,
{
    let r = retry_plan();
    let i = strobe_plan(STATE::SIDLE.spec_byte());
    let f = strobe_plan(STATE::SFRX.spec_byte());
    let x = strobe_plan(STATE::SRX.spec_byte());
    let w = write_reg_plan(crate::config::REG_IOCFG1, 0x01);
    let q = crate::bus::read_reg_plan(crate::config::REG_FIFO);
    let explicit = seq![
        i[0], i[1], i[2], i[3], i[4],
        f[0], f[1], f[2], f[3], f[4],
        x[0], x[1], x[2], x[3], x[4],
        w[0], w[1], w[2], w[3], w[4],
        OpModel::Sleep(crate::bus::SETTLE_US),
        q[0], q[1], q[2], q[3],
    ];
    assert(r =~= explicit);
}

/// A FIFO length over eight: nothing is read but the next length, the
/// packet is flagged as oversized, and discovery listens again.
pub proof fn law_discovery_oversized(n: u8)
    requires
        n > MAX_PACKET,
    ensures
        step_next(Discovery::Listening, seq![n]) == Discovery::Listening,
        step_ops(Discovery::Listening, seq![n]) == retry_plan(),
        step_oversized(Discovery::Listening, seq![n]),
        step_found(Discovery::Listening, seq![n]) is None,
        forall|j: int|
            0 <= j < retry_plan().len() && #[trigger] retry_plan()[j] is Query ==> j
                == retry_plan().len() - 2,
{
    lemma_retry_reads_length_only();
}

/// A packet of sync bytes only is no match: no address, Idle and Flush-RX,
/// and discovery listens again.
pub proof fn law_discovery_all_sync(p: Seq<u8>)
    requires
        1 <= p.len() <= MAX_PACKET,
        forall|j: int| 0 <= j < p.len() ==> p[j] == SYNC,
    ensures
        step_next(Discovery::Receiving, p) == Discovery::Listening,
        step_ops(Discovery::Receiving, p) == retry_plan(),
        step_found(Discovery::Receiving, p) is None,
        !step_oversized(Discovery::Receiving, p),
{
    assert(is_sync_end(p, p.len() as int));
    lemma_sync_end(p, p.len() as int);
}

} // verus!
