use crate::vdp::{next_address, with_high_byte, with_low_byte, VdpMode, VdpView};
use vstd::prelude::*;

verus! {

/// One access of the CPU to a VDP port.
pub enum PortOp {
    ReadData,
    WriteData(u8),
    ReadControl,
    WriteControl(u8),
}

/// The VDP after one port access.
pub open spec fn after_op(s: VdpView, op: PortOp) -> VdpView {
    match op {
        PortOp::ReadData => s.after_read_data(),
        PortOp::WriteData(v) => s.after_write_data(v),
        PortOp::ReadControl => s.after_read_control(),
        PortOp::WriteControl(v) => s.after_write_control(v),
    }
}

/// The VDP after the accesses `ops`, first to last.
pub open spec fn after_ops(s: VdpView, ops: Seq<PortOp>) -> VdpView
    decreases ops.len(),
{
    if ops.len() == 0 {
        s
    } else {
        after_op(after_ops(s, ops.drop_last()), ops.last())
    }
}

/// The address that the command bytes `lo`, `hi` set.
pub open spec fn command_address(lo: u8, hi: u8) -> int {
    (hi % 64) * 256 + lo
}

/// The bytes that `n` data-port reads return, in order.
pub open spec fn data_reads(s: VdpView, n: nat) -> Seq<u8>
    decreases n,
{
    if n == 0 {
        Seq::empty()
    } else {
        seq![s.read_buffer] + data_reads(s.after_read_data(), (n - 1) as nat)
    }
}

/// The VDP after data-port writes of `vals`, in order.
pub open spec fn data_writes(s: VdpView, vals: Seq<u8>) -> VdpView
    decreases vals.len(),
{
    if vals.len() == 0 {
        s
    } else {
        data_writes(s.after_write_data(vals[0]), vals.drop_first())
    }
}

/// `x` brought back into `0..m` once.
spec fn wrap(x: int, m: int) -> int {
    if x < m {
        x
    } else {
        x - m
    }
}

/// How far `q` lies after `a` going round `0..m`.
spec fn dist(a: int, q: int, m: int) -> int {
    if q >= a {
        q - a
    } else {
        q - a + m
    }
}

proof fn lemma_wrap_mod(x: int, m: int)
    requires
        0 < m,
        0 <= x < 2 * m,
    ensures
        x % m == wrap(x, m),
{
    if x >= m {
        assert((x - m) % m == x % m) by {
            vstd::arithmetic::div_mod::lemma_mod_sub_multiples_vanish(x, m);
        }
        vstd::arithmetic::div_mod::lemma_small_mod((x - m) as nat, m as nat);
    } else {
        vstd::arithmetic::div_mod::lemma_small_mod(x as nat, m as nat);
    }
}

proof fn lemma_command(cw: u16, lo: u8, hi: u8)
    by (bit_vector)
    ensures
        with_high_byte(with_low_byte(cw, lo), hi) & 0x3FFF == ((hi % 64) as u16) * 256 + (
        lo as u16),
        with_high_byte(with_low_byte(cw, lo), hi) & 0x3FFF < 0x4000,
{
}

proof fn lemma_masked(w: u16)
    by (bit_vector)
    ensures
        w & 0x3FFF < 0x4000,
{
}

proof fn lemma_op_keeps_wf(s: VdpView, op: PortOp)
    requires
        s.wf(),
    ensures
        after_op(s, op).wf(),
{
    if let PortOp::WriteControl(v) = op {
        lemma_masked(with_high_byte(s.control_word, v));
    }
}

/// Whatever the CPU does on the VDP ports, the address register stays
/// within 14 bits.
pub proof fn lemma_address_stays_in_range(s: VdpView, ops: Seq<PortOp>)
    requires
        s.wf(),
    ensures
        after_ops(s, ops).wf(),
        after_ops(s, ops).address_register < 0x4000,
    decreases ops.len(),
{
    if ops.len() > 0 {
        lemma_address_stays_in_range(s, ops.drop_last());
        lemma_op_keeps_wf(after_ops(s, ops.drop_last()), ops.last());
    }
}

/// After any accesses that end in a data-port read or write or a
/// control-port read, the control latch is open.
pub proof fn lemma_latch_cleared(s: VdpView, ops: Seq<PortOp>)
    requires
        ops.len() > 0,
        !(ops.last() is WriteControl),
    ensures
        !after_ops(s, ops).first_byte_received,
{
}

proof fn lemma_reads_follow(t: VdpView, p: int, n: nat)
    requires
        t.wf(),
        0 <= p < 0x4000,
        t.read_buffer == t.vram[p],
        t.address_register == wrap(p + 1, 0x4000),
    ensures
        data_reads(t, n).len() == n,
        forall|k: int| 0 <= k < n ==> #[trigger] data_reads(t, n)[k] == t.vram[(p + k) % 0x4000],
    decreases n,
{
    if n > 0 {
        let t2 = t.after_read_data();
        let next_p = wrap(p + 1, 0x4000);
        lemma_wrap_mod(t.address_register + 1, 0x4000);
        lemma_reads_follow(t2, next_p, (n - 1) as nat);
        assert forall|k: int| 0 <= k < n implies #[trigger] data_reads(t, n)[k] == t.vram[(p + k)
            % 0x4000] by {
            if k > 0 {
                assert(data_reads(t, n)[k] == data_reads(t2, (n - 1) as nat)[k - 1]);
                vstd::arithmetic::div_mod::lemma_add_mod_noop(p + 1, k - 1, 0x4000);
                vstd::arithmetic::div_mod::lemma_add_mod_noop_right(next_p, k - 1, 0x4000);
                lemma_wrap_mod(p + 1, 0x4000);
            } else {
                vstd::arithmetic::div_mod::lemma_small_mod(p as nat, 0x4000);
            }
        }
    }
}

/// After a read command for address A, successive data-port reads return
/// the video memory at A, A+1, ... wrapping at 16 KiB: the command has
/// already fetched the byte at A into the read buffer.
pub proof fn lemma_vram_read_stream(s: VdpView, lo: u8, hi: u8, n: nat)
    requires
        s.wf(),
        !s.first_byte_received,
        hi >> 6u8 == 0,
    ensures
        data_reads(s.after_write_control(lo).after_write_control(hi), n).len() == n,
        forall|k: int|
            0 <= k < n ==> #[trigger] data_reads(
                s.after_write_control(lo).after_write_control(hi),
                n,
            )[k] == s.vram[(command_address(lo, hi) + k) % 0x4000],
{
    let t = s.after_write_control(lo).after_write_control(hi);
    lemma_command(s.control_word, lo, hi);
    let a = command_address(lo, hi);
    lemma_wrap_mod(a + 1, 0x4000);
    lemma_reads_follow(t, a, n);
}

proof fn lemma_vram_writes(t: VdpView, vals: Seq<u8>)
    requires
        t.wf(),
        t.mode != VdpMode::CramWrite,
        vals.len() <= 0x4000,
    ensures
        data_writes(t, vals).wf(),
        data_writes(t, vals).mode == t.mode,
        forall|k: int|
            0 <= k < vals.len() ==> #[trigger] data_writes(t, vals).vram[wrap(
                t.address_register + k,
                0x4000,
            )] == vals[k],
        forall|q: int|
            0 <= q < 0x4000 && dist(t.address_register as int, q, 0x4000) >= vals.len()
                ==> #[trigger] data_writes(t, vals).vram[q] == t.vram[q],
    decreases vals.len(),
{
    if vals.len() > 0 {
        let a = t.address_register as int;
        let t1 = t.after_write_data(vals[0]);
        let rest = vals.drop_first();
        lemma_wrap_mod(a + 1, 0x4000);
        lemma_vram_writes(t1, rest);
        let u = data_writes(t, vals);
        assert(u == data_writes(t1, rest));
        assert forall|k: int| 0 <= k < vals.len() implies #[trigger] u.vram[wrap(a + k, 0x4000)]
            == vals[k] by {
            if k > 0 {
                assert(rest[k - 1] == vals[k]);
                assert(wrap(t1.address_register + (k - 1), 0x4000) == wrap(a + k, 0x4000));
            } else {
                assert(dist(t1.address_register as int, a, 0x4000) >= rest.len());
            }
        }
    }
}

/// After a VRAM write command for address A, data-port writes of
/// `vals[0]`, `vals[1]`, ... land at A, A+1, ... wrapping at 16 KiB; with
/// no more than 16 KiB of them, none is overwritten.
pub proof fn lemma_vram_write_stream(s: VdpView, lo: u8, hi: u8, vals: Seq<u8>)
    requires
        s.wf(),
        !s.first_byte_received,
        hi >> 6u8 == 1,
        vals.len() <= 0x4000,
    ensures
        forall|k: int|
            0 <= k < vals.len() ==> #[trigger] data_writes(
                s.after_write_control(lo).after_write_control(hi),
                vals,
            ).vram[(command_address(lo, hi) + k) % 0x4000] == vals[k],
{
    let t = s.after_write_control(lo).after_write_control(hi);
    lemma_command(s.control_word, lo, hi);
    lemma_vram_writes(t, vals);
    assert forall|k: int| 0 <= k < vals.len() implies #[trigger] data_writes(t, vals).vram[(
    command_address(lo, hi) + k) % 0x4000] == vals[k] by {
        lemma_wrap_mod(command_address(lo, hi) + k, 0x4000);
    }
}

proof fn lemma_palette_step(a: int)
    requires
        0 <= a < 0x4000,
    ensures
        wrap(a + 1, 0x4000) % 32 == wrap(a % 32 + 1, 32),
{
    vstd::arithmetic::div_mod::lemma_add_mod_noop(a, 1, 32);
    vstd::arithmetic::div_mod::lemma_small_mod(1, 32);
    lemma_wrap_mod(a % 32 + 1, 32);
    if a + 1 == 0x4000 {
        assert(0x4000int % 32 == 0);
    }
}

proof fn lemma_cram_writes(t: VdpView, vals: Seq<u8>)
    requires
        t.wf(),
        t.mode == VdpMode::CramWrite,
        vals.len() <= 32,
    ensures
        data_writes(t, vals).wf(),
        data_writes(t, vals).mode == VdpMode::CramWrite,
        forall|k: int|
            0 <= k < vals.len() ==> #[trigger] data_writes(t, vals).cram[wrap(
                t.address_register % 32 + k,
                32,
            )] == vals[k],
        forall|q: int|
            0 <= q < 32 && dist(t.address_register as int % 32, q, 32) >= vals.len()
                ==> #[trigger] data_writes(t, vals).cram[q] == t.cram[q],
    decreases vals.len(),
{
    if vals.len() > 0 {
        let a = t.address_register as int;
        let c = a % 32;
        let t1 = t.after_write_data(vals[0]);
        let rest = vals.drop_first();
        lemma_wrap_mod(a + 1, 0x4000);
        lemma_palette_step(a);
        lemma_cram_writes(t1, rest);
        let u = data_writes(t, vals);
        assert(u == data_writes(t1, rest));
        assert forall|k: int| 0 <= k < vals.len() implies #[trigger] u.cram[wrap(c + k, 32)]
            == vals[k] by {
            if k > 0 {
                assert(rest[k - 1] == vals[k]);
                assert(wrap(t1.address_register % 32 + (k - 1), 32) == wrap(c + k, 32));
            } else {
                assert(dist(t1.address_register as int % 32, c, 32) >= rest.len());
            }
        }
    }
}

/// After a palette write command for address A, data-port writes of
/// `vals[0]`, `vals[1]`, ... land in palette entries A, A+1, ... taken
/// modulo 32; with no more than 32 of them, none is overwritten.
pub proof fn lemma_cram_write_stream(s: VdpView, lo: u8, hi: u8, vals: Seq<u8>)
    requires
        s.wf(),
        !s.first_byte_received,
        hi >> 6u8 == 3,
        vals.len() <= 32,
    ensures
        forall|k: int|
            0 <= k < vals.len() ==> #[trigger] data_writes(
                s.after_write_control(lo).after_write_control(hi),
                vals,
            ).cram[(command_address(lo, hi) + k) % 32] == vals[k],
{
    let t = s.after_write_control(lo).after_write_control(hi);
    lemma_command(s.control_word, lo, hi);
    lemma_cram_writes(t, vals);
    let a = command_address(lo, hi);
    assert forall|k: int| 0 <= k < vals.len() implies #[trigger] data_writes(t, vals).cram[(a + k)
        % 32] == vals[k] by {
        vstd::arithmetic::div_mod::lemma_add_mod_noop(a, k, 32);
        vstd::arithmetic::div_mod::lemma_small_mod(k as nat, 32);
        lemma_wrap_mod(a % 32 + k, 32);
    }
}

} // verus!
