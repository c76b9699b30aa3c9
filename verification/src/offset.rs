use vstd::prelude::*;
use crate::config::Config;
use crate::decimal::dec_seq;
use crate::decimal::push_decimal;

verus! {

/// Cursor movement for a vertical offset: CSI `y` B (cursor down), nothing
/// when the offset is zero.
pub open spec fn down_seq(y: u16) -> Seq<u8> {
    if y == 0 {
        Seq::<u8>::empty()
    } else {
        seq![0x1bu8, 0x5bu8] + dec_seq(y as nat) + seq![0x42u8]
    }
}

/// Cursor movement for a horizontal offset: CSI `x` C (cursor forward),
/// nothing when the offset is zero.
pub open spec fn right_seq(x: u16) -> Seq<u8> {
    if x == 0 {
        Seq::<u8>::empty()
    } else {
        seq![0x1bu8, 0x5bu8] + dec_seq(x as nat) + seq![0x43u8]
    }
}

/// The cursor-movement bytes written before a payload: no bytes at all when
/// both offsets are zero.
pub open spec fn offset_seq(x: u16, y: u16) -> Seq<u8> {
    down_seq(y) + right_seq(x)
}

/// Every cursor-movement byte is a control byte, a bracket, a digit or one
/// of the final letters B / C: in particular neither 'w' nor 'h' occurs.
pub proof fn lemma_offset_bytes_plain(x: u16, y: u16)
    ensures
        forall|i: int|
            0 <= i < offset_seq(x, y).len() ==> #[trigger] offset_seq(x, y)[i] != 0x77u8
                && offset_seq(x, y)[i] != 0x68u8,
{
    crate::decimal::lemma_dec_seq_digits(x as nat);
    crate::decimal::lemma_dec_seq_digits(y as nat);
    let d = down_seq(y);
    let r = right_seq(x);
    assert forall|i: int|
        0 <= i < offset_seq(x, y).len() implies #[trigger] offset_seq(x, y)[i] != 0x77u8
        && offset_seq(x, y)[i] != 0x68u8 by {
        if i < d.len() {
            assert(offset_seq(x, y)[i] == d[i]);
            if 2 <= i < 2 + dec_seq(y as nat).len() {
                assert(d[i] == dec_seq(y as nat)[i - 2]);
            }
        } else {
            assert(offset_seq(x, y)[i] == r[i - d.len()]);
            let j = i - d.len();
            if 2 <= j < 2 + dec_seq(x as nat).len() {
                assert(r[j] == dec_seq(x as nat)[j - 2]);
            }
        }
    }
}

/// Appends the cursor-movement sequence for the configured offsets.
pub fn adjust_offset(out: &mut Vec<u8>, config: &Config)
    ensures
        final(out)@ == old(out)@ + offset_seq(config.x, config.y),
{
    if config.y > 0 {
        out.push(0x1b);
        out.push(0x5b);
        push_decimal(out, config.y as u64);
        out.push(0x42);
    }
    if config.x > 0 {
        out.push(0x1b);
        out.push(0x5b);
        push_decimal(out, config.x as u64);
        out.push(0x43);
    }
    proof {
        assert(out@ =~= old(out)@ + offset_seq(config.x, config.y));
    }
}

} // verus!
