use vstd::prelude::*;

verus! {

/// The ASCII decimal digits of `n`, most significant digit first.
pub open spec fn dec_seq(n: nat) -> Seq<u8>
    decreases n,
{
    if n < 10 {
        seq![(0x30 + n) as u8]
    } else {
        dec_seq(n / 10).push((0x30 + n % 10) as u8)
    }
}

/// Every byte of a decimal rendering is an ASCII digit.
pub proof fn lemma_dec_seq_digits(n: nat)
    ensures
        forall|i: int|
            0 <= i < dec_seq(n).len() ==> 0x30 <= #[trigger] dec_seq(n)[i] <= 0x39,
    decreases n,
{
    if n >= 10 {
        lemma_dec_seq_digits(n / 10);
        assert forall|i: int| 0 <= i < dec_seq(n).len() implies 0x30 <= #[trigger] dec_seq(n)[i]
            <= 0x39 by {
            if i < dec_seq(n).len() - 1 {
                assert(dec_seq(n)[i] == dec_seq(n / 10)[i]);
            }
        }
    }
}

/// Appends the decimal digits of `n` to `out`.
pub fn push_decimal(out: &mut Vec<u8>, n: u64)
    ensures
        final(out)@ == old(out)@ + dec_seq(n as nat),
    decreases n,
{
    if n >= 10 {
        push_decimal(out, n / 10);
    }
    out.push(0x30 + (n % 10) as u8);
    proof {
        assert(out@ =~= old(out)@ + dec_seq(n as nat));
    }
}

} // verus!
