use vstd::prelude::*;

use crate::gf::{antilog, fold255, gen_coeffs, generator_coefficients, log, log_alpha, pow_alpha};

verus! {

/// The working remainder before any division step: the dividend placed above
/// pad low-order zero codewords.
pub open spec fn div_init(a: Seq<u8>, pad: int) -> Seq<u8> {
    Seq::new((pad + a.len()) as nat, |i: int| if i < pad { 0u8 } else { a[i - pad] })
}

/// One division step: when the current leading codeword at position
/// len - 1 - s is nonzero, the generator polynomial b, scaled in the log
/// domain by that codeword's logarithm, is folded by XOR into the remainder
/// r, aligned so that the generator's leading entry meets that position. A
/// zero leading codeword needs no reduction and leaves the remainder as it
/// is.
pub open spec fn div_step(r: Seq<u8>, b: Seq<u8>, s: int) -> Seq<u8> {
    let lead = r[r.len() - 1 - s];
    if lead == 0 {
        r
    } else {
        let c = log_alpha(lead);
        Seq::new(
            r.len(),
            |ri: int|
                if ri <= r.len() - 1 - s && r.len() - 1 - s - ri < b.len() {
                    r[ri] ^ pow_alpha(fold255(b[b.len() - 1 - (r.len() - 1 - s - ri)] + c) as nat)
                } else {
                    r[ri]
                },
        )
    }
}

/// The remainder after the first `steps` division steps.
pub open spec fn div_loop(r: Seq<u8>, b: Seq<u8>, steps: int) -> Seq<u8>
    decreases steps,
{
    if steps <= 0 {
        r
    } else {
        div_step(div_loop(r, b, steps - 1), b, steps - 1)
    }
}

/// Polynomial long division of a (highest-order codeword last) by b over
/// GF(256): one step per codeword of a.
pub open spec fn spec_long_div(a: Seq<u8>, b: Seq<u8>, pad: int) -> Seq<u8> {
    div_loop(div_init(a, pad), b, a.len() as int)
}

/// The `bytes` error-correction codewords for the data codewords a: the
/// low-order part of the remainder of dividing a by the degree-`bytes`
/// generator polynomial.
pub open spec fn spec_generate_ec(a: Seq<u8>, bytes: int) -> Seq<u8> {
    spec_long_div(a, gen_coeffs(bytes), bytes).take(bytes)
}

fn long_div(a: &[u8], b: &[u8], pad_a: usize) -> (r: Vec<u8>)
    requires
        a@.len() + pad_a <= usize::MAX,
    ensures
        r@ == spec_long_div(a@, b@, pad_a as int),
        r@.len() == a@.len() + pad_a,
{
    let a_len = a.len();
    let mut result: Vec<u8> = vec![0u8; a_len + pad_a];
    let mut i: usize = 0;
    while i < a_len
        invariant
            i <= a_len,
            a_len == a@.len(),
            a_len + pad_a <= usize::MAX,
            result@.len() == a_len + pad_a,
            forall|k: int| 0 <= k < pad_a + i ==> result@[k] == div_init(a@, pad_a as int)[k],
            forall|k: int| pad_a + i <= k < result@.len() ==> result@[k] == 0,
        decreases a_len - i,
    {
        result.set(pad_a + i, a[i]);
        i += 1;
    }
    proof {
        assert(result@ =~= div_init(a@, pad_a as int));
    }

    let len = result.len();
    let mut s: usize = 0;
    while s < a_len
        invariant
            s <= a_len,
            a_len == a@.len(),
            len == a_len + pad_a,
            result@.len() == len,
            result@ == div_loop(div_init(a@, pad_a as int), b@, s as int),
        decreases a_len - s,
    {
        let ghost pre = result@;
        let lead = result[len - s - 1];
        if lead == 0 {
            proof {
                assert(result@ =~= div_step(pre, b@, s as int));
            }
            s += 1;
            continue ;
        }
        let c = log(lead);
        let avail = len - s;
        let zip_len = if avail < b.len() {
            avail
        } else {
            b.len()
        };
        let mut k: usize = 0;
        while k < zip_len
            invariant
                k <= zip_len,
                s < a_len,
                len == a_len + pad_a,
                a_len == a@.len(),
                result@.len() == len,
                pre.len() == len,
                zip_len <= len - s,
                zip_len <= b@.len(),
                zip_len == if len - s < b@.len() {
                    len - s as int
                } else {
                    b@.len() as int
                },
                pre[len - 1 - s] != 0,
                c == log_alpha(pre[len - 1 - s]),
                forall|ri: int|
                    len - s - k <= ri < len ==> result@[ri] == div_step(pre, b@, s as int)[ri],
                forall|ri: int| 0 <= ri < len - s - k ==> result@[ri] == pre[ri],
            decreases zip_len - k,
        {
            let ri = len - 1 - s - k;
            let d = b[b.len() - 1 - k] as usize + c as usize;
            assert(d % 256 + d / 256 <= 255);
            let v = antilog((d % 256 + d / 256) as u8);
            let cur = result[ri];
            result.set(ri, cur ^ v);
            proof {
                assert(result@[ri as int] == div_step(pre, b@, s as int)[ri as int]);
            }
            k += 1;
        }
        proof {
            assert(result@ =~= div_step(pre, b@, s as int));
        }
        s += 1;
    }
    result
}

/// The `bytes` error-correction codewords for the data codewords a, with a
/// given lowest-order first, computed by polynomial long division over
/// GF(256).
pub fn generate_ec(a: &[u8], bytes: usize) -> (r: Vec<u8>)
    requires
        1 <= bytes <= 255,
        a@.len() + bytes <= usize::MAX,
    ensures
        r@ == spec_generate_ec(a@, bytes as int),
        r@.len() == bytes,
{
    let coeffs = generator_coefficients(bytes);
    let mut r = long_div(a, coeffs.as_slice(), bytes);
    r.truncate(bytes);
    r
}

} // verus!
