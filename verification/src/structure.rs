use vstd::prelude::*;

use crate::err_corr::{generate_ec, spec_generate_ec};
use crate::tables::BlocksData;
use crate::{ErrorCorrectLv, Version};

verus! {

/// A sequence reversed.
pub open spec fn rev(s: Seq<u8>) -> Seq<u8> {
    Seq::new(s.len(), |i: int| s[s.len() - 1 - i])
}

/// The b-th group-1 data block: a contiguous slice of the data codewords.
pub open spec fn spec_block_g1(data: Seq<u8>, bd: BlocksData, b: int) -> Seq<u8> {
    data.subrange(b * bd.g1_bytes, (b + 1) * bd.g1_bytes)
}

/// The b-th group-2 data block, taken after all group-1 blocks.
pub open spec fn spec_block_g2(data: Seq<u8>, bd: BlocksData, b: int) -> Seq<u8> {
    let off = bd.g1_blocks * bd.g1_bytes;
    data.subrange(off + b * bd.g2_bytes, off + (b + 1) * bd.g2_bytes)
}

/// The error-correction codewords of the b-th group-1 block, computed on the
/// block's bytes in reverse order.
pub open spec fn spec_ec_g1(data: Seq<u8>, bd: BlocksData, b: int) -> Seq<u8> {
    spec_generate_ec(rev(spec_block_g1(data, bd, b)), bd.ec_bytes as int)
}

/// The error-correction codewords of the b-th group-2 block.
pub open spec fn spec_ec_g2(data: Seq<u8>, bd: BlocksData, b: int) -> Seq<u8> {
    spec_generate_ec(rev(spec_block_g2(data, bd, b)), bd.ec_bytes as int)
}

/// Byte i of every block, group 1 then group 2, for the blocks long enough to
/// have one.
pub open spec fn spec_data_column(data: Seq<u8>, bd: BlocksData, i: int) -> Seq<u8> {
    (if i < bd.g1_bytes {
        Seq::new(bd.g1_blocks as nat, |b: int| spec_block_g1(data, bd, b)[i])
    } else {
        Seq::<u8>::empty()
    }) + (if i < bd.g2_bytes {
        Seq::new(bd.g2_blocks as nat, |b: int| spec_block_g2(data, bd, b)[i])
    } else {
        Seq::<u8>::empty()
    })
}

/// The column-interleaved data codewords, from column i on.
pub open spec fn spec_data_inter_from(data: Seq<u8>, bd: BlocksData, i: int) -> Seq<u8>
    decreases (if bd.g1_bytes < bd.g2_bytes {
        bd.g2_bytes as int
    } else {
        bd.g1_bytes as int
    }) - i,
{
    let maxs: int = if bd.g1_bytes < bd.g2_bytes {
        bd.g2_bytes as int
    } else {
        bd.g1_bytes as int
    };
    if i < 0 || i >= maxs {
        Seq::empty()
    } else {
        spec_data_column(data, bd, i) + spec_data_inter_from(data, bd, i + 1)
    }
}

/// Error-correction byte j of every block, group 1 then group 2.
pub open spec fn spec_ec_column(data: Seq<u8>, bd: BlocksData, j: int) -> Seq<u8> {
    Seq::new(bd.g1_blocks as nat, |b: int| spec_ec_g1(data, bd, b)[j]) + Seq::new(
        bd.g2_blocks as nat,
        |b: int| spec_ec_g2(data, bd, b)[j],
    )
}

/// The column-interleaved error-correction codewords, emitted from byte j
/// down to byte 0 of every block.
pub open spec fn spec_ec_inter_down(data: Seq<u8>, bd: BlocksData, j: int) -> Seq<u8>
    decreases j + 1,
{
    if j < 0 {
        Seq::empty()
    } else {
        spec_ec_column(data, bd, j) + spec_ec_inter_down(data, bd, j - 1)
    }
}

/// The structured codeword stream of a version and level: the data codewords
/// interleaved column-wise across blocks, followed by the per-block
/// error-correction codewords interleaved the same way in reverse byte order.
pub open spec fn spec_structure(data: Seq<u8>, version: Version, ec: ErrorCorrectLv) -> Seq<u8> {
    let bd = version.spec_blocks_data(ec);
    spec_data_inter_from(data, bd, 0) + spec_ec_inter_down(data, bd, bd.ec_bytes - 1)
}

/// Interleaves the data codewords column-wise across the blocks.
#[verifier::loop_isolation(false)]
#[verifier::rlimit(100)]
fn interleave_data(data: &[u8], bd: BlocksData) -> (r: Vec<u8>)
    requires
        bd.g1_blocks <= 81,
        bd.g1_bytes <= 123,
        bd.g2_blocks <= 68,
        bd.g2_bytes <= 123,
        data@.len() == bd.g1_blocks * bd.g1_bytes + bd.g2_blocks * bd.g2_bytes,
    ensures
        r@ == spec_data_inter_from(data@, bd, 0),
{
    let dn = data.len();
    proof {
        assert(dn == data@.len());
        assert(bd.g1_blocks * bd.g1_bytes <= 9963) by (nonlinear_arith)
            requires
                bd.g1_blocks <= 81,
                bd.g1_bytes <= 123,
        ;
        assert(bd.g2_blocks * bd.g2_bytes <= 8364) by (nonlinear_arith)
            requires
                bd.g2_blocks <= 68,
                bd.g2_bytes <= 123,
        ;
    }
    let g1b = bd.g1_blocks;
    let g1s = bd.g1_bytes;
    let g2b = bd.g2_blocks;
    let g2s = bd.g2_bytes;
    let g2off = g1b * g1s;
    let maxs = if g1s < g2s {
        g2s
    } else {
        g1s
    };
    let mut result: Vec<u8> = Vec::new();
    let mut i: usize = 0;
    while i < maxs
        invariant
            i <= maxs,
            result@ + spec_data_inter_from(data@, bd, i as int) == spec_data_inter_from(
                data@,
                bd,
                0,
            ),
        decreases maxs - i,
    {
        let ghost pre = result@;
        if i < g1s {
            let mut b: usize = 0;
            while b < g1b
                invariant
                    b <= g1b,
                    i < g1s,
                    result@ == pre + Seq::new(
                        bd.g1_blocks as nat,
                        |q: int| spec_block_g1(data@, bd, q)[i as int],
                    ).take(b as int),
                decreases g1b - b,
            {
                proof {
                    assert(b * g1s + i < g1b * g1s) by (nonlinear_arith)
                        requires
                            0 <= b < g1b,
                            0 <= i < g1s,
                    ;
                    assert((b + 1) * g1s == b * g1s + g1s) by (nonlinear_arith);
                    assert((b + 1) * g1s <= g1b * g1s) by (nonlinear_arith)
                        requires
                            0 <= b < g1b,
                            0 <= g1s,
                    ;
                }
                result.push(data[b * g1s + i]);
                proof {
                    let col = Seq::new(
                        bd.g1_blocks as nat,
                        |q: int| spec_block_g1(data@, bd, q)[i as int],
                    );
                    assert(col[b as int] == data@[b * g1s + i]);
                    assert(col.take(b + 1) =~= col.take(b as int).push(col[b as int]));
                }
                b += 1;
            }
        }
        let ghost mid = result@;
        if i < g2s {
            let mut b: usize = 0;
            while b < g2b
                invariant
                    b <= g2b,
                    i < g2s,
                    result@ == mid + Seq::new(
                        bd.g2_blocks as nat,
                        |q: int| spec_block_g2(data@, bd, q)[i as int],
                    ).take(b as int),
                decreases g2b - b,
            {
                proof {
                    assert(b * g2s + i < g2b * g2s) by (nonlinear_arith)
                        requires
                            0 <= b < g2b,
                            0 <= i < g2s,
                    ;
                    assert((b + 1) * g2s == b * g2s + g2s) by (nonlinear_arith);
                    assert((b + 1) * g2s <= g2b * g2s) by (nonlinear_arith)
                        requires
                            0 <= b < g2b,
                            0 <= g2s,
                    ;
                }
                result.push(data[g2off + b * g2s + i]);
                proof {
                    let col = Seq::new(
                        bd.g2_blocks as nat,
                        |q: int| spec_block_g2(data@, bd, q)[i as int],
                    );
                    assert(col[b as int] == data@[g2off + b * g2s + i]);
                    assert(col.take(b + 1) =~= col.take(b as int).push(col[b as int]));
                }
                b += 1;
            }
        }
        proof {
            let c1 = if (i as int) < bd.g1_bytes {
                Seq::new(bd.g1_blocks as nat, |q: int| spec_block_g1(data@, bd, q)[i as int])
            } else {
                Seq::<u8>::empty()
            };
            let c2 = if (i as int) < bd.g2_bytes {
                Seq::new(bd.g2_blocks as nat, |q: int| spec_block_g2(data@, bd, q)[i as int])
            } else {
                Seq::<u8>::empty()
            };
            assert(result@ =~= pre + (c1 + c2));
            assert(spec_data_inter_from(data@, bd, i as int) == (c1 + c2)
                + spec_data_inter_from(data@, bd, i + 1));
            assert((pre + (c1 + c2)) + spec_data_inter_from(data@, bd, i + 1) =~= pre + ((c1 + c2)
                + spec_data_inter_from(data@, bd, i + 1)));
        }
        i += 1;
    }
    proof {
        assert(spec_data_inter_from(data@, bd, maxs as int) == Seq::<u8>::empty());
        assert(result@ + Seq::<u8>::empty() =~= result@);
    }
    result
}

/// Computes the error-correction codewords of every group-1 block, each on
/// the block's bytes reversed.
#[verifier::loop_isolation(false)]
fn ec_blocks_g1(data: &[u8], bd: BlocksData) -> (r: Vec<Vec<u8>>)
    requires
        bd.g1_blocks <= 81,
        bd.g1_bytes <= 123,
        1 <= bd.ec_bytes <= 30,
        bd.g1_blocks * bd.g1_bytes <= data@.len(),
    ensures
        r@.len() == bd.g1_blocks,
        forall|q: int| 0 <= q < bd.g1_blocks ==> #[trigger] r@[q]@ == spec_ec_g1(data@, bd, q),
        forall|q: int| 0 <= q < bd.g1_blocks ==> #[trigger] r@[q]@.len() == bd.ec_bytes,
{
    let dn = data.len();
    proof {
        assert(dn == data@.len());
        assert(bd.g1_blocks * bd.g1_bytes <= 9963) by (nonlinear_arith)
            requires
                bd.g1_blocks <= 81,
                bd.g1_bytes <= 123,
        ;
    }
    let g1b = bd.g1_blocks;
    let g1s = bd.g1_bytes;
    let ecb = bd.ec_bytes;
    let mut ec1: Vec<Vec<u8>> = Vec::new();
    let mut b: usize = 0;
    while b < g1b
        invariant
            b <= g1b,
            ec1@.len() == b,
            forall|q: int| 0 <= q < b ==> #[trigger] ec1@[q]@ == spec_ec_g1(data@, bd, q),
            forall|q: int| 0 <= q < b ==> #[trigger] ec1@[q]@.len() == ecb,
        decreases g1b - b,
    {
        proof {
            assert((b + 1) * g1s == b * g1s + g1s) by (nonlinear_arith);
            assert((b + 1) * g1s <= g1b * g1s) by (nonlinear_arith)
                requires
                    0 <= b < g1b,
                    0 <= g1s,
            ;
        }
        let base = b * g1s;
        let mut rb: Vec<u8> = Vec::new();
        let mut q: usize = 0;
        while q < g1s
            invariant
                q <= g1s,
                base == b * g1s,
                base + g1s <= data@.len(),
                rb@ == rev(spec_block_g1(data@, bd, b as int)).take(q as int),
            decreases g1s - q,
        {
            rb.push(data[base + g1s - 1 - q]);
            proof {
                let rv = rev(spec_block_g1(data@, bd, b as int));
                assert(rv[q as int] == data@[base + g1s - 1 - q]);
                assert(rv.take(q + 1) =~= rv.take(q as int).push(rv[q as int]));
            }
            q += 1;
        }
        proof {
            assert(rb@ =~= rev(spec_block_g1(data@, bd, b as int)));
        }
        let e = generate_ec(rb.as_slice(), ecb);
        ec1.push(e);
        b += 1;
    }
    ec1
}

/// Computes the error-correction codewords of every group-2 block.
#[verifier::loop_isolation(false)]
fn ec_blocks_g2(data: &[u8], bd: BlocksData) -> (r: Vec<Vec<u8>>)
    requires
        bd.g1_blocks <= 81,
        bd.g1_bytes <= 123,
        bd.g2_blocks <= 68,
        bd.g2_bytes <= 123,
        1 <= bd.ec_bytes <= 30,
        data@.len() == bd.g1_blocks * bd.g1_bytes + bd.g2_blocks * bd.g2_bytes,
    ensures
        r@.len() == bd.g2_blocks,
        forall|q: int| 0 <= q < bd.g2_blocks ==> #[trigger] r@[q]@ == spec_ec_g2(data@, bd, q),
        forall|q: int| 0 <= q < bd.g2_blocks ==> #[trigger] r@[q]@.len() == bd.ec_bytes,
{
    let dn = data.len();
    proof {
        assert(dn == data@.len());
        assert(bd.g1_blocks * bd.g1_bytes <= 9963) by (nonlinear_arith)
            requires
                bd.g1_blocks <= 81,
                bd.g1_bytes <= 123,
        ;
        assert(bd.g2_blocks * bd.g2_bytes <= 8364) by (nonlinear_arith)
            requires
                bd.g2_blocks <= 68,
                bd.g2_bytes <= 123,
        ;
    }
    let g2b = bd.g2_blocks;
    let g2s = bd.g2_bytes;
    let g2off = bd.g1_blocks * bd.g1_bytes;
    let ecb = bd.ec_bytes;
    let mut ec2: Vec<Vec<u8>> = Vec::new();
    let mut b: usize = 0;
    while b < g2b
        invariant
            b <= g2b,
            ec2@.len() == b,
            forall|q: int| 0 <= q < b ==> #[trigger] ec2@[q]@ == spec_ec_g2(data@, bd, q),
            forall|q: int| 0 <= q < b ==> #[trigger] ec2@[q]@.len() == ecb,
        decreases g2b - b,
    {
        proof {
            assert((b + 1) * g2s == b * g2s + g2s) by (nonlinear_arith);
            assert((b + 1) * g2s <= g2b * g2s) by (nonlinear_arith)
                requires
                    0 <= b < g2b,
                    0 <= g2s,
            ;
        }
        let base = g2off + b * g2s;
        let mut rb: Vec<u8> = Vec::new();
        let mut q: usize = 0;
        while q < g2s
            invariant
                q <= g2s,
                base == g2off + b * g2s,
                base + g2s <= data@.len(),
                rb@ == rev(spec_block_g2(data@, bd, b as int)).take(q as int),
            decreases g2s - q,
        {
            rb.push(data[base + g2s - 1 - q]);
            proof {
                let rv = rev(spec_block_g2(data@, bd, b as int));
                assert(rv[q as int] == data@[base + g2s - 1 - q]);
                assert(rv.take(q + 1) =~= rv.take(q as int).push(rv[q as int]));
            }
            q += 1;
        }
        proof {
            assert(rb@ =~= rev(spec_block_g2(data@, bd, b as int)));
        }
        let e = generate_ec(rb.as_slice(), ecb);
        ec2.push(e);
        b += 1;
    }
    ec2
}

/// Appends the interleaved error-correction codewords, highest block byte
/// first.
#[verifier::loop_isolation(false)]
#[verifier::rlimit(100)]
fn interleave_ec(
    ec1: &Vec<Vec<u8>>,
    ec2: &Vec<Vec<u8>>,
    result: &mut Vec<u8>,
    Ghost(data): Ghost<Seq<u8>>,
    Ghost(bd): Ghost<BlocksData>,
)
    requires
        1 <= bd.ec_bytes <= 30,
        ec1@.len() == bd.g1_blocks,
        ec2@.len() == bd.g2_blocks,
        forall|q: int| 0 <= q < bd.g1_blocks ==> #[trigger] ec1@[q]@ == spec_ec_g1(data, bd, q),
        forall|q: int| 0 <= q < bd.g1_blocks ==> #[trigger] ec1@[q]@.len() == bd.ec_bytes,
        forall|q: int| 0 <= q < bd.g2_blocks ==> #[trigger] ec2@[q]@ == spec_ec_g2(data, bd, q),
        forall|q: int| 0 <= q < bd.g2_blocks ==> #[trigger] ec2@[q]@.len() == bd.ec_bytes,
        1 <= bd.g1_blocks,
    ensures
        final(result)@ == old(result)@ + spec_ec_inter_down(data, bd, bd.ec_bytes - 1),
{
    let g1b = ec1.len();
    let g2b = ec2.len();
    let ecb = ec1[0].len();
    proof {
        assert(ec1@[0]@.len() == bd.ec_bytes);
    }
    let mut j: usize = ecb;
    while j > 0
        invariant
            j <= ecb,
            ecb == bd.ec_bytes,
            result@ + spec_ec_inter_down(data, bd, j - 1) == old(result)@ + spec_ec_inter_down(
                data,
                bd,
                ecb - 1,
            ),
        decreases j,
    {
        j -= 1;
        let ghost pre = result@;
        let mut b: usize = 0;
        while b < g1b
            invariant
                b <= g1b,
                j < ecb,
                result@ == pre + Seq::new(
                    bd.g1_blocks as nat,
                    |q: int| spec_ec_g1(data, bd, q)[j as int],
                ).take(b as int),
            decreases g1b - b,
        {
            let e = &ec1[b];
            result.push(e[j]);
            proof {
                let col = Seq::new(
                    bd.g1_blocks as nat,
                    |q: int| spec_ec_g1(data, bd, q)[j as int],
                );
                assert(col[b as int] == ec1@[b as int]@[j as int]);
                assert(col.take(b + 1) =~= col.take(b as int).push(col[b as int]));
            }
            b += 1;
        }
        let ghost mid = result@;
        let mut b: usize = 0;
        while b < g2b
            invariant
                b <= g2b,
                j < ecb,
                result@ == mid + Seq::new(
                    bd.g2_blocks as nat,
                    |q: int| spec_ec_g2(data, bd, q)[j as int],
                ).take(b as int),
            decreases g2b - b,
        {
            let e = &ec2[b];
            result.push(e[j]);
            proof {
                let col = Seq::new(
                    bd.g2_blocks as nat,
                    |q: int| spec_ec_g2(data, bd, q)[j as int],
                );
                assert(col[b as int] == ec2@[b as int]@[j as int]);
                assert(col.take(b + 1) =~= col.take(b as int).push(col[b as int]));
            }
            b += 1;
        }
        proof {
            let c1 = Seq::new(bd.g1_blocks as nat, |q: int| spec_ec_g1(data, bd, q)[j as int]);
            let c2 = Seq::new(bd.g2_blocks as nat, |q: int| spec_ec_g2(data, bd, q)[j as int]);
            assert(result@ =~= pre + (c1 + c2));
            assert(spec_ec_inter_down(data, bd, j as int) == (c1 + c2) + spec_ec_inter_down(
                data,
                bd,
                j - 1,
            ));
            assert((pre + (c1 + c2)) + spec_ec_inter_down(data, bd, j - 1) =~= pre + ((c1 + c2)
                + spec_ec_inter_down(data, bd, j - 1)));
        }
    }
    proof {
        assert(j == 0);
        assert(spec_ec_inter_down(data, bd, j - 1) == Seq::<u8>::empty());
        assert(result@ + Seq::<u8>::empty() =~= result@);
    }
}

/// Splits the data codewords into the version's blocks, computes every
/// block's error-correction codewords, and interleaves both parts: the data
/// codewords column-wise across blocks, then the error-correction codewords
/// column-wise in reverse byte order.
pub fn structure(data: &[u8], version: Version, ec: ErrorCorrectLv) -> (r: Vec<u8>)
    requires
        version.wf(),
        data@.len() == version.spec_max_data_bytes(ec),
    ensures
        r@ == spec_structure(data@, version, ec),
{
    let bd = version.blocks_data(ec);
    let mut result = interleave_data(data, bd);
    let ec1 = ec_blocks_g1(data, bd);
    let ec2 = ec_blocks_g2(data, bd);
    let ghost data_part = result@;
    interleave_ec(&ec1, &ec2, &mut result, Ghost(data@), Ghost(bd));
    proof {
        assert(result@ == data_part + spec_ec_inter_down(data@, bd, bd.ec_bytes - 1));
        assert(result@ == spec_structure(data@, version, ec));
    }
    result
}

} // verus!
