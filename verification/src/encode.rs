use vstd::prelude::*;

use crate::bits::{bits_of, bytes_bits, zero_bits, BitsWriter};
use crate::{ErrorCorrectLv, Mode, Version};

verus! {

/// The index of a byte in the 45-symbol alphanumeric alphabet, or -1 when the
/// byte is not in the alphabet.
pub open spec fn alnum_val(c: u8) -> int {
    if 48 <= c <= 57 {
        c - 48
    } else if 65 <= c <= 90 {
        c - 55
    } else if c == 32 {
        36
    } else if c == 36 {
        37
    } else if c == 37 {
        38
    } else if c == 42 {
        39
    } else if c == 43 {
        40
    } else if c == 45 {
        41
    } else if c == 46 {
        42
    } else if c == 47 {
        43
    } else if c == 58 {
        44
    } else {
        -1
    }
}

/// The alphanumeric index of a byte, when it has one.
pub fn alphanumeric_get(c: u8) -> (r: Option<u8>)
    ensures
        r == (if alnum_val(c) >= 0 {
            Some(alnum_val(c) as u8)
        } else {
            None::<u8>
        }),
{
    if 48 <= c && c <= 57 {
        Some(c - 48)
    } else if 65 <= c && c <= 90 {
        Some(c - 55)
    } else if c == 32 {
        Some(36)
    } else if c == 36 {
        Some(37)
    } else if c == 37 {
        Some(38)
    } else if c == 42 {
        Some(39)
    } else if c == 43 {
        Some(40)
    } else if c == 45 {
        Some(41)
    } else if c == 46 {
        Some(42)
    } else if c == 47 {
        Some(43)
    } else if c == 58 {
        Some(44)
    } else {
        None
    }
}

/// Every byte is an ASCII decimal digit.
pub open spec fn numeric_ok(s: Seq<u8>) -> bool {
    forall|i: int| 0 <= i < s.len() ==> 48 <= #[trigger] s[i] <= 57
}

/// Every byte is in the alphanumeric alphabet.
pub open spec fn alnum_ok(s: Seq<u8>) -> bool {
    forall|i: int| 0 <= i < s.len() ==> alnum_val(#[trigger] s[i]) >= 0
}

/// The decimal value of a digit string.
pub open spec fn num_val(s: Seq<u8>) -> int
    decreases s.len(),
{
    if s.len() == 0 {
        0
    } else {
        num_val(s.drop_last()) * 10 + (s.last() - 48)
    }
}

/// The packed bits of a numeric payload: groups of 3 digits in 10 bits, a
/// trailing pair in 7 bits, a trailing single digit in 4 bits.
pub open spec fn numeric_bits(s: Seq<u8>) -> Seq<bool>
    decreases s.len(),
{
    if s.len() == 0 {
        Seq::empty()
    } else if s.len() >= 3 {
        bits_of(num_val(s.take(3)) as u64, 10) + numeric_bits(s.skip(3))
    } else if s.len() == 2 {
        bits_of(num_val(s) as u64, 7)
    } else {
        bits_of(num_val(s) as u64, 4)
    }
}

/// The packed bits of an alphanumeric payload: pairs as idx0 * 45 + idx1 in
/// 11 bits, a trailing single symbol in 6 bits.
pub open spec fn alnum_bits(s: Seq<u8>) -> Seq<bool>
    decreases s.len(),
{
    if s.len() == 0 {
        Seq::empty()
    } else if s.len() >= 2 {
        bits_of((alnum_val(s[0]) * 45 + alnum_val(s[1])) as u64, 11) + alnum_bits(s.skip(2))
    } else {
        bits_of(alnum_val(s[0]) as u64, 6)
    }
}

/// The mode-specific packed payload bits.
pub open spec fn spec_payload_bits(s: Seq<u8>, mode: Mode) -> Seq<bool> {
    match mode {
        Mode::Numeric => numeric_bits(s),
        Mode::Alphanumeric => alnum_bits(s),
        Mode::Bytes => bytes_bits(s),
        Mode::Kanji => Seq::empty(),
    }
}

/// Whether every byte of the input is legal for the mode; Kanji is not
/// implemented and accepts nothing.
pub open spec fn spec_mode_ok(s: Seq<u8>, mode: Mode) -> bool {
    match mode {
        Mode::Numeric => numeric_ok(s),
        Mode::Alphanumeric => alnum_ok(s),
        Mode::Bytes => true,
        Mode::Kanji => false,
    }
}

/// The bit length of the packed payload for an input of n characters.
pub open spec fn spec_payload_len(mode: Mode, n: int) -> int {
    match mode {
        Mode::Numeric => 10 * (n / 3) + (
        if n % 3 == 0 {
            0int
        } else if n % 3 == 1 {
            4int
        } else {
            7int
        }),
        Mode::Alphanumeric => 11 * (n / 2) + 6 * (n % 2),
        Mode::Bytes => 8 * n,
        Mode::Kanji => 0,
    }
}

pub proof fn lemma_numeric_bits_len(s: Seq<u8>)
    ensures
        numeric_bits(s).len() == spec_payload_len(Mode::Numeric, s.len() as int),
    decreases s.len(),
{
    if s.len() >= 3 {
        lemma_numeric_bits_len(s.skip(3));
    }
}

pub proof fn lemma_alnum_bits_len(s: Seq<u8>)
    ensures
        alnum_bits(s).len() == spec_payload_len(Mode::Alphanumeric, s.len() as int),
    decreases s.len(),
{
    if s.len() >= 2 {
        lemma_alnum_bits_len(s.skip(2));
    }
}

pub proof fn lemma_payload_bits_len(s: Seq<u8>, mode: Mode)
    ensures
        spec_payload_bits(s, mode).len() == spec_payload_len(mode, s.len() as int),
{
    match mode {
        Mode::Numeric => lemma_numeric_bits_len(s),
        Mode::Alphanumeric => lemma_alnum_bits_len(s),
        Mode::Bytes => (),
        Mode::Kanji => (),
    }
}

/// The complete bit stream before byte packing: mode indicator, character
/// count, payload.
pub open spec fn spec_body_bits(s: Seq<u8>, mode: Mode, version: Version) -> Seq<bool> {
    bits_of(mode.spec_indicator() as u64, 4) + bits_of(
        s.len() as u64,
        version.spec_char_count_length(mode),
    ) + spec_payload_bits(s, mode)
}

/// The bit length of the stream before terminator and padding.
pub open spec fn spec_body_len(n: int, mode: Mode, version: Version) -> int {
    4 + version.spec_char_count_length(mode) + spec_payload_len(mode, n)
}

/// The alternating padding codewords appended after the terminator.
pub open spec fn spec_pad_codewords(k: int) -> Seq<u8> {
    Seq::new(
        k as nat,
        |i: int|
            if i % 2 == 0 {
                0xecu8
            } else {
                0x11u8
            },
    )
}

/// The full data-codeword bit stream: body, terminator of at most 4 zero
/// bits, zero bits up to the byte boundary, then alternating pad codewords up
/// to the version's capacity.
pub open spec fn spec_encoded_stream(
    s: Seq<u8>,
    mode: Mode,
    version: Version,
    ec: ErrorCorrectLv,
) -> Seq<bool> {
    let body = spec_body_bits(s, mode, version);
    let cap = 8 * version.spec_max_data_bytes(ec);
    let t = if cap - body.len() < 4 {
        cap - body.len()
    } else {
        4
    };
    let term = body + zero_bits(t);
    let aligned = term + zero_bits((8 - term.len() % 8) % 8);
    aligned + bytes_bits(spec_pad_codewords((cap - aligned.len()) / 8))
}

#[verifier::loop_isolation(false)]
pub fn encode_numeric(string: &[u8], buffer: &mut BitsWriter) -> (r: Option<()>)
    requires
        old(buffer).wf(),
        old(buffer)@.len() + 8 * string@.len() + 128 <= usize::MAX,
    ensures
        final(buffer).wf(),
        r is Some <==> numeric_ok(string@),
        r is Some ==> final(buffer)@ == old(buffer)@ + numeric_bits(string@),
{
    let n = string.len();
    proof {
        assert(string@.skip(0) =~= string@);
    }
    let mut p: usize = 0;
    while p < n
        invariant
            buffer.wf(),
            p <= n,
            numeric_ok(string@.take(p as int)),
            old(buffer)@ + numeric_bits(string@) == buffer@ + numeric_bits(
                string@.skip(p as int),
            ),
            buffer@.len() <= old(buffer)@.len() + 4 * p,
        decreases n - p,
    {
        let ghost sk = string@.skip(p as int);
        proof {
            assert(sk.take((n - p) as int) =~= sk);
        }
        let chunk = if n - p < 3 {
            n - p
        } else {
            3
        };
        let ghost cs = sk.take(chunk as int);
        let mut parse: usize = 0;
        let mut j: usize = 0;
        proof {
            assert(cs.take(0) =~= Seq::<u8>::empty());
        }
        while j < chunk
            invariant
                j <= chunk,
                parse == num_val(cs.take(j as int)),
                parse <= (if j == 0 {
                    0int
                } else if j == 1 {
                    9int
                } else if j == 2 {
                    99int
                } else {
                    999int
                }),
                forall|q: int| 0 <= q < j ==> 48 <= #[trigger] cs[q] <= 57,
            decreases chunk - j,
        {
            let c = string[p + j];
            if c < 48 || c > 57 {
                proof {
                    assert(string@[p + j] == c);
                    assert(!numeric_ok(string@));
                }
                return None;
            }
            proof {
                assert(cs.take(j + 1).drop_last() =~= cs.take(j as int));
                assert(cs.take(j + 1).last() == cs[j as int]);
                assert(cs[j as int] == string@[p + j]);
            }
            parse = parse * 10 + (c - 48) as usize;
            j += 1;
        }
        proof {
            assert(cs.take(chunk as int) =~= cs);
            assert(buffer@.len() == 8 * (buffer.bits@.len() - 1) + buffer.last_length);
        }
        let ghost prebuf = buffer@;
        if chunk == 3 {
            buffer.write_bits(10, parse);
        } else if chunk == 2 {
            buffer.write_bits(7, parse);
        } else {
            buffer.write_bits(4, parse);
        }
        proof {
            let x = if chunk == 3 {
                bits_of(num_val(sk.take(3)) as u64, 10)
            } else if chunk == 2 {
                bits_of(num_val(sk) as u64, 7)
            } else {
                bits_of(num_val(sk) as u64, 4)
            };
            if chunk == 3 {
                assert(cs == sk.take(3));
                assert(sk.skip(3) =~= string@.skip(p + 3));
                assert(numeric_bits(sk) == x + numeric_bits(string@.skip(p + 3)));
            } else {
                assert(sk =~= cs);
                assert(string@.skip(p + chunk) =~= Seq::<u8>::empty());
                assert(numeric_bits(string@.skip(p + chunk)) == Seq::<bool>::empty());
                assert(x + numeric_bits(string@.skip(p + chunk)) =~= x);
                assert(numeric_bits(sk) == x);
            }
            assert(buffer@ == prebuf + x);
            assert(prebuf + (x + numeric_bits(string@.skip(p + chunk))) =~= (prebuf + x)
                + numeric_bits(string@.skip(p + chunk)));
        }
        let ghost old_take = string@.take(p as int);
        p += chunk;
        proof {
            assert(string@.take(p as int) =~= old_take + cs);
            assert(numeric_ok(string@.take(p as int)));
        }
    }
    proof {
        assert(string@.take(n as int) =~= string@);
        assert(string@.skip(n as int) =~= Seq::<u8>::empty());
        assert(numeric_bits(Seq::<u8>::empty()) == Seq::<bool>::empty());
        assert(buffer@ + Seq::<bool>::empty() =~= buffer@);
    }
    Some(())
}

#[verifier::loop_isolation(false)]
pub fn encode_alphanumeric(string: &[u8], buffer: &mut BitsWriter) -> (r: Option<()>)
    requires
        old(buffer).wf(),
        old(buffer)@.len() + 8 * string@.len() + 128 <= usize::MAX,
    ensures
        final(buffer).wf(),
        r is Some <==> alnum_ok(string@),
        r is Some ==> final(buffer)@ == old(buffer)@ + alnum_bits(string@),
{
    let n = string.len();
    proof {
        assert(string@.skip(0) =~= string@);
    }
    let mut p: usize = 0;
    while p < n
        invariant
            buffer.wf(),
            p <= n,
            alnum_ok(string@.take(p as int)),
            old(buffer)@ + alnum_bits(string@) == buffer@ + alnum_bits(string@.skip(p as int)),
            buffer@.len() <= old(buffer)@.len() + 6 * p,
        decreases n - p,
    {
        let ghost sk = string@.skip(p as int);
        proof {
            assert(buffer@.len() == 8 * (buffer.bits@.len() - 1) + buffer.last_length);
        }
        let ghost prebuf = buffer@;
        let ghost old_take = string@.take(p as int);
        if n - p >= 2 {
            let v0 = match alphanumeric_get(string[p]) {
                Some(v) => v,
                None => {
                    proof {
                        assert(alnum_val(string@[p as int]) < 0);
                        assert(!alnum_ok(string@));
                    }
                    return None;
                },
            };
            let v1 = match alphanumeric_get(string[p + 1]) {
                Some(v) => v,
                None => {
                    proof {
                        assert(alnum_val(string@[p + 1]) < 0);
                        assert(!alnum_ok(string@));
                    }
                    return None;
                },
            };
            let val = v0 as usize * 45 + v1 as usize;
            buffer.write_bits(11, val);
            proof {
                let x = bits_of((alnum_val(sk[0]) * 45 + alnum_val(sk[1])) as u64, 11);
                assert(sk[0] == string@[p as int]);
                assert(sk[1] == string@[p + 1]);
                assert(sk.skip(2) =~= string@.skip(p + 2));
                assert(alnum_bits(sk) == x + alnum_bits(string@.skip(p + 2)));
                assert(buffer@ == prebuf + x);
                assert(prebuf + (x + alnum_bits(string@.skip(p + 2))) =~= (prebuf + x)
                    + alnum_bits(string@.skip(p + 2)));
            }
            p += 2;
            proof {
                assert(string@.take(p as int) =~= old_take.push(string@[p - 2]).push(
                    string@[p - 1],
                ));
                assert(alnum_ok(string@.take(p as int)));
            }
        } else {
            let v0 = match alphanumeric_get(string[p]) {
                Some(v) => v,
                None => {
                    proof {
                        assert(alnum_val(string@[p as int]) < 0);
                        assert(!alnum_ok(string@));
                    }
                    return None;
                },
            };
            buffer.write_bits(6, v0 as usize);
            proof {
                let x = bits_of(alnum_val(sk[0]) as u64, 6);
                assert(sk.len() == 1);
                assert(sk[0] == string@[p as int]);
                assert(alnum_bits(sk) == x);
                assert(string@.skip(p + 1) =~= Seq::<u8>::empty());
                assert(alnum_bits(string@.skip(p + 1)) == Seq::<bool>::empty());
                assert(buffer@ == prebuf + x);
                assert(prebuf + (x + alnum_bits(string@.skip(p + 1))) =~= (prebuf + x)
                    + alnum_bits(string@.skip(p + 1)));
                assert(x + alnum_bits(string@.skip(p + 1)) =~= x);
            }
            p += 1;
            proof {
                assert(string@.take(p as int) =~= old_take.push(string@[p - 1]));
                assert(alnum_ok(string@.take(p as int)));
            }
        }
    }
    proof {
        assert(string@.take(n as int) =~= string@);
        assert(string@.skip(n as int) =~= Seq::<u8>::empty());
        assert(alnum_bits(Seq::<u8>::empty()) == Seq::<bool>::empty());
        assert(buffer@ + Seq::<bool>::empty() =~= buffer@);
    }
    Some(())
}

#[verifier::loop_isolation(false)]
pub fn encode_bytes(string: &[u8], buffer: &mut BitsWriter) -> (r: Option<()>)
    requires
        old(buffer).wf(),
        old(buffer)@.len() + 8 * string@.len() + 128 <= usize::MAX,
    ensures
        final(buffer).wf(),
        r is Some,
        final(buffer)@ == old(buffer)@ + bytes_bits(string@),
{
    let n = string.len();
    proof {
        assert(bytes_bits(string@.take(0)) =~= Seq::<bool>::empty());
        assert(old(buffer)@ + bytes_bits(string@.take(0)) =~= old(buffer)@);
    }
    let mut i: usize = 0;
    while i < n
        invariant
            buffer.wf(),
            i <= n,
            buffer@ == old(buffer)@ + bytes_bits(string@.take(i as int)),
        decreases n - i,
    {
        let b = string[i];
        proof {
            assert(buffer@.len() == 8 * (buffer.bits@.len() - 1) + buffer.last_length);
        }
        buffer.write_bits(8, b as usize);
        proof {
            assert(string@.take(i + 1) =~= string@.take(i as int).push(string@[i as int]));
            crate::bits::lemma_bytes_bits_push(string@.take(i as int), string@[i as int]);
            assert((old(buffer)@ + bytes_bits(string@.take(i as int))) + bits_of(b as u64, 8)
                =~= old(buffer)@ + bytes_bits(string@.take(i + 1)));
        }
        i += 1;
    }
    proof {
        assert(string@.take(n as int) =~= string@);
    }
    Some(())
}

/// Encodes the input under the given mode into the data codewords of the
/// version and level: mode indicator, character count, packed payload,
/// terminator, byte alignment and pad codewords. None reports the two error
/// cases of encoding: an input byte outside the mode's alphabet (Kanji,
/// unimplemented, accepts nothing), or an encoded stream that exceeds the
/// version's capacity at the level.
#[verifier::rlimit(100)]
pub fn encode(string: &[u8], mode: Mode, version: Version, ec: ErrorCorrectLv) -> (r: Option<
    Vec<u8>,
>)
    requires
        version.wf(),
    ensures
        r is Some <==> spec_mode_ok(string@, mode) && spec_body_len(
            string@.len() as int,
            mode,
            version,
        ) <= 8 * version.spec_max_data_bytes(ec),
        r matches Some(v) ==> v@.len() == version.spec_max_data_bytes(ec) && bytes_bits(v@)
            == spec_encoded_stream(string@, mode, version, ec),
{
    let bytes = version.max_data_bytes(ec);
    let n = string.len();
    proof {
        lemma_payload_bits_len(string@, mode);
        if mode != Mode::Kanji {
            let ni = string@.len() as int;
            assert(ni == 3 * (ni / 3) + ni % 3);
            assert(ni == 2 * (ni / 2) + ni % 2);
            assert(spec_payload_len(mode, ni) >= ni);
        }
    }
    if n > 23648 {
        // even the loosest packing cannot fit more bits than the largest
        // symbol's capacity of 2956 codewords
        return None;
    }
    let pl = payload_len(mode, n);
    let ccl = version.char_count_length(mode);
    if 4 + ccl + pl > 8 * bytes {
        return None;
    }
    let mut buffer = BitsWriter::new();
    buffer.write_bits(4, mode.indicator() as usize);
    proof {
        assert(Seq::<bool>::empty() + bits_of(mode.spec_indicator() as u64, 4) =~= bits_of(
            mode.spec_indicator() as u64,
            4,
        ));
    }
    buffer.write_bits(version.char_count_length(mode), string.len());
    let ok = match mode {
        Mode::Numeric => encode_numeric(string, &mut buffer),
        Mode::Alphanumeric => encode_alphanumeric(string, &mut buffer),
        Mode::Bytes => encode_bytes(string, &mut buffer),
        Mode::Kanji => None,
    };
    if ok.is_none() {
        return None;
    }
    let ghost body = spec_body_bits(string@, mode, version);
    proof {
        assert(buffer@ =~= body);
        assert(buffer@.len() == 8 * (buffer.bits@.len() - 1) + buffer.last_length);
    }
    let cur = buffer.len();
    let rem = bytes * 8 - cur;
    let t = if rem < 4 {
        rem
    } else {
        4
    };
    buffer.write_bits(t, 0);
    proof {
        assert forall|i: int| 0 <= i < t implies bits_of(0u64, t as int)[i] == false by {
            let sh = (t - 1 - i) as u64;
            assert((0u64 >> sh) & 1 == 0) by (bit_vector);
        }
        assert(bits_of(0u64, t as int) =~= zero_bits(t as int));
        assert(buffer@.len() == 8 * (buffer.bits@.len() - 1) + buffer.last_length);
    }
    buffer.align();
    let ghost aligned = spec_encoded_stream_aligned(string@, mode, version, ec);
    proof {
        assert(buffer@ =~= aligned);
        assert(buffer@.len() % 8 == 0);
        assert(buffer@.len() == 8 * (buffer.bits@.len() - 1) + buffer.last_length);
        assert(buffer.last_length == 0);
        assert(bytes_bits(spec_pad_codewords(0)) =~= Seq::<bool>::empty());
        assert(aligned + bytes_bits(spec_pad_codewords(0)) =~= aligned);
    }
    let ghost k0 = buffer.bits@.len() as int;
    let mut k = buffer.bits.len();
    let mut even = true;
    while k <= bytes
        invariant
            buffer.wf(),
            buffer.last_length == 0,
            k == buffer.bits@.len(),
            k0 <= k <= bytes + 1,
            bytes <= 2956,
            aligned.len() == 8 * (k0 - 1),
            buffer@ == aligned + bytes_bits(spec_pad_codewords(k - k0)),
            even <==> (k - k0) % 2 == 0,
        decreases bytes + 1 - k,
    {
        let ghost done = k - k0;
        let b: u8 = if even {
            0b11101100
        } else {
            0b00010001
        };
        buffer.write_u8_aligned(b);
        proof {
            assert(spec_pad_codewords(done + 1) =~= spec_pad_codewords(done).push(b));
            crate::bits::lemma_bytes_bits_push(spec_pad_codewords(done), b);
            assert((aligned + bytes_bits(spec_pad_codewords(done))) + bits_of(b as u64, 8)
                =~= aligned + bytes_bits(spec_pad_codewords(done + 1)));
        }
        even = !even;
        k += 1;
    }
    let ghost fview = buffer@;
    let ghost fbits = buffer.bits@;
    let mut out = buffer.bits;
    out.pop();
    proof {
        assert(out@ =~= fbits.take(fbits.len() - 1));
        assert(out@.len() == bytes);
        assert(fview =~= bytes_bits(out@));
        assert((8 * version.spec_max_data_bytes(ec) - aligned.len()) / 8 == bytes + 1 - k0);
        assert(bytes_bits(out@) == spec_encoded_stream(string@, mode, version, ec));
    }
    Some(out)
}

impl Mode {
    /// The most restrictive mode that accepts every input byte: Numeric,
    /// then Alphanumeric, then Bytes.
    pub open spec fn spec_best_mode(s: Seq<u8>) -> Mode {
        if numeric_ok(s) {
            Mode::Numeric
        } else if alnum_ok(s) {
            Mode::Alphanumeric
        } else {
            Mode::Bytes
        }
    }

    /// The most restrictive mode that accepts every input byte.
    #[verifier::loop_isolation(false)]
    pub fn best_mode(string: &[u8]) -> (r: Mode)
        ensures
            r == Mode::spec_best_mode(string@),
    {
        let n = string.len();
        let mut all_num = true;
        let mut all_al = true;
        proof {
            assert(string@.take(0) =~= Seq::<u8>::empty());
        }
        let mut i: usize = 0;
        while i < n
            invariant
                i <= n,
                all_num <==> numeric_ok(string@.take(i as int)),
                all_al <==> alnum_ok(string@.take(i as int)),
            decreases n - i,
        {
            let c = string[i];
            proof {
                assert(string@.take(i + 1) =~= string@.take(i as int).push(string@[i as int]));
            }
            if c < 48 || c > 57 {
                all_num = false;
            }
            if alphanumeric_get(c).is_none() {
                all_al = false;
            }
            proof {
                let t1 = string@.take(i + 1);
                let t0 = string@.take(i as int);
                assert(forall|q: int| 0 <= q < i ==> t1[q] == t0[q]);
                assert(t1[i as int] == c);
            }
            i += 1;
        }
        proof {
            assert(string@.take(n as int) =~= string@);
        }
        if all_num {
            Mode::Numeric
        } else if all_al {
            Mode::Alphanumeric
        } else {
            Mode::Bytes
        }
    }
}

/// The bit length of the packed payload for an input of n characters.
pub fn payload_len(mode: Mode, n: usize) -> (r: usize)
    requires
        n <= usize::MAX / 11,
    ensures
        r == spec_payload_len(mode, n as int),
{
    match mode {
        Mode::Numeric => 10 * (n / 3) + (
        if n % 3 == 0 {
            0
        } else if n % 3 == 1 {
            4
        } else {
            7
        }),
        Mode::Alphanumeric => 11 * (n / 2) + 6 * (n % 2),
        Mode::Bytes => 8 * n,
        Mode::Kanji => 0,
    }
}

impl Version {
    /// The first version, scanning upward from 1, whose data capacity at the
    /// given level holds the encoded stream of an input of the given length;
    /// None when none of the 40 versions does.
    #[verifier::loop_isolation(false)]
    #[verifier::rlimit(100)]
    pub fn smallest_version(data_length: usize, ec: ErrorCorrectLv, mode: Mode) -> (r: Option<
        Version,
    >)
        requires
            mode != Mode::Kanji,
        ensures
            r matches Some(v) ==> v.wf() && spec_body_len(data_length as int, mode, v) <= 8
                * v.spec_max_data_bytes(ec),
            r matches Some(v) ==> forall|w: Version|
                w.wf() && w.0 < v.0 ==> #[trigger] spec_body_len(data_length as int, mode, w) > 8
                    * w.spec_max_data_bytes(ec),
            r is None ==> forall|w: Version|
                w.wf() ==> #[trigger] spec_body_len(data_length as int, mode, w) > 8
                    * w.spec_max_data_bytes(ec),
    {
        if data_length >= 7886 {
            proof {
                let n = data_length as int;
                assert(n == 3 * (n / 3) + n % 3);
                assert(n == 2 * (n / 2) + n % 2);
                assert(spec_payload_len(mode, n) >= 3 * n - 7);
                assert forall|w: Version| w.wf() implies #[trigger] spec_body_len(
                    n,
                    mode,
                    w,
                ) > 8 * w.spec_max_data_bytes(ec) by {
                    crate::tables::lemma_max_data_bytes_bound(w, ec);
                }
            }
            return None;
        }
        let pl = payload_len(mode, data_length);
        let mut idx: u8 = 0;
        while idx < 40
            invariant
                idx <= 40,
                pl == spec_payload_len(mode, data_length as int),
                forall|w: Version|
                    w.wf() && w.0 < idx ==> #[trigger] spec_body_len(
                        data_length as int,
                        mode,
                        w,
                    ) > 8 * w.spec_max_data_bytes(ec),
            decreases 40 - idx,
        {
            let v = Version(idx);
            let ccl = v.char_count_length(mode);
            let cap = v.max_data_bytes(ec);
            if 4 + ccl + pl <= 8 * cap {
                return Some(v);
            }
            idx += 1;
        }
        proof {
            assert forall|w: Version| w.wf() implies #[trigger] spec_body_len(
                data_length as int,
                mode,
                w,
            ) > 8 * w.spec_max_data_bytes(ec) by {
                assert(w.0 < 40);
            }
        }
        None
    }
}

/// The byte whose bits, most significant first, stand at positions 8i to
/// 8i+7 of a bit stream.
pub open spec fn pack8(bits: Seq<bool>, i: int) -> u8 {
    ((if bits[8 * i] {
        128u8
    } else {
        0u8
    }) + (if bits[8 * i + 1] {
        64u8
    } else {
        0u8
    }) + (if bits[8 * i + 2] {
        32u8
    } else {
        0u8
    }) + (if bits[8 * i + 3] {
        16u8
    } else {
        0u8
    }) + (if bits[8 * i + 4] {
        8u8
    } else {
        0u8
    }) + (if bits[8 * i + 5] {
        4u8
    } else {
        0u8
    }) + (if bits[8 * i + 6] {
        2u8
    } else {
        0u8
    }) + (if bits[8 * i + 7] {
        1u8
    } else {
        0u8
    })) as u8
}

/// The data codewords of the encoded stream, as bytes.
pub open spec fn spec_codewords(
    s: Seq<u8>,
    mode: Mode,
    version: Version,
    ec: ErrorCorrectLv,
) -> Seq<u8> {
    Seq::new(
        version.spec_max_data_bytes(ec) as nat,
        |i: int| pack8(spec_encoded_stream(s, mode, version, ec), i),
    )
}

/// A byte is the packed form of its own bits.
pub proof fn lemma_byte_repacks(b: u8)
    by (bit_vector)
    ensures
        b == (if (b >> 7u8) & 1 == 1 {
            128u8
        } else {
            0u8
        }) + (if (b >> 6u8) & 1 == 1 {
            64u8
        } else {
            0u8
        }) + (if (b >> 5u8) & 1 == 1 {
            32u8
        } else {
            0u8
        }) + (if (b >> 4u8) & 1 == 1 {
            16u8
        } else {
            0u8
        }) + (if (b >> 3u8) & 1 == 1 {
            8u8
        } else {
            0u8
        }) + (if (b >> 2u8) & 1 == 1 {
            4u8
        } else {
            0u8
        }) + (if (b >> 1u8) & 1 == 1 {
            2u8
        } else {
            0u8
        }) + (if (b >> 0u8) & 1 == 1 {
            1u8
        } else {
            0u8
        }),
{
}

/// A codeword sequence is pinned by its bit stream: equal bits give equal
/// bytes.
pub proof fn lemma_codewords_of_bits(v: Seq<u8>, bits: Seq<bool>)
    requires
        bytes_bits(v) == bits,
    ensures
        v =~= Seq::new(v.len(), |i: int| pack8(bits, i)),
{
    assert forall|i: int| 0 <= i < v.len() implies v[i] == pack8(bits, i) by {
        lemma_byte_repacks(v[i]);
        assert(bits[8 * i] == crate::bits::byte_bit(v[i], 0));
        assert(bits[8 * i + 1] == crate::bits::byte_bit(v[i], 1));
        assert(bits[8 * i + 2] == crate::bits::byte_bit(v[i], 2));
        assert(bits[8 * i + 3] == crate::bits::byte_bit(v[i], 3));
        assert(bits[8 * i + 4] == crate::bits::byte_bit(v[i], 4));
        assert(bits[8 * i + 5] == crate::bits::byte_bit(v[i], 5));
        assert(bits[8 * i + 6] == crate::bits::byte_bit(v[i], 6));
        assert(bits[8 * i + 7] == crate::bits::byte_bit(v[i], 7));
    }
}

/// The encoded stream up to and including byte alignment, before the pad
/// codewords.
pub open spec fn spec_encoded_stream_aligned(
    s: Seq<u8>,
    mode: Mode,
    version: Version,
    ec: ErrorCorrectLv,
) -> Seq<bool> {
    let body = spec_body_bits(s, mode, version);
    let cap = 8 * version.spec_max_data_bytes(ec);
    let t = if cap - body.len() < 4 {
        cap - body.len()
    } else {
        4
    };
    let term = body + zero_bits(t);
    term + zero_bits((8 - term.len() % 8) % 8)
}

} // verus!
