use vstd::prelude::*;

verus! {

/// The value e with the bit of weight b (a power of two) flipped, written
/// with plain arithmetic.
pub open spec fn flip(e: int, b: int) -> int {
    if (e / b) % 2 == 0 {
        e + b
    } else {
        e - b
    }
}

/// One multiplication by the field's generator element alpha: doubling with
/// reduction by the QR primitive polynomial x^8+x^4+x^3+x^2+1 (0x11D).
/// Reducing XORs the low byte of 0x11D into the doubled value, which flips
/// the bits of weight 1, 4, 8 and 16.
pub open spec fn gf_double(x: u8) -> u8 {
    if x < 128 {
        (2 * x) as u8
    } else {
        flip(flip(flip(flip(2 * x - 256, 1), 4), 8), 16) as u8
    }
}

proof fn lemma_double_bits(x: u8)
    by (bit_vector)
    ensures
        x < 128 ==> (x << 1) == gf_double(x),
        x >= 128 ==> ((x << 1) ^ 29) == gf_double(x),
{
}

/// alpha raised to the power e.
pub open spec fn pow_alpha(e: nat) -> u8
    decreases e,
{
    if e == 0 {
        1
    } else {
        gf_double(pow_alpha((e - 1) as nat))
    }
}

/// The smallest exponent x with e <= x < 255 and alpha^x == v, or 0 when
/// there is none.
pub open spec fn log_search(v: u8, e: nat) -> u8
    decreases 255 - e,
{
    if e >= 255 {
        0
    } else if pow_alpha(e) == v {
        e as u8
    } else {
        log_search(v, e + 1)
    }
}

/// The discrete logarithm of v to base alpha, with the convention that
/// unreachable values (only 0, for a generator of the multiplicative group)
/// map to 0.
pub open spec fn log_alpha(v: u8) -> u8 {
    log_search(v, 0)
}

/// alpha^e, computed by repeated doubling.
pub fn antilog(e: u8) -> (r: u8)
    ensures
        r == pow_alpha(e as nat),
{
    let mut cur: u8 = 1;
    let mut i: u8 = 0;
    while i < e
        invariant
            i <= e,
            cur == pow_alpha(i as nat),
        decreases e - i,
    {
        proof {
            lemma_double_bits(cur);
        }
        cur = if cur < 128 {
            cur << 1
        } else {
            (cur << 1) ^ 29
        };
        i = i + 1;
    }
    cur
}

proof fn lemma_log_skip(v: u8, e: nat)
    requires
        e <= 255,
        forall|j: nat| j < e ==> pow_alpha(j) != v,
    ensures
        log_search(v, 0) == log_search(v, e),
    decreases e,
{
    if e > 0 {
        assert(pow_alpha((e - 1) as nat) != v);
        lemma_log_skip(v, (e - 1) as nat);
    }
}

/// The discrete logarithm of v, by searching the powers of alpha in order.
pub fn log(v: u8) -> (r: u8)
    ensures
        r == log_alpha(v),
{
    let mut cur: u8 = 1;
    let mut e: u8 = 0;
    while e < 255
        invariant
            e <= 255,
            cur == pow_alpha(e as nat),
            forall|j: nat| j < e ==> pow_alpha(j) != v,
        decreases 255 - e,
    {
        if cur == v {
            proof {
                lemma_log_skip(v, e as nat);
            }
            return e;
        }
        proof {
            lemma_double_bits(cur);
        }
        cur = if cur < 128 {
            cur << 1
        } else {
            (cur << 1) ^ 29
        };
        e = e + 1;
    }
    proof {
        lemma_log_skip(v, 255);
    }
    0
}

/// Folds a sum of two exponents (each at most 255, so the sum is at most 510)
/// back into the 0..=255 range the antilog table is indexed by, using the
/// 255-periodicity of the powers of alpha.
pub open spec fn fold255(d: int) -> int {
    d % 256 + d / 256
}

/// The coefficients, in alpha-exponent form and lowest degree first, of the
/// degree-n Reed-Solomon generator polynomial, derived from the degree-(n-1)
/// coefficients by one multiplication with (x - alpha^(n-1)) carried out in
/// the log domain. The final entry 0 stands for the leading coefficient
/// alpha^0.
pub open spec fn gen_step(last: Seq<u8>, n: int) -> Seq<u8> {
    Seq::new(
        (n + 1) as nat,
        |i: int|
            if i == 0 {
                fold255(last[0] + n - 1) as u8
            } else if i < n {
                log_alpha(
                    pow_alpha(last[i - 1] as nat) ^ pow_alpha(fold255(last[i] + n - 1) as nat),
                )
            } else {
                0u8
            },
    )
}

/// The coefficients of the degree-n generator polynomial, built incrementally
/// from the single root alpha^0 for n == 1.
pub open spec fn gen_coeffs(n: int) -> Seq<u8>
    decreases n,
{
    if n <= 1 {
        seq![0u8, 0u8]
    } else {
        gen_step(gen_coeffs(n - 1), n)
    }
}

/// The degree-n generator polynomial has n+1 coefficients, and for n == 1
/// it is the single-root form x + alpha^0: both stored exponents are 0.
pub proof fn lemma_generator_polynomial(n: int)
    requires
        1 <= n <= 255,
    ensures
        gen_coeffs(n).len() == n + 1,
        gen_coeffs(1) == seq![0u8, 0u8],
    decreases n,
{
    if n > 1 {
        lemma_generator_polynomial(n - 1);
    }
}

/// The n+1 coefficients of the degree-n generator polynomial, in
/// alpha-exponent form and lowest degree first.
pub fn generator_coefficients(n: usize) -> (r: Vec<u8>)
    requires
        1 <= n <= 255,
    ensures
        r@ == gen_coeffs(n as int),
        r@.len() == n + 1,
{
    let mut last: Vec<u8> = Vec::new();
    last.push(0);
    last.push(0);
    assert(last@ =~= gen_coeffs(1));
    let mut m: usize = 1;
    while m < n
        invariant
            1 <= m <= n,
            n <= 255,
            last@ == gen_coeffs(m as int),
            last@.len() == m + 1,
        decreases n - m,
    {
        let deg = m + 1;
        let mut this: Vec<u8> = vec![0u8; deg + 1];
        let j0 = last[0] as usize + deg - 1;
        assert(j0 % 256 + j0 / 256 <= 255);
        this.set(0, (j0 % 256 + j0 / 256) as u8);
        let mut i: usize = 1;
        while i < deg
            invariant
                1 <= i <= deg,
                deg == m + 1,
                m < n <= 255,
                last@ == gen_coeffs(m as int),
                last@.len() == m + 1,
                this@.len() == deg + 1,
                forall|k: int| 0 <= k < i ==> this@[k] == gen_step(last@, deg as int)[k],
                forall|k: int| i <= k <= deg ==> this@[k] == 0,
            decreases deg - i,
        {
            let j = last[i] as usize + deg - 1;
            assert(j % 256 + j / 256 <= 255);
            let a = antilog(last[i - 1]);
            let b = antilog((j % 256 + j / 256) as u8);
            this.set(i, log(a ^ b));
            i += 1;
        }
        proof {
            assert(this@ =~= gen_step(last@, deg as int));
        }
        last = this;
        m = deg;
    }
    last
}

/// The next four lemmas evaluate the 255 powers of alpha, one doubling at a
/// time; together they list the whole antilog table.
proof fn lemma_pow_facts_a()
    ensures
        pow_alpha(0) == 1,
        pow_alpha(1) == 2,
        pow_alpha(2) == 4,
        pow_alpha(3) == 8,
        pow_alpha(4) == 16,
        pow_alpha(5) == 32,
        pow_alpha(6) == 64,
        pow_alpha(7) == 128,
        pow_alpha(8) == 29,
        pow_alpha(9) == 58,
        pow_alpha(10) == 116,
        pow_alpha(11) == 232,
        pow_alpha(12) == 205,
        pow_alpha(13) == 135,
        pow_alpha(14) == 19,
        pow_alpha(15) == 38,
        pow_alpha(16) == 76,
        pow_alpha(17) == 152,
        pow_alpha(18) == 45,
        pow_alpha(19) == 90,
        pow_alpha(20) == 180,
        pow_alpha(21) == 117,
        pow_alpha(22) == 234,
        pow_alpha(23) == 201,
        pow_alpha(24) == 143,
        pow_alpha(25) == 3,
        pow_alpha(26) == 6,
        pow_alpha(27) == 12,
        pow_alpha(28) == 24,
        pow_alpha(29) == 48,
        pow_alpha(30) == 96,
        pow_alpha(31) == 192,
        pow_alpha(32) == 157,
        pow_alpha(33) == 39,
        pow_alpha(34) == 78,
        pow_alpha(35) == 156,
        pow_alpha(36) == 37,
        pow_alpha(37) == 74,
        pow_alpha(38) == 148,
        pow_alpha(39) == 53,
        pow_alpha(40) == 106,
        pow_alpha(41) == 212,
        pow_alpha(42) == 181,
        pow_alpha(43) == 119,
        pow_alpha(44) == 238,
        pow_alpha(45) == 193,
        pow_alpha(46) == 159,
        pow_alpha(47) == 35,
        pow_alpha(48) == 70,
        pow_alpha(49) == 140,
        pow_alpha(50) == 5,
        pow_alpha(51) == 10,
        pow_alpha(52) == 20,
        pow_alpha(53) == 40,
        pow_alpha(54) == 80,
        pow_alpha(55) == 160,
        pow_alpha(56) == 93,
        pow_alpha(57) == 186,
        pow_alpha(58) == 105,
        pow_alpha(59) == 210,
        pow_alpha(60) == 185,
        pow_alpha(61) == 111,
        pow_alpha(62) == 222,
        pow_alpha(63) == 161,
{
    assert(pow_alpha(0) == 1);
    assert(pow_alpha(1) == 2);
    assert(pow_alpha(2) == 4);
    assert(pow_alpha(3) == 8);
    assert(pow_alpha(4) == 16);
    assert(pow_alpha(5) == 32);
    assert(pow_alpha(6) == 64);
    assert(pow_alpha(7) == 128);
    assert(pow_alpha(8) == 29);
    assert(pow_alpha(9) == 58);
    assert(pow_alpha(10) == 116);
    assert(pow_alpha(11) == 232);
    assert(pow_alpha(12) == 205);
    assert(pow_alpha(13) == 135);
    assert(pow_alpha(14) == 19);
    assert(pow_alpha(15) == 38);
    assert(pow_alpha(16) == 76);
    assert(pow_alpha(17) == 152);
    assert(pow_alpha(18) == 45);
    assert(pow_alpha(19) == 90);
    assert(pow_alpha(20) == 180);
    assert(pow_alpha(21) == 117);
    assert(pow_alpha(22) == 234);
    assert(pow_alpha(23) == 201);
    assert(pow_alpha(24) == 143);
    assert(pow_alpha(25) == 3);
    assert(pow_alpha(26) == 6);
    assert(pow_alpha(27) == 12);
    assert(pow_alpha(28) == 24);
    assert(pow_alpha(29) == 48);
    assert(pow_alpha(30) == 96);
    assert(pow_alpha(31) == 192);
    assert(pow_alpha(32) == 157);
    assert(pow_alpha(33) == 39);
    assert(pow_alpha(34) == 78);
    assert(pow_alpha(35) == 156);
    assert(pow_alpha(36) == 37);
    assert(pow_alpha(37) == 74);
    assert(pow_alpha(38) == 148);
    assert(pow_alpha(39) == 53);
    assert(pow_alpha(40) == 106);
    assert(pow_alpha(41) == 212);
    assert(pow_alpha(42) == 181);
    assert(pow_alpha(43) == 119);
    assert(pow_alpha(44) == 238);
    assert(pow_alpha(45) == 193);
    assert(pow_alpha(46) == 159);
    assert(pow_alpha(47) == 35);
    assert(pow_alpha(48) == 70);
    assert(pow_alpha(49) == 140);
    assert(pow_alpha(50) == 5);
    assert(pow_alpha(51) == 10);
    assert(pow_alpha(52) == 20);
    assert(pow_alpha(53) == 40);
    assert(pow_alpha(54) == 80);
    assert(pow_alpha(55) == 160);
    assert(pow_alpha(56) == 93);
    assert(pow_alpha(57) == 186);
    assert(pow_alpha(58) == 105);
    assert(pow_alpha(59) == 210);
    assert(pow_alpha(60) == 185);
    assert(pow_alpha(61) == 111);
    assert(pow_alpha(62) == 222);
    assert(pow_alpha(63) == 161);
}

proof fn lemma_pow_facts_b()
    ensures
        pow_alpha(64) == 95,
        pow_alpha(65) == 190,
        pow_alpha(66) == 97,
        pow_alpha(67) == 194,
        pow_alpha(68) == 153,
        pow_alpha(69) == 47,
        pow_alpha(70) == 94,
        pow_alpha(71) == 188,
        pow_alpha(72) == 101,
        pow_alpha(73) == 202,
        pow_alpha(74) == 137,
        pow_alpha(75) == 15,
        pow_alpha(76) == 30,
        pow_alpha(77) == 60,
        pow_alpha(78) == 120,
        pow_alpha(79) == 240,
        pow_alpha(80) == 253,
        pow_alpha(81) == 231,
        pow_alpha(82) == 211,
        pow_alpha(83) == 187,
        pow_alpha(84) == 107,
        pow_alpha(85) == 214,
        pow_alpha(86) == 177,
        pow_alpha(87) == 127,
        pow_alpha(88) == 254,
        pow_alpha(89) == 225,
        pow_alpha(90) == 223,
        pow_alpha(91) == 163,
        pow_alpha(92) == 91,
        pow_alpha(93) == 182,
        pow_alpha(94) == 113,
        pow_alpha(95) == 226,
        pow_alpha(96) == 217,
        pow_alpha(97) == 175,
        pow_alpha(98) == 67,
        pow_alpha(99) == 134,
        pow_alpha(100) == 17,
        pow_alpha(101) == 34,
        pow_alpha(102) == 68,
        pow_alpha(103) == 136,
        pow_alpha(104) == 13,
        pow_alpha(105) == 26,
        pow_alpha(106) == 52,
        pow_alpha(107) == 104,
        pow_alpha(108) == 208,
        pow_alpha(109) == 189,
        pow_alpha(110) == 103,
        pow_alpha(111) == 206,
        pow_alpha(112) == 129,
        pow_alpha(113) == 31,
        pow_alpha(114) == 62,
        pow_alpha(115) == 124,
        pow_alpha(116) == 248,
        pow_alpha(117) == 237,
        pow_alpha(118) == 199,
        pow_alpha(119) == 147,
        pow_alpha(120) == 59,
        pow_alpha(121) == 118,
        pow_alpha(122) == 236,
        pow_alpha(123) == 197,
        pow_alpha(124) == 151,
        pow_alpha(125) == 51,
        pow_alpha(126) == 102,
        pow_alpha(127) == 204,
{
    lemma_pow_facts_a();
    assert(pow_alpha(64) == 95);
    assert(pow_alpha(65) == 190);
    assert(pow_alpha(66) == 97);
    assert(pow_alpha(67) == 194);
    assert(pow_alpha(68) == 153);
    assert(pow_alpha(69) == 47);
    assert(pow_alpha(70) == 94);
    assert(pow_alpha(71) == 188);
    assert(pow_alpha(72) == 101);
    assert(pow_alpha(73) == 202);
    assert(pow_alpha(74) == 137);
    assert(pow_alpha(75) == 15);
    assert(pow_alpha(76) == 30);
    assert(pow_alpha(77) == 60);
    assert(pow_alpha(78) == 120);
    assert(pow_alpha(79) == 240);
    assert(pow_alpha(80) == 253);
    assert(pow_alpha(81) == 231);
    assert(pow_alpha(82) == 211);
    assert(pow_alpha(83) == 187);
    assert(pow_alpha(84) == 107);
    assert(pow_alpha(85) == 214);
    assert(pow_alpha(86) == 177);
    assert(pow_alpha(87) == 127);
    assert(pow_alpha(88) == 254);
    assert(pow_alpha(89) == 225);
    assert(pow_alpha(90) == 223);
    assert(pow_alpha(91) == 163);
    assert(pow_alpha(92) == 91);
    assert(pow_alpha(93) == 182);
    assert(pow_alpha(94) == 113);
    assert(pow_alpha(95) == 226);
    assert(pow_alpha(96) == 217);
    assert(pow_alpha(97) == 175);
    assert(pow_alpha(98) == 67);
    assert(pow_alpha(99) == 134);
    assert(pow_alpha(100) == 17);
    assert(pow_alpha(101) == 34);
    assert(pow_alpha(102) == 68);
    assert(pow_alpha(103) == 136);
    assert(pow_alpha(104) == 13);
    assert(pow_alpha(105) == 26);
    assert(pow_alpha(106) == 52);
    assert(pow_alpha(107) == 104);
    assert(pow_alpha(108) == 208);
    assert(pow_alpha(109) == 189);
    assert(pow_alpha(110) == 103);
    assert(pow_alpha(111) == 206);
    assert(pow_alpha(112) == 129);
    assert(pow_alpha(113) == 31);
    assert(pow_alpha(114) == 62);
    assert(pow_alpha(115) == 124);
    assert(pow_alpha(116) == 248);
    assert(pow_alpha(117) == 237);
    assert(pow_alpha(118) == 199);
    assert(pow_alpha(119) == 147);
    assert(pow_alpha(120) == 59);
    assert(pow_alpha(121) == 118);
    assert(pow_alpha(122) == 236);
    assert(pow_alpha(123) == 197);
    assert(pow_alpha(124) == 151);
    assert(pow_alpha(125) == 51);
    assert(pow_alpha(126) == 102);
    assert(pow_alpha(127) == 204);
}

proof fn lemma_pow_facts_c()
    ensures
        pow_alpha(128) == 133,
        pow_alpha(129) == 23,
        pow_alpha(130) == 46,
        pow_alpha(131) == 92,
        pow_alpha(132) == 184,
        pow_alpha(133) == 109,
        pow_alpha(134) == 218,
        pow_alpha(135) == 169,
        pow_alpha(136) == 79,
        pow_alpha(137) == 158,
        pow_alpha(138) == 33,
        pow_alpha(139) == 66,
        pow_alpha(140) == 132,
        pow_alpha(141) == 21,
        pow_alpha(142) == 42,
        pow_alpha(143) == 84,
        pow_alpha(144) == 168,
        pow_alpha(145) == 77,
        pow_alpha(146) == 154,
        pow_alpha(147) == 41,
        pow_alpha(148) == 82,
        pow_alpha(149) == 164,
        pow_alpha(150) == 85,
        pow_alpha(151) == 170,
        pow_alpha(152) == 73,
        pow_alpha(153) == 146,
        pow_alpha(154) == 57,
        pow_alpha(155) == 114,
        pow_alpha(156) == 228,
        pow_alpha(157) == 213,
        pow_alpha(158) == 183,
        pow_alpha(159) == 115,
        pow_alpha(160) == 230,
        pow_alpha(161) == 209,
        pow_alpha(162) == 191,
        pow_alpha(163) == 99,
        pow_alpha(164) == 198,
        pow_alpha(165) == 145,
        pow_alpha(166) == 63,
        pow_alpha(167) == 126,
        pow_alpha(168) == 252,
        pow_alpha(169) == 229,
        pow_alpha(170) == 215,
        pow_alpha(171) == 179,
        pow_alpha(172) == 123,
        pow_alpha(173) == 246,
        pow_alpha(174) == 241,
        pow_alpha(175) == 255,
        pow_alpha(176) == 227,
        pow_alpha(177) == 219,
        pow_alpha(178) == 171,
        pow_alpha(179) == 75,
        pow_alpha(180) == 150,
        pow_alpha(181) == 49,
        pow_alpha(182) == 98,
        pow_alpha(183) == 196,
        pow_alpha(184) == 149,
        pow_alpha(185) == 55,
        pow_alpha(186) == 110,
        pow_alpha(187) == 220,
        pow_alpha(188) == 165,
        pow_alpha(189) == 87,
        pow_alpha(190) == 174,
        pow_alpha(191) == 65,
{
    lemma_pow_facts_b();
    assert(pow_alpha(128) == 133);
    assert(pow_alpha(129) == 23);
    assert(pow_alpha(130) == 46);
    assert(pow_alpha(131) == 92);
    assert(pow_alpha(132) == 184);
    assert(pow_alpha(133) == 109);
    assert(pow_alpha(134) == 218);
    assert(pow_alpha(135) == 169);
    assert(pow_alpha(136) == 79);
    assert(pow_alpha(137) == 158);
    assert(pow_alpha(138) == 33);
    assert(pow_alpha(139) == 66);
    assert(pow_alpha(140) == 132);
    assert(pow_alpha(141) == 21);
    assert(pow_alpha(142) == 42);
    assert(pow_alpha(143) == 84);
    assert(pow_alpha(144) == 168);
    assert(pow_alpha(145) == 77);
    assert(pow_alpha(146) == 154);
    assert(pow_alpha(147) == 41);
    assert(pow_alpha(148) == 82);
    assert(pow_alpha(149) == 164);
    assert(pow_alpha(150) == 85);
    assert(pow_alpha(151) == 170);
    assert(pow_alpha(152) == 73);
    assert(pow_alpha(153) == 146);
    assert(pow_alpha(154) == 57);
    assert(pow_alpha(155) == 114);
    assert(pow_alpha(156) == 228);
    assert(pow_alpha(157) == 213);
    assert(pow_alpha(158) == 183);
    assert(pow_alpha(159) == 115);
    assert(pow_alpha(160) == 230);
    assert(pow_alpha(161) == 209);
    assert(pow_alpha(162) == 191);
    assert(pow_alpha(163) == 99);
    assert(pow_alpha(164) == 198);
    assert(pow_alpha(165) == 145);
    assert(pow_alpha(166) == 63);
    assert(pow_alpha(167) == 126);
    assert(pow_alpha(168) == 252);
    assert(pow_alpha(169) == 229);
    assert(pow_alpha(170) == 215);
    assert(pow_alpha(171) == 179);
    assert(pow_alpha(172) == 123);
    assert(pow_alpha(173) == 246);
    assert(pow_alpha(174) == 241);
    assert(pow_alpha(175) == 255);
    assert(pow_alpha(176) == 227);
    assert(pow_alpha(177) == 219);
    assert(pow_alpha(178) == 171);
    assert(pow_alpha(179) == 75);
    assert(pow_alpha(180) == 150);
    assert(pow_alpha(181) == 49);
    assert(pow_alpha(182) == 98);
    assert(pow_alpha(183) == 196);
    assert(pow_alpha(184) == 149);
    assert(pow_alpha(185) == 55);
    assert(pow_alpha(186) == 110);
    assert(pow_alpha(187) == 220);
    assert(pow_alpha(188) == 165);
    assert(pow_alpha(189) == 87);
    assert(pow_alpha(190) == 174);
    assert(pow_alpha(191) == 65);
}

proof fn lemma_pow_facts_d()
    ensures
        pow_alpha(192) == 130,
        pow_alpha(193) == 25,
        pow_alpha(194) == 50,
        pow_alpha(195) == 100,
        pow_alpha(196) == 200,
        pow_alpha(197) == 141,
        pow_alpha(198) == 7,
        pow_alpha(199) == 14,
        pow_alpha(200) == 28,
        pow_alpha(201) == 56,
        pow_alpha(202) == 112,
        pow_alpha(203) == 224,
        pow_alpha(204) == 221,
        pow_alpha(205) == 167,
        pow_alpha(206) == 83,
        pow_alpha(207) == 166,
        pow_alpha(208) == 81,
        pow_alpha(209) == 162,
        pow_alpha(210) == 89,
        pow_alpha(211) == 178,
        pow_alpha(212) == 121,
        pow_alpha(213) == 242,
        pow_alpha(214) == 249,
        pow_alpha(215) == 239,
        pow_alpha(216) == 195,
        pow_alpha(217) == 155,
        pow_alpha(218) == 43,
        pow_alpha(219) == 86,
        pow_alpha(220) == 172,
        pow_alpha(221) == 69,
        pow_alpha(222) == 138,
        pow_alpha(223) == 9,
        pow_alpha(224) == 18,
        pow_alpha(225) == 36,
        pow_alpha(226) == 72,
        pow_alpha(227) == 144,
        pow_alpha(228) == 61,
        pow_alpha(229) == 122,
        pow_alpha(230) == 244,
        pow_alpha(231) == 245,
        pow_alpha(232) == 247,
        pow_alpha(233) == 243,
        pow_alpha(234) == 251,
        pow_alpha(235) == 235,
        pow_alpha(236) == 203,
        pow_alpha(237) == 139,
        pow_alpha(238) == 11,
        pow_alpha(239) == 22,
        pow_alpha(240) == 44,
        pow_alpha(241) == 88,
        pow_alpha(242) == 176,
        pow_alpha(243) == 125,
        pow_alpha(244) == 250,
        pow_alpha(245) == 233,
        pow_alpha(246) == 207,
        pow_alpha(247) == 131,
        pow_alpha(248) == 27,
        pow_alpha(249) == 54,
        pow_alpha(250) == 108,
        pow_alpha(251) == 216,
        pow_alpha(252) == 173,
        pow_alpha(253) == 71,
        pow_alpha(254) == 142,
{
    lemma_pow_facts_c();
    assert(pow_alpha(192) == 130);
    assert(pow_alpha(193) == 25);
    assert(pow_alpha(194) == 50);
    assert(pow_alpha(195) == 100);
    assert(pow_alpha(196) == 200);
    assert(pow_alpha(197) == 141);
    assert(pow_alpha(198) == 7);
    assert(pow_alpha(199) == 14);
    assert(pow_alpha(200) == 28);
    assert(pow_alpha(201) == 56);
    assert(pow_alpha(202) == 112);
    assert(pow_alpha(203) == 224);
    assert(pow_alpha(204) == 221);
    assert(pow_alpha(205) == 167);
    assert(pow_alpha(206) == 83);
    assert(pow_alpha(207) == 166);
    assert(pow_alpha(208) == 81);
    assert(pow_alpha(209) == 162);
    assert(pow_alpha(210) == 89);
    assert(pow_alpha(211) == 178);
    assert(pow_alpha(212) == 121);
    assert(pow_alpha(213) == 242);
    assert(pow_alpha(214) == 249);
    assert(pow_alpha(215) == 239);
    assert(pow_alpha(216) == 195);
    assert(pow_alpha(217) == 155);
    assert(pow_alpha(218) == 43);
    assert(pow_alpha(219) == 86);
    assert(pow_alpha(220) == 172);
    assert(pow_alpha(221) == 69);
    assert(pow_alpha(222) == 138);
    assert(pow_alpha(223) == 9);
    assert(pow_alpha(224) == 18);
    assert(pow_alpha(225) == 36);
    assert(pow_alpha(226) == 72);
    assert(pow_alpha(227) == 144);
    assert(pow_alpha(228) == 61);
    assert(pow_alpha(229) == 122);
    assert(pow_alpha(230) == 244);
    assert(pow_alpha(231) == 245);
    assert(pow_alpha(232) == 247);
    assert(pow_alpha(233) == 243);
    assert(pow_alpha(234) == 251);
    assert(pow_alpha(235) == 235);
    assert(pow_alpha(236) == 203);
    assert(pow_alpha(237) == 139);
    assert(pow_alpha(238) == 11);
    assert(pow_alpha(239) == 22);
    assert(pow_alpha(240) == 44);
    assert(pow_alpha(241) == 88);
    assert(pow_alpha(242) == 176);
    assert(pow_alpha(243) == 125);
    assert(pow_alpha(244) == 250);
    assert(pow_alpha(245) == 233);
    assert(pow_alpha(246) == 207);
    assert(pow_alpha(247) == 131);
    assert(pow_alpha(248) == 27);
    assert(pow_alpha(249) == 54);
    assert(pow_alpha(250) == 108);
    assert(pow_alpha(251) == 216);
    assert(pow_alpha(252) == 173);
    assert(pow_alpha(253) == 71);
    assert(pow_alpha(254) == 142);
}

/// Every nonzero field element is a power of alpha with exponent below 255.
proof fn lemma_alpha_surjective(v: u8)
    requires
        1 <= v,
    ensures
        exists|e: nat| e < 255 && pow_alpha(e) == v,
{
    lemma_pow_facts_a();
    lemma_pow_facts_b();
    lemma_pow_facts_c();
    lemma_pow_facts_d();
    if v == 1 {
        assert(exists|e: nat| e < 255 && pow_alpha(e) == v) by {
            assert(pow_alpha(0) == v);
        }
    } else if v == 2 {
        assert(exists|e: nat| e < 255 && pow_alpha(e) == v) by {
            assert(pow_alpha(1) == v);
        }
    } else if v == 4 {
        assert(exists|e: nat| e < 255 && pow_alpha(e) == v) by {
            assert(pow_alpha(2) == v);
        }
    } else if v == 8 {
        assert(exists|e: nat| e < 255 && pow_alpha(e) == v) by {
            assert(pow_alpha(3) == v);
        }
    } else if v == 16 {
        assert(exists|e: nat| e < 255 && pow_alpha(e) == v) by {
            assert(pow_alpha(4) == v);
        }
    } else if v == 32 {
        assert(exists|e: nat| e < 255 && pow_alpha(e) == v) by {
            assert(pow_alpha(5) == v);
        }
    } else if v == 64 {
        assert(exists|e: nat| e < 255 && pow_alpha(e) == v) by {
            assert(pow_alpha(6) == v);
        }
    } else if v == 128 {
        assert(exists|e: nat| e < 255 && pow_alpha(e) == v) by {
            assert(pow_alpha(7) == v);
        }
    } else if v == 29 {
        assert(exists|e: nat| e < 255 && pow_alpha(e) == v) by {
            assert(pow_alpha(8) == v);
        }
    } else if v == 58 {
        assert(exists|e: nat| e < 255 && pow_alpha(e) == v) by {
            assert(pow_alpha(9) == v);
        }
    } else if v == 116 {
        assert(exists|e: nat| e < 255 && pow_alpha(e) == v) by {
            assert(pow_alpha(10) == v);
        }
    } else if v == 232 {
        assert(exists|e: nat| e < 255 && pow_alpha(e) == v) by {
            assert(pow_alpha(11) == v);
        }
    } else if v == 205 {
        assert(exists|e: nat| e < 255 && pow_alpha(e) == v) by {
            assert(pow_alpha(12) == v);
        }
    } else if v == 135 {
        assert(exists|e: nat| e < 255 && pow_alpha(e) == v) by {
            assert(pow_alpha(13) == v);
        }
    } else if v == 19 {
        assert(exists|e: nat| e < 255 && pow_alpha(e) == v) by {
            assert(pow_alpha(14) == v);
        }
    } else if v == 38 {
        assert(exists|e: nat| e < 255 && pow_alpha(e) == v) by {
            assert(pow_alpha(15) == v);
        }
    } else if v == 76 {
        assert(exists|e: nat| e < 255 && pow_alpha(e) == v) by {
            assert(pow_alpha(16) == v);
        }
    } else if v == 152 {
        assert(exists|e: nat| e < 255 && pow_alpha(e) == v) by {
            assert(pow_alpha(17) == v);
        }
    } else if v == 45 {
        assert(exists|e: nat| e < 255 && pow_alpha(e) == v) by {
            assert(pow_alpha(18) == v);
        }
    } else if v == 90 {
        assert(exists|e: nat| e < 255 && pow_alpha(e) == v) by {
            assert(pow_alpha(19) == v);
        }
    } else if v == 180 {
        assert(exists|e: nat| e < 255 && pow_alpha(e) == v) by {
            assert(pow_alpha(20) == v);
        }
    } else if v == 117 {
        assert(exists|e: nat| e < 255 && pow_alpha(e) == v) by {
            assert(pow_alpha(21) == v);
        }
    } else if v == 234 {
        assert(exists|e: nat| e < 255 && pow_alpha(e) == v) by {
            assert(pow_alpha(22) == v);
        }
    } else if v == 201 {
        assert(exists|e: nat| e < 255 && pow_alpha(e) == v) by {
            assert(pow_alpha(23) == v);
        }
    } else if v == 143 {
        assert(exists|e: nat| e < 255 && pow_alpha(e) == v) by {
            assert(pow_alpha(24) == v);
        }
    } else if v == 3 {
        assert(exists|e: nat| e < 255 && pow_alpha(e) == v) by {
            assert(pow_alpha(25) == v);
        }
    } else if v == 6 {
        assert(exists|e: nat| e < 255 && pow_alpha(e) == v) by {
            assert(pow_alpha(26) == v);
        }
    } else if v == 12 {
        assert(exists|e: nat| e < 255 && pow_alpha(e) == v) by {
            assert(pow_alpha(27) == v);
        }
    } else if v == 24 {
        assert(exists|e: nat| e < 255 && pow_alpha(e) == v) by {
            assert(pow_alpha(28) == v);
        }
    } else if v == 48 {
        assert(exists|e: nat| e < 255 && pow_alpha(e) == v) by {
            assert(pow_alpha(29) == v);
        }
    } else if v == 96 {
        assert(exists|e: nat| e < 255 && pow_alpha(e) == v) by {
            assert(pow_alpha(30) == v);
        }
    } else if v == 192 {
        assert(exists|e: nat| e < 255 && pow_alpha(e) == v) by {
            assert(pow_alpha(31) == v);
        }
    } else if v == 157 {
        assert(exists|e: nat| e < 255 && pow_alpha(e) == v) by {
            assert(pow_alpha(32) == v);
        }
    } else if v == 39 {
        assert(exists|e: nat| e < 255 && pow_alpha(e) == v) by {
            assert(pow_alpha(33) == v);
        }
    } else if v == 78 {
        assert(exists|e: nat| e < 255 && pow_alpha(e) == v) by {
            assert(pow_alpha(34) == v);
        }
    } else if v == 156 {
        assert(exists|e: nat| e < 255 && pow_alpha(e) == v) by {
            assert(pow_alpha(35) == v);
        }
    } else if v == 37 {
        assert(exists|e: nat| e < 255 && pow_alpha(e) == v) by {
            assert(pow_alpha(36) == v);
        }
    } else if v == 74 {
        assert(exists|e: nat| e < 255 && pow_alpha(e) == v) by {
            assert(pow_alpha(37) == v);
        }
    } else if v == 148 {
        assert(exists|e: nat| e < 255 && pow_alpha(e) == v) by {
            assert(pow_alpha(38) == v);
        }
    } else if v == 53 {
        assert(exists|e: nat| e < 255 && pow_alpha(e) == v) by {
            assert(pow_alpha(39) == v);
        }
    } else if v == 106 {
        assert(exists|e: nat| e < 255 && pow_alpha(e) == v) by {
            assert(pow_alpha(40) == v);
        }
    } else if v == 212 {
        assert(exists|e: nat| e < 255 && pow_alpha(e) == v) by {
            assert(pow_alpha(41) == v);
        }
    } else if v == 181 {
        assert(exists|e: nat| e < 255 && pow_alpha(e) == v) by {
            assert(pow_alpha(42) == v);
        }
    } else if v == 119 {
        assert(exists|e: nat| e < 255 && pow_alpha(e) == v) by {
            assert(pow_alpha(43) == v);
        }
    } else if v == 238 {
        assert(exists|e: nat| e < 255 && pow_alpha(e) == v) by {
            assert(pow_alpha(44) == v);
        }
    } else if v == 193 {
        assert(exists|e: nat| e < 255 && pow_alpha(e) == v) by {
            assert(pow_alpha(45) == v);
        }
    } else if v == 159 {
        assert(exists|e: nat| e < 255 && pow_alpha(e) == v) by {
            assert(pow_alpha(46) == v);
        }
    } else if v == 35 {
        assert(exists|e: nat| e < 255 && pow_alpha(e) == v) by {
            assert(pow_alpha(47) == v);
        }
    } else if v == 70 {
        assert(exists|e: nat| e < 255 && pow_alpha(e) == v) by {
            assert(pow_alpha(48) == v);
        }
    } else if v == 140 {
        assert(exists|e: nat| e < 255 && pow_alpha(e) == v) by {
            assert(pow_alpha(49) == v);
        }
    } else if v == 5 {
        assert(exists|e: nat| e < 255 && pow_alpha(e) == v) by {
            assert(pow_alpha(50) == v);
        }
    } else if v == 10 {
        assert(exists|e: nat| e < 255 && pow_alpha(e) == v) by {
            assert(pow_alpha(51) == v);
        }
    } else if v == 20 {
        assert(exists|e: nat| e < 255 && pow_alpha(e) == v) by {
            assert(pow_alpha(52) == v);
        }
    } else if v == 40 {
        assert(exists|e: nat| e < 255 && pow_alpha(e) == v) by {
            assert(pow_alpha(53) == v);
        }
    } else if v == 80 {
        assert(exists|e: nat| e < 255 && pow_alpha(e) == v) by {
            assert(pow_alpha(54) == v);
        }
    } else if v == 160 {
        assert(exists|e: nat| e < 255 && pow_alpha(e) == v) by {
            assert(pow_alpha(55) == v);
        }
    } else if v == 93 {
        assert(exists|e: nat| e < 255 && pow_alpha(e) == v) by {
            assert(pow_alpha(56) == v);
        }
    } else if v == 186 {
        assert(exists|e: nat| e < 255 && pow_alpha(e) == v) by {
            assert(pow_alpha(57) == v);
        }
    } else if v == 105 {
        assert(exists|e: nat| e < 255 && pow_alpha(e) == v) by {
            assert(pow_alpha(58) == v);
        }
    } else if v == 210 {
        assert(exists|e: nat| e < 255 && pow_alpha(e) == v) by {
            assert(pow_alpha(59) == v);
        }
    } else if v == 185 {
        assert(exists|e: nat| e < 255 && pow_alpha(e) == v) by {
            assert(pow_alpha(60) == v);
        }
    } else if v == 111 {
        assert(exists|e: nat| e < 255 && pow_alpha(e) == v) by {
            assert(pow_alpha(61) == v);
        }
    } else if v == 222 {
        assert(exists|e: nat| e < 255 && pow_alpha(e) == v) by {
            assert(pow_alpha(62) == v);
        }
    } else if v == 161 {
        assert(exists|e: nat| e < 255 && pow_alpha(e) == v) by {
            assert(pow_alpha(63) == v);
        }
    } else if v == 95 {
        assert(exists|e: nat| e < 255 && pow_alpha(e) == v) by {
            assert(pow_alpha(64) == v);
        }
    } else if v == 190 {
        assert(exists|e: nat| e < 255 && pow_alpha(e) == v) by {
            assert(pow_alpha(65) == v);
        }
    } else if v == 97 {
        assert(exists|e: nat| e < 255 && pow_alpha(e) == v) by {
            assert(pow_alpha(66) == v);
        }
    } else if v == 194 {
        assert(exists|e: nat| e < 255 && pow_alpha(e) == v) by {
            assert(pow_alpha(67) == v);
        }
    } else if v == 153 {
        assert(exists|e: nat| e < 255 && pow_alpha(e) == v) by {
            assert(pow_alpha(68) == v);
        }
    } else if v == 47 {
        assert(exists|e: nat| e < 255 && pow_alpha(e) == v) by {
            assert(pow_alpha(69) == v);
        }
    } else if v == 94 {
        assert(exists|e: nat| e < 255 && pow_alpha(e) == v) by {
            assert(pow_alpha(70) == v);
        }
    } else if v == 188 {
        assert(exists|e: nat| e < 255 && pow_alpha(e) == v) by {
            assert(pow_alpha(71) == v);
        }
    } else if v == 101 {
        assert(exists|e: nat| e < 255 && pow_alpha(e) == v) by {
            assert(pow_alpha(72) == v);
        }
    } else if v == 202 {
        assert(exists|e: nat| e < 255 && pow_alpha(e) == v) by {
            assert(pow_alpha(73) == v);
        }
    } else if v == 137 {
        assert(exists|e: nat| e < 255 && pow_alpha(e) == v) by {
            assert(pow_alpha(74) == v);
        }
    } else if v == 15 {
        assert(exists|e: nat| e < 255 && pow_alpha(e) == v) by {
            assert(pow_alpha(75) == v);
        }
    } else if v == 30 {
        assert(exists|e: nat| e < 255 && pow_alpha(e) == v) by {
            assert(pow_alpha(76) == v);
        }
    } else if v == 60 {
        assert(exists|e: nat| e < 255 && pow_alpha(e) == v) by {
            assert(pow_alpha(77) == v);
        }
    } else if v == 120 {
        assert(exists|e: nat| e < 255 && pow_alpha(e) == v) by {
            assert(pow_alpha(78) == v);
        }
    } else if v == 240 {
        assert(exists|e: nat| e < 255 && pow_alpha(e) == v) by {
            assert(pow_alpha(79) == v);
        }
    } else if v == 253 {
        assert(exists|e: nat| e < 255 && pow_alpha(e) == v) by {
            assert(pow_alpha(80) == v);
        }
    } else if v == 231 {
        assert(exists|e: nat| e < 255 && pow_alpha(e) == v) by {
            assert(pow_alpha(81) == v);
        }
    } else if v == 211 {
        assert(exists|e: nat| e < 255 && pow_alpha(e) == v) by {
            assert(pow_alpha(82) == v);
        }
    } else if v == 187 {
        assert(exists|e: nat| e < 255 && pow_alpha(e) == v) by {
            assert(pow_alpha(83) == v);
        }
    } else if v == 107 {
        assert(exists|e: nat| e < 255 && pow_alpha(e) == v) by {
            assert(pow_alpha(84) == v);
        }
    } else if v == 214 {
        assert(exists|e: nat| e < 255 && pow_alpha(e) == v) by {
            assert(pow_alpha(85) == v);
        }
    } else if v == 177 {
        assert(exists|e: nat| e < 255 && pow_alpha(e) == v) by {
            assert(pow_alpha(86) == v);
        }
    } else if v == 127 {
        assert(exists|e: nat| e < 255 && pow_alpha(e) == v) by {
            assert(pow_alpha(87) == v);
        }
    } else if v == 254 {
        assert(exists|e: nat| e < 255 && pow_alpha(e) == v) by {
            assert(pow_alpha(88) == v);
        }
    } else if v == 225 {
        assert(exists|e: nat| e < 255 && pow_alpha(e) == v) by {
            assert(pow_alpha(89) == v);
        }
    } else if v == 223 {
        assert(exists|e: nat| e < 255 && pow_alpha(e) == v) by {
            assert(pow_alpha(90) == v);
        }
    } else if v == 163 {
        assert(exists|e: nat| e < 255 && pow_alpha(e) == v) by {
            assert(pow_alpha(91) == v);
        }
    } else if v == 91 {
        assert(exists|e: nat| e < 255 && pow_alpha(e) == v) by {
            assert(pow_alpha(92) == v);
        }
    } else if v == 182 {
        assert(exists|e: nat| e < 255 && pow_alpha(e) == v) by {
            assert(pow_alpha(93) == v);
        }
    } else if v == 113 {
        assert(exists|e: nat| e < 255 && pow_alpha(e) == v) by {
            assert(pow_alpha(94) == v);
        }
    } else if v == 226 {
        assert(exists|e: nat| e < 255 && pow_alpha(e) == v) by {
            assert(pow_alpha(95) == v);
        }
    } else if v == 217 {
        assert(exists|e: nat| e < 255 && pow_alpha(e) == v) by {
            assert(pow_alpha(96) == v);
        }
    } else if v == 175 {
        assert(exists|e: nat| e < 255 && pow_alpha(e) == v) by {
            assert(pow_alpha(97) == v);
        }
    } else if v == 67 {
        assert(exists|e: nat| e < 255 && pow_alpha(e) == v) by {
            assert(pow_alpha(98) == v);
        }
    } else if v == 134 {
        assert(exists|e: nat| e < 255 && pow_alpha(e) == v) by {
            assert(pow_alpha(99) == v);
        }
    } else if v == 17 {
        assert(exists|e: nat| e < 255 && pow_alpha(e) == v) by {
            assert(pow_alpha(100) == v);
        }
    } else if v == 34 {
        assert(exists|e: nat| e < 255 && pow_alpha(e) == v) by {
            assert(pow_alpha(101) == v);
        }
    } else if v == 68 {
        assert(exists|e: nat| e < 255 && pow_alpha(e) == v) by {
            assert(pow_alpha(102) == v);
        }
    } else if v == 136 {
        assert(exists|e: nat| e < 255 && pow_alpha(e) == v) by {
            assert(pow_alpha(103) == v);
        }
    } else if v == 13 {
        assert(exists|e: nat| e < 255 && pow_alpha(e) == v) by {
            assert(pow_alpha(104) == v);
        }
    } else if v == 26 {
        assert(exists|e: nat| e < 255 && pow_alpha(e) == v) by {
            assert(pow_alpha(105) == v);
        }
    } else if v == 52 {
        assert(exists|e: nat| e < 255 && pow_alpha(e) == v) by {
            assert(pow_alpha(106) == v);
        }
    } else if v == 104 {
        assert(exists|e: nat| e < 255 && pow_alpha(e) == v) by {
            assert(pow_alpha(107) == v);
        }
    } else if v == 208 {
        assert(exists|e: nat| e < 255 && pow_alpha(e) == v) by {
            assert(pow_alpha(108) == v);
        }
    } else if v == 189 {
        assert(exists|e: nat| e < 255 && pow_alpha(e) == v) by {
            assert(pow_alpha(109) == v);
        }
    } else if v == 103 {
        assert(exists|e: nat| e < 255 && pow_alpha(e) == v) by {
            assert(pow_alpha(110) == v);
        }
    } else if v == 206 {
        assert(exists|e: nat| e < 255 && pow_alpha(e) == v) by {
            assert(pow_alpha(111) == v);
        }
    } else if v == 129 {
        assert(exists|e: nat| e < 255 && pow_alpha(e) == v) by {
            assert(pow_alpha(112) == v);
        }
    } else if v == 31 {
        assert(exists|e: nat| e < 255 && pow_alpha(e) == v) by {
            assert(pow_alpha(113) == v);
        }
    } else if v == 62 {
        assert(exists|e: nat| e < 255 && pow_alpha(e) == v) by {
            assert(pow_alpha(114) == v);
        }
    } else if v == 124 {
        assert(exists|e: nat| e < 255 && pow_alpha(e) == v) by {
            assert(pow_alpha(115) == v);
        }
    } else if v == 248 {
        assert(exists|e: nat| e < 255 && pow_alpha(e) == v) by {
            assert(pow_alpha(116) == v);
        }
    } else if v == 237 {
        assert(exists|e: nat| e < 255 && pow_alpha(e) == v) by {
            assert(pow_alpha(117) == v);
        }
    } else if v == 199 {
        assert(exists|e: nat| e < 255 && pow_alpha(e) == v) by {
            assert(pow_alpha(118) == v);
        }
    } else if v == 147 {
        assert(exists|e: nat| e < 255 && pow_alpha(e) == v) by {
            assert(pow_alpha(119) == v);
        }
    } else if v == 59 {
        assert(exists|e: nat| e < 255 && pow_alpha(e) == v) by {
            assert(pow_alpha(120) == v);
        }
    } else if v == 118 {
        assert(exists|e: nat| e < 255 && pow_alpha(e) == v) by {
            assert(pow_alpha(121) == v);
        }
    } else if v == 236 {
        assert(exists|e: nat| e < 255 && pow_alpha(e) == v) by {
            assert(pow_alpha(122) == v);
        }
    } else if v == 197 {
        assert(exists|e: nat| e < 255 && pow_alpha(e) == v) by {
            assert(pow_alpha(123) == v);
        }
    } else if v == 151 {
        assert(exists|e: nat| e < 255 && pow_alpha(e) == v) by {
            assert(pow_alpha(124) == v);
        }
    } else if v == 51 {
        assert(exists|e: nat| e < 255 && pow_alpha(e) == v) by {
            assert(pow_alpha(125) == v);
        }
    } else if v == 102 {
        assert(exists|e: nat| e < 255 && pow_alpha(e) == v) by {
            assert(pow_alpha(126) == v);
        }
    } else if v == 204 {
        assert(exists|e: nat| e < 255 && pow_alpha(e) == v) by {
            assert(pow_alpha(127) == v);
        }
    } else if v == 133 {
        assert(exists|e: nat| e < 255 && pow_alpha(e) == v) by {
            assert(pow_alpha(128) == v);
        }
    } else if v == 23 {
        assert(exists|e: nat| e < 255 && pow_alpha(e) == v) by {
            assert(pow_alpha(129) == v);
        }
    } else if v == 46 {
        assert(exists|e: nat| e < 255 && pow_alpha(e) == v) by {
            assert(pow_alpha(130) == v);
        }
    } else if v == 92 {
        assert(exists|e: nat| e < 255 && pow_alpha(e) == v) by {
            assert(pow_alpha(131) == v);
        }
    } else if v == 184 {
        assert(exists|e: nat| e < 255 && pow_alpha(e) == v) by {
            assert(pow_alpha(132) == v);
        }
    } else if v == 109 {
        assert(exists|e: nat| e < 255 && pow_alpha(e) == v) by {
            assert(pow_alpha(133) == v);
        }
    } else if v == 218 {
        assert(exists|e: nat| e < 255 && pow_alpha(e) == v) by {
            assert(pow_alpha(134) == v);
        }
    } else if v == 169 {
        assert(exists|e: nat| e < 255 && pow_alpha(e) == v) by {
            assert(pow_alpha(135) == v);
        }
    } else if v == 79 {
        assert(exists|e: nat| e < 255 && pow_alpha(e) == v) by {
            assert(pow_alpha(136) == v);
        }
    } else if v == 158 {
        assert(exists|e: nat| e < 255 && pow_alpha(e) == v) by {
            assert(pow_alpha(137) == v);
        }
    } else if v == 33 {
        assert(exists|e: nat| e < 255 && pow_alpha(e) == v) by {
            assert(pow_alpha(138) == v);
        }
    } else if v == 66 {
        assert(exists|e: nat| e < 255 && pow_alpha(e) == v) by {
            assert(pow_alpha(139) == v);
        }
    } else if v == 132 {
        assert(exists|e: nat| e < 255 && pow_alpha(e) == v) by {
            assert(pow_alpha(140) == v);
        }
    } else if v == 21 {
        assert(exists|e: nat| e < 255 && pow_alpha(e) == v) by {
            assert(pow_alpha(141) == v);
        }
    } else if v == 42 {
        assert(exists|e: nat| e < 255 && pow_alpha(e) == v) by {
            assert(pow_alpha(142) == v);
        }
    } else if v == 84 {
        assert(exists|e: nat| e < 255 && pow_alpha(e) == v) by {
            assert(pow_alpha(143) == v);
        }
    } else if v == 168 {
        assert(exists|e: nat| e < 255 && pow_alpha(e) == v) by {
            assert(pow_alpha(144) == v);
        }
    } else if v == 77 {
        assert(exists|e: nat| e < 255 && pow_alpha(e) == v) by {
            assert(pow_alpha(145) == v);
        }
    } else if v == 154 {
        assert(exists|e: nat| e < 255 && pow_alpha(e) == v) by {
            assert(pow_alpha(146) == v);
        }
    } else if v == 41 {
        assert(exists|e: nat| e < 255 && pow_alpha(e) == v) by {
            assert(pow_alpha(147) == v);
        }
    } else if v == 82 {
        assert(exists|e: nat| e < 255 && pow_alpha(e) == v) by {
            assert(pow_alpha(148) == v);
        }
    } else if v == 164 {
        assert(exists|e: nat| e < 255 && pow_alpha(e) == v) by {
            assert(pow_alpha(149) == v);
        }
    } else if v == 85 {
        assert(exists|e: nat| e < 255 && pow_alpha(e) == v) by {
            assert(pow_alpha(150) == v);
        }
    } else if v == 170 {
        assert(exists|e: nat| e < 255 && pow_alpha(e) == v) by {
            assert(pow_alpha(151) == v);
        }
    } else if v == 73 {
        assert(exists|e: nat| e < 255 && pow_alpha(e) == v) by {
            assert(pow_alpha(152) == v);
        }
    } else if v == 146 {
        assert(exists|e: nat| e < 255 && pow_alpha(e) == v) by {
            assert(pow_alpha(153) == v);
        }
    } else if v == 57 {
        assert(exists|e: nat| e < 255 && pow_alpha(e) == v) by {
            assert(pow_alpha(154) == v);
        }
    } else if v == 114 {
        assert(exists|e: nat| e < 255 && pow_alpha(e) == v) by {
            assert(pow_alpha(155) == v);
        }
    } else if v == 228 {
        assert(exists|e: nat| e < 255 && pow_alpha(e) == v) by {
            assert(pow_alpha(156) == v);
        }
    } else if v == 213 {
        assert(exists|e: nat| e < 255 && pow_alpha(e) == v) by {
            assert(pow_alpha(157) == v);
        }
    } else if v == 183 {
        assert(exists|e: nat| e < 255 && pow_alpha(e) == v) by {
            assert(pow_alpha(158) == v);
        }
    } else if v == 115 {
        assert(exists|e: nat| e < 255 && pow_alpha(e) == v) by {
            assert(pow_alpha(159) == v);
        }
    } else if v == 230 {
        assert(exists|e: nat| e < 255 && pow_alpha(e) == v) by {
            assert(pow_alpha(160) == v);
        }
    } else if v == 209 {
        assert(exists|e: nat| e < 255 && pow_alpha(e) == v) by {
            assert(pow_alpha(161) == v);
        }
    } else if v == 191 {
        assert(exists|e: nat| e < 255 && pow_alpha(e) == v) by {
            assert(pow_alpha(162) == v);
        }
    } else if v == 99 {
        assert(exists|e: nat| e < 255 && pow_alpha(e) == v) by {
            assert(pow_alpha(163) == v);
        }
    } else if v == 198 {
        assert(exists|e: nat| e < 255 && pow_alpha(e) == v) by {
            assert(pow_alpha(164) == v);
        }
    } else if v == 145 {
        assert(exists|e: nat| e < 255 && pow_alpha(e) == v) by {
            assert(pow_alpha(165) == v);
        }
    } else if v == 63 {
        assert(exists|e: nat| e < 255 && pow_alpha(e) == v) by {
            assert(pow_alpha(166) == v);
        }
    } else if v == 126 {
        assert(exists|e: nat| e < 255 && pow_alpha(e) == v) by {
            assert(pow_alpha(167) == v);
        }
    } else if v == 252 {
        assert(exists|e: nat| e < 255 && pow_alpha(e) == v) by {
            assert(pow_alpha(168) == v);
        }
    } else if v == 229 {
        assert(exists|e: nat| e < 255 && pow_alpha(e) == v) by {
            assert(pow_alpha(169) == v);
        }
    } else if v == 215 {
        assert(exists|e: nat| e < 255 && pow_alpha(e) == v) by {
            assert(pow_alpha(170) == v);
        }
    } else if v == 179 {
        assert(exists|e: nat| e < 255 && pow_alpha(e) == v) by {
            assert(pow_alpha(171) == v);
        }
    } else if v == 123 {
        assert(exists|e: nat| e < 255 && pow_alpha(e) == v) by {
            assert(pow_alpha(172) == v);
        }
    } else if v == 246 {
        assert(exists|e: nat| e < 255 && pow_alpha(e) == v) by {
            assert(pow_alpha(173) == v);
        }
    } else if v == 241 {
        assert(exists|e: nat| e < 255 && pow_alpha(e) == v) by {
            assert(pow_alpha(174) == v);
        }
    } else if v == 255 {
        assert(exists|e: nat| e < 255 && pow_alpha(e) == v) by {
            assert(pow_alpha(175) == v);
        }
    } else if v == 227 {
        assert(exists|e: nat| e < 255 && pow_alpha(e) == v) by {
            assert(pow_alpha(176) == v);
        }
    } else if v == 219 {
        assert(exists|e: nat| e < 255 && pow_alpha(e) == v) by {
            assert(pow_alpha(177) == v);
        }
    } else if v == 171 {
        assert(exists|e: nat| e < 255 && pow_alpha(e) == v) by {
            assert(pow_alpha(178) == v);
        }
    } else if v == 75 {
        assert(exists|e: nat| e < 255 && pow_alpha(e) == v) by {
            assert(pow_alpha(179) == v);
        }
    } else if v == 150 {
        assert(exists|e: nat| e < 255 && pow_alpha(e) == v) by {
            assert(pow_alpha(180) == v);
        }
    } else if v == 49 {
        assert(exists|e: nat| e < 255 && pow_alpha(e) == v) by {
            assert(pow_alpha(181) == v);
        }
    } else if v == 98 {
        assert(exists|e: nat| e < 255 && pow_alpha(e) == v) by {
            assert(pow_alpha(182) == v);
        }
    } else if v == 196 {
        assert(exists|e: nat| e < 255 && pow_alpha(e) == v) by {
            assert(pow_alpha(183) == v);
        }
    } else if v == 149 {
        assert(exists|e: nat| e < 255 && pow_alpha(e) == v) by {
            assert(pow_alpha(184) == v);
        }
    } else if v == 55 {
        assert(exists|e: nat| e < 255 && pow_alpha(e) == v) by {
            assert(pow_alpha(185) == v);
        }
    } else if v == 110 {
        assert(exists|e: nat| e < 255 && pow_alpha(e) == v) by {
            assert(pow_alpha(186) == v);
        }
    } else if v == 220 {
        assert(exists|e: nat| e < 255 && pow_alpha(e) == v) by {
            assert(pow_alpha(187) == v);
        }
    } else if v == 165 {
        assert(exists|e: nat| e < 255 && pow_alpha(e) == v) by {
            assert(pow_alpha(188) == v);
        }
    } else if v == 87 {
        assert(exists|e: nat| e < 255 && pow_alpha(e) == v) by {
            assert(pow_alpha(189) == v);
        }
    } else if v == 174 {
        assert(exists|e: nat| e < 255 && pow_alpha(e) == v) by {
            assert(pow_alpha(190) == v);
        }
    } else if v == 65 {
        assert(exists|e: nat| e < 255 && pow_alpha(e) == v) by {
            assert(pow_alpha(191) == v);
        }
    } else if v == 130 {
        assert(exists|e: nat| e < 255 && pow_alpha(e) == v) by {
            assert(pow_alpha(192) == v);
        }
    } else if v == 25 {
        assert(exists|e: nat| e < 255 && pow_alpha(e) == v) by {
            assert(pow_alpha(193) == v);
        }
    } else if v == 50 {
        assert(exists|e: nat| e < 255 && pow_alpha(e) == v) by {
            assert(pow_alpha(194) == v);
        }
    } else if v == 100 {
        assert(exists|e: nat| e < 255 && pow_alpha(e) == v) by {
            assert(pow_alpha(195) == v);
        }
    } else if v == 200 {
        assert(exists|e: nat| e < 255 && pow_alpha(e) == v) by {
            assert(pow_alpha(196) == v);
        }
    } else if v == 141 {
        assert(exists|e: nat| e < 255 && pow_alpha(e) == v) by {
            assert(pow_alpha(197) == v);
        }
    } else if v == 7 {
        assert(exists|e: nat| e < 255 && pow_alpha(e) == v) by {
            assert(pow_alpha(198) == v);
        }
    } else if v == 14 {
        assert(exists|e: nat| e < 255 && pow_alpha(e) == v) by {
            assert(pow_alpha(199) == v);
        }
    } else if v == 28 {
        assert(exists|e: nat| e < 255 && pow_alpha(e) == v) by {
            assert(pow_alpha(200) == v);
        }
    } else if v == 56 {
        assert(exists|e: nat| e < 255 && pow_alpha(e) == v) by {
            assert(pow_alpha(201) == v);
        }
    } else if v == 112 {
        assert(exists|e: nat| e < 255 && pow_alpha(e) == v) by {
            assert(pow_alpha(202) == v);
        }
    } else if v == 224 {
        assert(exists|e: nat| e < 255 && pow_alpha(e) == v) by {
            assert(pow_alpha(203) == v);
        }
    } else if v == 221 {
        assert(exists|e: nat| e < 255 && pow_alpha(e) == v) by {
            assert(pow_alpha(204) == v);
        }
    } else if v == 167 {
        assert(exists|e: nat| e < 255 && pow_alpha(e) == v) by {
            assert(pow_alpha(205) == v);
        }
    } else if v == 83 {
        assert(exists|e: nat| e < 255 && pow_alpha(e) == v) by {
            assert(pow_alpha(206) == v);
        }
    } else if v == 166 {
        assert(exists|e: nat| e < 255 && pow_alpha(e) == v) by {
            assert(pow_alpha(207) == v);
        }
    } else if v == 81 {
        assert(exists|e: nat| e < 255 && pow_alpha(e) == v) by {
            assert(pow_alpha(208) == v);
        }
    } else if v == 162 {
        assert(exists|e: nat| e < 255 && pow_alpha(e) == v) by {
            assert(pow_alpha(209) == v);
        }
    } else if v == 89 {
        assert(exists|e: nat| e < 255 && pow_alpha(e) == v) by {
            assert(pow_alpha(210) == v);
        }
    } else if v == 178 {
        assert(exists|e: nat| e < 255 && pow_alpha(e) == v) by {
            assert(pow_alpha(211) == v);
        }
    } else if v == 121 {
        assert(exists|e: nat| e < 255 && pow_alpha(e) == v) by {
            assert(pow_alpha(212) == v);
        }
    } else if v == 242 {
        assert(exists|e: nat| e < 255 && pow_alpha(e) == v) by {
            assert(pow_alpha(213) == v);
        }
    } else if v == 249 {
        assert(exists|e: nat| e < 255 && pow_alpha(e) == v) by {
            assert(pow_alpha(214) == v);
        }
    } else if v == 239 {
        assert(exists|e: nat| e < 255 && pow_alpha(e) == v) by {
            assert(pow_alpha(215) == v);
        }
    } else if v == 195 {
        assert(exists|e: nat| e < 255 && pow_alpha(e) == v) by {
            assert(pow_alpha(216) == v);
        }
    } else if v == 155 {
        assert(exists|e: nat| e < 255 && pow_alpha(e) == v) by {
            assert(pow_alpha(217) == v);
        }
    } else if v == 43 {
        assert(exists|e: nat| e < 255 && pow_alpha(e) == v) by {
            assert(pow_alpha(218) == v);
        }
    } else if v == 86 {
        assert(exists|e: nat| e < 255 && pow_alpha(e) == v) by {
            assert(pow_alpha(219) == v);
        }
    } else if v == 172 {
        assert(exists|e: nat| e < 255 && pow_alpha(e) == v) by {
            assert(pow_alpha(220) == v);
        }
    } else if v == 69 {
        assert(exists|e: nat| e < 255 && pow_alpha(e) == v) by {
            assert(pow_alpha(221) == v);
        }
    } else if v == 138 {
        assert(exists|e: nat| e < 255 && pow_alpha(e) == v) by {
            assert(pow_alpha(222) == v);
        }
    } else if v == 9 {
        assert(exists|e: nat| e < 255 && pow_alpha(e) == v) by {
            assert(pow_alpha(223) == v);
        }
    } else if v == 18 {
        assert(exists|e: nat| e < 255 && pow_alpha(e) == v) by {
            assert(pow_alpha(224) == v);
        }
    } else if v == 36 {
        assert(exists|e: nat| e < 255 && pow_alpha(e) == v) by {
            assert(pow_alpha(225) == v);
        }
    } else if v == 72 {
        assert(exists|e: nat| e < 255 && pow_alpha(e) == v) by {
            assert(pow_alpha(226) == v);
        }
    } else if v == 144 {
        assert(exists|e: nat| e < 255 && pow_alpha(e) == v) by {
            assert(pow_alpha(227) == v);
        }
    } else if v == 61 {
        assert(exists|e: nat| e < 255 && pow_alpha(e) == v) by {
            assert(pow_alpha(228) == v);
        }
    } else if v == 122 {
        assert(exists|e: nat| e < 255 && pow_alpha(e) == v) by {
            assert(pow_alpha(229) == v);
        }
    } else if v == 244 {
        assert(exists|e: nat| e < 255 && pow_alpha(e) == v) by {
            assert(pow_alpha(230) == v);
        }
    } else if v == 245 {
        assert(exists|e: nat| e < 255 && pow_alpha(e) == v) by {
            assert(pow_alpha(231) == v);
        }
    } else if v == 247 {
        assert(exists|e: nat| e < 255 && pow_alpha(e) == v) by {
            assert(pow_alpha(232) == v);
        }
    } else if v == 243 {
        assert(exists|e: nat| e < 255 && pow_alpha(e) == v) by {
            assert(pow_alpha(233) == v);
        }
    } else if v == 251 {
        assert(exists|e: nat| e < 255 && pow_alpha(e) == v) by {
            assert(pow_alpha(234) == v);
        }
    } else if v == 235 {
        assert(exists|e: nat| e < 255 && pow_alpha(e) == v) by {
            assert(pow_alpha(235) == v);
        }
    } else if v == 203 {
        assert(exists|e: nat| e < 255 && pow_alpha(e) == v) by {
            assert(pow_alpha(236) == v);
        }
    } else if v == 139 {
        assert(exists|e: nat| e < 255 && pow_alpha(e) == v) by {
            assert(pow_alpha(237) == v);
        }
    } else if v == 11 {
        assert(exists|e: nat| e < 255 && pow_alpha(e) == v) by {
            assert(pow_alpha(238) == v);
        }
    } else if v == 22 {
        assert(exists|e: nat| e < 255 && pow_alpha(e) == v) by {
            assert(pow_alpha(239) == v);
        }
    } else if v == 44 {
        assert(exists|e: nat| e < 255 && pow_alpha(e) == v) by {
            assert(pow_alpha(240) == v);
        }
    } else if v == 88 {
        assert(exists|e: nat| e < 255 && pow_alpha(e) == v) by {
            assert(pow_alpha(241) == v);
        }
    } else if v == 176 {
        assert(exists|e: nat| e < 255 && pow_alpha(e) == v) by {
            assert(pow_alpha(242) == v);
        }
    } else if v == 125 {
        assert(exists|e: nat| e < 255 && pow_alpha(e) == v) by {
            assert(pow_alpha(243) == v);
        }
    } else if v == 250 {
        assert(exists|e: nat| e < 255 && pow_alpha(e) == v) by {
            assert(pow_alpha(244) == v);
        }
    } else if v == 233 {
        assert(exists|e: nat| e < 255 && pow_alpha(e) == v) by {
            assert(pow_alpha(245) == v);
        }
    } else if v == 207 {
        assert(exists|e: nat| e < 255 && pow_alpha(e) == v) by {
            assert(pow_alpha(246) == v);
        }
    } else if v == 131 {
        assert(exists|e: nat| e < 255 && pow_alpha(e) == v) by {
            assert(pow_alpha(247) == v);
        }
    } else if v == 27 {
        assert(exists|e: nat| e < 255 && pow_alpha(e) == v) by {
            assert(pow_alpha(248) == v);
        }
    } else if v == 54 {
        assert(exists|e: nat| e < 255 && pow_alpha(e) == v) by {
            assert(pow_alpha(249) == v);
        }
    } else if v == 108 {
        assert(exists|e: nat| e < 255 && pow_alpha(e) == v) by {
            assert(pow_alpha(250) == v);
        }
    } else if v == 216 {
        assert(exists|e: nat| e < 255 && pow_alpha(e) == v) by {
            assert(pow_alpha(251) == v);
        }
    } else if v == 173 {
        assert(exists|e: nat| e < 255 && pow_alpha(e) == v) by {
            assert(pow_alpha(252) == v);
        }
    } else if v == 71 {
        assert(exists|e: nat| e < 255 && pow_alpha(e) == v) by {
            assert(pow_alpha(253) == v);
        }
    } else if v == 142 {
        assert(exists|e: nat| e < 255 && pow_alpha(e) == v) by {
            assert(pow_alpha(254) == v);
        }
    } else {
        assert(false);
    }
}
proof fn lemma_log_search_finds(v: u8, e0: nat)
    requires
        e0 <= 255,
        exists|e: nat| e0 <= e < 255 && pow_alpha(e) == v,
    ensures
        pow_alpha(log_search(v, e0) as nat) == v,
    decreases 255 - e0,
{
    if pow_alpha(e0) == v {
    } else {
        assert(exists|e: nat| e0 + 1 <= e < 255 && pow_alpha(e) == v) by {
            let w = choose|e: nat| e0 <= e < 255 && pow_alpha(e) == v;
            assert(w != e0);
            assert(e0 + 1 <= w < 255 && pow_alpha(w) == v);
        }
        lemma_log_search_finds(v, e0 + 1);
    }
}
/// The field tables round-trip: every nonzero field element is alpha to the
/// power of its logarithm, so antilog(log(v)) gives v back for every v in
/// 1..=255, while antilog(0) is 1.
pub proof fn lemma_antilog_log_round_trip(v: u8)
    requires
        1 <= v,
    ensures
        pow_alpha(log_alpha(v) as nat) == v,
        pow_alpha(0) == 1,
{
    lemma_alpha_surjective(v);
    lemma_log_search_finds(v, 0);
}

} // verus!
