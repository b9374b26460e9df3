use smolqr::err_corr::generate_ec;
use smolqr::gf::{antilog, generator_coefficients, log};

#[test]
fn err_corr_test() {
    assert_eq!(
        generate_ec(
            &[17, 236, 17, 236, 17, 236, 64, 67, 77, 220, 114, 209, 120, 11, 91, 32,],
            10
        ),
        vec![23, 93, 226, 231, 215, 235, 119, 39, 35, 196,]
    );
}

#[test]
fn antilog_log_round_trip() {
    assert_eq!(antilog(0), 1);
    for v in 1..=255u16 {
        let b = v as u8;
        assert_eq!(antilog(log(b)), b);
    }
}

#[test]
fn antilog_first_powers() {
    assert_eq!(antilog(1), 2);
    assert_eq!(antilog(2), 4);
    assert_eq!(antilog(7), 128);
    assert_eq!(antilog(8), 29);
    assert_eq!(log(2), 1);
    assert_eq!(log(29), 8);
}

#[test]
fn generator_coefficients_shape() {
    assert_eq!(generator_coefficients(1), vec![0, 0]);
    for n in [1usize, 2, 7, 10, 18, 30] {
        assert_eq!(generator_coefficients(n).len(), n + 1);
    }
    // the degree-2 polynomial has the known alpha exponents, lowest first,
    // with the trailing 0 standing for the leading coefficient alpha^0
    assert_eq!(generator_coefficients(2), vec![1, 25, 0]);
}

#[test]
fn generate_ec_length() {
    let r = generate_ec(&[1, 2, 3, 4], 7);
    assert_eq!(r.len(), 7);
}

#[test]
fn generate_ec_zero_data() {
    // the remainder of the zero polynomial is zero: leading zero codewords
    // are skipped, not reduced
    assert_eq!(generate_ec(&[0], 1), vec![0]);
    assert_eq!(generate_ec(&[0, 0, 0], 5), vec![0, 0, 0, 0, 0]);
}
