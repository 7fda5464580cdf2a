use complex::binary64::{ONE, ZERO};
use complex::Complex;

fn of(re: f64, im: f64) -> Complex {
    Complex::new(re.to_bits(), im.to_bits())
}

fn parts(z: Complex) -> (f64, f64) {
    (f64::from_bits(z.real), f64::from_bits(z.imag))
}

fn components() -> Vec<f64> {
    vec![
        0.0,
        -0.0,
        1.0,
        -2.0,
        3.0,
        4.0,
        -1.5,
        1e300,
        -5e-324,
        f64::INFINITY,
        f64::NEG_INFINITY,
        f64::NAN,
        f64::from_bits(0xFFF0_0000_0000_0123),
    ]
}

#[test]
fn new_keeps_both_components() {
    let z = of(3.0, 4.0);
    assert_eq!(parts(z), (3.0, 4.0));
    let w = Complex::new(0x0123_4567_89AB_CDEF, 0xFEDC_BA98_7654_3210);
    assert_eq!(w.real, 0x0123_4567_89AB_CDEF);
    assert_eq!(w.imag, 0xFEDC_BA98_7654_3210);
}

#[test]
fn with_real_is_new_with_positive_zero() {
    let z = Complex::with_real(2.5f64.to_bits());
    assert_eq!(z.real, 2.5f64.to_bits());
    assert_eq!(z.imag, 0.0f64.to_bits());
    assert!(!f64::from_bits(z.imag).is_sign_negative());
}

#[test]
fn with_imag_is_new_with_positive_zero() {
    let z = Complex::with_imag((-7.0f64).to_bits());
    assert_eq!(z.real, 0.0f64.to_bits());
    assert_eq!(z.imag, (-7.0f64).to_bits());
    assert!(!f64::from_bits(z.real).is_sign_negative());
}

#[test]
fn the_units() {
    assert_eq!(parts(Complex::real_unit()), (1.0, 0.0));
    assert_eq!(parts(Complex::imag_unit()), (0.0, 1.0));
    assert_eq!(Complex::real_unit().real, ONE);
    assert_eq!(Complex::real_unit().imag, ZERO);
    assert_eq!(Complex::imag_unit().real, ZERO);
    assert_eq!(Complex::imag_unit().imag, ONE);
}

#[test]
fn default_is_positive_zero_twice() {
    let z = Complex::default();
    assert_eq!(z.real, 0);
    assert_eq!(z.imag, 0);
}

#[test]
fn a_value_is_copied() {
    let z = of(1.0, 2.0);
    let w = z;
    let v = z.clone();
    assert_eq!(parts(z), parts(w));
    assert_eq!(parts(z), parts(v));
}

#[test]
fn conj_negates_the_imaginary_component() {
    assert_eq!(parts(of(3.0, 4.0).conj()), (3.0, -4.0));
    assert_eq!(parts(of(1.0, -2.0).conj()), (1.0, 2.0));
    assert_eq!(of(3.0, 4.0).conj().imag, 0xC010_0000_0000_0000);
}

#[test]
fn conj_is_the_platform_minus_on_the_imaginary_component() {
    for re in components() {
        for im in components() {
            let z = of(re, im).conj();
            assert_eq!(z.real, re.to_bits());
            assert_eq!(z.imag, (-im).to_bits());
        }
    }
}

#[test]
fn conj_tells_the_zeros_apart() {
    let z = of(1.0, 0.0).conj();
    assert_eq!(z.imag, (-0.0f64).to_bits());
    assert_ne!(z.imag, 0.0f64.to_bits());
    let w = of(1.0, -0.0).conj();
    assert_eq!(w.imag, 0.0f64.to_bits());
}

#[test]
fn conj_twice_gives_the_value_back() {
    for re in components() {
        for im in components() {
            let z = of(re, im);
            let w = z.conj().conj();
            assert_eq!(w.real, z.real);
            assert_eq!(w.imag, z.imag);
        }
    }
}

#[test]
fn neg_negates_both_components() {
    assert_eq!(parts(-of(3.0, 4.0)), (-3.0, -4.0));
    assert_eq!(parts(-of(-1.5, 2.0)), (1.5, -2.0));
    let z = -of(0.0, 0.0);
    assert_eq!(z.real, (-0.0f64).to_bits());
    assert_eq!(z.imag, (-0.0f64).to_bits());
}

#[test]
fn neg_is_the_platform_minus_on_both_components() {
    for re in components() {
        for im in components() {
            let z = -of(re, im);
            assert_eq!(z.real, (-re).to_bits());
            assert_eq!(z.imag, (-im).to_bits());
        }
    }
}

#[test]
fn neg_twice_gives_the_value_back() {
    for re in components() {
        for im in components() {
            let z = of(re, im);
            let w = -(-z);
            assert_eq!(w.real, z.real);
            assert_eq!(w.imag, z.imag);
        }
    }
}
