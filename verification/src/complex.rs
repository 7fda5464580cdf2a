//! The complex value type.

use vstd::prelude::*;
use vstd::string::StringExecFns;
use crate::binary64::{is_nan, is_sign_negative, nan, negate, negated, sign_negative, ONE, ZERO};

verus! {

/// The value `real + imag·i`, each component a binary64 encoding.
///
/// Any pair of encodings is a value: NaN, the infinities and both zeros are
/// kept as they are, and nothing is normalised. Two values are the same when
/// their encodings are; whether two values compare equal as numbers is left
/// to the caller.
#[derive(Clone, Copy)]
pub struct Complex {
    pub real: u64,
    pub imag: u64,
}

impl Default for Complex {
    /// Zero: both components positive zero.
    fn default() -> (z: Complex)
        ensures
            z.real == ZERO,
            z.imag == ZERO,
    {
        Complex { real: ZERO, imag: ZERO }
    }
}

impl Complex {
    /// The real unit, `1 + 0i`.
    pub fn real_unit() -> (z: Complex)
        ensures
            z.real == ONE,
            z.imag == ZERO,
    {
        Complex { real: ONE, imag: ZERO }
    }

    /// The imaginary unit, `0 + 1i`.
    pub fn imag_unit() -> (z: Complex)
        ensures
            z.real == ZERO,
            z.imag == ONE,
    {
        Complex { real: ZERO, imag: ONE }
    }

    /// The value with the given components.
    pub fn new(re: u64, im: u64) -> (z: Complex)
        ensures
            z.real == re,
            z.imag == im,
    {
        Complex { real: re, imag: im }
    }

    /// The point `re` of the real line: its imaginary component is positive
    /// zero.
    pub fn with_real(re: u64) -> (z: Complex)
        ensures
            z.real == re,
            z.imag == ZERO,
    {
        Complex::new(re, ZERO)
    }

    /// The point `im` of the imaginary axis: its real component is positive
    /// zero.
    pub fn with_imag(im: u64) -> (z: Complex)
        ensures
            z.real == ZERO,
            z.imag == im,
    {
        Complex::new(ZERO, im)
    }

    /// The conjugate: the real component kept, the imaginary one negated.
    pub open spec fn conjugate(self) -> Complex {
        Complex { real: self.real, imag: negated(self.imag) }
    }

    /// The opposite value: both components negated.
    pub open spec fn opposite(self) -> Complex {
        Complex { real: negated(self.real), imag: negated(self.imag) }
    }

    /// The conjugate of `self`.
    pub fn conj(self) -> (z: Complex)
        ensures
            z == self.conjugate(),
    {
        Complex::new(self.real, negate(self.imag))
    }

    /// What stands between the two components in the text of a value: a plus
    /// sign where the imaginary component's own text shows no sign, that is
    /// where its sign bit is clear and it is no NaN.
    pub open spec fn sign_mark(self) -> Seq<char> {
        if nan(self.imag) || sign_negative(self.imag) {
            Seq::<char>::empty()
        } else {
            seq!['+']
        }
    }

    /// The text of `self`, given the decimal text of each component: the real
    /// component, the imaginary component with its sign always shown, and
    /// the suffix `i`.
    pub open spec fn rendered(self, re: Seq<char>, im: Seq<char>) -> Seq<char> {
        re + self.sign_mark() + im + seq!['i']
    }

    /// Lays `self` out as text. `re` and `im` are the decimal texts of the
    /// two components as the platform renders them, a minus sign in front of
    /// a negative one and no sign otherwise; at the default precision or at
    /// one that the caller chose.
    pub fn render(&self, re: &str, im: &str) -> (text: String)
        ensures
            text@ == self.rendered(re@, im@),
    {
        let mut text = String::from_str(re);
        if !is_nan(self.imag) && !is_sign_negative(self.imag) {
            proof {
                reveal_strlit("+");
            }
            text.append("+");
        }
        text.append(im);
        proof {
            reveal_strlit("i");
        }
        text.append("i");
        text
    }

    /// Conjugating twice gives the value back, bit for bit.
    pub proof fn conj_is_an_involution(self)
        ensures
            self.conjugate().conjugate() == self,
    {
    }
}

impl core::ops::Neg for Complex {
    type Output = Complex;

    /// The opposite of `self`.
    fn neg(self) -> (z: Complex)
        ensures
            z == self.opposite(),
    {
        Complex::new(negate(self.real), negate(self.imag))
    }
}

impl vstd::std_specs::ops::NegSpecImpl for Complex {
    open spec fn obeys_neg_spec() -> bool {
        true
    }

    open spec fn neg_req(self) -> bool {
        true
    }

    open spec fn neg_spec(self) -> Complex {
        self.opposite()
    }
}

} // verus!
