use vstd::prelude::*;

verus! {

// A `Scalar` is a real-number value carried as decimal text, for example
// "149598023000" or "6.6743e-11".  All arithmetic on scalars is delegated to
// the arbitrary-precision library `num_bigfloat` (40 significant decimal
// digits), which computes a result that depends on the operand texts alone.
// Each operation's result is therefore given a name below: an uninterpreted
// spec function from operand texts to result text.  Contracts throughout this
// crate pin every computed scalar down to an exact composition of these names.

/// The text that the `num_bigfloat` addition prints for the given operand texts.
pub uninterp spec fn add_of(a: Seq<char>, b: Seq<char>) -> Seq<char>;

/// The text that the `num_bigfloat` subtraction prints for the given operand texts.
pub uninterp spec fn sub_of(a: Seq<char>, b: Seq<char>) -> Seq<char>;

/// The text that the `num_bigfloat` multiplication prints for the given operand texts.
pub uninterp spec fn mul_of(a: Seq<char>, b: Seq<char>) -> Seq<char>;

/// The text that the `num_bigfloat` division prints for the given operand texts.
pub uninterp spec fn div_of(a: Seq<char>, b: Seq<char>) -> Seq<char>;

/// The text that the `num_bigfloat` remainder prints for the given operand texts.
pub uninterp spec fn rem_of(a: Seq<char>, b: Seq<char>) -> Seq<char>;

/// The text that the `num_bigfloat` square root prints for the given operand text.
pub uninterp spec fn sqrt_of(a: Seq<char>) -> Seq<char>;

/// The text that the `num_bigfloat` sine prints for the given operand text.
pub uninterp spec fn sin_of(a: Seq<char>) -> Seq<char>;

/// The text that the `num_bigfloat` cosine prints for the given operand text.
pub uninterp spec fn cos_of(a: Seq<char>) -> Seq<char>;

/// The text that the `num_bigfloat` tangent prints for the given operand text.
pub uninterp spec fn tan_of(a: Seq<char>) -> Seq<char>;

/// The text that the `num_bigfloat` arctangent prints for the given operand text.
pub uninterp spec fn atan_of(a: Seq<char>) -> Seq<char>;

/// The text that the `num_bigfloat` arccosine prints for the given operand text.
pub uninterp spec fn acos_of(a: Seq<char>) -> Seq<char>;

/// The text that the `num_bigfloat` absolute value prints for the given operand text.
pub uninterp spec fn abs_of(a: Seq<char>) -> Seq<char>;

/// Whether the `num_bigfloat` comparison orders the first operand text
/// strictly below the second.
pub uninterp spec fn lt_of(a: Seq<char>, b: Seq<char>) -> bool;

/// An exact real-number value, carried as decimal text.
#[derive(Debug)]
pub struct Scalar {
    text: String,
}

impl View for Scalar {
    type V = Seq<char>;

    closed spec fn view(&self) -> Seq<char> {
        self.text@
    }
}

pub open spec fn zero_text() -> Seq<char> {
    "0"@
}

pub open spec fn one_text() -> Seq<char> {
    "1"@
}

pub open spec fn two_text() -> Seq<char> {
    "2"@
}

pub open spec fn three_text() -> Seq<char> {
    "3"@
}

pub open spec fn half_text() -> Seq<char> {
    "0.5"@
}

/// 2*pi to the working precision of 40 significant decimal digits.
pub open spec fn two_pi_text() -> Seq<char> {
    "6.283185307179586476925286766559005768394"@
}

/// The negation of `a`, written as a subtraction from zero.
pub open spec fn neg_of(a: Seq<char>) -> Seq<char> {
    sub_of(zero_text(), a)
}

impl Scalar {
    /// Wraps the given decimal text as a scalar value.
    pub fn new(text: String) -> (s: Scalar)
        ensures
            s@ == text@,
    {
        Scalar { text }
    }

    /// Wraps the given decimal text as a scalar value.
    pub fn from_text(text: &str) -> (s: Scalar)
        ensures
            s@ == text@,
    {
        Scalar { text: text.to_owned() }
    }

    /// The decimal text of this scalar.
    pub fn as_text(&self) -> (t: &str)
        ensures
            t@ == self@,
    {
        self.text.as_str()
    }

    /// An identical copy of this scalar.
    pub fn dup(&self) -> (s: Scalar)
        ensures
            s@ == self@,
    {
        Scalar { text: self.text.clone() }
    }

    /// The scalar zero.
    pub fn zero() -> (s: Scalar)
        ensures
            s@ == zero_text(),
    {
        Scalar::from_text("0")
    }

    /// The scalar one.
    pub fn one() -> (s: Scalar)
        ensures
            s@ == one_text(),
    {
        Scalar::from_text("1")
    }

    /// The scalar two.
    pub fn two() -> (s: Scalar)
        ensures
            s@ == two_text(),
    {
        Scalar::from_text("2")
    }

    /// The scalar three.
    pub fn three() -> (s: Scalar)
        ensures
            s@ == three_text(),
    {
        Scalar::from_text("3")
    }

    /// The scalar one half.
    pub fn half() -> (s: Scalar)
        ensures
            s@ == half_text(),
    {
        Scalar::from_text("0.5")
    }

    /// The scalar 2*pi.
    pub fn two_pi() -> (s: Scalar)
        ensures
            s@ == two_pi_text(),
    {
        Scalar::from_text("6.283185307179586476925286766559005768394")
    }

    /// Relies on `num_bigfloat::BigFloat::add`: the printed sum depends on the
    /// operand texts alone.
    #[verifier::external_body]
    pub(crate) fn add(&self, other: &Scalar) -> (r: Scalar)
        ensures
            r@ == add_of(self@, other@),
    {
        let a = num_bigfloat::BigFloat::parse(&self.text).unwrap_or(num_bigfloat::NAN);
        let b = num_bigfloat::BigFloat::parse(&other.text).unwrap_or(num_bigfloat::NAN);
        Scalar { text: format!("{}", a.add(&b)) }
    }

    /// Relies on `num_bigfloat::BigFloat::sub`: the printed difference depends
    /// on the operand texts alone.
    #[verifier::external_body]
    pub(crate) fn sub(&self, other: &Scalar) -> (r: Scalar)
        ensures
            r@ == sub_of(self@, other@),
    {
        let a = num_bigfloat::BigFloat::parse(&self.text).unwrap_or(num_bigfloat::NAN);
        let b = num_bigfloat::BigFloat::parse(&other.text).unwrap_or(num_bigfloat::NAN);
        Scalar { text: format!("{}", a.sub(&b)) }
    }

    /// Relies on `num_bigfloat::BigFloat::mul`: the printed product depends on
    /// the operand texts alone.
    #[verifier::external_body]
    pub(crate) fn mul(&self, other: &Scalar) -> (r: Scalar)
        ensures
            r@ == mul_of(self@, other@),
    {
        let a = num_bigfloat::BigFloat::parse(&self.text).unwrap_or(num_bigfloat::NAN);
        let b = num_bigfloat::BigFloat::parse(&other.text).unwrap_or(num_bigfloat::NAN);
        Scalar { text: format!("{}", a.mul(&b)) }
    }

    /// Relies on `num_bigfloat::BigFloat::div`: the printed quotient depends on
    /// the operand texts alone.
    #[verifier::external_body]
    pub(crate) fn div(&self, other: &Scalar) -> (r: Scalar)
        ensures
            r@ == div_of(self@, other@),
    {
        let a = num_bigfloat::BigFloat::parse(&self.text).unwrap_or(num_bigfloat::NAN);
        let b = num_bigfloat::BigFloat::parse(&other.text).unwrap_or(num_bigfloat::NAN);
        Scalar { text: format!("{}", a.div(&b)) }
    }

    /// Relies on `num_bigfloat::BigFloat::rem`: the printed remainder depends
    /// on the operand texts alone.
    #[verifier::external_body]
    pub(crate) fn rem(&self, other: &Scalar) -> (r: Scalar)
        ensures
            r@ == rem_of(self@, other@),
    {
        let a = num_bigfloat::BigFloat::parse(&self.text).unwrap_or(num_bigfloat::NAN);
        let b = num_bigfloat::BigFloat::parse(&other.text).unwrap_or(num_bigfloat::NAN);
        Scalar { text: format!("{}", a.rem(&b)) }
    }

    /// Relies on `num_bigfloat::BigFloat::sqrt`: the printed root depends on
    /// the operand text alone.
    #[verifier::external_body]
    pub(crate) fn sqrt(&self) -> (r: Scalar)
        ensures
            r@ == sqrt_of(self@),
    {
        let a = num_bigfloat::BigFloat::parse(&self.text).unwrap_or(num_bigfloat::NAN);
        Scalar { text: format!("{}", a.sqrt()) }
    }

    /// Relies on `num_bigfloat::BigFloat::sin`: the printed sine depends on the
    /// operand text alone.
    #[verifier::external_body]
    pub(crate) fn sin(&self) -> (r: Scalar)
        ensures
            r@ == sin_of(self@),
    {
        let a = num_bigfloat::BigFloat::parse(&self.text).unwrap_or(num_bigfloat::NAN);
        Scalar { text: format!("{}", a.sin()) }
    }

    /// Relies on `num_bigfloat::BigFloat::cos`: the printed cosine depends on
    /// the operand text alone.
    #[verifier::external_body]
    pub(crate) fn cos(&self) -> (r: Scalar)
        ensures
            r@ == cos_of(self@),
    {
        let a = num_bigfloat::BigFloat::parse(&self.text).unwrap_or(num_bigfloat::NAN);
        Scalar { text: format!("{}", a.cos()) }
    }

    /// Relies on `num_bigfloat::BigFloat::tan`: the printed tangent depends on
    /// the operand text alone.
    #[verifier::external_body]
    pub(crate) fn tan(&self) -> (r: Scalar)
        ensures
            r@ == tan_of(self@),
    {
        let a = num_bigfloat::BigFloat::parse(&self.text).unwrap_or(num_bigfloat::NAN);
        Scalar { text: format!("{}", a.tan()) }
    }

    /// Relies on `num_bigfloat::BigFloat::atan`: the printed arctangent depends
    /// on the operand text alone.
    #[verifier::external_body]
    pub(crate) fn atan(&self) -> (r: Scalar)
        ensures
            r@ == atan_of(self@),
    {
        let a = num_bigfloat::BigFloat::parse(&self.text).unwrap_or(num_bigfloat::NAN);
        Scalar { text: format!("{}", a.atan()) }
    }

    /// Relies on `num_bigfloat::BigFloat::acos`: the printed arccosine depends
    /// on the operand text alone.
    #[verifier::external_body]
    pub(crate) fn acos(&self) -> (r: Scalar)
        ensures
            r@ == acos_of(self@),
    {
        let a = num_bigfloat::BigFloat::parse(&self.text).unwrap_or(num_bigfloat::NAN);
        Scalar { text: format!("{}", a.acos()) }
    }

    /// Relies on `num_bigfloat::BigFloat::abs`: the printed absolute value
    /// depends on the operand text alone.
    #[verifier::external_body]
    pub(crate) fn abs(&self) -> (r: Scalar)
        ensures
            r@ == abs_of(self@),
    {
        let a = num_bigfloat::BigFloat::parse(&self.text).unwrap_or(num_bigfloat::NAN);
        Scalar { text: format!("{}", a.abs()) }
    }

    /// Relies on the `PartialOrd` ordering of `num_bigfloat::BigFloat`: whether
    /// the first operand compares strictly below the second depends on the
    /// operand texts alone.
    #[verifier::external_body]
    pub(crate) fn lt(&self, other: &Scalar) -> (r: bool)
        ensures
            r == lt_of(self@, other@),
    {
        let a = num_bigfloat::BigFloat::parse(&self.text).unwrap_or(num_bigfloat::NAN);
        let b = num_bigfloat::BigFloat::parse(&other.text).unwrap_or(num_bigfloat::NAN);
        a < b
    }

    /// The negation of this scalar, computed as a subtraction from zero.
    pub(crate) fn neg(&self) -> (r: Scalar)
        ensures
            r@ == neg_of(self@),
    {
        Scalar::zero().sub(self)
    }
}

} // verus!
