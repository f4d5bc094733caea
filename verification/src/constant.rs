//! The unquoted-value wrapper: a thin marker around a value that must be
//! emitted verbatim (unquoted, unescaped) in generated text.

use vstd::prelude::*;

verus! {

/// An unquoted value. Rendering it produces exactly the wrapped value's own
/// text, with no surrounding quotes and no escaping.
///
/// No validation happens on construction: the caller is responsible for only
/// wrapping values that are syntactically safe to emit bare (identifiers,
/// type names, keywords, numeric literals).
#[derive(Debug)]
pub struct Constant<T>(pub T);

impl<'a> Clone for Constant<&'a str> {
    /// Duplicating a reference-typed wrapper copies the reference, not the
    /// data: the clone holds the very same slice.
    fn clone(&self) -> (r: Self)
        ensures
            r == *self,
    {
        Constant(self.0)
    }
}

impl<'a> Copy for Constant<&'a str> {

}

/// The text an unquoted string wrapper renders as: exactly the wrapped slice.
pub open spec fn rendered(c: Constant<&str>) -> Seq<char> {
    c.0@
}

impl<T> Constant<T> {
    /// Wraps a value without checking it. Validity of the value as a bare
    /// token is the caller's obligation.
    pub fn new_no_validate(value: T) -> (r: Self)
        ensures
            r.0 == value,
    {
        Constant(value)
    }

    /// Unwraps, returning the inner value unchanged.
    pub fn into_inner(self) -> (r: T)
        ensures
            r == self.0,
    {
        self.0
    }
}

impl<T> From<T> for Constant<T> {
    /// Wraps a value without checking it, as `new_no_validate` does.
    fn from(inner: T) -> (r: Self)
        ensures
            r.0 == inner,
    {
        Constant(inner)
    }
}

impl<T> vstd::std_specs::convert::FromSpecImpl<T> for Constant<T> {
    open spec fn obeys_from_spec() -> bool {
        true
    }

    open spec fn from_spec(v: T) -> Self {
        Constant(v)
    }
}

impl<'a> Constant<&'a str> {
    /// A view of the wrapped string slice; no re-validation happens.
    pub fn as_ref(&self) -> (r: &'a str)
        ensures
            r@ == self.0@,
    {
        self.0
    }

    /// Renders the wrapper for generated output: the result is the wrapped
    /// text itself, unquoted and unescaped.
    pub fn render(&self) -> (r: String)
        ensures
            r@ == rendered(*self),
    {
        String::from_str(self.0)
    }
}

impl Constant<String> {
    /// Renders the wrapper for generated output: the result is the wrapped
    /// text itself, unquoted and unescaped.
    pub fn render(&self) -> (r: String)
        ensures
            r@ == self.0@,
    {
        String::from_str(self.0.as_str())
    }
}

/// The character for one decimal digit.
pub open spec fn digit_char(d: nat) -> char {
    ((d + 48) as u8) as char
}

/// The decimal numeral of `n`: most significant digit first, no sign and no
/// leading zeros (the numeral of zero is `0`).
pub open spec fn decimal(n: nat) -> Seq<char>
    decreases n,
{
    if n < 10 {
        seq![digit_char(n)]
    } else {
        decimal(n / 10) + seq![digit_char(n % 10)]
    }
}

/// One decimal digit as text, taken from a digit table.
fn digit_str(d: u64) -> (r: &'static str)
    requires
        d < 10,
    ensures
        r@ == seq![digit_char(d as nat)],
{
    let table = "0123456789";
    proof {
        reveal_strlit("0123456789");
    }
    let r = table.substring_ascii(d as usize, d as usize + 1);
    proof {
        assert(r@ =~= seq![digit_char(d as nat)]);
    }
    r
}

/// The decimal numeral of `n`, built digit by digit.
fn render_u64(n: u64) -> (r: String)
    ensures
        r@ == decimal(n as nat),
    decreases n,
{
    if n < 10 {
        String::from_str(digit_str(n))
    } else {
        let rest = render_u64(n / 10);
        let last = digit_str(n % 10);
        rest.concat(last)
    }
}

impl Constant<u64> {
    /// Renders the wrapper for generated output: the wrapped number's decimal
    /// numeral, bare — not quoted.
    pub fn render(&self) -> (r: String)
        ensures
            r@ == decimal(self.0 as nat),
    {
        render_u64(self.0)
    }
}

/// Law: wrapping a value and rendering the wrapper yields exactly the value's
/// own text — nothing is quoted, escaped, added or dropped.
pub proof fn lemma_render_is_identity(v: &str, c: Constant<&str>)
    requires
        c.0 == v,
    ensures
        rendered(c) == v@,
{
}

/// Law: duplicating a reference-typed wrapper (it is `Copy`: the reference is
/// copied, not the data) preserves the rendered output: two wrappers around
/// the same slice render identically.
pub proof fn lemma_copy_renders_identical(a: Constant<&str>, b: Constant<&str>)
    requires
        a.0 == b.0,
    ensures
        rendered(a) == rendered(b),
{
}

} // verus!
