//! Magnitude prefixes and their decimal (SI) and binary (IEC) multipliers.

use vstd::arithmetic::power::pow;
use vstd::prelude::*;

verus! {

/// The magnitude class that a prefix token names.
#[derive(Clone, Copy, Debug, PartialEq, Eq, Structural)]
pub enum Magnitude {
    One,
    Kilo,
    Mega,
    Giga,
    Tera,
    Peta,
}

/// The class of a lower-cased prefix: the full word or its first letter.
/// Anything else, the empty prefix included, scales by one.
pub open spec fn magnitude_of(p: Seq<char>) -> Magnitude {
    if p == seq!['k'] || p == seq!['k', 'i', 'l', 'o'] {
        Magnitude::Kilo
    } else if p == seq!['m'] || p == seq!['m', 'e', 'g', 'a'] {
        Magnitude::Mega
    } else if p == seq!['g'] || p == seq!['g', 'i', 'g', 'a'] {
        Magnitude::Giga
    } else if p == seq!['t'] || p == seq!['t', 'e', 'r', 'a'] {
        Magnitude::Tera
    } else if p == seq!['p'] || p == seq!['p', 'e', 't', 'a'] {
        Magnitude::Peta
    } else {
        Magnitude::One
    }
}

/// Powers of 1000 when `si` holds, powers of 1024 otherwise.
pub open spec fn multiplier(m: Magnitude, si: bool) -> nat {
    match m {
        Magnitude::One => 1,
        Magnitude::Kilo => if si { 1_000 } else { 1_024 },
        Magnitude::Mega => if si { 1_000_000 } else { 1_048_576 },
        Magnitude::Giga => if si { 1_000_000_000 } else { 1_073_741_824 },
        Magnitude::Tera => if si { 1_000_000_000_000 } else { 1_099_511_627_776 },
        Magnitude::Peta => if si { 1_000_000_000_000_000 } else { 1_125_899_906_842_624 },
    }
}

/// How many times the base multiplies in: kilo once, up to peta five times.
pub open spec fn exponent(m: Magnitude) -> nat {
    match m {
        Magnitude::One => 0,
        Magnitude::Kilo => 1,
        Magnitude::Mega => 2,
        Magnitude::Giga => 3,
        Magnitude::Tera => 4,
        Magnitude::Peta => 5,
    }
}

/// The table holds powers of 1000 for decimal prefixes and of 1024 for
/// binary ones.
pub proof fn lemma_multiplier_is_power(m: Magnitude, si: bool)
    ensures
        multiplier(m, si) == pow(if si { 1000 } else { 1024 }, exponent(m)),
{
    reveal_with_fuel(pow, 6);
}

/// `value` scaled by the multiplier, when the product fits in a `u64`.
pub open spec fn scaled(value: u64, m: Magnitude, si: bool) -> Option<u64> {
    let total = value * multiplier(m, si);
    if total <= u64::MAX {
        Some(total as u64)
    } else {
        None
    }
}

/// Whether two strings hold the same characters.
pub fn same_text(a: &str, b: &str) -> (r: bool)
    ensures
        r == (a@ == b@),
{
    let n = a.unicode_len();
    if n != b.unicode_len() {
        return false;
    }
    let mut i: usize = 0;
    while i < n
        invariant
            n == a@.len(),
            n == b@.len(),
            i <= n,
            forall|j: int| 0 <= j < i ==> a@[j] == b@[j],
        decreases n - i,
    {
        if a.get_char(i) != b.get_char(i) {
            return false;
        }
        i = i + 1;
    }
    assert(a@ =~= b@);
    true
}

/// The magnitude class of a lower-cased prefix token.
pub fn magnitude(p: &str) -> (m: Magnitude)
    ensures
        m == magnitude_of(p@),
{
    proof {
        reveal_strlit("k");
        assert("k"@ =~= seq!['k']);
        reveal_strlit("kilo");
        assert("kilo"@ =~= seq!['k', 'i', 'l', 'o']);
        reveal_strlit("m");
        assert("m"@ =~= seq!['m']);
        reveal_strlit("mega");
        assert("mega"@ =~= seq!['m', 'e', 'g', 'a']);
        reveal_strlit("g");
        assert("g"@ =~= seq!['g']);
        reveal_strlit("giga");
        assert("giga"@ =~= seq!['g', 'i', 'g', 'a']);
        reveal_strlit("t");
        assert("t"@ =~= seq!['t']);
        reveal_strlit("tera");
        assert("tera"@ =~= seq!['t', 'e', 'r', 'a']);
        reveal_strlit("p");
        assert("p"@ =~= seq!['p']);
        reveal_strlit("peta");
        assert("peta"@ =~= seq!['p', 'e', 't', 'a']);
    }
    if same_text(p, "k") || same_text(p, "kilo") {
        Magnitude::Kilo
    } else if same_text(p, "m") || same_text(p, "mega") {
        Magnitude::Mega
    } else if same_text(p, "g") || same_text(p, "giga") {
        Magnitude::Giga
    } else if same_text(p, "t") || same_text(p, "tera") {
        Magnitude::Tera
    } else if same_text(p, "p") || same_text(p, "peta") {
        Magnitude::Peta
    } else {
        Magnitude::One
    }
}

/// Relies on `bytesize::kb`: the byte count of `size` decimal kilobytes,
/// `size * 1_000`, which must not overflow.
#[verifier::external_body]
fn kb(size: u64) -> (r: u64)
    requires
        size * 1_000 <= u64::MAX,
    ensures
        r == size * 1_000,
{
    bytesize::kb(size)
}

/// Relies on `bytesize::kib`: the byte count of `size` binary kibibytes,
/// `size * 1_024`, which must not overflow.
#[verifier::external_body]
fn kib(size: u64) -> (r: u64)
    requires
        size * 1_024 <= u64::MAX,
    ensures
        r == size * 1_024,
{
    bytesize::kib(size)
}

/// Relies on `bytesize::mb`: the byte count of `size` decimal megabytes,
/// `size * 1_000_000`, which must not overflow.
#[verifier::external_body]
fn mb(size: u64) -> (r: u64)
    requires
        size * 1_000_000 <= u64::MAX,
    ensures
        r == size * 1_000_000,
{
    bytesize::mb(size)
}

/// Relies on `bytesize::mib`: the byte count of `size` binary mebibytes,
/// `size * 1_048_576`, which must not overflow.
#[verifier::external_body]
fn mib(size: u64) -> (r: u64)
    requires
        size * 1_048_576 <= u64::MAX,
    ensures
        r == size * 1_048_576,
{
    bytesize::mib(size)
}

/// Relies on `bytesize::gb`: the byte count of `size` decimal gigabytes,
/// `size * 1_000_000_000`, which must not overflow.
#[verifier::external_body]
fn gb(size: u64) -> (r: u64)
    requires
        size * 1_000_000_000 <= u64::MAX,
    ensures
        r == size * 1_000_000_000,
{
    bytesize::gb(size)
}

/// Relies on `bytesize::gib`: the byte count of `size` binary gibibytes,
/// `size * 1_073_741_824`, which must not overflow.
#[verifier::external_body]
fn gib(size: u64) -> (r: u64)
    requires
        size * 1_073_741_824 <= u64::MAX,
    ensures
        r == size * 1_073_741_824,
{
    bytesize::gib(size)
}

/// Relies on `bytesize::tb`: the byte count of `size` decimal terabytes,
/// `size * 1_000_000_000_000`, which must not overflow.
#[verifier::external_body]
fn tb(size: u64) -> (r: u64)
    requires
        size * 1_000_000_000_000 <= u64::MAX,
    ensures
        r == size * 1_000_000_000_000,
{
    bytesize::tb(size)
}

/// Relies on `bytesize::tib`: the byte count of `size` binary tebibytes,
/// `size * 1_099_511_627_776`, which must not overflow.
#[verifier::external_body]
fn tib(size: u64) -> (r: u64)
    requires
        size * 1_099_511_627_776 <= u64::MAX,
    ensures
        r == size * 1_099_511_627_776,
{
    bytesize::tib(size)
}

/// Relies on `bytesize::pb`: the byte count of `size` decimal petabytes,
/// `size * 1_000_000_000_000_000`, which must not overflow.
#[verifier::external_body]
fn pb(size: u64) -> (r: u64)
    requires
        size * 1_000_000_000_000_000 <= u64::MAX,
    ensures
        r == size * 1_000_000_000_000_000,
{
    bytesize::pb(size)
}

/// Relies on `bytesize::pib`: the byte count of `size` binary pebibytes,
/// `size * 1_125_899_906_842_624`, which must not overflow.
#[verifier::external_body]
fn pib(size: u64) -> (r: u64)
    requires
        size * 1_125_899_906_842_624 <= u64::MAX,
    ensures
        r == size * 1_125_899_906_842_624,
{
    bytesize::pib(size)
}

/// `v * k` stays within `n` exactly when `v` is at most `n / k`.
proof fn lemma_product_bound(v: int, k: int, n: int)
    requires
        v >= 0,
        k > 0,
        n >= 0,
    ensures
        (v <= n / k) == (v * k <= n),
{
    assert((v <= n / k) == (v * k <= n)) by (nonlinear_arith)
        requires
            v >= 0,
            k > 0,
            n >= 0,
    {
        vstd::arithmetic::div_mod::lemma_fundamental_div_mod(n, k);
    }
}

/// Scales `value` by the multiplier of `m`; `None` when the product does
/// not fit in a `u64`.
pub fn scale(value: u64, m: Magnitude, si: bool) -> (r: Option<u64>)
    ensures
        r == scaled(value, m, si),
{
    proof {
        lemma_product_bound(value as int, 1_000, u64::MAX as int);
        lemma_product_bound(value as int, 1_024, u64::MAX as int);
        lemma_product_bound(value as int, 1_000_000, u64::MAX as int);
        lemma_product_bound(value as int, 1_048_576, u64::MAX as int);
        lemma_product_bound(value as int, 1_000_000_000, u64::MAX as int);
        lemma_product_bound(value as int, 1_073_741_824, u64::MAX as int);
        lemma_product_bound(value as int, 1_000_000_000_000, u64::MAX as int);
        lemma_product_bound(value as int, 1_099_511_627_776, u64::MAX as int);
        lemma_product_bound(value as int, 1_000_000_000_000_000, u64::MAX as int);
        lemma_product_bound(value as int, 1_125_899_906_842_624, u64::MAX as int);
    }
    match m {
        Magnitude::One => {
            assert(value * 1 == value);
            Some(value)
        },
        Magnitude::Kilo => if si {
            if value <= u64::MAX / 1_000 {
                Some(kb(value))
            } else {
                None
            }
        } else {
            if value <= u64::MAX / 1_024 {
                Some(kib(value))
            } else {
                None
            }
        },
        Magnitude::Mega => if si {
            if value <= u64::MAX / 1_000_000 {
                Some(mb(value))
            } else {
                None
            }
        } else {
            if value <= u64::MAX / 1_048_576 {
                Some(mib(value))
            } else {
                None
            }
        },
        Magnitude::Giga => if si {
            if value <= u64::MAX / 1_000_000_000 {
                Some(gb(value))
            } else {
                None
            }
        } else {
            if value <= u64::MAX / 1_073_741_824 {
                Some(gib(value))
            } else {
                None
            }
        },
        Magnitude::Tera => if si {
            if value <= u64::MAX / 1_000_000_000_000 {
                Some(tb(value))
            } else {
                None
            }
        } else {
            if value <= u64::MAX / 1_099_511_627_776 {
                Some(tib(value))
            } else {
                None
            }
        },
        Magnitude::Peta => if si {
            if value <= u64::MAX / 1_000_000_000_000_000 {
                Some(pb(value))
            } else {
                None
            }
        } else {
            if value <= u64::MAX / 1_125_899_906_842_624 {
                Some(pib(value))
            } else {
                None
            }
        },
    }
}

} // verus!
