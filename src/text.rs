use vstd::prelude::*;
use vstd::string::*;

verus! {

/// ASCII upper-casing of one character; other characters are kept.
pub open spec fn upper_char(c: char) -> char {
    if 'a' <= c && c <= 'z' {
        (((c as u32) - 32) as u8) as char
    } else {
        c
    }
}

/// ASCII upper-casing of a whole text.
pub open spec fn upper_seq(s: Seq<char>) -> Seq<char> {
    Seq::new(s.len(), |i: int| upper_char(s[i]))
}

pub fn to_upper_char(c: char) -> (r: char)
    ensures
        r == upper_char(c),
{
    if 'a' <= c && c <= 'z' {
        let u: u8 = ((c as u32) - 32) as u8;
        u as char
    } else {
        c
    }
}

/// Whether `s`, upper-cased, is exactly `name`.
pub fn equals_upper(s: &str, name: &str) -> (r: bool)
    ensures
        r == (upper_seq(s@) == name@),
{
    let n = s.unicode_len();
    let m = name.unicode_len();
    if n != m {
        proof {
            assert(upper_seq(s@).len() != name@.len());
        }
        return false;
    }
    let mut i: usize = 0;
    while i < n
        invariant
            n == s@.len(),
            m == name@.len(),
            n == m,
            i <= n,
            forall|j: int| 0 <= j < i ==> upper_char(s@[j]) == name@[j],
        decreases n - i,
    {
        let c = to_upper_char(s.get_char(i));
        if c != name.get_char(i) {
            proof {
                assert(upper_seq(s@)[i as int] != name@[i as int]);
            }
            return false;
        }
        i = i + 1;
    }
    proof {
        assert(upper_seq(s@) =~= name@);
    }
    true
}

/// Whether two texts are equal once both are upper-cased.
pub fn equals_ignore_case(a: &str, b: &str) -> (r: bool)
    ensures
        r == (upper_seq(a@) == upper_seq(b@)),
{
    let n = a.unicode_len();
    let m = b.unicode_len();
    if n != m {
        proof {
            assert(upper_seq(a@).len() != upper_seq(b@).len());
        }
        return false;
    }
    let mut i: usize = 0;
    while i < n
        invariant
            n == a@.len(),
            m == b@.len(),
            n == m,
            i <= n,
            forall|j: int| 0 <= j < i ==> upper_char(a@[j]) == upper_char(b@[j]),
        decreases n - i,
    {
        if to_upper_char(a.get_char(i)) != to_upper_char(b.get_char(i)) {
            proof {
                assert(upper_seq(a@)[i as int] != upper_seq(b@)[i as int]);
            }
            return false;
        }
        i = i + 1;
    }
    proof {
        assert(upper_seq(a@) =~= upper_seq(b@));
    }
    true
}

/// Whether two texts are equal, character by character.
pub fn str_equal(a: &str, b: &str) -> (r: bool)
    ensures
        r == (a@ == b@),
{
    let n = a.unicode_len();
    let m = b.unicode_len();
    if n != m {
        return false;
    }
    let mut i: usize = 0;
    while i < n
        invariant
            n == a@.len(),
            m == b@.len(),
            n == m,
            i <= n,
            forall|j: int| 0 <= j < i ==> a@[j] == b@[j],
        decreases n - i,
    {
        if a.get_char(i) != b.get_char(i) {
            return false;
        }
        i = i + 1;
    }
    proof {
        assert(a@ =~= b@);
    }
    true
}

/// The decimal digit character for `d < 10`.
pub open spec fn digit_char(d: nat) -> char {
    ((d + 48) as u32) as char
}

/// Decimal notation of a natural number, without leading zeros.
pub open spec fn decimal(n: nat) -> Seq<char>
    decreases n,
{
    if n < 10 {
        seq![digit_char(n)]
    } else {
        decimal(n / 10).push(digit_char(n % 10))
    }
}

/// Relies on the standard `Display` of `u64` (`to_string`): plain decimal digits.
#[verifier::external_body]
fn u64_decimal(n: u64) -> (r: String)
    ensures
        r@ == decimal(n as nat),
{
    n.to_string()
}

/// A fixed-point amount in hundredths, written with exactly two decimals:
/// an optional minus sign, the whole part, a point, and two digits.
pub open spec fn hundredths_text(v: int) -> Seq<char> {
    let a: nat = if v < 0 { (-v) as nat } else { v as nat };
    let sign: Seq<char> = if v < 0 { seq!['-'] } else { seq![] };
    let frac: nat = a % 100;
    let frac_text: Seq<char> = if frac < 10 { seq!['0'].add(decimal(frac)) } else { decimal(frac) };
    sign + decimal(a / 100) + seq!['.'] + frac_text
}

/// Writes the sign (when `negative`) and the magnitude `a` hundredths with
/// two digits after the point.
fn format_signed_magnitude(negative: bool, a: u64) -> (r: String)
    ensures
        r@ == (if negative { seq!['-'] } else { Seq::<char>::empty() }) + decimal((a / 100) as nat)
            + seq!['.'] + (if a % 100 < 10 { seq!['0'].add(decimal((a % 100) as nat)) } else {
            decimal((a % 100) as nat)
        }),
{
    let mut out = String::new();
    if negative {
        out.append("-");
    }
    let whole = u64_decimal(a / 100);
    out.append(whole.as_str());
    out.append(".");
    let frac = a % 100;
    if frac < 10 {
        out.append("0");
    }
    let frac_text = u64_decimal(frac);
    out.append(frac_text.as_str());
    proof {
        reveal_strlit("-");
        reveal_strlit(".");
        reveal_strlit("0");
        let sign: Seq<char> = if negative { seq!['-'] } else { Seq::<char>::empty() };
        let ft: Seq<char> = if frac < 10 { seq!['0'].add(decimal(frac as nat)) } else { decimal(frac as nat) };
        assert(out@ =~= sign + decimal((a / 100) as nat) + seq!['.'] + ft);
    }
    out
}

/// Writes `v` hundredths as a decimal number with two digits after the point
/// (`-150` is written `-1.50`).
pub fn format_hundredths(v: i64) -> (r: String)
    ensures
        r@ == hundredths_text(v as int),
{
    let a: u64 = if v < 0 {
        if v == i64::MIN {
            9223372036854775808u64
        } else {
            (-v) as u64
        }
    } else {
        v as u64
    };
    let r = format_signed_magnitude(v < 0, a);
    proof {
        assert(r@ =~= hundredths_text(v as int));
    }
    r
}

/// Writes `v` hundredths as a decimal number with two digits after the point.
pub fn format_unsigned_hundredths(v: u64) -> (r: String)
    ensures
        r@ == hundredths_text(v as int),
{
    let r = format_signed_magnitude(false, v);
    proof {
        assert(r@ =~= hundredths_text(v as int));
    }
    r
}

} // verus!
