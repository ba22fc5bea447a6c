//! Text helpers: comparison, and the normalization of labels read from seed files.

use vstd::prelude::*;
use vstd::string::*;

verus! {

/// Whether a character has the Unicode White_Space property.
pub open spec fn is_white_space(c: char) -> bool {
    let u = c as u32;
    ||| 0x9 <= u <= 0xD
    ||| u == 0x20
    ||| u == 0x85
    ||| u == 0xA0
    ||| u == 0x1680
    ||| 0x2000 <= u <= 0x200A
    ||| u == 0x2028
    ||| u == 0x2029
    ||| u == 0x202F
    ||| u == 0x205F
    ||| u == 0x3000
}

/// The text with its leading white space removed.
pub open spec fn trim_start_of(s: Seq<char>) -> Seq<char>
    decreases s.len(),
{
    if s.len() > 0 && is_white_space(s[0]) {
        trim_start_of(s.subrange(1, s.len() as int))
    } else {
        s
    }
}

/// The text with its trailing white space removed.
pub open spec fn trim_end_of(s: Seq<char>) -> Seq<char>
    decreases s.len(),
{
    if s.len() > 0 && is_white_space(s[s.len() - 1]) {
        trim_end_of(s.subrange(0, s.len() - 1))
    } else {
        s
    }
}

/// The text with leading and trailing white space removed.
pub open spec fn trim_of(s: Seq<char>) -> Seq<char> {
    trim_end_of(trim_start_of(s))
}

/// The text with every character mapped to its Unicode lowercase.
pub uninterp spec fn lower_of(s: Seq<char>) -> Seq<char>;

/// Whether a character has the Unicode White_Space property.
pub fn is_white_space_char(c: char) -> (r: bool)
    ensures
        r == is_white_space(c),
{
    let u = c as u32;
    (0x9 <= u && u <= 0xD) || u == 0x20 || u == 0x85 || u == 0xA0 || u == 0x1680
        || (0x2000 <= u && u <= 0x200A) || u == 0x2028 || u == 0x2029 || u == 0x202F
        || u == 0x205F || u == 0x3000
}

/// Removes leading and trailing white space.
pub fn trim_text(s: &str) -> (r: String)
    ensures
        r@ == trim_of(s@),
{
    let n = s.unicode_len();
    let mut a: usize = 0;
    proof {
        assert(s@.subrange(0, n as int) =~= s@);
    }
    while a < n && is_white_space_char(s.get_char(a))
        invariant
            n == s@.len(),
            a <= n,
            trim_start_of(s@.subrange(a as int, n as int)) == trim_start_of(s@),
        decreases n - a,
    {
        proof {
            let t = s@.subrange(a as int, n as int);
            assert(t.subrange(1, t.len() as int) =~= s@.subrange(a + 1, n as int));
        }
        a = a + 1;
    }
    proof {
        let t = s@.subrange(a as int, n as int);
        if t.len() > 0 {
            assert(t[0] == s@[a as int]);
        }
        assert(trim_start_of(t) == t);
        assert(s@.subrange(a as int, n as int) == t);
    }
    let mut b: usize = n;
    while b > a && is_white_space_char(s.get_char(b - 1))
        invariant
            n == s@.len(),
            a <= b <= n,
            trim_start_of(s@) == s@.subrange(a as int, n as int),
            trim_end_of(s@.subrange(a as int, b as int)) == trim_of(s@),
        decreases b,
    {
        proof {
            let t = s@.subrange(a as int, b as int);
            assert(t[t.len() - 1] == s@[b - 1]);
            assert(t.subrange(0, t.len() - 1) =~= s@.subrange(a as int, b - 1));
        }
        b = b - 1;
    }
    proof {
        let t = s@.subrange(a as int, b as int);
        if t.len() > 0 {
            assert(t[t.len() - 1] == s@[b - 1]);
        }
    }
    String::from_str(s.substring_char(a, b))
}

/// Relies on str::to_lowercase: the Unicode lowercase mapping of each character.
#[verifier::external_body]
fn lowercase_text(s: &str) -> (r: String)
    ensures
        r@ == lower_of(s@),
{
    s.to_lowercase()
}

/// Whether two texts hold the same characters.
pub fn text_is(s: &str, t: &str) -> (r: bool)
    ensures
        r == (s@ == t@),
{
    String::from_str(s) == String::from_str(t)
}

/// A label as it is compared: trimmed, then lowercased.
pub fn normalize_label(s: &str) -> (r: String)
    ensures
        r@ == lower_of(trim_of(s@)),
{
    let trimmed = trim_text(s);
    lowercase_text(trimmed.as_str())
}

} // verus!
