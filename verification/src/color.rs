//! Hex colour parsing.
//!
//! Accepts a six-digit RGB or eight-digit RGBA string, with any number of
//! leading `#` marks; the alpha digits are ignored. The caller scales the
//! returned channel bytes however its colour model requires.

use vstd::prelude::*;
use vstd::string::StrSliceExecFns;

verus! {

/// Whether `c` is an ASCII hexadecimal digit.
pub open spec fn is_hex_digit(c: char) -> bool {
    ('0' as int <= c as int <= '9' as int) || ('a' as int <= c as int <= 'f' as int) || (
    'A' as int <= c as int <= 'F' as int)
}

/// The value of one hexadecimal digit.
pub open spec fn hex_val(c: char) -> int
    recommends
        is_hex_digit(c),
{
    if '0' as int <= c as int <= '9' as int {
        c as int - '0' as int
    } else if 'a' as int <= c as int <= 'f' as int {
        c as int - 'a' as int + 10
    } else {
        c as int - 'A' as int + 10
    }
}

/// The string with every leading `#` removed.
pub open spec fn strip_hashes(s: Seq<char>) -> Seq<char>
    decreases s.len(),
{
    if s.len() > 0 && s[0] == '#' {
        strip_hashes(s.skip(1))
    } else {
        s
    }
}

/// The parse a hex colour string denotes: the three channel bytes, or
/// nothing. After the leading `#` marks, the string must be 6 or 8
/// characters long and its first six characters must be hex digits; the
/// trailing alpha pair, when present, is ignored without being read.
pub open spec fn spec_parse_hex_rgb(s: Seq<char>) -> Option<(u8, u8, u8)> {
    let t = strip_hashes(s);
    if (t.len() == 6 || t.len() == 8) && (forall|j: int| 0 <= j < 6 ==> is_hex_digit(#[trigger] t[j])) {
        Some(
            (
                (hex_val(t[0]) * 16 + hex_val(t[1])) as u8,
                (hex_val(t[2]) * 16 + hex_val(t[3])) as u8,
                (hex_val(t[4]) * 16 + hex_val(t[5])) as u8,
            ),
        )
    } else {
        None
    }
}

proof fn lemma_strip_hash_prefix(s: Seq<char>, k: int)
    requires
        0 <= k <= s.len(),
        forall|j: int| 0 <= j < k ==> s[j] == '#',
    ensures
        strip_hashes(s) == strip_hashes(s.skip(k)),
    decreases k,
{
    if k == 0 {
        assert(s.skip(0) =~= s);
    } else {
        assert(strip_hashes(s) == strip_hashes(s.skip(1)));
        lemma_strip_hash_prefix(s.skip(1), k - 1);
        assert(s.skip(1).skip(k - 1) =~= s.skip(k));
    }
}

/// The value of one hex digit, or nothing for any other character.
fn hex_digit_val(c: char) -> (r: Option<u8>)
    ensures
        r is Some <==> is_hex_digit(c),
        r matches Some(v) ==> v == hex_val(c) && v < 16,
{
    let u = c as u32;
    if u >= 48 && u <= 57 {
        Some((u - 48) as u8)
    } else if u >= 97 && u <= 102 {
        Some((u - 97 + 10) as u8)
    } else if u >= 65 && u <= 70 {
        Some((u - 65 + 10) as u8)
    } else {
        None
    }
}

/// Parse a hex colour into its three channel bytes.
///
/// Returns the red, green and blue bytes exactly when the input, after any
/// leading `#` marks, is a six-digit colour or an eight-digit colour whose
/// alpha pair is ignored.
pub fn parse_hex_rgb(s: &str) -> (r: Option<(u8, u8, u8)>)
    ensures
        r == spec_parse_hex_rgb(s@),
{
    let n = s.unicode_len();
    let mut k: usize = 0;
    while k < n && s.get_char(k) == '#'
        invariant
            0 <= k <= n,
            n == s@.len(),
            forall|j: int| 0 <= j < k ==> s@[j] == '#',
        decreases n - k,
    {
        k = k + 1;
    }
    proof {
        lemma_strip_hash_prefix(s@, k as int);
        if k < n {
            assert(s@.skip(k as int)[0] == s@[k as int]);
            assert(strip_hashes(s@.skip(k as int)) == s@.skip(k as int));
        } else {
            assert(s@.skip(k as int) =~= Seq::<char>::empty());
        }
    }
    let m = n - k;
    if m != 6 && m != 8 {
        return None;
    }
    let ghost t = strip_hashes(s@);
    proof {
        assert(t =~= s@.skip(k as int));
        assert(t.len() == m);
    }
    let mut digits: [u8; 6] = [0, 0, 0, 0, 0, 0];
    let mut j: usize = 0;
    while j < 6
        invariant
            0 <= j <= 6,
            n == s@.len(),
            k + 6 <= n,
            t == strip_hashes(s@),
            t =~= s@.skip(k as int),
            t.len() >= 6,
            forall|idx: int|
                0 <= idx < j ==> is_hex_digit(t[idx]) && digits@[idx] == hex_val(#[trigger] t[idx]),
        decreases 6 - j,
    {
        let c = s.get_char(k + j);
        proof {
            assert(t[j as int] == s@[k + j]);
        }
        match hex_digit_val(c) {
            Some(v) => {
                digits[j] = v;
            },
            None => {
                return None;
            },
        }
        j = j + 1;
    }
    let red = digits[0] * 16 + digits[1];
    let green = digits[2] * 16 + digits[3];
    let blue = digits[4] * 16 + digits[5];
    Some((red, green, blue))
}

} // verus!
