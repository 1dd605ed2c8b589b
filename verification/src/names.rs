//! Renaming rules that keep generated identifiers legal C++: reserved words
//! get a trailing marker, and purely numeric field names get an `f` prefix.

use vstd::prelude::*;
use crate::text::str_eq;

verus! {

/// The fixed rename table for identifiers that collide with C++ keywords.
pub open spec fn keyword_text(name: Seq<char>) -> Seq<char> {
    if name == "new"@ {
        "new_"@
    } else if name == "default"@ {
        "default_"@
    } else {
        name
    }
}

pub fn cpp_handle_keyword(name: &str) -> (r: &str)
    ensures
        r@ == keyword_text(name@),
{
    if str_eq(name, "new") {
        "new_"
    } else if str_eq(name, "default") {
        "default_"
    } else {
        name
    }
}

pub open spec fn is_digit(c: char) -> bool {
    c == '0' || c == '1' || c == '2' || c == '3' || c == '4' || c == '5' || c == '6' || c == '7'
        || c == '8' || c == '9'
}

pub open spec fn digit_of(c: char) -> nat {
    if c == '0' {
        0
    } else if c == '1' {
        1
    } else if c == '2' {
        2
    } else if c == '3' {
        3
    } else if c == '4' {
        4
    } else if c == '5' {
        5
    } else if c == '6' {
        6
    } else if c == '7' {
        7
    } else if c == '8' {
        8
    } else {
        9
    }
}

/// The numeric value of a digit string, most significant digit first.
pub open spec fn digits_val(s: Seq<char>) -> nat
    decreases s.len(),
{
    if s.len() == 0 {
        0
    } else {
        digits_val(s.drop_last()) * 10 + digit_of(s.last())
    }
}

/// A non-empty string of decimal digits whose value fits in a `u32`.
pub open spec fn digits_ok(s: Seq<char>) -> bool {
    s.len() > 0 && (forall|i: int| 0 <= i < s.len() ==> is_digit(s[i])) && digits_val(s)
        <= u32::MAX
}

/// Whether `s` is accepted by a `u32` parse: an optional leading `+`, then
/// decimal digits whose value is in range.
pub open spec fn is_u32_text(s: Seq<char>) -> bool {
    if s.len() > 0 && s[0] == '+' {
        digits_ok(s.skip(1))
    } else {
        digits_ok(s)
    }
}

proof fn lemma_digits_val_prefix_le(s: Seq<char>, i: int)
    requires
        0 <= i <= s.len(),
    ensures
        digits_val(s.take(i)) <= digits_val(s),
    decreases s.len() - i,
{
    if i < s.len() {
        assert(s.take(i + 1).drop_last() =~= s.take(i));
        assert(digits_val(s.take(i + 1)) == digits_val(s.take(i)) * 10 + digit_of(
            s.take(i + 1).last(),
        ));
        lemma_digits_val_prefix_le(s, i + 1);
    } else {
        assert(s.take(i) =~= s);
    }
}

fn digits_ok_exec(s: &str) -> (r: bool)
    ensures
        r == digits_ok(s@),
{
    let len: usize = s.unicode_len();
    if len == 0 {
        return false;
    }
    let mut v: u64 = 0;
    let mut i: usize = 0;
    while i < len
        invariant
            0 <= i <= len,
            len == s@.len(),
            forall|j: int| 0 <= j < i ==> is_digit(s@[j]),
            v == digits_val(s@.take(i as int)),
            v <= u32::MAX,
        decreases len - i,
    {
        let c = s.get_char(i);
        let d: u64 = if c == '0' {
            0
        } else if c == '1' {
            1
        } else if c == '2' {
            2
        } else if c == '3' {
            3
        } else if c == '4' {
            4
        } else if c == '5' {
            5
        } else if c == '6' {
            6
        } else if c == '7' {
            7
        } else if c == '8' {
            8
        } else if c == '9' {
            9
        } else {
            return false;
        };
        assert(is_digit(s@[i as int]) && d == digit_of(s@[i as int]));
        proof {
            assert(s@.take(i + 1).drop_last() =~= s@.take(i as int));
            assert(s@.take(i + 1).last() == s@[i as int]);
        }
        let next: u64 = v * 10 + d;
        if next > 0xffff_ffff {
            proof {
                lemma_digits_val_prefix_le(s@, i + 1);
            }
            return false;
        }
        v = next;
        i = i + 1;
    }
    proof {
        assert(s@.take(len as int) =~= s@);
    }
    true
}

/// Whether `name` would be accepted by a `u32` parse.
pub fn parses_as_u32(name: &str) -> (r: bool)
    ensures
        r == is_u32_text(name@),
{
    let len: usize = name.unicode_len();
    if len > 0 && name.get_char(0) == '+' {
        let rest = name.substring_char(1, len);
        proof {
            assert(rest@ =~= name@.skip(1));
        }
        digits_ok_exec(rest)
    } else {
        digits_ok_exec(name)
    }
}

/// A field whose name is numeric (a tuple index) is renamed with an `f`
/// prefix; otherwise the keyword table applies.
pub open spec fn field_name_text(name: Seq<char>) -> Seq<char> {
    if is_u32_text(name) {
        "f"@ + name
    } else {
        keyword_text(name)
    }
}

pub fn cpp_handle_field_name(name: &str) -> (r: String)
    ensures
        r@ == field_name_text(name@),
{
    if parses_as_u32(name) {
        let mut r = String::from_str("f");
        r.append(name);
        r
    } else {
        cpp_handle_keyword(name).to_owned()
    }
}

} // verus!
