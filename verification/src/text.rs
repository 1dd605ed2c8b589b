//! Text-building primitives shared by every emitter: the output buffer
//! (`State`), decimal rendering of numbers, string comparison, substring
//! search, and textual replacement.

use vstd::prelude::*;

verus! {

/// The text of one decimal digit.
pub open spec fn digit_text(d: nat) -> Seq<char> {
    if d == 0 {
        "0"@
    } else if d == 1 {
        "1"@
    } else if d == 2 {
        "2"@
    } else if d == 3 {
        "3"@
    } else if d == 4 {
        "4"@
    } else if d == 5 {
        "5"@
    } else if d == 6 {
        "6"@
    } else if d == 7 {
        "7"@
    } else if d == 8 {
        "8"@
    } else {
        "9"@
    }
}

/// The decimal rendering of `n`, most significant digit first.
pub open spec fn dec_text(n: nat) -> Seq<char>
    decreases n,
{
    if n < 10 {
        digit_text(n)
    } else {
        dec_text(n / 10) + digit_text(n % 10)
    }
}

/// The append-only output buffer threaded through emission, together with the
/// global panic-to-exception switch that a few emitters consult.
pub struct State {
    pub text: String,
    pub panic_to_exception: bool,
}

impl State {
    pub fn new(panic_to_exception: bool) -> (s: State)
        ensures
            s.text@ == Seq::<char>::empty(),
            s.panic_to_exception == panic_to_exception,
    {
        State { text: String::new(), panic_to_exception }
    }

    /// Appends `s` to the buffer.
    pub fn put(&mut self, s: &str)
        ensures
            final(self).text@ == old(self).text@ + s@,
            final(self).panic_to_exception == old(self).panic_to_exception,
    {
        self.text.append(s);
    }

    /// Appends the decimal rendering of `n`.
    pub fn put_usize(&mut self, n: usize)
        ensures
            final(self).text@ == old(self).text@ + dec_text(n as nat),
            final(self).panic_to_exception == old(self).panic_to_exception,
        decreases n,
    {
        if n >= 10 {
            self.put_usize(n / 10);
        }
        let d: usize = n % 10;
        if d == 0 {
            self.put("0");
        } else if d == 1 {
            self.put("1");
        } else if d == 2 {
            self.put("2");
        } else if d == 3 {
            self.put("3");
        } else if d == 4 {
            self.put("4");
        } else if d == 5 {
            self.put("5");
        } else if d == 6 {
            self.put("6");
        } else if d == 7 {
            self.put("7");
        } else if d == 8 {
            self.put("8");
        } else {
            self.put("9");
        }
    }
}

/// The panic-translation epilogue pasted after every boundary call when the
/// panic-to-exception mode is on.
pub open spec fn panic_handler_text(panic_to_exception: bool) -> Seq<char> {
    if panic_to_exception {
        "\n            if (__zngur_detect_panic()) {\n                __zngur_take_panic();\n                throw ::rust::Panic{};\n            }\n            "@
    } else {
        Seq::<char>::empty()
    }
}

/// `s` with every occurrence of `pat` replaced by `to`, scanning left to
/// right without overlap.
pub open spec fn replace_text(s: Seq<char>, pat: Seq<char>, to: Seq<char>) -> Seq<char>
    decreases s.len(),
    when pat.len() > 0
{
    if s.len() < pat.len() {
        s
    } else if s.take(pat.len() as int) == pat {
        to + replace_text(s.skip(pat.len() as int), pat, to)
    } else {
        seq![s[0]] + replace_text(s.skip(1), pat, to)
    }
}

/// Whether `s` matches `pat` starting at `at`.
fn matches_at(s: &str, s_len: usize, pat: &str, pat_len: usize, at: usize) -> (r: bool)
    requires
        s_len == s@.len(),
        pat_len == pat@.len(),
        at + pat_len <= s_len,
    ensures
        r == (s@.subrange(at as int, at + pat_len) == pat@),
{
    let mut i: usize = 0;
    while i < pat_len
        invariant
            0 <= i <= pat_len,
            s_len == s@.len(),
            pat_len == pat@.len(),
            at + pat_len <= s_len,
            forall|j: int| 0 <= j < i ==> s@[at + j] == pat@[j],
        decreases pat_len - i,
    {
        if s.get_char(at + i) != pat.get_char(i) {
            proof {
                assert(s@.subrange(at as int, at + pat_len)[i as int] == s@[at + i]);
            }
            return false;
        }
        i = i + 1;
    }
    proof {
        assert(s@.subrange(at as int, at + pat_len) =~= pat@);
    }
    true
}

/// Replaces every occurrence of `pat` in `s` by `to`, left to right.
pub fn replace_all(s: &str, pat: &str, to: &str) -> (r: String)
    requires
        pat@.len() > 0,
    ensures
        r@ == replace_text(s@, pat@, to@),
{
    let s_len: usize = s.unicode_len();
    let pat_len: usize = pat.unicode_len();
    let mut out = String::new();
    let mut i: usize = 0;
    proof {
        assert(s@.skip(0) =~= s@);
        assert(Seq::<char>::empty() + replace_text(s@, pat@, to@) =~= replace_text(
            s@,
            pat@,
            to@,
        ));
    }
    while i < s_len
        invariant
            0 <= i <= s_len,
            s_len == s@.len(),
            pat_len == pat@.len(),
            pat_len > 0,
            out@ + replace_text(s@.skip(i as int), pat@, to@) == replace_text(s@, pat@, to@),
        decreases s_len - i,
    {
        let ghost rem = s@.skip(i as int);
        if pat_len <= s_len - i && matches_at(s, s_len, pat, pat_len, i) {
            proof {
                assert(rem.take(pat_len as int) =~= s@.subrange(i as int, i + pat_len));
                assert(rem.skip(pat_len as int) =~= s@.skip(i + pat_len));
                assert(replace_text(rem, pat@, to@) == to@ + replace_text(
                    s@.skip(i + pat_len),
                    pat@,
                    to@,
                ));
                assert((out@ + to@) + replace_text(s@.skip(i + pat_len), pat@, to@) =~= out@ + (to@
                    + replace_text(s@.skip(i + pat_len), pat@, to@)));
            }
            out.append(to);
            i = i + pat_len;
        } else {
            proof {
                assert(rem[0] == s@[i as int]);
                assert(rem.skip(1) =~= s@.skip(i + 1));
                if i + pat_len <= s_len {
                    assert(rem.take(pat_len as int) =~= s@.subrange(i as int, i + pat_len));
                    assert(replace_text(rem, pat@, to@) == seq![rem[0]] + replace_text(
                        rem.skip(1),
                        pat@,
                        to@,
                    ));
                } else {
                    assert(rem.len() < pat@.len());
                }
            }
            let c = s.substring_char(i, i + 1);
            proof {
                assert(c@ =~= seq![s@[i as int]]);
                if i + pat_len <= s_len {
                    assert((out@ + c@) + replace_text(s@.skip(i + 1), pat@, to@) =~= out@ + (seq![
                        s@[i as int],
                    ] + replace_text(s@.skip(i + 1), pat@, to@)));
                } else {
                    assert(replace_text(rem, pat@, to@) == rem);
                    assert(rem =~= seq![s@[i as int]] + s@.skip(i + 1));
                    assert(replace_text(s@.skip(i + 1), pat@, to@) == s@.skip(i + 1)) by {
                        assert(s@.skip(i + 1).len() < pat@.len());
                    }
                    assert((out@ + c@) + replace_text(s@.skip(i + 1), pat@, to@) =~= out@ + (seq![
                        s@[i as int],
                    ] + s@.skip(i + 1)));
                }
            }
            out.append(c);
            i = i + 1;
        }
    }
    proof {
        assert(s@.skip(s_len as int).len() == 0);
        assert(replace_text(s@.skip(s_len as int), pat@, to@) == s@.skip(s_len as int));
        assert(out@ + s@.skip(s_len as int) =~= out@);
    }
    out
}

impl State {
    /// The panic-translation epilogue, owned.
    pub fn panic_handler(&self) -> (r: String)
        ensures
            r@ == panic_handler_text(self.panic_to_exception),
    {
        if self.panic_to_exception {
            String::from_str(
                "\n            if (__zngur_detect_panic()) {\n                __zngur_take_panic();\n                throw ::rust::Panic{};\n            }\n            ",
            )
        } else {
            String::new()
        }
    }

    /// In panic-to-exception mode the generated calls may throw, so every
    /// ` noexcept ` marker in the buffer is taken back out.
    pub fn remove_no_except_in_panic(&mut self)
        ensures
            final(self).text@ == if old(self).panic_to_exception {
                replace_text(old(self).text@, " noexcept "@, " "@)
            } else {
                old(self).text@
            },
            final(self).panic_to_exception == old(self).panic_to_exception,
    {
        if self.panic_to_exception {
            proof {
                reveal_strlit(" noexcept ");
            }
            self.text = replace_all(self.text.as_str(), " noexcept ", " ");
        }
    }
}

/// Whether `sub` occurs somewhere in `s`.
pub open spec fn has_sub(s: Seq<char>, sub: Seq<char>) -> bool {
    exists|i: int|
        0 <= i && i + sub.len() <= s.len() && #[trigger] s.subrange(i, i + sub.len()) == sub
}

pub proof fn lemma_has_sub_self(s: Seq<char>)
    ensures
        has_sub(s, s),
{
    let l = s.len() as int;
    assert(s.subrange(0, 0 + l) =~= s);
}

pub proof fn lemma_has_sub_left(a: Seq<char>, b: Seq<char>, sub: Seq<char>)
    requires
        has_sub(a, sub),
    ensures
        has_sub(a + b, sub),
{
    let i = choose|i: int|
        0 <= i && i + sub.len() <= a.len() && #[trigger] a.subrange(i, i + sub.len()) == sub;
    assert((a + b).subrange(i, i + sub.len()) =~= a.subrange(i, i + sub.len()));
}

pub proof fn lemma_has_sub_right(a: Seq<char>, b: Seq<char>, sub: Seq<char>)
    requires
        has_sub(b, sub),
    ensures
        has_sub(a + b, sub),
{
    let i = choose|i: int|
        0 <= i && i + sub.len() <= b.len() && #[trigger] b.subrange(i, i + sub.len()) == sub;
    let j = a.len() + i;
    assert((a + b).subrange(j, j + sub.len()) =~= b.subrange(i, i + sub.len()));
}

pub proof fn lemma_has_sub_trans(a: Seq<char>, b: Seq<char>, c: Seq<char>)
    requires
        has_sub(a, b),
        has_sub(b, c),
    ensures
        has_sub(a, c),
{
    let i = choose|i: int|
        0 <= i && i + b.len() <= a.len() && #[trigger] a.subrange(i, i + b.len()) == b;
    let j = choose|j: int|
        0 <= j && j + c.len() <= b.len() && #[trigger] b.subrange(j, j + c.len()) == c;
    assert(a.subrange(i + j, i + j + c.len()) =~= b.subrange(j, j + c.len()));
}

/// Whether `p` is a prefix of `s`.
pub open spec fn text_starts_with(s: Seq<char>, p: Seq<char>) -> bool {
    p.len() <= s.len() && s.take(p.len() as int) == p
}

pub fn str_starts_with(s: &str, p: &str) -> (r: bool)
    ensures
        r == text_starts_with(s@, p@),
{
    let slen: usize = s.unicode_len();
    let plen: usize = p.unicode_len();
    if plen > slen {
        return false;
    }
    let mut i: usize = 0;
    while i < plen
        invariant
            0 <= i <= plen,
            plen <= slen,
            slen == s@.len(),
            plen == p@.len(),
            forall|j: int| 0 <= j < i ==> s@[j] == p@[j],
        decreases plen - i,
    {
        if s.get_char(i) != p.get_char(i) {
            proof {
                assert(s@.take(plen as int)[i as int] == s@[i as int]);
            }
            return false;
        }
        i = i + 1;
    }
    proof {
        assert(s@.take(plen as int) =~= p@);
    }
    true
}

/// True exactly when the two strings hold the same characters.
pub fn str_eq(a: &str, b: &str) -> (r: bool)
    ensures
        r == (a@ == b@),
{
    let alen: usize = a.unicode_len();
    let blen: usize = b.unicode_len();
    if alen != blen {
        assert(a@ != b@) by {
            assert(a@.len() != b@.len());
        }
        return false;
    }
    let mut i: usize = 0;
    while i < alen
        invariant
            i <= alen,
            alen == a@.len(),
            alen == b@.len(),
            forall|j: int| 0 <= j < i ==> a@[j] == b@[j],
        decreases alen - i,
    {
        if a.get_char(i) != b.get_char(i) {
            return false;
        }
        i = i + 1;
    }
    proof {
        assert(a@ =~= b@);
    }
    true
}

} // verus!
