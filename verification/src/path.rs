//! Qualified C++ paths: an ordered list of namespace segments ending in the
//! local name, rendered as `::a::b::c`, parsed from `::`-separated text.

use vstd::prelude::*;
use crate::text::{State, str_eq};
use crate::names::{cpp_handle_keyword, keyword_text};

verus! {

#[derive(Debug)]
pub struct CppPath(pub Vec<String>);

/// A path must hold at least one segment (the local name).
pub open spec fn path_wf(p: CppPath) -> bool {
    p.0@.len() > 0
}

/// The characters of each segment.
pub open spec fn path_segs(p: CppPath) -> Seq<Seq<char>> {
    p.0@.map_values(|s: String| s@)
}

/// The first `n` segments joined with `::`.
pub open spec fn segs_join(p: CppPath, n: int) -> Seq<char>
    decreases n,
{
    if n <= 0 {
        Seq::empty()
    } else if n == 1 {
        p.0@[0]@
    } else {
        segs_join(p, n - 1) + "::"@ + p.0@[n - 1]@
    }
}

/// The fully qualified rendering `::a::b::c`.
pub open spec fn path_text(p: CppPath) -> Seq<char> {
    "::"@ + segs_join(p, p.0@.len() as int)
}

/// One `namespace a {` line per namespace segment (all but the last).
pub open spec fn ns_open_text(p: CppPath, n: int) -> Seq<char>
    decreases n,
{
    if n <= 0 {
        Seq::empty()
    } else {
        ns_open_text(p, n - 1) + "namespace "@ + p.0@[n - 1]@ + " {\n"@
    }
}

/// One closing `}` line per namespace segment.
pub open spec fn ns_close_text(n: int) -> Seq<char>
    decreases n,
{
    if n <= 0 {
        Seq::empty()
    } else {
        ns_close_text(n - 1) + "}\n"@
    }
}

/// Unicode whitespace, as a leading/trailing trim recognises it.
pub open spec fn is_space(c: char) -> bool {
    c == ' ' || c == '\t' || c == '\n' || c == '\r' || c == '\u{b}' || c == '\u{c}'
        || c == '\u{85}' || c == '\u{a0}' || c == '\u{1680}' || c == '\u{2000}' || c == '\u{2001}'
        || c == '\u{2002}' || c == '\u{2003}' || c == '\u{2004}' || c == '\u{2005}'
        || c == '\u{2006}' || c == '\u{2007}' || c == '\u{2008}' || c == '\u{2009}'
        || c == '\u{200a}' || c == '\u{2028}' || c == '\u{2029}' || c == '\u{202f}'
        || c == '\u{205f}' || c == '\u{3000}'
}

pub open spec fn trim_front(s: Seq<char>) -> Seq<char>
    decreases s.len(),
{
    if s.len() > 0 && is_space(s[0]) {
        trim_front(s.skip(1))
    } else {
        s
    }
}

pub open spec fn trim_back(s: Seq<char>) -> Seq<char>
    decreases s.len(),
{
    if s.len() > 0 && is_space(s.last()) {
        trim_back(s.drop_last())
    } else {
        s
    }
}

/// The text with leading and trailing whitespace removed.
pub open spec fn trim_text(s: Seq<char>) -> Seq<char> {
    trim_back(trim_front(s))
}

fn is_space_exec(c: char) -> (r: bool)
    ensures
        r == is_space(c),
{
    c == ' ' || c == '\t' || c == '\n' || c == '\r' || c == '\u{b}' || c == '\u{c}'
        || c == '\u{85}' || c == '\u{a0}' || c == '\u{1680}' || c == '\u{2000}' || c == '\u{2001}'
        || c == '\u{2002}' || c == '\u{2003}' || c == '\u{2004}' || c == '\u{2005}'
        || c == '\u{2006}' || c == '\u{2007}' || c == '\u{2008}' || c == '\u{2009}'
        || c == '\u{200a}' || c == '\u{2028}' || c == '\u{2029}' || c == '\u{202f}'
        || c == '\u{205f}' || c == '\u{3000}'
}

/// Removes leading and trailing whitespace.
pub fn trim(s: &str) -> (r: &str)
    ensures
        r@ == trim_text(s@),
{
    let len: usize = s.unicode_len();
    let mut a: usize = 0;
    proof {
        assert(s@.skip(0) =~= s@);
    }
    while a < len && is_space_exec(s.get_char(a))
        invariant
            0 <= a <= len,
            len == s@.len(),
            trim_front(s@) == trim_front(s@.skip(a as int)),
        decreases len - a,
    {
        proof {
            assert(s@.skip(a as int).skip(1) =~= s@.skip(a + 1));
            assert(s@.skip(a as int)[0] == s@[a as int]);
        }
        a = a + 1;
    }
    proof {
        if a < len {
            assert(s@.skip(a as int)[0] == s@[a as int]);
        }
        assert(trim_front(s@) == s@.skip(a as int));
    }
    let t_len: usize = len - a;
    let mut j: usize = t_len;
    proof {
        assert(s@.skip(a as int).take(t_len as int) =~= s@.skip(a as int));
    }
    while j > 0 && is_space_exec(s.get_char(a + j - 1))
        invariant
            0 <= j <= t_len,
            t_len == len - a,
            0 <= a <= len,
            len == s@.len(),
            trim_front(s@) == s@.skip(a as int),
            trim_back(s@.skip(a as int).take(j as int)) == trim_back(s@.skip(a as int)),
        decreases j,
    {
        proof {
            let t = s@.skip(a as int);
            assert(t.take(j as int).last() == s@[a + j - 1]);
            assert(t.take(j as int).drop_last() =~= t.take(j - 1));
        }
        j = j - 1;
    }
    proof {
        let t = s@.skip(a as int);
        if j > 0 {
            assert(t.take(j as int).last() == s@[a + j - 1]);
        }
        assert(trim_back(t.take(j as int)) == t.take(j as int));
        assert(t.take(j as int) =~= s@.subrange(a as int, a + j));
    }
    s.substring_char(a, a + j)
}

/// Splitting on `::`, leftmost match first; empty parts are kept.
pub open spec fn split_cc(s: Seq<char>, cur: Seq<char>) -> Seq<Seq<char>>
    decreases s.len(),
{
    if s.len() == 0 {
        seq![cur]
    } else if s.len() >= 2 && s[0] == ':' && s[1] == ':' {
        seq![cur] + split_cc(s.skip(2), Seq::empty())
    } else {
        split_cc(s.skip(1), cur.push(s[0]))
    }
}

pub open spec fn split_on_colons(s: Seq<char>) -> Seq<Seq<char>> {
    split_cc(s, Seq::empty())
}

/// Splits `s` on `::` into owned segments.
fn split_segments(s: &str) -> (r: Vec<String>)
    ensures
        r@.map_values(|x: String| x@) == split_on_colons(s@),
        r@.len() > 0,
{
    let len: usize = s.unicode_len();
    let mut parts: Vec<String> = Vec::new();
    let mut start: usize = 0;
    let mut i: usize = 0;
    proof {
        assert(s@.skip(0) =~= s@);
        assert(s@.subrange(0, 0) =~= Seq::<char>::empty());
        assert(parts@.map_values(|x: String| x@) + split_cc(s@, Seq::empty()) =~= split_cc(
            s@,
            Seq::empty(),
        ));
    }
    while i < len
        invariant
            0 <= start <= i <= len,
            len == s@.len(),
            split_on_colons(s@) == parts@.map_values(|x: String| x@) + split_cc(
                s@.skip(i as int),
                s@.subrange(start as int, i as int),
            ),
        decreases len - i,
    {
        let two_more = i + 1 < len;
        if two_more && s.get_char(i) == ':' && s.get_char(i + 1) == ':' {
            let seg = s.substring_char(start, i).to_owned();
            proof {
                let t = s@.skip(i as int);
                assert(t.len() >= 2 && t[0] == ':' && t[1] == ':');
                assert(t.skip(2) =~= s@.skip(i + 2));
                assert(split_cc(t, s@.subrange(start as int, i as int)) == seq![
                    s@.subrange(start as int, i as int),
                ] + split_cc(s@.skip(i + 2), Seq::empty()));
                assert(parts@.push(seg).map_values(|x: String| x@) =~= parts@.map_values(
                    |x: String| x@,
                ).push(seg@));
                assert(parts@.map_values(|x: String| x@) + (seq![
                    s@.subrange(start as int, i as int),
                ] + split_cc(s@.skip(i + 2), Seq::empty())) =~= parts@.map_values(
                    |x: String| x@,
                ).push(s@.subrange(start as int, i as int)) + split_cc(
                    s@.skip(i + 2),
                    Seq::empty(),
                ));
                assert(s@.subrange(i + 2, i + 2) =~= Seq::<char>::empty());
            }
            parts.push(seg);
            start = i + 2;
            i = i + 2;
        } else {
            proof {
                let t = s@.skip(i as int);
                assert(t[0] == s@[i as int]);
                if t.len() >= 2 {
                    assert(t[1] == s@[i + 1]);
                }
                assert(!(t.len() >= 2 && t[0] == ':' && t[1] == ':'));
                assert(t.skip(1) =~= s@.skip(i + 1));
                assert(s@.subrange(start as int, i as int).push(s@[i as int]) =~= s@.subrange(
                    start as int,
                    i + 1,
                ));
            }
            i = i + 1;
        }
    }
    let last = s.substring_char(start, len).to_owned();
    proof {
        assert(s@.skip(len as int) =~= Seq::<char>::empty());
        assert(split_cc(s@.skip(len as int), s@.subrange(start as int, len as int)) == seq![
            s@.subrange(start as int, len as int),
        ]);
        assert(parts@.push(last).map_values(|x: String| x@) =~= parts@.map_values(|x: String| x@)
            + seq![s@.subrange(start as int, len as int)]);
    }
    parts.push(last);
    parts
}

impl CppPath {
    /// The namespace segments: all but the local name.
    pub fn namespace_len(&self) -> (n: usize)
        requires
            path_wf(*self),
        ensures
            n == self.0@.len() - 1,
    {
        self.0.len() - 1
    }

    /// Opens `namespace a {` ... for every namespace segment.
    pub fn emit_namespace_open(&self, state: &mut State)
        requires
            path_wf(*self),
        ensures
            final(state).text@ == old(state).text@ + ns_open_text(*self, self.0@.len() - 1),
            final(state).panic_to_exception == old(state).panic_to_exception,
    {
        let n: usize = self.0.len() - 1;
        let mut i: usize = 0;
        while i < n
            invariant
                0 <= i <= n,
                n == self.0@.len() - 1,
                state.text@ == old(state).text@ + ns_open_text(*self, i as int),
                state.panic_to_exception == old(state).panic_to_exception,
            decreases n - i,
        {
            proof {
                assert(old(state).text@ + Seq::<char>::empty() =~= old(state).text@);
            }
            state.put("namespace ");
            state.put(self.0[i].as_str());
            state.put(" {\n");
            i = i + 1;
        }
        proof {
            assert(old(state).text@ + Seq::<char>::empty() =~= old(state).text@);
        }
    }

    /// Closes with `}` for every namespace segment.
    pub fn emit_namespace_close(&self, state: &mut State)
        requires
            path_wf(*self),
        ensures
            final(state).text@ == old(state).text@ + ns_close_text(self.0@.len() - 1),
            final(state).panic_to_exception == old(state).panic_to_exception,
    {
        let n: usize = self.0.len() - 1;
        let mut i: usize = 0;
        while i < n
            invariant
                0 <= i <= n,
                n == self.0@.len() - 1,
                state.text@ == old(state).text@ + ns_close_text(i as int),
                state.panic_to_exception == old(state).panic_to_exception,
            decreases n - i,
        {
            proof {
                assert(old(state).text@ + Seq::<char>::empty() =~= old(state).text@);
            }
            state.put("}\n");
            i = i + 1;
        }
        proof {
            assert(old(state).text@ + Seq::<char>::empty() =~= old(state).text@);
        }
    }

    /// The local name: the last segment.
    pub fn name(&self) -> (r: &str)
        requires
            path_wf(*self),
        ensures
            r@ == self.0@.last()@,
    {
        self.0[self.0.len() - 1].as_str()
    }

    /// Appends the fully qualified rendering `::a::b::c`.
    pub fn emit_text(&self, state: &mut State)
        requires
            path_wf(*self),
        ensures
            final(state).text@ == old(state).text@ + path_text(*self),
            final(state).panic_to_exception == old(state).panic_to_exception,
    {
        state.put("::");
        let n: usize = self.0.len();
        let mut i: usize = 0;
        while i < n
            invariant
                0 <= i <= n,
                n == self.0@.len(),
                state.text@ == old(state).text@ + "::"@ + segs_join(*self, i as int),
                state.panic_to_exception == old(state).panic_to_exception,
            decreases n - i,
        {
            if i > 0 {
                state.put("::");
            }
            state.put(self.0[i].as_str());
            i = i + 1;
        }
        proof {
            assert(old(state).text@ + "::"@ + Seq::<char>::empty() =~= old(state).text@ + "::"@);
        }
    }

    /// The fully qualified rendering as an owned string.
    pub fn to_text(&self) -> (r: String)
        requires
            path_wf(*self),
        ensures
            r@ == path_text(*self),
    {
        let mut state = State::new(false);
        self.emit_text(&mut state);
        proof {
            assert(Seq::<char>::empty() + path_text(*self) =~= path_text(*self));
        }
        state.text
    }

    /// Whether this path gets a forward declaration in the header: everything
    /// under `rust` except the `Unit`, `Ref` and `RefMut` primitives.
    pub open spec fn need_header_spec(self) -> bool {
        self.0@.len() > 0 && self.0@[0]@ == "rust"@ && !(self.0@.len() == 2 && (self.0@[1]@
            == "Unit"@ || self.0@[1]@ == "Ref"@ || self.0@[1]@ == "RefMut"@))
    }

    pub fn need_header(&self) -> (r: bool)
        ensures
            r == self.need_header_spec(),
    {
        if self.0.len() == 0 {
            return false;
        }
        if !str_eq(self.0[0].as_str(), "rust") {
            return false;
        }
        if self.0.len() == 2 {
            let second = self.0[1].as_str();
            if str_eq(second, "Unit") || str_eq(second, "Ref") || str_eq(second, "RefMut") {
                return false;
            }
        }
        true
    }

    /// Prefixes `rust` and maps every segment through the keyword table.
    pub fn from_rust_path(path: &[String]) -> (r: CppPath)
        ensures
            r.0@.map_values(|x: String| x@) == seq!["rust"@] + path@.map_values(
                |x: String| keyword_text(x@),
            ),
            path_wf(r),
    {
        let mut segs: Vec<String> = Vec::new();
        segs.push(String::from_str("rust"));
        let n: usize = path.len();
        let mut i: usize = 0;
        while i < n
            invariant
                0 <= i <= n,
                n == path@.len(),
                segs@.map_values(|x: String| x@) =~= seq!["rust"@] + path@.take(
                    i as int,
                ).map_values(|x: String| keyword_text(x@)),
            decreases n - i,
        {
            let seg = cpp_handle_keyword(path[i].as_str()).to_owned();
            proof {
                assert(segs@.push(seg).map_values(|x: String| x@) =~= segs@.map_values(
                    |x: String| x@,
                ).push(seg@));
                assert(path@.take(i + 1).map_values(|x: String| keyword_text(x@)) =~= path@.take(
                    i as int,
                ).map_values(|x: String| keyword_text(x@)).push(keyword_text(path@[i as int]@)));
            }
            segs.push(seg);
            i = i + 1;
        }
        proof {
            assert(path@.take(n as int) =~= path@);
        }
        CppPath(segs)
    }

    /// Parses `::`-separated text into a path, trimming the surroundings.
    pub fn from_text(s: &str) -> (r: CppPath)
        ensures
            r.0@.map_values(|x: String| x@) == split_on_colons(trim_text(s@)),
            path_wf(r),
    {
        let t = trim(s);
        CppPath(split_segments(t))
    }
}

} // verus!
