//! C++ types: a qualified path plus generic arguments, rendered as
//! `::a::b< ::c, ::d >`, parsed by a small recursive-descent parser that
//! splits generic argument lists on top-level commas only.

use vstd::prelude::*;
use crate::text::State;
use crate::path::{CppPath, path_wf, path_text, split_on_colons, trim_text, trim, ns_open_text,
    ns_close_text};

verus! {

#[derive(Debug)]
pub struct CppType {
    pub path: CppPath,
    pub generic_args: Vec<CppType>,
}

/// Every path in the tree holds at least one segment.
pub open spec fn type_wf(t: CppType) -> bool
    decreases t,
{
    path_wf(t.path) && (forall|i: int|
        0 <= i < t.generic_args@.len() ==> type_wf(#[trigger] t.generic_args@[i]))
}

/// The rendering of `t`: the path, then `< args >` when generic.
pub open spec fn type_text(t: CppType) -> Seq<char>
    decreases t, 1int, 0int,
{
    if t.generic_args@.len() == 0 {
        path_text(t.path)
    } else {
        path_text(t.path) + "< "@ + type_args_join(t, t.generic_args@.len() as int) + " >"@
    }
}

/// The first `n` generic arguments, joined with `, `.
pub open spec fn type_args_join(t: CppType, n: int) -> Seq<char>
    decreases t, 0int, n,
{
    if n <= 0 || n > t.generic_args@.len() {
        Seq::empty()
    } else if n == 1 {
        type_text(t.generic_args@[0])
    } else {
        type_args_join(t, n - 1) + ", "@ + type_text(t.generic_args@[n - 1])
    }
}

/// The opening of a template specialization for this type.
pub open spec fn specialization_decl_text(t: CppType) -> Seq<char> {
    if t.generic_args@.len() == 0 {
        "struct "@ + t.path.0@.last()@
    } else {
        "template<> struct "@ + t.path.0@.last()@ + "< "@ + type_args_join(
            t,
            t.generic_args@.len() as int,
        ) + " >"@
    }
}

/// The forward declarations for this type: first those of every generic
/// argument, then (for paths that want one) its own `struct name;` inside its
/// namespace.
pub open spec fn type_header_text(t: CppType) -> Seq<char>
    decreases t, 1int, 0int,
{
    type_headers_join(t, t.generic_args@.len() as int) + (if t.path.need_header_spec() {
        ns_open_text(t.path, t.path.0@.len() - 1) + (if t.generic_args@.len() > 0 {
            "template<typename ...T>\n"@
        } else {
            Seq::<char>::empty()
        }) + "struct "@ + t.path.0@.last()@ + ";\n"@ + ns_close_text(t.path.0@.len() - 1)
    } else {
        Seq::<char>::empty()
    })
}

/// The forward declarations of the first `n` generic arguments.
pub open spec fn type_headers_join(t: CppType, n: int) -> Seq<char>
    decreases t, 0int, n,
{
    if n <= 0 || n > t.generic_args@.len() {
        Seq::empty()
    } else {
        type_headers_join(t, n - 1) + type_header_text(t.generic_args@[n - 1])
    }
}

/// The index of the first occurrence of `c` in `s`, or `-1`.
pub open spec fn find_char(s: Seq<char>, c: char) -> int
    decreases s.len(),
{
    if s.len() == 0 {
        -1
    } else if s[0] == c {
        0
    } else {
        let r = find_char(s.skip(1), c);
        if r < 0 {
            -1
        } else {
            1 + r
        }
    }
}

pub proof fn lemma_find_char(s: Seq<char>, c: char)
    ensures
        find_char(s, c) == -1 <==> (forall|j: int| 0 <= j < s.len() ==> s[j] != c),
        find_char(s, c) >= 0 ==> 0 <= find_char(s, c) < s.len() && s[find_char(s, c)] == c && (
        forall|j: int| 0 <= j < find_char(s, c) ==> s[j] != c),
    decreases s.len(),
{
    if s.len() > 0 && s[0] != c {
        lemma_find_char(s.skip(1), c);
        assert(forall|j: int| 1 <= j < s.len() ==> s[j] == s.skip(1)[j - 1]);
    }
}

/// Splitting on commas at angle-bracket depth zero, the depth tracked as the
/// scan goes; the trailing part is kept only when non-empty.
pub open spec fn split_acc(s: Seq<char>, depth: int, cur: Seq<char>, acc: Seq<Seq<char>>) -> Seq<
    Seq<char>,
>
    decreases s.len(),
{
    if s.len() == 0 {
        if cur.len() == 0 {
            acc
        } else {
            acc.push(cur)
        }
    } else {
        let c = s[0];
        if c == ',' && depth == 0 {
            split_acc(s.skip(1), depth, Seq::empty(), acc.push(cur))
        } else if c == '<' {
            split_acc(s.skip(1), depth + 1, cur.push(c), acc)
        } else if c == '>' {
            split_acc(s.skip(1), depth - 1, cur.push(c), acc)
        } else {
            split_acc(s.skip(1), depth, cur.push(c), acc)
        }
    }
}

pub open spec fn split_commas(s: Seq<char>) -> Seq<Seq<char>> {
    split_acc(s, 0, Seq::empty(), Seq::empty())
}

spec fn all_parts_le(ps: Seq<Seq<char>>, bound: int) -> bool {
    forall|j: int| 0 <= j < ps.len() ==> #[trigger] ps[j].len() <= bound
}

proof fn lemma_push_parts_le(acc: Seq<Seq<char>>, cur: Seq<char>, bound: int)
    requires
        all_parts_le(acc, bound),
        cur.len() <= bound,
    ensures
        all_parts_le(acc.push(cur), bound),
{
    assert forall|j: int| 0 <= j < acc.push(cur).len() implies #[trigger] acc.push(cur)[j].len()
        <= bound by {
        if j < acc.len() {
            assert(acc.push(cur)[j] == acc[j]);
        } else {
            assert(acc.push(cur)[j] == cur);
        }
    }
}

proof fn lemma_split_acc_len(s: Seq<char>, depth: int, cur: Seq<char>, acc: Seq<Seq<char>>, bound: int)
    requires
        cur.len() + s.len() <= bound,
        all_parts_le(acc, bound),
    ensures
        all_parts_le(split_acc(s, depth, cur, acc), bound),
    decreases s.len(),
{
    if s.len() == 0 {
        if cur.len() != 0 {
            lemma_push_parts_le(acc, cur, bound);
        }
    } else {
        let c = s[0];
        if c == ',' && depth == 0 {
            lemma_push_parts_le(acc, cur, bound);
            lemma_split_acc_len(s.skip(1), depth, Seq::empty(), acc.push(cur), bound);
        } else if c == '<' {
            lemma_split_acc_len(s.skip(1), depth + 1, cur.push(c), acc, bound);
        } else if c == '>' {
            lemma_split_acc_len(s.skip(1), depth - 1, cur.push(c), acc, bound);
        } else {
            lemma_split_acc_len(s.skip(1), depth, cur.push(c), acc, bound);
        }
    }
}

pub proof fn lemma_split_commas_len(s: Seq<char>)
    ensures
        forall|j: int|
            0 <= j < split_commas(s).len() ==> #[trigger] split_commas(s)[j].len() <= s.len(),
{
    lemma_split_acc_len(s, 0, Seq::empty(), Seq::empty(), s.len() as int);
    assert(all_parts_le(split_commas(s), s.len() as int));
}

pub proof fn lemma_trim_len_le(s: Seq<char>)
    ensures
        trim_text(s).len() <= s.len(),
{
    lemma_trim_front_len_le(s);
    lemma_trim_back_len_le(crate::path::trim_front(s));
}

proof fn lemma_trim_front_len_le(s: Seq<char>)
    ensures
        crate::path::trim_front(s).len() <= s.len(),
    decreases s.len(),
{
    if s.len() > 0 && crate::path::is_space(s[0]) {
        lemma_trim_front_len_le(s.skip(1));
    }
}

proof fn lemma_trim_back_len_le(s: Seq<char>)
    ensures
        crate::path::trim_back(s).len() <= s.len(),
    decreases s.len(),
{
    if s.len() > 0 && crate::path::is_space(s.last()) {
        lemma_trim_back_len_le(s.drop_last());
    }
}

/// Whether the type grammar accepts `s`: either no `<` at all, or a `<` whose
/// generic suffix ends in `>` and splits into parts the grammar accepts.
pub open spec fn parse_ok(s: Seq<char>) -> bool
    decreases s.len(),
    via parse_ok_dec
{
    let tr = trim_text(s);
    let k = find_char(tr, '<');
    if k < 0 {
        true
    } else {
        let inner0 = tr.skip(k + 1);
        inner0.len() > 0 && inner0.last() == '>' && (forall|i: int|
            0 <= i < split_commas(inner0.drop_last()).len() ==> parse_ok(
                #[trigger] split_commas(inner0.drop_last())[i],
            ))
    }
}

#[via_fn]
proof fn parse_ok_dec(s: Seq<char>) {
    let tr = trim_text(s);
    let k = find_char(tr, '<');
    if k >= 0 {
        lemma_trim_len_le(s);
        lemma_find_char(tr, '<');
        let inner0 = tr.skip(k + 1);
        if inner0.len() > 0 && inner0.last() == '>' {
            lemma_split_commas_len(inner0.drop_last());
        }
    }
}

/// Whether `t` is exactly the tree the grammar reads from `s`.
pub open spec fn is_parse_of(t: CppType, s: Seq<char>) -> bool
    decreases t,
{
    let tr = trim_text(s);
    let k = find_char(tr, '<');
    if k < 0 {
        t.generic_args@.len() == 0 && crate::path::path_segs(t.path) == split_on_colons(
            trim_text(tr),
        )
    } else {
        let inner0 = tr.skip(k + 1);
        let parts = split_commas(inner0.drop_last());
        inner0.len() > 0 && inner0.last() == '>' && crate::path::path_segs(t.path)
            == split_on_colons(trim_text(tr.take(k))) && t.generic_args@.len() == parts.len() && (
        forall|i: int|
            0 <= i < parts.len() ==> is_parse_of(#[trigger] t.generic_args@[i], parts[i]))
    }
}

/// The index of the first `<`, if any.
fn find_lt(s: &str) -> (r: Option<usize>)
    ensures
        match r {
            Some(k) => k == find_char(s@, '<'),
            None => find_char(s@, '<') == -1,
        },
{
    proof {
        lemma_find_char(s@, '<');
    }
    let len: usize = s.unicode_len();
    let mut i: usize = 0;
    while i < len
        invariant
            0 <= i <= len,
            len == s@.len(),
            forall|j: int| 0 <= j < i ==> s@[j] != '<',
        decreases len - i,
    {
        if s.get_char(i) == '<' {
            proof {
                lemma_find_char(s@, '<');
                if find_char(s@, '<') < 0 {
                    assert(s@[i as int] != '<');
                }
                if find_char(s@, '<') < i {
                    assert(s@[find_char(s@, '<')] == '<');
                }
                if find_char(s@, '<') > i {
                    assert(s@[i as int] != '<');
                }
            }
            return Some(i);
        }
        i = i + 1;
    }
    None
}

/// Splits on top-level commas, the angle-bracket depth tracked while
/// scanning; parts keep every character but the splitting commas.
pub fn split_string(s: &str) -> (r: Vec<String>)
    ensures
        r@.map_values(|x: String| x@) == split_commas(s@),
        forall|j: int| 0 <= j < r@.len() ==> #[trigger] r@[j]@.len() <= s@.len(),
{
    let len: usize = s.unicode_len();
    let mut parts: Vec<String> = Vec::new();
    let mut start: usize = 0;
    let mut i: usize = 0;
    let mut depth: i128 = 0;
    proof {
        assert(s@.skip(0) =~= s@);
        assert(s@.subrange(0, 0) =~= Seq::<char>::empty());
        assert(parts@.map_values(|x: String| x@) =~= Seq::<Seq<char>>::empty());
    }
    while i < len
        invariant
            0 <= start <= i <= len,
            len == s@.len(),
            -(i as int) <= depth <= i as int,
            split_commas(s@) == split_acc(
                s@.skip(i as int),
                depth as int,
                s@.subrange(start as int, i as int),
                parts@.map_values(|x: String| x@),
            ),
            forall|j: int| 0 <= j < parts@.len() ==> #[trigger] parts@[j]@.len() <= s@.len(),
        decreases len - i,
    {
        let c = s.get_char(i);
        proof {
            let t = s@.skip(i as int);
            assert(t[0] == s@[i as int]);
            assert(t.skip(1) =~= s@.skip(i + 1));
            assert(s@.subrange(start as int, i as int).push(s@[i as int]) =~= s@.subrange(
                start as int,
                i + 1,
            ));
        }
        if c == ',' && depth == 0 {
            let seg = s.substring_char(start, i).to_owned();
            proof {
                assert(parts@.push(seg).map_values(|x: String| x@) =~= parts@.map_values(
                    |x: String| x@,
                ).push(seg@));
                assert(s@.subrange(i + 1, i + 1) =~= Seq::<char>::empty());
            }
            parts.push(seg);
            start = i + 1;
        } else if c == '<' {
            depth = depth + 1;
        } else if c == '>' {
            depth = depth - 1;
        }
        i = i + 1;
    }
    proof {
        assert(s@.skip(len as int) =~= Seq::<char>::empty());
    }
    if start < len {
        let seg = s.substring_char(start, len).to_owned();
        proof {
            assert(parts@.push(seg).map_values(|x: String| x@) =~= parts@.map_values(
                |x: String| x@,
            ).push(seg@));
        }
        parts.push(seg);
    } else {
        proof {
            assert(s@.subrange(start as int, len as int).len() == 0);
        }
    }
    parts
}

impl CppType {
    /// Wraps this type in `rust::Ref`.
    pub fn into_ref(self) -> (r: CppType)
        ensures
            r.path.0@.map_values(|x: String| x@) == seq!["rust"@, "Ref"@],
            r.generic_args@ == seq![self],
            type_wf(self) ==> type_wf(r),
    {
        let mut segs: Vec<String> = Vec::new();
        segs.push(String::from_str("rust"));
        segs.push(String::from_str("Ref"));
        let mut args: Vec<CppType> = Vec::new();
        args.push(self);
        proof {
            assert(segs@.map_values(|x: String| x@) =~= seq!["rust"@, "Ref"@]);
        }
        CppType { path: CppPath(segs), generic_args: args }
    }

    /// Appends the rendering `::a::b< args >`.
    pub fn emit_text(&self, state: &mut State)
        requires
            type_wf(*self),
        ensures
            final(state).text@ == old(state).text@ + type_text(*self),
            final(state).panic_to_exception == old(state).panic_to_exception,
        decreases *self, 1int, 0int,
    {
        self.path.emit_text(state);
        if self.generic_args.len() > 0 {
            state.put("< ");
            self.emit_args_join(state, self.generic_args.len());
            state.put(" >");
        }
    }

    fn emit_args_join(&self, state: &mut State, n: usize)
        requires
            type_wf(*self),
            n <= self.generic_args@.len(),
        ensures
            final(state).text@ == old(state).text@ + type_args_join(*self, n as int),
            final(state).panic_to_exception == old(state).panic_to_exception,
        decreases *self, 0int, n as int,
    {
        if n > 0 {
            self.emit_args_join(state, n - 1);
            if n > 1 {
                state.put(", ");
            }
            self.generic_args[n - 1].emit_text(state);
        } else {
            proof {
                assert(old(state).text@ + Seq::<char>::empty() =~= old(state).text@);
            }
        }
    }

    /// The rendering as an owned string.
    pub fn to_text(&self) -> (r: String)
        requires
            type_wf(*self),
        ensures
            r@ == type_text(*self),
    {
        let mut state = State::new(false);
        self.emit_text(&mut state);
        proof {
            assert(Seq::<char>::empty() + type_text(*self) =~= type_text(*self));
        }
        state.text
    }

    /// Appends `struct name` or `template<> struct name< args >`.
    pub fn emit_specialization_decl(&self, state: &mut State)
        requires
            type_wf(*self),
        ensures
            final(state).text@ == old(state).text@ + specialization_decl_text(*self),
            final(state).panic_to_exception == old(state).panic_to_exception,
    {
        if self.generic_args.len() == 0 {
            state.put("struct ");
            state.put(self.path.name());
        } else {
            state.put("template<> struct ");
            state.put(self.path.name());
            state.put("< ");
            self.emit_args_join(state, self.generic_args.len());
            state.put(" >");
        }
    }

    /// Appends the forward declarations of this type and its arguments.
    pub fn emit_header(&self, state: &mut State)
        requires
            type_wf(*self),
        ensures
            final(state).text@ == old(state).text@ + type_header_text(*self),
            final(state).panic_to_exception == old(state).panic_to_exception,
        decreases *self, 1int, 0int,
    {
        self.emit_headers_join(state, self.generic_args.len());
        if self.path.need_header() {
            self.path.emit_namespace_open(state);
            if self.generic_args.len() > 0 {
                state.put("template<typename ...T>\n");
            }
            state.put("struct ");
            state.put(self.path.name());
            state.put(";\n");
            self.path.emit_namespace_close(state);
        }
    }

    fn emit_headers_join(&self, state: &mut State, n: usize)
        requires
            type_wf(*self),
            n <= self.generic_args@.len(),
        ensures
            final(state).text@ == old(state).text@ + type_headers_join(*self, n as int),
            final(state).panic_to_exception == old(state).panic_to_exception,
        decreases *self, 0int, n as int,
    {
        if n > 0 {
            self.emit_headers_join(state, n - 1);
            self.generic_args[n - 1].emit_header(state);
        } else {
            proof {
                assert(old(state).text@ + Seq::<char>::empty() =~= old(state).text@);
            }
        }
    }

    /// Parses trimmed text into a type tree; `None` exactly when the grammar
    /// rejects the text (a generic suffix that does not end in `>`).
    pub fn from_text(s: &str) -> (r: Option<CppType>)
        ensures
            r.is_some() == parse_ok(s@),
            match r {
                Some(t) => is_parse_of(t, s@) && type_wf(t),
                None => true,
            },
        decreases s@.len(), 1int, 0int,
    {
        let tr = trim(s);
        let tlen: usize = tr.unicode_len();
        proof {
            lemma_trim_len_le(s@);
            lemma_find_char(tr@, '<');
        }
        match find_lt(tr) {
            None => {
                let p = CppPath::from_text(tr);
                Some(CppType { path: p, generic_args: Vec::new() })
            },
            Some(k) => {
                if k + 1 >= tlen {
                    proof {
                        assert(tr@.skip(k + 1).len() == 0);
                    }
                    None
                } else if tr.get_char(tlen - 1) != '>' {
                    proof {
                        assert(tr@.skip(k + 1).last() == tr@[tlen - 1]);
                    }
                    None
                } else {
                    let inner = tr.substring_char(k + 1, tlen - 1);
                    proof {
                        assert(tr@.skip(k + 1).last() == tr@[tlen - 1]);
                        assert(inner@ =~= tr@.skip(k + 1).drop_last());
                        lemma_split_commas_len(inner@);
                    }
                    let parts = split_string(inner);
                    let ghost pv = split_commas(inner@);
                    proof {
                        assert forall|j: int| 0 <= j < parts@.len() implies #[trigger] parts@[j]@
                            == pv[j] by {
                            assert(parts@.map_values(|x: String| x@)[j] == parts@[j]@);
                        }
                        assert(parts@.len() == pv.len()) by {
                            assert(parts@.map_values(|x: String| x@).len() == parts@.len());
                        }
                    }
                    match Self::parse_args(&parts, parts.len(), Ghost(s@.len() as int)) {
                        None => {
                            proof {
                                let jj = choose|j: int|
                                    0 <= j < parts@.len() && !parse_ok(parts@[j]@);
                                assert(!parse_ok(pv[jj]));
                                assert(!parse_ok(s@));
                            }
                            None
                        },
                        Some(args) => {
                            let p = CppPath::from_text(tr.substring_char(0, k));
                            proof {
                                assert(tr@.subrange(0, k as int) =~= tr@.take(k as int));
                            }
                            let result = CppType { path: p, generic_args: args };
                            proof {
                                assert forall|i: int| 0 <= i < pv.len() implies parse_ok(
                                    #[trigger] pv[i],
                                ) by {
                                    assert(parse_ok(parts@[i]@));
                                }
                                assert(parse_ok(s@));
                                assert forall|i: int| 0 <= i < pv.len() implies is_parse_of(
                                    #[trigger] result.generic_args@[i],
                                    pv[i],
                                ) by {
                                    assert(is_parse_of(result.generic_args@[i], parts@[i]@));
                                }
                                assert(is_parse_of(result, s@));
                                assert(type_wf(result));
                            }
                            Some(result)
                        },
                    }
                }
            },
        }
    }

    /// Parses the first `n` parts of a split generic-argument list.
    fn parse_args(parts: &Vec<String>, n: usize, Ghost(bound): Ghost<int>) -> (r: Option<
        Vec<CppType>,
    >)
        requires
            n <= parts@.len(),
            forall|j: int| 0 <= j < parts@.len() ==> #[trigger] parts@[j]@.len() < bound,
        ensures
            r.is_some() == (forall|j: int| 0 <= j < n ==> parse_ok(#[trigger] parts@[j]@)),
            match r {
                Some(v) => v@.len() == n && (forall|j: int|
                    0 <= j < n ==> is_parse_of(#[trigger] v@[j], parts@[j]@) && type_wf(v@[j])),
                None => true,
            },
        decreases bound, 0int, n as int,
    {
        if n == 0 {
            Some(Vec::new())
        } else {
            match Self::parse_args(parts, n - 1, Ghost(bound)) {
                None => None,
                Some(mut v) => {
                    match Self::from_text(parts[n - 1].as_str()) {
                        None => None,
                        Some(t) => {
                            v.push(t);
                            Some(v)
                        },
                    }
                },
            }
        }
    }
}

} // verus!
