//! The behaviour of the generated dispatch-table `init`: every symbol is
//! resolved in order against the loaded library; on the first name the
//! library lacks, resolution stops and reports exactly that name, and against
//! a complete library it succeeds.

use vstd::prelude::*;
use crate::text::str_eq;

verus! {

/// Whether the library offers a symbol of this name.
pub open spec fn has_symbol(avail: Seq<Seq<char>>, n: Seq<char>) -> bool {
    exists|i: int| 0 <= i < avail.len() && avail[i] == n
}

/// The index of the first name the library lacks, or `-1`.
pub open spec fn first_missing(names: Seq<Seq<char>>, avail: Seq<Seq<char>>) -> int
    decreases names.len(),
{
    if names.len() == 0 {
        -1
    } else if !has_symbol(avail, names[0]) {
        0
    } else {
        let r = first_missing(names.skip(1), avail);
        if r < 0 {
            -1
        } else {
            1 + r
        }
    }
}

pub proof fn lemma_first_missing(names: Seq<Seq<char>>, avail: Seq<Seq<char>>)
    ensures
        first_missing(names, avail) == -1 <==> (forall|j: int|
            0 <= j < names.len() ==> has_symbol(avail, #[trigger] names[j])),
        first_missing(names, avail) >= 0 ==> 0 <= first_missing(names, avail) < names.len()
            && !has_symbol(avail, names[first_missing(names, avail)]) && (forall|j: int|
            0 <= j < first_missing(names, avail) ==> has_symbol(avail, #[trigger] names[j])),
    decreases names.len(),
{
    if names.len() > 0 && has_symbol(avail, names[0]) {
        lemma_first_missing(names.skip(1), avail);
        assert(forall|j: int| 1 <= j < names.len() ==> names[j] == names.skip(1)[j - 1]);
    }
}

/// Whether the library offers this symbol.
fn lookup(avail: &Vec<String>, n: &str) -> (r: bool)
    ensures
        r == has_symbol(avail@.map_values(|s: String| s@), n@),
{
    let ghost av = avail@.map_values(|s: String| s@);
    let m: usize = avail.len();
    let mut i: usize = 0;
    proof {
        assert(av.len() == avail@.len());
    }
    while i < m
        invariant
            0 <= i <= m,
            m == avail@.len(),
            av == avail@.map_values(|s: String| s@),
            av.len() == m,
            forall|j: int| 0 <= j < i ==> av[j] != n@,
        decreases m - i,
    {
        proof {
            assert(av[i as int] == avail@[i as int]@);
        }
        if str_eq(avail[i].as_str(), n) {
            return true;
        }
        i = i + 1;
    }
    false
}

/// Resolves every symbol in order against the library's offerings: the
/// result is success exactly when every name is offered, and the first name
/// the library lacks is reported as the error, the table then being unusable.
pub fn init_dispatch_table(names: &Vec<String>, available: &Vec<String>) -> (r: Result<
    (),
    String,
>)
    ensures
        r.is_ok() <==> first_missing(
            names@.map_values(|s: String| s@),
            available@.map_values(|s: String| s@),
        ) == -1,
        match r {
            Ok(u) => forall|j: int|
                0 <= j < names@.len() ==> has_symbol(
                    available@.map_values(|s: String| s@),
                    (#[trigger] names@[j])@,
                ),
            Err(m) => m@ == names@.map_values(|s: String| s@)[first_missing(
                names@.map_values(|s: String| s@),
                available@.map_values(|s: String| s@),
            )],
        },
{
    let ghost ns = names@.map_values(|s: String| s@);
    let ghost av = available@.map_values(|s: String| s@);
    proof {
        lemma_first_missing(ns, av);
        assert(ns.len() == names@.len());
    }
    let n: usize = names.len();
    let mut i: usize = 0;
    while i < n
        invariant
            0 <= i <= n,
            n == names@.len(),
            ns == names@.map_values(|s: String| s@),
            av == available@.map_values(|s: String| s@),
            ns.len() == n,
            forall|j: int| 0 <= j < i ==> has_symbol(av, #[trigger] ns[j]),
        decreases n - i,
    {
        proof {
            assert(ns[i as int] == names@[i as int]@);
        }
        if !lookup(available, names[i].as_str()) {
            proof {
                lemma_first_missing(ns, av);
                assert(first_missing(ns, av) == i);
            }
            return Err(names[i].clone());
        }
        i = i + 1;
    }
    proof {
        lemma_first_missing(ns, av);
        assert forall|j: int| 0 <= j < names@.len() implies has_symbol(
            av,
            (#[trigger] names@[j])@,
        ) by {
            assert(ns[j] == names@[j]@);
            assert(has_symbol(av, ns[j]));
        }
        assert(first_missing(ns, av) == -1);
    }
    Ok(())
}

} // verus!
