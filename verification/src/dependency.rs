//! Dependency analysis for the define table: identifier extraction from
//! expression strings, and a topological order over the entries so that every
//! entry is evaluated after the entries it references.

use vstd::prelude::*;
use vstd::pervasive::VecAdditionalExecFns;
use vstd::set_lib::{lemma_int_range, lemma_len_subset, set_int_range};
use crate::model::{ConstantV, DefineSection, DefineSectionV, ExpressionV, QuantityV, VariableV, opt_view, push_dv};
use crate::text::{is_digit, is_digit_char, str_eq};

verus! {

pub struct DefineEntryV {
    pub name: Seq<char>,
    pub expression: Seq<char>,
}

/// One named expression collected from the define section.
#[derive(Debug, PartialEq)]
pub struct DefineEntry {
    pub name: String,
    pub expression: String,
}

impl DeepView for DefineEntry {
    type V = DefineEntryV;

    open spec fn deep_view(&self) -> DefineEntryV {
        DefineEntryV { name: self.name@, expression: self.expression@ }
    }
}

impl Clone for DefineEntry {
    fn clone(&self) -> (r: Self)
        ensures
            r == *self,
    {
        DefineEntry { name: self.name.clone(), expression: self.expression.clone() }
    }
}

// ─────────────────────────────────────────────────────────────────────────────
// Identifier scanning
// ─────────────────────────────────────────────────────────────────────────────

/// An identifier starts with an ASCII letter or `_` ...
pub open spec fn is_ident_start_char(c: char) -> bool {
    ('a' <= c && c <= 'z') || ('A' <= c && c <= 'Z') || c == '_'
}

/// ... and continues with letters, digits and `_`.
pub open spec fn is_ident_char_spec(c: char) -> bool {
    is_ident_start_char(c) || is_digit_char(c)
}

pub fn is_ident_start(c: char) -> (r: bool)
    ensures
        r == is_ident_start_char(c),
{
    ('a' <= c && c <= 'z') || ('A' <= c && c <= 'Z') || c == '_'
}

pub fn is_ident_char(c: char) -> (r: bool)
    ensures
        r == is_ident_char_spec(c),
{
    is_ident_start(c) || is_digit(c)
}

/// The first index at or after `i` where the identifier run ends.
pub open spec fn ident_end(s: Seq<char>, i: int) -> int
    decreases s.len() - i when 0 <= i <= s.len()
{
    if i >= s.len() {
        i
    } else if !is_ident_char_spec(s[i]) {
        i
    } else {
        ident_end(s, i + 1)
    }
}

proof fn lemma_ident_end_bounds(s: Seq<char>, i: int)
    requires
        0 <= i <= s.len(),
    ensures
        i <= ident_end(s, i) <= s.len(),
    decreases s.len() - i,
{
    if i < s.len() && is_ident_char_spec(s[i]) {
        lemma_ident_end_bounds(s, i + 1);
    }
}

proof fn lemma_ident_end_eq(s: Seq<char>, i: int, j: int)
    requires
        0 <= i <= j <= s.len(),
        forall|k: int| i <= k < j ==> is_ident_char_spec(#[trigger] s[k]),
        j == s.len() || !is_ident_char_spec(s[j]),
    ensures
        ident_end(s, i) == j,
    decreases j - i,
{
    if i < j {
        lemma_ident_end_eq(s, i + 1, j);
    }
}

/// The built-in function and constant names of the expression language;
/// they never count as dependencies.
pub open spec fn is_builtin_spec(s: Seq<char>) -> bool {
    ||| s == "sin"@
    ||| s == "cos"@
    ||| s == "tan"@
    ||| s == "asin"@
    ||| s == "acos"@
    ||| s == "atan"@
    ||| s == "atan2"@
    ||| s == "sinh"@
    ||| s == "cosh"@
    ||| s == "tanh"@
    ||| s == "sqrt"@
    ||| s == "cbrt"@
    ||| s == "abs"@
    ||| s == "ln"@
    ||| s == "log"@
    ||| s == "log2"@
    ||| s == "log10"@
    ||| s == "exp"@
    ||| s == "exp2"@
    ||| s == "floor"@
    ||| s == "ceil"@
    ||| s == "round"@
    ||| s == "min"@
    ||| s == "max"@
    ||| s == "pow"@
    ||| s == "if"@
    ||| s == "true"@
    ||| s == "false"@
}

/// Is `name` a built-in function or constant of the expression language?
pub fn is_builtin_function(name: &str) -> (r: bool)
    ensures
        r == is_builtin_spec(name@),
{
    str_eq(name, "sin") || str_eq(name, "cos") || str_eq(name, "tan") || str_eq(name, "asin")
        || str_eq(name, "acos") || str_eq(name, "atan") || str_eq(name, "atan2") || str_eq(
        name,
        "sinh",
    ) || str_eq(name, "cosh") || str_eq(name, "tanh") || str_eq(name, "sqrt") || str_eq(
        name,
        "cbrt",
    ) || str_eq(name, "abs") || str_eq(name, "ln") || str_eq(name, "log") || str_eq(name, "log2")
        || str_eq(name, "log10") || str_eq(name, "exp") || str_eq(name, "exp2") || str_eq(
        name,
        "floor",
    ) || str_eq(name, "ceil") || str_eq(name, "round") || str_eq(name, "min") || str_eq(name, "max")
        || str_eq(name, "pow") || str_eq(name, "if") || str_eq(name, "true") || str_eq(
        name,
        "false",
    )
}

/// Every maximal identifier run of `s` from index `i` on, in order, with the
/// built-ins left out.
pub open spec fn scan_ids(s: Seq<char>, i: int) -> Seq<Seq<char>>
    decreases s.len() - i when 0 <= i <= s.len() via scan_ids_decreases
{
    if i >= s.len() {
        Seq::empty()
    } else if is_ident_start_char(s[i]) {
        let j = ident_end(s, i + 1);
        let tok = s.subrange(i, j);
        if is_builtin_spec(tok) {
            scan_ids(s, j)
        } else {
            seq![tok] + scan_ids(s, j)
        }
    } else {
        scan_ids(s, i + 1)
    }
}

#[via_fn]
proof fn scan_ids_decreases(s: Seq<char>, i: int) {
    if 0 <= i < s.len() && is_ident_start_char(s[i]) {
        lemma_ident_end_bounds(s, i + 1);
    }
}

/// The identifier references of an expression string: maximal runs of
/// identifier characters, minus the built-in names. A reference that occurs
/// twice is reported twice.
pub fn extract_identifiers(expr: &str) -> (r: Vec<String>)
    ensures
        r.deep_view() == scan_ids(expr@, 0),
{
    let n = expr.unicode_len();
    let mut ids: Vec<String> = Vec::new();
    let mut i: usize = 0;
    proof {
        assert(ids.deep_view() =~= Seq::<Seq<char>>::empty());
    }
    while i < n
        invariant
            i <= n,
            n == expr@.len(),
            scan_ids(expr@, 0) == ids.deep_view() + scan_ids(expr@, i as int),
        decreases n - i,
    {
        let c = expr.get_char(i);
        if is_ident_start(c) {
            let mut j: usize = i + 1;
            while j < n
                invariant_except_break
                    i < j <= n,
                    n == expr@.len(),
                    forall|k: int| i as int + 1 <= k < j as int ==> is_ident_char_spec(
                        #[trigger] expr@[k],
                    ),
                ensures
                    i < j <= n,
                    n == expr@.len(),
                    forall|k: int| i as int + 1 <= k < j as int ==> is_ident_char_spec(
                        #[trigger] expr@[k],
                    ),
                    j as int == n as int || !is_ident_char_spec(expr@[j as int]),
                decreases n - j,
            {
                let cj = expr.get_char(j);
                if !is_ident_char(cj) {
                    break;
                }
                j += 1;
            }
            proof {
                lemma_ident_end_eq(expr@, i as int + 1, j as int);
            }
            let tok = expr.substring_char(i, j);
            let ghost old_ids = ids.deep_view();
            if !is_builtin_function(tok) {
                let tok_string = String::from_str(tok);
                ids.push(tok_string);
                proof {
                    assert(ids.deep_view() =~= old_ids.push(tok@));
                    assert(old_ids.push(tok@) =~= old_ids + seq![expr@.subrange(i as int, j as int)]);
                    assert((old_ids + seq![expr@.subrange(i as int, j as int)]) + scan_ids(
                        expr@,
                        j as int,
                    ) =~= old_ids + (seq![expr@.subrange(i as int, j as int)] + scan_ids(
                        expr@,
                        j as int,
                    )));
                }
            }
            i = j;
        } else {
            i += 1;
        }
    }
    proof {
        assert(scan_ids(expr@, n as int) =~= Seq::<Seq<char>>::empty());
        assert(ids.deep_view() + Seq::<Seq<char>>::empty() =~= ids.deep_view());
    }
    ids
}

// ─────────────────────────────────────────────────────────────────────────────
// The dependency relation
// ─────────────────────────────────────────────────────────────────────────────

pub open spec fn deps_entry(entries: Seq<DefineEntryV>, i: int) -> Seq<Seq<char>> {
    scan_ids(entries[i].expression, 0)
}

/// `j` is the entry that a reference named `tok` resolves to: the last entry
/// carrying that name.
pub open spec fn resolves_to(entries: Seq<DefineEntryV>, tok: Seq<char>, j: int) -> bool {
    &&& 0 <= j < entries.len()
    &&& entries[j].name == tok
    &&& forall|k: int| j < k < entries.len() ==> (#[trigger] entries[k]).name != tok
}

pub open spec fn dep_token(
    entries: Seq<DefineEntryV>,
    known: Seq<Seq<char>>,
    i: int,
    tok: Seq<char>,
    j: int,
) -> bool {
    &&& !known.contains(tok)
    &&& resolves_to(entries, tok, j)
    &&& j != i
}

/// Entry `i` references entry `j` through one of its first `t` identifier
/// tokens.
pub open spec fn dep_before(
    entries: Seq<DefineEntryV>,
    known: Seq<Seq<char>>,
    i: int,
    t: int,
    j: int,
) -> bool {
    exists|t2: int|
        0 <= t2 < t && dep_token(entries, known, i, #[trigger] deps_entry(entries, i)[t2], j)
}

/// Entry `i` depends on entry `j`: some identifier of `i`'s expression that
/// is neither a built-in nor pre-seeded resolves to `j`.
pub open spec fn depends_on(
    entries: Seq<DefineEntryV>,
    known: Seq<Seq<char>>,
    i: int,
    j: int,
) -> bool {
    dep_before(entries, known, i, deps_entry(entries, i).len() as int, j)
}

proof fn lemma_resolves_unique(entries: Seq<DefineEntryV>, tok: Seq<char>, j1: int, j2: int)
    requires
        resolves_to(entries, tok, j1),
        resolves_to(entries, tok, j2),
    ensures
        j1 == j2,
{
    if j1 < j2 {
        assert(entries[j2].name != tok);
    }
    if j2 < j1 {
        assert(entries[j1].name != tok);
    }
}

/// Does the list contain this string?
pub fn contains_str(v: &Vec<String>, s: &str) -> (r: bool)
    ensures
        r == v.deep_view().contains(s@),
{
    let mut i: usize = 0;
    while i < v.len()
        invariant
            i <= v@.len(),
            forall|k: int| 0 <= k < i as int ==> v.deep_view()[k] != s@,
        decreases v@.len() - i,
    {
        if str_eq(v[i].as_str(), s) {
            proof {
                assert(v.deep_view()[i as int] == s@);
            }
            return true;
        }
        i += 1;
    }
    proof {
        assert(!v.deep_view().contains(s@));
    }
    false
}

/// The entry that a name resolves to: the last entry with that name.
fn last_index_with_name(entries: &Vec<DefineEntry>, name: &str) -> (r: Option<usize>)
    ensures
        match r {
            Some(j) => resolves_to(entries.deep_view(), name@, j as int),
            None => forall|k: int|
                0 <= k < entries.deep_view().len() ==> (#[trigger] entries.deep_view()[k]).name
                    != name@,
        },
{
    let mut k = entries.len();
    while k > 0
        invariant
            k <= entries@.len(),
            forall|kk: int| k as int <= kk < entries.deep_view().len() ==> (#[trigger] entries.deep_view()[kk]).name != name@,
        decreases k,
    {
        let idx = k - 1;
        if str_eq(entries[idx].name.as_str(), name) {
            return Some(idx);
        }
        k = idx;
    }
    None
}

/// Are all the dependencies of entry `i` already placed?
fn deps_done(entries: &Vec<DefineEntry>, known: &Vec<String>, placed: &Vec<bool>, i: usize) -> (r:
    bool)
    requires
        i < entries@.len(),
        placed@.len() == entries@.len(),
    ensures
        r == (forall|j: int|
            #[trigger] depends_on(entries.deep_view(), known.deep_view(), i as int, j)
                ==> placed@[j]),
{
    let ghost ev = entries.deep_view();
    let ghost kv = known.deep_view();
    let ids = extract_identifiers(entries[i].expression.as_str());
    let ghost idsv = ids.deep_view();
    proof {
        assert(idsv == deps_entry(ev, i as int));
    }
    let mut t: usize = 0;
    while t < ids.len()
        invariant
            t <= ids@.len(),
            i < entries@.len(),
            placed@.len() == entries@.len(),
            ev == entries.deep_view(),
            kv == known.deep_view(),
            idsv == ids.deep_view(),
            idsv == deps_entry(ev, i as int),
            forall|j: int| #[trigger] dep_before(ev, kv, i as int, t as int, j) ==> placed@[j],
        decreases ids@.len() - t,
    {
        let id = ids[t].as_str();
        proof {
            assert(id@ == idsv[t as int]);
        }
        if !contains_str(known, id) {
            match last_index_with_name(entries, id) {
                Some(j0) => {
                    if j0 != i && !placed[j0] {
                        proof {
                            assert(dep_token(ev, kv, i as int, deps_entry(ev, i as int)[t as int], j0 as int));
                            assert(dep_before(
                                ev,
                                kv,
                                i as int,
                                deps_entry(ev, i as int).len() as int,
                                j0 as int,
                            ));
                            assert(depends_on(ev, kv, i as int, j0 as int) && !placed@[j0 as int]);
                        }
                        return false;
                    }
                    proof {
                        assert forall|j: int| dep_token(ev, kv, i as int, idsv[t as int], j) implies placed@[j] by {
                            lemma_resolves_unique(ev, idsv[t as int], j, j0 as int);
                        };
                    }
                },
                None => {
                    proof {
                        assert forall|j: int| dep_token(ev, kv, i as int, idsv[t as int], j) implies placed@[j] by {
                            assert(ev[j].name == idsv[t as int]);
                            assert(false);
                        };
                    }
                },
            }
        } else {
            proof {
                assert forall|j: int| dep_token(ev, kv, i as int, idsv[t as int], j) implies placed@[j] by {
                    assert(false);
                };
            }
        }
        proof {
            assert forall|j: int| dep_before(ev, kv, i as int, t as int + 1, j) implies placed@[j] by {
                let t2 = choose|t2: int|
                    0 <= t2 < t as int + 1 && dep_token(
                        ev,
                        kv,
                        i as int,
                        #[trigger] deps_entry(ev, i as int)[t2],
                        j,
                    );
                if t2 < t as int {
                    assert(dep_before(ev, kv, i as int, t as int, j));
                } else {
                    assert(dep_token(ev, kv, i as int, idsv[t as int], j));
                }
            };
        }
        t += 1;
    }
    proof {
        assert forall|j: int| #[trigger] depends_on(ev, kv, i as int, j) implies placed@[j] by {
            assert(dep_before(ev, kv, i as int, deps_entry(ev, i as int).len() as int, j));
            assert(dep_before(ev, kv, i as int, t as int, j));
        };
    }
    true
}

// ─────────────────────────────────────────────────────────────────────────────
// Topological order
// ─────────────────────────────────────────────────────────────────────────────

pub enum EvalErrorV {
    CyclicDependency { names: Seq<Seq<char>> },
}

/// Failure of the define table: a set of entries that reference each other in
/// a cycle, reported with their names.
#[derive(Debug, PartialEq)]
pub enum EvalError {
    CyclicDependency { names: Vec<String> },
}

impl DeepView for EvalError {
    type V = EvalErrorV;

    open spec fn deep_view(&self) -> EvalErrorV {
        match self {
            EvalError::CyclicDependency { names } => EvalErrorV::CyclicDependency {
                names: names.deep_view(),
            },
        }
    }
}

pub open spec fn in_order(order: Seq<usize>, i: int) -> bool {
    exists|k: int| 0 <= k < order.len() && (#[trigger] order[k]) as int == i
}

pub open spec fn placed_before(order: Seq<usize>, k: int, j: int) -> bool {
    exists|k2: int| 0 <= k2 < k && (#[trigger] order[k2]) as int == j
}

/// No unplaced entry is free of unplaced dependencies: every one of them
/// waits on another, which is the cycle witness.
pub open spec fn stuck_state(
    ev: Seq<DefineEntryV>,
    kv: Seq<Seq<char>>,
    placed: Seq<bool>,
) -> bool {
    forall|i: int|
        #![trigger placed[i]]
        0 <= i < ev.len() && !placed[i] ==> exists|j: int|
            #[trigger] depends_on(ev, kv, i, j) && !placed[j]
}

proof fn lemma_distinct_in_range_len(s: Seq<int>, n: int)
    requires
        n >= 0,
        s.no_duplicates(),
        forall|k: int| 0 <= k < s.len() ==> 0 <= #[trigger] s[k] < n,
    ensures
        s.len() <= n,
{
    s.unique_seq_to_set();
    lemma_int_range(0, n);
    assert(s.to_set().subset_of(set_int_range(0, n))) by {
        assert forall|x: int| s.to_set().contains(x) implies set_int_range(0, n).contains(x) by {
            assert(s.contains(x));
            let k = choose|k: int| 0 <= k < s.len() && s[k] == x;
            assert(0 <= s[k] < n);
        };
    }
    lemma_len_subset(s.to_set(), set_int_range(0, n));
}

proof fn lemma_cover_range_len(s: Seq<int>, n: int)
    requires
        n >= 0,
        forall|v: int| 0 <= v < n ==> s.contains(v),
    ensures
        s.len() >= n,
{
    broadcast use vstd::seq_lib::seq_to_set_is_finite;

    s.lemma_cardinality_of_set();
    lemma_int_range(0, n);
    assert(set_int_range(0, n).subset_of(s.to_set()));
    lemma_len_subset(set_int_range(0, n), s.to_set());
}

/// Entry `i` can be drained within `n` rounds: every entry it depends on
/// drains within `n - 1`. An entry drains at some rank exactly when the
/// repeated removal of dependency-free entries eventually removes it.
pub open spec fn drains_by(
    entries: Seq<DefineEntryV>,
    known: Seq<Seq<char>>,
    i: int,
    n: nat,
) -> bool
    decreases n,
{
    &&& n > 0
    &&& forall|j: int|
        #[trigger] depends_on(entries, known, i, j) ==> drains_by(entries, known, j, (n - 1) as nat)
}

/// Entry `i` is eventually evaluated: it drains at some rank.
pub open spec fn drains(entries: Seq<DefineEntryV>, known: Seq<Seq<char>>, i: int) -> bool {
    exists|n: nat| #[trigger] drains_by(entries, known, i, n)
}

proof fn lemma_drains_by_mono(
    ev: Seq<DefineEntryV>,
    kv: Seq<Seq<char>>,
    i: int,
    n1: nat,
    n2: nat,
)
    requires
        drains_by(ev, kv, i, n1),
        n1 <= n2,
    ensures
        drains_by(ev, kv, i, n2),
    decreases n1,
{
    assert forall|j: int| #[trigger] depends_on(ev, kv, i, j) implies drains_by(
        ev,
        kv,
        j,
        (n2 - 1) as nat,
    ) by {
        lemma_drains_by_mono(ev, kv, j, (n1 - 1) as nat, (n2 - 1) as nat);
    };
}

proof fn lemma_depends_bounds(ev: Seq<DefineEntryV>, kv: Seq<Seq<char>>, i: int, j: int)
    requires
        depends_on(ev, kv, i, j),
    ensures
        0 <= j < ev.len(),
{
    let t2 = choose|t2: int|
        0 <= t2 < deps_entry(ev, i).len() && dep_token(
            ev,
            kv,
            i,
            #[trigger] deps_entry(ev, i)[t2],
            j,
        );
}

/// In a stuck state no unplaced entry drains: it waits on an unplaced entry,
/// which waits in turn.
proof fn lemma_stuck_not_drained(
    ev: Seq<DefineEntryV>,
    kv: Seq<Seq<char>>,
    placed: Seq<bool>,
    i: int,
    n: nat,
)
    requires
        stuck_state(ev, kv, placed),
        placed.len() == ev.len(),
        0 <= i < ev.len(),
        !placed[i],
    ensures
        !drains_by(ev, kv, i, n),
    decreases n,
{
    if drains_by(ev, kv, i, n) {
        let j = choose|j: int| #[trigger] depends_on(ev, kv, i, j) && !placed[j];
        lemma_depends_bounds(ev, kv, i, j);
        assert(drains_by(ev, kv, j, (n - 1) as nat));
        lemma_stuck_not_drained(ev, kv, placed, j, (n - 1) as nat);
        assert(false);
    }
}

/// Every entry the drain placed drains: its dependencies stand earlier in
/// the order and drain at smaller ranks.
proof fn lemma_order_drains(ev: Seq<DefineEntryV>, kv: Seq<Seq<char>>, order: Seq<usize>, k: int)
    requires
        forall|k2: int, j: int|
            0 <= k2 < order.len() && #[trigger] depends_on(ev, kv, order[k2] as int, j)
                ==> placed_before(order, k2, j),
        0 <= k < order.len(),
    ensures
        drains_by(ev, kv, order[k] as int, (k + 1) as nat),
    decreases k,
{
    assert forall|j: int| #[trigger] depends_on(ev, kv, order[k] as int, j) implies drains_by(
        ev,
        kv,
        j,
        k as nat,
    ) by {
        assert(placed_before(order, k, j));
        let k2 = choose|k2: int| 0 <= k2 < k && (#[trigger] order[k2]) as int == j;
        lemma_order_drains(ev, kv, order, k2);
        lemma_drains_by_mono(ev, kv, j, (k2 + 1) as nat, k as nat);
    };
}

/// A duplicate-free list of `n` values inside `[0, n)` holds every value of
/// the range.
proof fn lemma_distinct_range_covers(s: Seq<int>, n: int, v: int)
    requires
        n >= 0,
        s.no_duplicates(),
        s.len() == n,
        forall|k: int| 0 <= k < s.len() ==> 0 <= #[trigger] s[k] < n,
        0 <= v < n,
    ensures
        s.contains(v),
{
    broadcast use vstd::seq_lib::seq_to_set_is_finite;

    if !s.contains(v) {
        s.unique_seq_to_set();
        lemma_int_range(0, n);
        assert(s.to_set().subset_of(set_int_range(0, n).remove(v))) by {
            assert forall|x: int| s.to_set().contains(x) implies set_int_range(0, n).remove(
                v,
            ).contains(x) by {
                assert(s.contains(x));
                let k = choose|k: int| 0 <= k < s.len() && s[k] == x;
                assert(0 <= s[k] < n);
            };
        }
        assert(set_int_range(0, n).remove(v).len() == n - 1);
        lemma_len_subset(s.to_set(), set_int_range(0, n).remove(v));
        assert(false);
    }
}

/// Orders the entries so that every entry comes after all entries it depends
/// on (references resolve to the last entry with the referenced name; names
/// in `known` are pre-seeded and never dependencies). When no such order
/// exists, every entry that drains at some rank is placed, and the error
/// names exactly the entries that never drain, in index order.
pub fn topological_sort(entries: &Vec<DefineEntry>, known: &Vec<String>) -> (r: Result<
    Vec<usize>,
    EvalError,
>)
    requires
        entries@.len() < usize::MAX,
    ensures
        match r {
            Ok(order) => {
                &&& order@.len() == entries@.len()
                &&& forall|k: int|
                    0 <= k < order@.len() ==> ((#[trigger] order@[k]) as int) < entries@.len()
                &&& forall|k1: int, k2: int|
                    0 <= k1 < k2 < order@.len() ==> order@[k1] != order@[k2]
                &&& forall|k: int, j: int|
                    0 <= k < order@.len() && #[trigger] depends_on(
                        entries.deep_view(),
                        known.deep_view(),
                        order@[k] as int,
                        j,
                    ) ==> placed_before(order@, k, j)
                &&& forall|i: int|
                    0 <= i < entries.deep_view().len() ==> drains(
                        entries.deep_view(),
                        known.deep_view(),
                        i,
                    )
            },
            Err(e) => {
                &&& e matches EvalError::CyclicDependency { names }
                &&& exists|rem: Seq<int>|
                    {
                        &&& #[trigger] cyclic_remainder(entries.deep_view(), known.deep_view(), rem)
                        &&& forall|t1: int, t2: int| 0 <= t1 < t2 < rem.len() ==> rem[t1] < rem[t2]
                        &&& forall|i: int|
                            #![trigger rem.contains(i)]
                            0 <= i < entries.deep_view().len() ==> (rem.contains(i) <==> !drains(
                                entries.deep_view(),
                                known.deep_view(),
                                i,
                            ))
                        &&& (e matches EvalError::CyclicDependency { names } && names.deep_view()
                            == rem.map_values(|j: int| entries.deep_view()[j].name))
                    }
            },
        },
{
    let n = entries.len();
    let ghost ev = entries.deep_view();
    let ghost kv = known.deep_view();
    let mut placed: Vec<bool> = vec![false; n];
    let mut order: Vec<usize> = Vec::new();
    let mut progress = true;
    let mut round: usize = 0;
    while round < n + 1 && progress
        invariant
            n == entries@.len(),
            n < usize::MAX,
            placed@.len() == n,
            ev == entries.deep_view(),
            kv == known.deep_view(),
            order@.len() <= n,
            forall|k: int| 0 <= k < order@.len() ==> ((#[trigger] order@[k]) as int) < n,
            forall|k1: int, k2: int| 0 <= k1 < k2 < order@.len() ==> order@[k1] != order@[k2],
            forall|i2: int|
                0 <= i2 < n ==> ((#[trigger] placed@[i2]) <==> in_order(order@, i2)),
            forall|k: int, j: int|
                0 <= k < order@.len() && #[trigger] depends_on(ev, kv, order@[k] as int, j)
                    ==> placed_before(order@, k, j),
            progress ==> order@.len() >= round as int,
            !progress ==> stuck_state(ev, kv, placed@),
        decreases n + 1 - round,
    {
        let ghost start_len = order@.len();
        progress = false;
        let mut i: usize = 0;
        while i < n
            invariant
                i <= n,
                n == entries@.len(),
                n < usize::MAX,
                placed@.len() == n,
                ev == entries.deep_view(),
                kv == known.deep_view(),
                order@.len() <= n,
                forall|k: int| 0 <= k < order@.len() ==> ((#[trigger] order@[k]) as int) < n,
                forall|k1: int, k2: int| 0 <= k1 < k2 < order@.len() ==> order@[k1] != order@[k2],
                forall|i2: int|
                    0 <= i2 < n ==> ((#[trigger] placed@[i2]) <==> in_order(order@, i2)),
                forall|k: int, j: int|
                    0 <= k < order@.len() && #[trigger] depends_on(ev, kv, order@[k] as int, j)
                        ==> placed_before(order@, k, j),
                order@.len() >= start_len,
                progress ==> order@.len() >= start_len + 1,
                !progress ==> forall|i2: int|
                    #![trigger placed@[i2]]
                    0 <= i2 < i as int && !placed@[i2] ==> exists|j: int|
                        #[trigger] depends_on(ev, kv, i2, j) && !placed@[j],
            decreases n - i,
        {
            if !placed[i] {
                if deps_done(entries, known, &placed, i) {
                    let ghost order_old = order@;
                    let ghost placed_old = placed@;
                    order.push(i);
                    placed.set(i, true);
                    progress = true;
                    proof {
                        assert(order@ == order_old.push(i));
                        assert(placed@ == placed_old.update(i as int, true));
                        // the pushed index was not in the order before
                        assert(!in_order(order_old, i as int));
                        assert forall|k: int|
                            0 <= k < order@.len() implies ((#[trigger] order@[k]) as int) < n by {
                            if k < order_old.len() {
                                assert(order@[k] == order_old[k]);
                            }
                        };
                        assert forall|k1: int, k2: int|
                            0 <= k1 < k2 < order@.len() implies order@[k1] != order@[k2] by {
                            if k2 == order_old.len() {
                                if order_old[k1] as int == i as int {
                                    assert(in_order(order_old, i as int));
                                }
                            }
                        };
                        // the membership equivalence
                        assert forall|i2: int|
                            0 <= i2 < n implies ((#[trigger] placed@[i2]) <==> in_order(
                            order@,
                            i2,
                        )) by {
                            if i2 == i as int {
                                assert(order@[order_old.len() as int] as int == i2);
                                assert(in_order(order@, i2));
                            } else {
                                if in_order(order@, i2) {
                                    let k = choose|k: int|
                                        0 <= k < order@.len() && (#[trigger] order@[k]) as int
                                            == i2;
                                    assert(k < order_old.len());
                                    assert(in_order(order_old, i2));
                                }
                                if in_order(order_old, i2) {
                                    let k = choose|k: int|
                                        0 <= k < order_old.len() && (#[trigger] order_old[k]) as int
                                            == i2;
                                    assert(order@[k] as int == i2);
                                    assert(in_order(order@, i2));
                                }
                            }
                        };
                        // dependencies of everything placed come earlier
                        assert forall|k: int, j: int|
                            0 <= k < order@.len() && #[trigger] depends_on(
                            ev,
                            kv,
                            order@[k] as int,
                            j,
                        ) implies placed_before(order@, k, j) by {
                            if k < order_old.len() {
                                assert(order@[k] == order_old[k]);
                                assert(placed_before(order_old, k, j));
                                let k2 = choose|k2: int|
                                    0 <= k2 < k && (#[trigger] order_old[k2]) as int == j;
                                assert(order@[k2] as int == j);
                            } else {
                                assert(order@[k] as int == i as int);
                                assert(placed_old[j]);
                                assert(in_order(order_old, j));
                                let k2 = choose|k2: int|
                                    0 <= k2 < order_old.len() && (#[trigger] order_old[k2]) as int
                                        == j;
                                assert(order@[k2] as int == j);
                            }
                        };
                        // the order stays within bounds
                        let oi = order@.map_values(|u: usize| u as int);
                        assert(oi.no_duplicates()) by {
                            assert forall|k1: int, k2: int|
                                0 <= k1 < oi.len() && 0 <= k2 < oi.len() && k1 != k2 implies oi[k1]
                                != oi[k2] by {
                                if k1 < k2 {
                                    assert(order@[k1] != order@[k2]);
                                } else {
                                    assert(order@[k2] != order@[k1]);
                                }
                            };
                        }
                        assert forall|k: int| 0 <= k < oi.len() implies 0 <= #[trigger] oi[k] < n as int by {
                            assert((order@[k] as int) < n);
                        };
                        lemma_distinct_in_range_len(oi, n as int);
                        assert(order@.len() <= n);
                    }
                } else {
                    proof {
                        if !progress {
                            assert(!(forall|j: int|
                                #[trigger] depends_on(ev, kv, i as int, j) ==> placed@[j]));
                        }
                    }
                }
            }
            i += 1;
        }
        round += 1;
    }
    if order.len() == n {
        proof {
            let oi = order@.map_values(|u: usize| u as int);
            assert(oi.no_duplicates()) by {
                assert forall|k1: int, k2: int|
                    0 <= k1 < oi.len() && 0 <= k2 < oi.len() && k1 != k2 implies oi[k1] != oi[k2] by {
                    if k1 < k2 {
                        assert(order@[k1] != order@[k2]);
                    } else {
                        assert(order@[k2] != order@[k1]);
                    }
                };
            }
            assert forall|k: int| 0 <= k < oi.len() implies 0 <= #[trigger] oi[k] < n as int by {
                assert((order@[k] as int) < n);
            };
            assert forall|i2: int| 0 <= i2 < n as int implies drains(ev, kv, i2) by {
                if !oi.contains(i2) {
                    lemma_distinct_range_covers(oi, n as int, i2);
                }
                let k = choose|k: int| 0 <= k < oi.len() && oi[k] == i2;
                assert((order@[k] as int) == i2);
                lemma_order_drains(ev, kv, order@, k);
                assert(drains_by(ev, kv, i2, (k + 1) as nat));
            };
        }
        return Ok(order);
    }
    proof {
        // the loop cannot have stopped while still making progress
        if progress {
            assert(order@.len() >= round as int);
            assert(round as int >= n as int + 1);
            assert(false);
        }
        assert(stuck_state(ev, kv, placed@));
    }
    // collect the names of the entries that wait on one another
    let mut names: Vec<String> = Vec::new();
    let ghost mut rem: Seq<int> = Seq::empty();
    let mut i: usize = 0;
    proof {
        assert(names.deep_view() =~= rem.map_values(|j: int| ev[j].name));
    }
    while i < n
        invariant
            i <= n,
            n == entries@.len(),
            placed@.len() == n,
            ev == entries.deep_view(),
            names.deep_view() == rem.map_values(|j: int| ev[j].name),
            forall|t: int| 0 <= t < rem.len() ==> 0 <= #[trigger] rem[t] < i as int,
            forall|t1: int, t2: int| 0 <= t1 < t2 < rem.len() ==> rem[t1] < rem[t2],
            forall|t: int| 0 <= t < rem.len() ==> !placed@[#[trigger] rem[t]],
            forall|i2: int|
                #![trigger placed@[i2]]
                0 <= i2 < i as int && !placed@[i2] ==> rem.contains(i2),
        decreases n - i,
    {
        if !placed[i] {
            let ghost rem_old = rem;
            let ghost names_old_dv = names.deep_view();
            names.push(entries[i].name.clone());
            proof {
                rem = rem.push(i as int);
                assert(names.deep_view() =~= names_old_dv.push(ev[i as int].name));
                assert forall|t: int| 0 <= t < rem.len() implies rem.map_values(|j: int| ev[j].name)[t]
                    == names_old_dv.push(ev[i as int].name)[t] by {
                    if t < rem_old.len() {
                        assert(rem[t] == rem_old[t]);
                        assert(rem_old.map_values(|j: int| ev[j].name)[t] == ev[rem_old[t]].name);
                    } else {
                        assert(rem[t] == i as int);
                    }
                };
                assert(names.deep_view() =~= rem.map_values(|j: int| ev[j].name));
                assert forall|i2: int|
                    #![trigger placed@[i2]]
                    0 <= i2 < i as int + 1 && !placed@[i2] implies rem.contains(i2) by {
                    if i2 == i as int {
                        assert(rem[rem.len() - 1] == i2);
                    } else {
                        assert(rem_old.contains(i2));
                        let t = choose|t: int| 0 <= t < rem_old.len() && rem_old[t] == i2;
                        assert(rem[t] == i2);
                    }
                };
            }
        }
        i += 1;
    }
    proof {
        // every remaining entry waits on a remaining entry
        assert forall|t: int| 0 <= t < rem.len() implies waits_within(ev, kv, rem, t) by {
            assert(!placed@[rem[t]]);
            let j = choose|j: int| #[trigger] depends_on(ev, kv, rem[t], j) && !placed@[j];
            assert(0 <= j < n as int);
            assert(rem.contains(j));
            assert(depends_on(ev, kv, rem[t], j) && rem.contains(j));
        };
        // and there is at least one remaining entry
        if rem.len() == 0 {
            assert forall|i2: int| 0 <= i2 < n as int implies placed@[i2] by {
                if !placed@[i2] {
                    assert(rem.contains(i2));
                }
            };
            let oi = order@.map_values(|u: usize| u as int);
            assert forall|v: int| 0 <= v < n as int implies oi.contains(v) by {
                assert(placed@[v]);
                assert(in_order(order@, v));
                let k = choose|k: int| 0 <= k < order@.len() && (#[trigger] order@[k]) as int == v;
                assert(oi[k] == v);
            };
            lemma_cover_range_len(oi, n as int);
            assert(false);
        }
        assert(cyclic_remainder(ev, kv, rem));
        // the reported entries are exactly the ones that never drain
        assert forall|i2: int|
            #![trigger rem.contains(i2)]
            0 <= i2 < n as int implies (rem.contains(i2) <==> !drains(ev, kv, i2)) by {
            if rem.contains(i2) {
                let t = choose|t: int| 0 <= t < rem.len() && rem[t] == i2;
                assert(!placed@[i2]);
                if drains(ev, kv, i2) {
                    let nn = choose|nn: nat| drains_by(ev, kv, i2, nn);
                    lemma_stuck_not_drained(ev, kv, placed@, i2, nn);
                }
            } else {
                assert(placed@[i2]);
                assert(in_order(order@, i2));
                let k = choose|k: int| 0 <= k < order@.len() && (#[trigger] order@[k]) as int == i2;
                lemma_order_drains(ev, kv, order@, k);
                assert(drains_by(ev, kv, i2, (k + 1) as nat));
            }
        };
    }
    Err(EvalError::CyclicDependency { names })
}

// ─────────────────────────────────────────────────────────────────────────────
// Collecting the entries of a define section
// ─────────────────────────────────────────────────────────────────────────────

pub open spec fn entries_of_defines(d: DefineSectionV) -> Seq<DefineEntryV> {
    d.constants.map_values(|c: ConstantV| DefineEntryV { name: c.name, expression: c.value })
        + d.quantities.map_values(|q: QuantityV| DefineEntryV { name: q.name, expression: q.value })
        + d.variables.map_values(|v: VariableV| DefineEntryV { name: v.name, expression: v.value })
        + d.expressions.map_values(
        |e: ExpressionV| DefineEntryV { name: e.name, expression: e.value },
    )
}

/// Flattens the define section into one (name, expression) list: constants,
/// then quantities, then variables, then expressions, in source order.
pub fn collect_define_entries(defines: &DefineSection) -> (r: Vec<DefineEntry>)
    ensures
        r.deep_view() == entries_of_defines(defines.deep_view()),
{
    let ghost dv = defines.deep_view();
    let ghost cseg = dv.constants.map_values(
        |c: ConstantV| DefineEntryV { name: c.name, expression: c.value },
    );
    let ghost qseg = dv.quantities.map_values(
        |q: QuantityV| DefineEntryV { name: q.name, expression: q.value },
    );
    let ghost vseg = dv.variables.map_values(
        |v: VariableV| DefineEntryV { name: v.name, expression: v.value },
    );
    let ghost eseg = dv.expressions.map_values(
        |e: ExpressionV| DefineEntryV { name: e.name, expression: e.value },
    );
    let mut out: Vec<DefineEntry> = Vec::new();
    let mut i: usize = 0;
    proof {
        assert(out.deep_view() =~= cseg.take(0));
    }
    while i < defines.constants.len()
        invariant
            i <= defines.constants@.len(),
            dv == defines.deep_view(),
            cseg == dv.constants.map_values(
                |c: ConstantV| DefineEntryV { name: c.name, expression: c.value },
            ),
            out.deep_view() == cseg.take(i as int),
        decreases defines.constants@.len() - i,
    {
        let e = DefineEntry {
            name: defines.constants[i].name.clone(),
            expression: defines.constants[i].value.clone(),
        };
        proof {
            assert(e.deep_view() == cseg[i as int]);
        }
        push_dv(&mut out, e);
        proof {
            assert(out.deep_view() =~= cseg.take(i as int + 1));
        }
        i += 1;
    }
    proof {
        assert(cseg.take(defines.constants@.len() as int) =~= cseg);
        assert(out.deep_view() =~= cseg + qseg.take(0));
    }
    let mut i: usize = 0;
    while i < defines.quantities.len()
        invariant
            i <= defines.quantities@.len(),
            dv == defines.deep_view(),
            qseg == dv.quantities.map_values(
                |q: QuantityV| DefineEntryV { name: q.name, expression: q.value },
            ),
            out.deep_view() == cseg + qseg.take(i as int),
        decreases defines.quantities@.len() - i,
    {
        let e = DefineEntry {
            name: defines.quantities[i].name.clone(),
            expression: defines.quantities[i].value.clone(),
        };
        proof {
            assert(e.deep_view() == qseg[i as int]);
        }
        push_dv(&mut out, e);
        proof {
            assert(out.deep_view() =~= cseg + qseg.take(i as int + 1));
        }
        i += 1;
    }
    proof {
        assert(qseg.take(defines.quantities@.len() as int) =~= qseg);
        assert(out.deep_view() =~= (cseg + qseg) + vseg.take(0));
    }
    let mut i: usize = 0;
    while i < defines.variables.len()
        invariant
            i <= defines.variables@.len(),
            dv == defines.deep_view(),
            vseg == dv.variables.map_values(
                |v: VariableV| DefineEntryV { name: v.name, expression: v.value },
            ),
            out.deep_view() == (cseg + qseg) + vseg.take(i as int),
        decreases defines.variables@.len() - i,
    {
        let e = DefineEntry {
            name: defines.variables[i].name.clone(),
            expression: defines.variables[i].value.clone(),
        };
        proof {
            assert(e.deep_view() == vseg[i as int]);
        }
        push_dv(&mut out, e);
        proof {
            assert(out.deep_view() =~= (cseg + qseg) + vseg.take(i as int + 1));
        }
        i += 1;
    }
    proof {
        assert(vseg.take(defines.variables@.len() as int) =~= vseg);
        assert(out.deep_view() =~= ((cseg + qseg) + vseg) + eseg.take(0));
    }
    let mut i: usize = 0;
    while i < defines.expressions.len()
        invariant
            i <= defines.expressions@.len(),
            dv == defines.deep_view(),
            eseg == dv.expressions.map_values(
                |e: ExpressionV| DefineEntryV { name: e.name, expression: e.value },
            ),
            out.deep_view() == ((cseg + qseg) + vseg) + eseg.take(i as int),
        decreases defines.expressions@.len() - i,
    {
        let e = DefineEntry {
            name: defines.expressions[i].name.clone(),
            expression: defines.expressions[i].value.clone(),
        };
        proof {
            assert(e.deep_view() == eseg[i as int]);
        }
        push_dv(&mut out, e);
        proof {
            assert(out.deep_view() =~= ((cseg + qseg) + vseg) + eseg.take(i as int + 1));
        }
        i += 1;
    }
    proof {
        assert(eseg.take(defines.expressions@.len() as int) =~= eseg);
        assert(out.deep_view() =~= entries_of_defines(dv));
    }
    out
}

/// The scalar names pre-seeded before evaluation.
pub fn builtin_scalar_names() -> (r: Vec<String>)
    ensures
        r.deep_view() =~= seq!["pi"@, "PI"@, "e"@, "TWOPI"@],
{
    let mut v: Vec<String> = Vec::new();
    v.push(String::from_str("pi"));
    v.push(String::from_str("PI"));
    v.push(String::from_str("e"));
    v.push(String::from_str("TWOPI"));
    proof {
        assert(v.deep_view() =~= seq!["pi"@, "PI"@, "e"@, "TWOPI"@]);
    }
    v
}

// ─────────────────────────────────────────────────────────────────────────────
// Quantity unit conversion policy
// ─────────────────────────────────────────────────────────────────────────────

/// The unit recorded for `name`: the last quantity with that name that
/// carries a unit.
pub open spec fn last_unit_of(qs: Seq<QuantityV>, name: Seq<char>) -> Option<
    Seq<char>,
>
    decreases qs.len(),
{
    if qs.len() == 0 {
        None
    } else if qs.last().name == name && qs.last().unit is Some {
        qs.last().unit
    } else {
        last_unit_of(qs.drop_last(), name)
    }
}

pub open spec fn first_quantity_with_name(qs: Seq<QuantityV>, name: Seq<char>) -> Option<
    QuantityV,
>
    decreases qs.len(),
{
    if qs.len() == 0 {
        None
    } else if qs[0].name == name {
        Some(qs[0])
    } else {
        first_quantity_with_name(qs.drop_first(), name)
    }
}

/// The unit an evaluated entry must be converted from, if it is a quantity of
/// type `length` with a recorded unit; the result is then stored in
/// millimetres.
pub open spec fn length_conversion_unit(qs: Seq<QuantityV>, name: Seq<char>) -> Option<
    Seq<char>,
> {
    match last_unit_of(qs, name) {
        Some(u) => match first_quantity_with_name(qs, name) {
            Some(q) => if q.qtype == Some("length"@) {
                Some(u)
            } else {
                None
            },
            None => None,
        },
        None => None,
    }
}

/// Looks up whether the entry named `name` is a length quantity, and with
/// which source unit.
pub fn quantity_length_unit(defines: &DefineSection, name: &str) -> (r: Option<String>)
    ensures
        opt_view(r) == length_conversion_unit(defines.deep_view().quantities, name@),
{
    let ghost qs = defines.deep_view().quantities;
    // the unit: last quantity with this name that has one
    let mut unit: Option<String> = None;
    let mut k = defines.quantities.len();
    let mut found_unit = false;
    proof {
        assert(qs.take(k as int) =~= qs);
    }
    while k > 0 && !found_unit
        invariant
            k <= defines.quantities@.len(),
            qs == defines.deep_view().quantities,
            !found_unit ==> last_unit_of(qs, name@) == last_unit_of(qs.take(k as int), name@),
            found_unit ==> opt_view(unit) == last_unit_of(qs, name@) && unit is Some,
        decreases k,
    {
        let idx = k - 1;
        proof {
            assert(qs.take(k as int).last() == qs[idx as int]);
            assert(qs.take(k as int).drop_last() =~= qs.take(idx as int));
        }
        let q = &defines.quantities[idx];
        if str_eq(q.name.as_str(), name) {
            match &q.unit {
                Some(u) => {
                    unit = Some(u.clone());
                    found_unit = true;
                    proof {
                        assert(last_unit_of(qs.take(k as int), name@) == qs[idx as int].unit);
                    }
                },
                None => {},
            }
        }
        k = idx;
    }
    if !found_unit {
        proof {
            assert(qs.take(0) =~= Seq::<QuantityV>::empty());
        }
        return None;
    }
    let u = match unit {
        Some(u) => u,
        None => {
            return None;
        },
    };
    // the type hint: first quantity with this name
    let mut i: usize = 0;
    proof {
        assert(qs.skip(0) =~= qs);
    }
    while i < defines.quantities.len()
        invariant
            i <= defines.quantities@.len(),
            qs == defines.deep_view().quantities,
            last_unit_of(qs, name@) == Some(u@),
            first_quantity_with_name(qs, name@) == first_quantity_with_name(
                qs.skip(i as int),
                name@,
            ),
        decreases defines.quantities@.len() - i,
    {
        proof {
            assert(qs.skip(i as int)[0] == qs[i as int]);
            assert(qs.skip(i as int).drop_first() =~= qs.skip(i as int + 1));
        }
        let q = &defines.quantities[i];
        if str_eq(q.name.as_str(), name) {
            let is_length = match &q.qtype {
                Some(t) => str_eq(t.as_str(), "length"),
                None => false,
            };
            if is_length {
                proof {
                    assert(first_quantity_with_name(qs, name@) == Some(qs[i as int]));
                    assert(qs[i as int].qtype == Some("length"@));
                    assert(last_unit_of(qs, name@) == Some(u@));
                }
                return Some(u);
            } else {
                return None;
            }
        }
        i += 1;
    }
    proof {
        assert(qs.skip(defines.quantities@.len() as int) =~= Seq::<QuantityV>::empty());
    }
    None
}

/// Member `t` of the remainder depends on some entry that is itself in the
/// remainder.
pub open spec fn waits_within(
    entries: Seq<DefineEntryV>,
    known: Seq<Seq<char>>,
    rem: Seq<int>,
    t: int,
) -> bool {
    exists|j: int| #[trigger] depends_on(entries, known, rem[t], j) && rem.contains(j)
}

/// A non-empty set of entry indices, each of which depends on another member
/// of the set: the witness that no topological order exists.
pub open spec fn cyclic_remainder(
    entries: Seq<DefineEntryV>,
    known: Seq<Seq<char>>,
    rem: Seq<int>,
) -> bool {
    &&& rem.len() > 0
    &&& forall|t: int| 0 <= t < rem.len() ==> 0 <= #[trigger] rem[t] < entries.len()
    &&& forall|t: int| 0 <= t < rem.len() ==> #[trigger] waits_within(entries, known, rem, t)
}

} // verus!
