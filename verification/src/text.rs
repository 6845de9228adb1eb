//! Small string utilities: equality, suffix tests, XML whitespace collapsing
//! and the `N.*` → `N.0*` expression fixup that GDML sources need.

use vstd::prelude::*;

verus! {

/// Relies on std's String::push: appends the given char to the end.
pub assume_specification[ String::push ](s: &mut String, ch: char)
    ensures
        final(s)@ == old(s)@.push(ch),
;

/// Relies on std's String::pop: removes the last char and returns it.
pub assume_specification[ String::pop ](s: &mut String) -> (r: Option<char>)
    ensures
        old(s)@.len() == 0 ==> r is None && final(s)@ == old(s)@,
        old(s)@.len() > 0 ==> r == Some(old(s)@.last()) && final(s)@ == old(s)@.drop_last(),
;

/// Character-wise string equality.
pub fn str_eq(a: &str, b: &str) -> (r: bool)
    ensures
        r == (a@ == b@),
{
    let na = a.unicode_len();
    let nb = b.unicode_len();
    if na != nb {
        return false;
    }
    let mut i: usize = 0;
    while i < na
        invariant
            i <= na,
            na == a@.len(),
            na == b@.len(),
            forall|k: int| 0 <= k < i as int ==> a@[k] == b@[k],
        decreases na - i,
    {
        if a.get_char(i) != b.get_char(i) {
            return false;
        }
        i += 1;
    }
    proof {
        assert(a@ =~= b@);
    }
    true
}

/// Does `s` end with `suffix`?
pub fn str_ends_with(s: &str, suffix: &str) -> (r: bool)
    ensures
        r == (s@.len() >= suffix@.len() && s@.skip(s@.len() - suffix@.len()) == suffix@),
{
    let n = s.unicode_len();
    let m = suffix.unicode_len();
    if n < m {
        return false;
    }
    let tail = s.substring_char(n - m, n);
    str_eq(tail, suffix)
}

/// XML whitespace: space, tab, carriage return, line feed.
pub open spec fn is_space_char(c: char) -> bool {
    c == ' ' || c == '\t' || c == '\n' || c == '\r'
}

pub fn is_space(c: char) -> (r: bool)
    ensures
        r == is_space_char(c),
{
    c == ' ' || c == '\t' || c == '\n' || c == '\r'
}

/// One pass of whitespace collapsing: every run of whitespace becomes a single
/// space; with `prev_space` true a leading run is dropped entirely.
pub open spec fn collapse_rec(s: Seq<char>, prev_space: bool) -> Seq<char>
    decreases s.len(),
{
    if s.len() == 0 {
        Seq::empty()
    } else if is_space_char(s[0]) {
        if prev_space {
            collapse_rec(s.drop_first(), true)
        } else {
            seq![' '] + collapse_rec(s.drop_first(), true)
        }
    } else {
        seq![s[0]] + collapse_rec(s.drop_first(), false)
    }
}

pub open spec fn trim_trailing_space(s: Seq<char>) -> Seq<char> {
    if s.len() > 0 && s[s.len() - 1] == ' ' {
        s.drop_last()
    } else {
        s
    }
}

/// Adjacent whitespace (including newlines) collapsed to a single space,
/// with the result trimmed at both ends.
pub open spec fn collapse_spaces_spec(s: Seq<char>) -> Seq<char> {
    trim_trailing_space(collapse_rec(s, true))
}

/// Collapses runs of whitespace to single spaces and trims the ends.
pub fn collapse_spaces(s: &str) -> (r: String)
    ensures
        r@ == collapse_spaces_spec(s@),
{
    let n = s.unicode_len();
    let mut out = String::new();
    let mut prev_space = true;
    let mut i: usize = 0;
    proof {
        assert(s@.skip(0) =~= s@);
    }
    while i < n
        invariant
            i <= n,
            n == s@.len(),
            collapse_rec(s@, true) == out@ + collapse_rec(s@.skip(i as int), prev_space),
            prev_space ==> (out@.len() == 0 || out@.last() == ' '),
            !prev_space ==> out@.len() > 0 && out@.last() != ' ',
            out@.len() == 0 || out@[0] != ' ',
        decreases n - i,
    {
        let ghost rest = s@.skip(i as int);
        proof {
            assert(rest[0] == s@[i as int]);
            assert(rest.drop_first() =~= s@.skip(i as int + 1));
        }
        let c = s.get_char(i);
        if is_space(c) {
            if !prev_space {
                out.push(' ');
            }
            prev_space = true;
        } else {
            out.push(c);
            prev_space = false;
        }
        i += 1;
    }
    proof {
        assert(collapse_rec(s@.skip(n as int), prev_space) =~= Seq::<char>::empty());
        assert(collapse_rec(s@, true) =~= out@);
    }
    // at most one trailing space can remain; drop it
    let mut r = out;
    let lr = r.as_str().unicode_len();
    if lr > 0 {
        let last = r.as_str().get_char(lr - 1);
        if last == ' ' {
            r.pop();
        }
    }
    r
}

pub open spec fn is_digit_char(c: char) -> bool {
    '0' <= c && c <= '9'
}

pub fn is_digit(c: char) -> (r: bool)
    ensures
        r == is_digit_char(c),
{
    '0' <= c && c <= '9'
}

/// The GDML idiom fixup: a digit followed by `.*` becomes `.0*`
/// (for example `360.*deg` turns into `360.0*deg`).
pub open spec fn fix_expr_rec(s: Seq<char>) -> Seq<char>
    decreases s.len(),
{
    if s.len() == 0 {
        Seq::empty()
    } else if is_digit_char(s[0]) && s.len() >= 3 && s[1] == '.' && s[2] == '*' {
        seq![s[0], '.', '0', '*'] + fix_expr_rec(s.skip(3))
    } else {
        seq![s[0]] + fix_expr_rec(s.skip(1))
    }
}

/// Rewrites every digit-`.*` occurrence to digit-`.0*`.
pub fn fix_gdml_expr(s: &str) -> (r: String)
    ensures
        r@ == fix_expr_rec(s@),
{
    let n = s.unicode_len();
    let mut out = String::new();
    let mut i: usize = 0;
    proof {
        assert(s@.skip(0) =~= s@);
    }
    while i < n
        invariant
            i <= n,
            n == s@.len(),
            fix_expr_rec(s@) == out@ + fix_expr_rec(s@.skip(i as int)),
        decreases n - i,
    {
        let ghost rest = s@.skip(i as int);
        proof {
            assert(rest[0] == s@[i as int]);
            if rest.len() >= 3 {
                assert(rest[1] == s@[i as int + 1]);
                assert(rest[2] == s@[i as int + 2]);
                assert(rest.skip(3) =~= s@.skip(i as int + 3));
            }
            assert(rest.skip(1) =~= s@.skip(i as int + 1));
        }
        let c = s.get_char(i);
        out.push(c);
        if is_digit(c) && n - i > 2 && s.get_char(i + 1) == '.' && s.get_char(i + 2) == '*' {
            out.push('.');
            out.push('0');
            out.push('*');
            i += 3;
        } else {
            i += 1;
        }
    }
    proof {
        assert(fix_expr_rec(s@.skip(n as int)) =~= Seq::<char>::empty());
        assert(fix_expr_rec(s@) =~= out@);
    }
    out
}

} // verus!
