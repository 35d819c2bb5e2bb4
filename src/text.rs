use vstd::prelude::*;
use vstd::string::*;

verus! {

/// The text that `{:?}` gives for a string: quoted, with escapes.
pub uninterp spec fn debug_quoted(s: Seq<char>) -> Seq<char>;

/// A character that `{:?}` writes out as it is: printable ASCII other
/// than the quote and the backslash.
pub open spec fn is_plain_char(c: char) -> bool {
    ' ' <= c && c <= '~' && c != '"' && c != '\\'
}

/// Relies on the `Debug` formatting of `str`: the result depends on the
/// characters alone, it stands between double quotes, line breaks inside are
/// escaped, and a string of plain printable ASCII is only quoted.
#[verifier::external_body]
pub(crate) fn quote(s: &str) -> (r: String)
    ensures
        r@ == debug_quoted(s@),
        r@.len() >= 2,
        r@[0] == '"',
        r@.last() == '"',
        !r@.contains('\n'),
        (forall|i: int| 0 <= i < s@.len() ==> is_plain_char(#[trigger] s@[i])) ==> r@ == seq!['"']
            + s@ + seq!['"'],
{
    format!("{:?}", s)
}

/// `s` with every occurrence of `pat`, taken from the left without overlap,
/// replaced by `rep`. An empty pattern matches before each character and at
/// the end.
pub open spec fn replace_all(s: Seq<char>, pat: Seq<char>, rep: Seq<char>) -> Seq<char>
    decreases s.len(),
{
    if pat.len() == 0 {
        if s.len() == 0 {
            rep
        } else {
            rep + seq![s[0]] + replace_all(s.drop_first(), pat, rep)
        }
    } else if s.len() < pat.len() {
        s
    } else if s.take(pat.len() as int) == pat {
        rep + replace_all(s.skip(pat.len() as int), pat, rep)
    } else {
        seq![s[0]] + replace_all(s.drop_first(), pat, rep)
    }
}

/// Replaces every occurrence of `pat` in `s` by `rep`, as `str::replace` does.
pub fn replace(s: &str, pat: &str, rep: &str) -> (r: String)
    ensures
        r@ == replace_all(s@, pat@, rep@),
{
    let n = s.unicode_len();
    let m = pat.unicode_len();
    let pat_owned = String::from_str(pat);
    let mut out = String::new();
    let mut i: usize = 0;
    assert(s@.skip(0) =~= s@);
    assert(out@ + replace_all(s@, pat@, rep@) =~= replace_all(s@, pat@, rep@));
    while i < n
        invariant
            i <= n,
            n == s@.len(),
            m == pat@.len(),
            pat_owned@ == pat@,
            out@ + replace_all(s@.skip(i as int), pat@, rep@) == replace_all(s@, pat@, rep@),
        decreases n - i,
    {
        let ghost rest = s@.skip(i as int);
        if m == 0 {
            out.append(rep);
            out.append(s.substring_char(i, i + 1));
            assert(rest.drop_first() =~= s@.skip(i + 1));
            assert(seq![rest[0]] =~= s@.subrange(i as int, i + 1));
            i = i + 1;
            proof {
                assert(out@ + replace_all(s@.skip(i as int), pat@, rep@) =~= replace_all(
                    s@,
                    pat@,
                    rep@,
                ));
            }
        } else if n - i < m {
            assert(replace_all(rest, pat@, rep@) == rest);
            out.append(s.substring_char(i, n));
            assert(s@.subrange(i as int, n as int) =~= rest);
            assert(s@.skip(n as int) =~= Seq::<char>::empty());
            i = n;
        } else {
            let window = String::from_str(s.substring_char(i, i + m));
            assert(window@ =~= rest.take(m as int));
            if window == pat_owned {
                out.append(rep);
                assert(rest.skip(m as int) =~= s@.skip(i + m));
                i = i + m;
            } else {
                out.append(s.substring_char(i, i + 1));
                assert(rest.drop_first() =~= s@.skip(i + 1));
                assert(seq![rest[0]] =~= s@.subrange(i as int, i + 1));
                i = i + 1;
            }
        }
    }
    proof {
        let e = s@.skip(n as int);
        assert(e =~= Seq::<char>::empty());
        if m == 0 {
            assert(replace_all(e, pat@, rep@) == rep@);
        } else {
            assert(replace_all(e, pat@, rep@) == e);
        }
    }
    if m == 0 {
        out.append(rep);
    }
    assert(out@ =~= replace_all(s@, pat@, rep@));
    out
}

} // verus!
