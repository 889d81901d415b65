//! Character-sequence operations the pipe protocol and the service replies
//! are built from: removing every occurrence of a marker, splitting at the
//! first separator, looking up a query parameter, and decimal numerals.

use vstd::prelude::*;
use vstd::string::*;

verus! {

/// True when `s` begins with `pat`.
pub open spec fn starts_with(s: Seq<char>, pat: Seq<char>) -> bool {
    pat.len() <= s.len() && s.subrange(0, pat.len() as int) == pat
}

/// True when `pat` occurs somewhere in `s`.
pub open spec fn occurs_in(s: Seq<char>, pat: Seq<char>) -> bool {
    exists|i: int| 0 <= i <= s.len() - pat.len() && #[trigger] s.subrange(i, i + pat.len()) == pat
}

/// `s` with every occurrence of `pat` removed, scanning from the left and
/// never letting two removed occurrences overlap. An empty `pat` removes
/// nothing.
pub open spec fn remove_all(s: Seq<char>, pat: Seq<char>) -> Seq<char>
    decreases s.len(),
{
    if s.len() == 0 {
        seq![]
    } else if pat.len() > 0 && starts_with(s, pat) {
        remove_all(s.subrange(pat.len() as int, s.len() as int), pat)
    } else {
        seq![s[0]] + remove_all(s.drop_first(), pat)
    }
}

/// `i` is the position of the first `sep` in `s`.
pub open spec fn is_first(s: Seq<char>, sep: char, i: int) -> bool {
    &&& 0 <= i < s.len()
    &&& s[i] == sep
    &&& forall|j: int| 0 <= j < i ==> s[j] != sep
}

/// The parts of `s` before and after its first `sep`, or `None` when `s`
/// holds no `sep`.
pub open spec fn split_once(s: Seq<char>, sep: char) -> Option<(Seq<char>, Seq<char>)> {
    if exists|i: int| is_first(s, sep, i) {
        let i = choose|i: int| is_first(s, sep, i);
        Some((s.take(i), s.skip(i + 1)))
    } else {
        None
    }
}

/// The value of the first pair in `params` whose key is `key`.
pub open spec fn lookup(params: Seq<(String, String)>, key: Seq<char>) -> Option<Seq<char>>
    decreases params.len(),
{
    if params.len() == 0 {
        None
    } else if params[0].0@ == key {
        Some(params[0].1@)
    } else {
        lookup(params.drop_first(), key)
    }
}

/// No two pairs of `params` have the same key, as in a map.
pub open spec fn unique_keys(params: Seq<(String, String)>) -> bool {
    forall|i: int, j: int|
        0 <= i < j < params.len() ==> #[trigger] params[i].0@ != #[trigger] params[j].0@
}

/// Where keys are unique, looking a key up gives the value paired with it
/// wherever it stands, so the order of the pairs does not matter.
pub proof fn lemma_lookup_unique(params: Seq<(String, String)>, key: Seq<char>)
    requires
        unique_keys(params),
    ensures
        forall|i: int|
            0 <= i < params.len() && #[trigger] params[i].0@ == key ==> lookup(params, key) == Some(
                params[i].1@,
            ),
        lookup(params, key) is None <==> forall|i: int|
            0 <= i < params.len() ==> #[trigger] params[i].0@ != key,
    decreases params.len(),
{
    if params.len() > 0 {
        let rest = params.drop_first();
        assert forall|i: int, j: int| 0 <= i < j < rest.len() implies #[trigger] rest[i].0@
            != #[trigger] rest[j].0@ by {
            assert(rest[i] == params[i + 1]);
            assert(rest[j] == params[j + 1]);
        }
        lemma_lookup_unique(rest, key);
        assert forall|i: int|
            0 <= i < params.len() && #[trigger] params[i].0@ == key implies lookup(params, key)
            == Some(params[i].1@) by {
            if i > 0 {
                assert(params[0].0@ != params[i].0@);
                assert(rest[i - 1] == params[i]);
            }
        }
        if lookup(params, key) is None {
            assert forall|i: int| 0 <= i < params.len() implies #[trigger] params[i].0@ != key by {
                if i > 0 {
                    assert(rest[i - 1] == params[i]);
                }
            }
        }
    }
}

/// The decimal digit for `d`, which is below ten.
pub open spec fn digit_char(d: nat) -> char {
    if d == 0 {
        '0'
    } else if d == 1 {
        '1'
    } else if d == 2 {
        '2'
    } else if d == 3 {
        '3'
    } else if d == 4 {
        '4'
    } else if d == 5 {
        '5'
    } else if d == 6 {
        '6'
    } else if d == 7 {
        '7'
    } else if d == 8 {
        '8'
    } else {
        '9'
    }
}

/// The decimal numeral of `n`, without leading zeros.
pub open spec fn decimal(n: nat) -> Seq<char>
    decreases n,
{
    if n < 10 {
        seq![digit_char(n)]
    } else {
        decimal(n / 10).push(digit_char(n % 10))
    }
}

/// The first `sep` is unique.
pub proof fn lemma_first_unique(s: Seq<char>, sep: char, i: int, k: int)
    requires
        is_first(s, sep, i),
        is_first(s, sep, k),
    ensures
        i == k,
{
}

/// Splitting `a + [sep] + b` where `a` holds no `sep` gives back `a` and `b`.
pub proof fn lemma_split_once_join(a: Seq<char>, sep: char, b: Seq<char>)
    requires
        !a.contains(sep),
    ensures
        split_once(a + seq![sep] + b, sep) == Some((a, b)),
{
    let s = a + seq![sep] + b;
    let i = a.len() as int;
    assert forall|j: int| 0 <= j < i implies s[j] != sep by {
        assert(s[j] == a[j]);
    }
    assert(is_first(s, sep, i));
    let k = choose|k: int| is_first(s, sep, k);
    lemma_first_unique(s, sep, i, k);
    assert(s.take(i) =~= a);
    assert(s.skip(i + 1) =~= b);
}

/// The parts `split_once` gives are exactly the text before the first `sep`
/// and everything after it.
pub proof fn lemma_split_once_parts(s: Seq<char>, sep: char)
    ensures
        split_once(s, sep) is None <==> !s.contains(sep),
        split_once(s, sep) matches Some((a, b)) ==> s == a + seq![sep] + b && !a.contains(sep),
{
    if s.contains(sep) {
        let k = choose|k: int| 0 <= k < s.len() && s[k] == sep;
        lemma_first_exists(s, sep, k);
    }
    if exists|i: int| is_first(s, sep, i) {
        let i = choose|i: int| is_first(s, sep, i);
        assert(s.take(i) + seq![sep] + s.skip(i + 1) =~= s);
        if s.take(i).contains(sep) {
            let j = choose|j: int| 0 <= j < s.take(i).len() && s.take(i)[j] == sep;
            assert(s[j] == sep);
        }
    }
}

/// Where `sep` occurs at `k`, a first occurrence exists.
proof fn lemma_first_exists(s: Seq<char>, sep: char, k: int)
    requires
        0 <= k < s.len(),
        s[k] == sep,
    ensures
        exists|i: int| is_first(s, sep, i),
    decreases k,
{
    if forall|j: int| 0 <= j < k ==> s[j] != sep {
        assert(is_first(s, sep, k));
    } else {
        let j = choose|j: int| 0 <= j < k && s[j] == sep;
        lemma_first_exists(s, sep, j);
    }
}

/// Removing a marker that does not occur changes nothing.
pub proof fn lemma_remove_absent(s: Seq<char>, pat: Seq<char>)
    requires
        pat.len() > 0,
        !occurs_in(s, pat),
    ensures
        remove_all(s, pat) == s,
    decreases s.len(),
{
    if s.len() == 0 {
    } else {
        if starts_with(s, pat) {
            let z: int = 0;
            assert(s.subrange(z, z + pat.len()) == pat);
            assert(occurs_in(s, pat));
        }
        let t = s.drop_first();
        if occurs_in(t, pat) {
            let i = choose|i: int|
                0 <= i <= t.len() - pat.len() && #[trigger] t.subrange(i, i + pat.len()) == pat;
            assert(s.subrange(i + 1, i + 1 + pat.len()) =~= t.subrange(i, i + pat.len()));
            assert(occurs_in(s, pat));
        }
        lemma_remove_absent(t, pat);
        assert(seq![s[0]] + t =~= s);
    }
}

/// True when `s` holds `pat` at position `i`.
fn matches_at(s: &str, n: usize, i: usize, pat: &str, m: usize) -> (r: bool)
    requires
        n == s@.len(),
        m == pat@.len(),
        i + m <= n,
    ensures
        r == (s@.subrange(i as int, i + m) == pat@),
{
    let mut j: usize = 0;
    while j < m
        invariant
            n == s@.len(),
            m == pat@.len(),
            i + m <= n,
            j <= m,
            forall|k: int| 0 <= k < j ==> s@[i + k] == pat@[k],
        decreases m - j,
    {
        if s.get_char(i + j) != pat.get_char(j) {
            assert(s@.subrange(i as int, i + m)[j as int] != pat@[j as int]);
            return false;
        }
        j = j + 1;
    }
    assert(s@.subrange(i as int, i + m) =~= pat@);
    true
}

/// `s` with every occurrence of `pat` removed, as `str::replace(pat, "")`
/// does it.
pub fn remove_all_str(s: &str, pat: &str) -> (res: String)
    ensures
        res@ == remove_all(s@, pat@),
{
    let n: usize = s.unicode_len();
    let m: usize = pat.unicode_len();
    let mut out: String = String::new();
    let mut i: usize = 0;
    assert(s@.skip(0) =~= s@);
    while i < n
        invariant
            n == s@.len(),
            m == pat@.len(),
            i <= n,
            remove_all(s@, pat@) == out@ + remove_all(s@.skip(i as int), pat@),
        decreases n - i,
    {
        let t: Ghost<Seq<char>> = Ghost(s@.skip(i as int));
        if m > 0 && m <= n - i && matches_at(s, n, i, pat, m) {
            assert(t@.subrange(0, m as int) =~= s@.subrange(i as int, i + m));
            assert(t@.subrange(m as int, t@.len() as int) =~= s@.skip(i + m));
            i = i + m;
        } else {
            proof {
                if m > 0 && m <= n - i {
                    assert(t@.subrange(0, m as int) =~= s@.subrange(i as int, i + m));
                }
                assert(t@.drop_first() =~= s@.skip(i + 1));
            }
            let c: &str = s.substring_char(i, i + 1);
            let ghost before = out@;
            out.append(c);
            assert(c@ =~= seq![t@[0]]);
            assert(before + (seq![t@[0]] + remove_all(t@.drop_first(), pat@)) =~= out@ + remove_all(
                s@.skip(i + 1),
                pat@,
            ));
            i = i + 1;
        }
    }
    assert(s@.skip(n as int) =~= Seq::<char>::empty());
    assert(out@ + Seq::<char>::empty() =~= out@);
    out
}

/// The parts of `s` before and after its first `sep`, as `str::split_once`
/// gives them.
pub fn split_once_str(s: &str, sep: char) -> (res: Option<(String, String)>)
    ensures
        match res {
            Some((a, b)) => split_once(s@, sep) == Some((a@, b@)),
            None => split_once(s@, sep) is None,
        },
{
    let n: usize = s.unicode_len();
    let mut i: usize = 0;
    while i < n
        invariant
            n == s@.len(),
            i <= n,
            forall|j: int| 0 <= j < i ==> s@[j] != sep,
        decreases n - i,
    {
        if s.get_char(i) == sep {
            assert(is_first(s@, sep, i as int));
            proof {
                let k = choose|k: int| is_first(s@, sep, k);
                lemma_first_unique(s@, sep, i as int, k);
            }
            let before: String = s.substring_char(0, i).to_owned();
            let after: String = s.substring_char(i + 1, n).to_owned();
            assert(s@.subrange(0, i as int) =~= s@.take(i as int));
            assert(s@.subrange(i + 1, n as int) =~= s@.skip(i + 1));
            return Some((before, after));
        }
        i = i + 1;
    }
    assert(!exists|k: int| is_first(s@, sep, k));
    None
}

/// The value of the first pair in `params` whose key is `key`.
pub fn find_param(params: &Vec<(String, String)>, key: &String) -> (res: Option<String>)
    ensures
        match res {
            Some(v) => lookup(params@, key@) == Some(v@),
            None => lookup(params@, key@) is None,
        },
{
    let mut i: usize = 0;
    assert(params@.skip(0) =~= params@);
    while i < params.len()
        invariant
            i <= params@.len(),
            lookup(params@, key@) == lookup(params@.skip(i as int), key@),
        decreases params@.len() - i,
    {
        assert(params@.skip(i as int)[0] == params@[i as int]);
        if params[i].0.eq(key) {
            return Some(params[i].1.clone());
        }
        assert(params@.skip(i as int).drop_first() =~= params@.skip(i + 1));
        i = i + 1;
    }
    None
}

/// The text of one decimal digit.
fn digit_str(d: u32) -> (s: &'static str)
    requires
        d < 10,
    ensures
        s@ == seq![digit_char(d as nat)],
{
    if d == 0 {
        proof {
            reveal_strlit("0");
        }
        "0"
    } else if d == 1 {
        proof {
            reveal_strlit("1");
        }
        "1"
    } else if d == 2 {
        proof {
            reveal_strlit("2");
        }
        "2"
    } else if d == 3 {
        proof {
            reveal_strlit("3");
        }
        "3"
    } else if d == 4 {
        proof {
            reveal_strlit("4");
        }
        "4"
    } else if d == 5 {
        proof {
            reveal_strlit("5");
        }
        "5"
    } else if d == 6 {
        proof {
            reveal_strlit("6");
        }
        "6"
    } else if d == 7 {
        proof {
            reveal_strlit("7");
        }
        "7"
    } else if d == 8 {
        proof {
            reveal_strlit("8");
        }
        "8"
    } else {
        proof {
            reveal_strlit("9");
        }
        "9"
    }
}

/// Appends the decimal numeral of `n` to `out`.
pub fn push_decimal(out: &mut String, n: u32)
    ensures
        final(out)@ == old(out)@ + decimal(n as nat),
    decreases n,
{
    if n >= 10 {
        push_decimal(out, n / 10);
    }
    out.append(digit_str(n % 10));
    assert(decimal(n as nat) == (if n < 10 {
        seq![digit_char(n as nat)]
    } else {
        decimal((n / 10) as nat).push(digit_char((n % 10) as nat))
    }));
}

} // verus!
