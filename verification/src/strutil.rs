//! Verified helpers on strings: character-wise equality, splitting a path
//! into its `/`-separated segments, and decimal rendering of integers.

use vstd::prelude::*;
use vstd::string::StrSliceExecFns;
use vstd::string::StringExecFns;

verus! {

/// Character-for-character equality of two string slices.
pub fn str_eq(a: &str, b: &str) -> (r: bool)
    ensures
        r == (a@ == b@),
{
    let alen = a.unicode_len();
    let blen = b.unicode_len();
    if alen != blen {
        return false;
    }
    let mut i: usize = 0;
    while i < alen
        invariant
            i <= alen,
            alen == a@.len(),
            alen == b@.len(),
            forall|j: int| 0 <= j < i ==> a@[j] == b@[j],
        decreases alen - i,
    {
        if a.get_char(i) != b.get_char(i) {
            return false;
        }
        i += 1;
    }
    proof {
        assert(a@ =~= b@);
    }
    true
}

/// The `/`-separated segments of a path, in order. Mirrors splitting on a
/// single separator character: an empty path has one empty segment, and
/// every separator opens a new segment.
pub open spec fn split_path(s: Seq<char>) -> Seq<Seq<char>>
    decreases s.len(),
{
    if s.len() == 0 {
        seq![Seq::<char>::empty()]
    } else if s[0] == '/' {
        seq![Seq::<char>::empty()] + split_path(s.drop_first())
    } else {
        let rest = split_path(s.drop_first());
        seq![seq![s[0]] + rest[0]] + rest.drop_first()
    }
}

pub proof fn lemma_split_path_len(s: Seq<char>)
    ensures
        split_path(s).len() >= 1,
    decreases s.len(),
{
    if s.len() == 0 {
    } else {
        lemma_split_path_len(s.drop_first());
    }
}

pub proof fn lemma_split_path_no_slash(s: Seq<char>)
    requires
        forall|j: int| 0 <= j < s.len() ==> s[j] != '/',
    ensures
        split_path(s) =~~= seq![s],
    decreases s.len(),
{
    if s.len() == 0 {
        assert(split_path(s) =~~= seq![s]);
    } else {
        lemma_split_path_no_slash(s.drop_first());
        lemma_split_path_len(s.drop_first());
        assert(seq![s[0]] + split_path(s.drop_first())[0] =~= s);
        assert(split_path(s) =~~= seq![s]);
    }
}

pub proof fn lemma_split_path_slash(s: Seq<char>, k: int)
    requires
        0 <= k < s.len(),
        s[k] == '/',
        forall|j: int| 0 <= j < k ==> s[j] != '/',
    ensures
        split_path(s) =~~= seq![s.subrange(0, k)] + split_path(s.subrange(k + 1, s.len() as int)),
    decreases k,
{
    if k == 0 {
        assert(s.subrange(0, 0) =~= Seq::<char>::empty());
        assert(s.drop_first() =~= s.subrange(1, s.len() as int));
        assert(split_path(s) =~~= seq![s.subrange(0, 0)] + split_path(
            s.subrange(1, s.len() as int),
        ));
    } else {
        let t = s.drop_first();
        lemma_split_path_slash(t, k - 1);
        assert(t.subrange(0, k - 1) =~= s.subrange(1, k));
        assert(t.subrange(k, t.len() as int) =~= s.subrange(k + 1, s.len() as int));
        assert(split_path(t)[0] == s.subrange(1, k));
        assert(split_path(t).drop_first() =~= split_path(s.subrange(k + 1, s.len() as int)));
        assert(seq![s[0]] + s.subrange(1, k) =~= s.subrange(0, k));
        assert(split_path(s) =~~= seq![s.subrange(0, k)] + split_path(
            s.subrange(k + 1, s.len() as int),
        ));
    }
}

/// Index of the first `/` in `s`, if any.
fn find_slash(s: &str) -> (r: Option<usize>)
    ensures
        match r {
            Some(k) => k < s@.len() && s@[k as int] == '/' && (forall|j: int|
                0 <= j < k ==> s@[j] != '/'),
            None => forall|j: int| 0 <= j < s@.len() ==> s@[j] != '/',
        },
{
    let n = s.unicode_len();
    let mut i: usize = 0;
    while i < n
        invariant
            i <= n,
            n == s@.len(),
            forall|j: int| 0 <= j < i ==> s@[j] != '/',
        decreases n - i,
    {
        if s.get_char(i) == '/' {
            return Some(i);
        }
        i += 1;
    }
    None
}

/// Splits a path into its `/`-separated segments.
pub fn split_slash(s: &str) -> (r: Vec<String>)
    ensures
        r.deep_view() == split_path(s@),
    decreases s@.len(),
{
    let n = s.unicode_len();
    match find_slash(s) {
        None => {
            let mut v: Vec<String> = Vec::new();
            v.push(s.to_owned());
            proof {
                lemma_split_path_no_slash(s@);
                assert(v.deep_view() =~~= split_path(s@));
            }
            v
        },
        Some(k) => {
            let head = s.substring_char(0, k);
            let tail = s.substring_char(k + 1, n);
            let mut v = split_slash(tail);
            v.insert(0, head.to_owned());
            proof {
                lemma_split_path_slash(s@, k as int);
                assert(v.deep_view() =~~= split_path(s@));
            }
            v
        },
    }
}

/// The character standing for one decimal digit.
pub open spec fn digit_char(d: int) -> char {
    if d == 0 {
        '0'
    } else if d == 1 {
        '1'
    } else if d == 2 {
        '2'
    } else if d == 3 {
        '3'
    } else if d == 4 {
        '4'
    } else if d == 5 {
        '5'
    } else if d == 6 {
        '6'
    } else if d == 7 {
        '7'
    } else if d == 8 {
        '8'
    } else {
        '9'
    }
}

/// The decimal digit characters of `n`, most significant first.
pub open spec fn dec_digits(n: nat) -> Seq<char>
    decreases n,
{
    if n < 10 {
        seq![digit_char(n as int)]
    } else {
        dec_digits(n / 10).push(digit_char((n % 10) as int))
    }
}

/// The decimal rendering of `n`, with a leading minus sign when negative.
pub open spec fn dec_string(n: int) -> Seq<char> {
    if n < 0 {
        seq!['-'] + dec_digits((-n) as nat)
    } else {
        dec_digits(n as nat)
    }
}

/// The digit characters of `ds` read back to front.
spec fn rev_digit_chars(ds: Seq<u64>) -> Seq<char> {
    Seq::new(ds.len(), |i: int| digit_char(ds[ds.len() - 1 - i] as int))
}

proof fn lemma_rev_push(ds: Seq<u64>, d: u64)
    ensures
        rev_digit_chars(ds.push(d)) =~= seq![digit_char(d as int)] + rev_digit_chars(ds),
{
}

/// One decimal digit as a string slice.
fn digit_str(d: u64) -> (r: &'static str)
    requires
        d < 10,
    ensures
        r@ =~= seq![digit_char(d as int)],
{
    let r: &'static str = match d {
        0 => "0",
        1 => "1",
        2 => "2",
        3 => "3",
        4 => "4",
        5 => "5",
        6 => "6",
        7 => "7",
        8 => "8",
        _ => "9",
    };
    proof {
        reveal_strlit("0");
        reveal_strlit("1");
        reveal_strlit("2");
        reveal_strlit("3");
        reveal_strlit("4");
        reveal_strlit("5");
        reveal_strlit("6");
        reveal_strlit("7");
        reveal_strlit("8");
        reveal_strlit("9");
    }
    r
}

/// Renders an unsigned number in decimal.
pub fn u64_to_string(n: u64) -> (r: String)
    ensures
        r@ == dec_digits(n as nat),
{
    let mut digits: Vec<u64> = Vec::new();
    let mut m = n;
    loop
        invariant_except_break
            if digits@.len() == 0 {
                m == n
            } else {
                m > 0 && dec_digits(n as nat) =~= dec_digits(m as nat) + rev_digit_chars(digits@)
            },
        invariant
            forall|j: int| 0 <= j < digits@.len() ==> digits@[j] < 10,
        ensures
            dec_digits(n as nat) =~= rev_digit_chars(digits@),
        decreases m,
    {
        let ghost m0 = m;
        let ghost ds0 = digits@;
        let d = m % 10;
        digits.push(d);
        m = m / 10;
        proof {
            lemma_rev_push(ds0, d);
            if m == 0 {
                assert(dec_digits(m0 as nat) =~= seq![digit_char(d as int)]);
                assert(dec_digits(n as nat) =~= rev_digit_chars(digits@));
            } else {
                assert(dec_digits(m0 as nat) == dec_digits((m0 as nat) / 10).push(
                    digit_char(((m0 as nat) % 10) as int),
                ));
                assert(dec_digits(n as nat) =~= dec_digits(m as nat) + rev_digit_chars(digits@));
            }
        }
        if m == 0 {
            break;
        }
    }
    let mut r = String::new();
    let mut i = digits.len();
    while i > 0
        invariant
            i <= digits@.len(),
            forall|j: int| 0 <= j < digits@.len() ==> digits@[j] < 10,
            dec_digits(n as nat) =~= rev_digit_chars(digits@),
            r@ =~= rev_digit_chars(digits@).take(digits@.len() - i),
        decreases i,
    {
        i -= 1;
        let d = digits[i];
        r.append(digit_str(d));
    }
    proof {
        assert(rev_digit_chars(digits@).take(digits@.len() - 0) =~= rev_digit_chars(digits@));
    }
    r
}

/// Renders a signed number in decimal.
pub fn i64_to_string(n: i64) -> (r: String)
    ensures
        r@ == dec_string(n as int),
{
    if n >= 0 {
        u64_to_string(n as u64)
    } else {
        let mag: u64 = ((-(n + 1)) as u64) + 1;
        proof {
            assert(mag == -(n as int));
        }
        let mut r = String::from_str("-");
        proof {
            reveal_strlit("-");
        }
        r.append(u64_to_string(mag).as_str());
        r
    }
}

} // verus!
