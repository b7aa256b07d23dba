//! Character-level helpers over strings: suffix handling, substring search
//! and decimal rendering, each stated over `Seq<char>`.
use vstd::prelude::*;
use vstd::std_specs::iter::IteratorSpec;
use vstd::string::StrSliceExecFns;
use vstd::string::StringExecFns;

verus! {

/// `s` ends with `suf`.
pub open spec fn ends_with(s: Seq<char>, suf: Seq<char>) -> bool {
    suf.len() <= s.len() && s.subrange(s.len() - suf.len(), s.len() as int) == suf
}

/// `s` with every trailing repetition of `suf` removed (nothing is removed
/// when `suf` is empty).
pub open spec fn trim_end_all(s: Seq<char>, suf: Seq<char>) -> Seq<char>
    decreases s.len(),
{
    if suf.len() > 0 && ends_with(s, suf) {
        trim_end_all(s.subrange(0, s.len() - suf.len()), suf)
    } else {
        s
    }
}

/// A name carrying the executable suffix exactly once at its end.
pub open spec fn with_exe_suffix(name: Seq<char>, suf: Seq<char>) -> Seq<char> {
    trim_end_all(name, suf) + suf
}

/// `t` occurs in `s` as a contiguous run of characters.
pub open spec fn contains(s: Seq<char>, t: Seq<char>) -> bool {
    exists|i: int| 0 <= i && i + t.len() <= s.len() && #[trigger] s.subrange(i, i + t.len()) == t
}

/// The character of a decimal digit.
pub open spec fn digit_char(d: nat) -> char {
    if d == 0 { '0' } else if d == 1 { '1' } else if d == 2 { '2' } else if d == 3 { '3' }
    else if d == 4 { '4' } else if d == 5 { '5' } else if d == 6 { '6' } else if d == 7 { '7' }
    else if d == 8 { '8' } else { '9' }
}

/// The decimal digits of `n`, without leading zeros.
pub open spec fn decimal(n: nat) -> Seq<char>
    decreases n,
{
    if n < 10 {
        seq![digit_char(n)]
    } else {
        decimal(n / 10).push(digit_char(n % 10))
    }
}

/// The decimal text of a signed integer, with a leading `-` when negative.
pub open spec fn signed_decimal(n: int) -> Seq<char> {
    if n < 0 {
        seq!['-'] + decimal((-n) as nat)
    } else {
        decimal(n as nat)
    }
}

/// Trimming again changes nothing.
pub proof fn lemma_trim_end_all_stable(s: Seq<char>, suf: Seq<char>)
    ensures
        !(suf.len() > 0 && ends_with(trim_end_all(s, suf), suf)),
    decreases s.len(),
{
    if suf.len() > 0 && ends_with(s, suf) {
        lemma_trim_end_all_stable(s.subrange(0, s.len() - suf.len()), suf);
    }
}

/// Normalising an already normalised name gives the same name.
pub proof fn lemma_with_exe_suffix_idempotent(name: Seq<char>, suf: Seq<char>)
    ensures
        with_exe_suffix(with_exe_suffix(name, suf), suf) == with_exe_suffix(name, suf),
{
    let t = trim_end_all(name, suf);
    let n = t + suf;
    lemma_trim_end_all_stable(name, suf);
    if suf.len() > 0 {
        assert(n.subrange(n.len() - suf.len(), n.len() as int) =~= suf);
        assert(n.subrange(0, n.len() - suf.len()) =~= t);
        assert(trim_end_all(n, suf) == trim_end_all(t, suf));
    }
    assert(trim_end_all(t, suf) == t);
}

/// The characters of `s`, in order.
pub fn chars_of(s: &str) -> (r: Vec<char>)
    ensures
        r@ == s@,
{
    let mut v: Vec<char> = Vec::new();
    for c in it: s.chars()
        invariant
            it.seq() == s@,
            v@ == s@.take(it.index()),
    {
        v.push(c);
    }
    v
}

/// `a` followed by `b`.
pub fn concat(a: &str, b: &str) -> (r: String)
    ensures
        r@ == a@ + b@,
{
    let mut s = a.to_owned();
    s.append(b);
    s
}

/// Whether `t` occurs in `s`.
pub fn str_contains(s: &str, t: &str) -> (r: bool)
    ensures
        r == contains(s@, t@),
{
    let sv = chars_of(s);
    let tv = chars_of(t);
    let n = sv.len();
    let m = tv.len();
    if m > n {
        return false;
    }
    let mut i: usize = 0;
    while i <= n - m
        invariant
            sv@ == s@,
            tv@ == t@,
            n == sv.len(),
            m == tv.len(),
            m <= n,
            i <= n - m + 1,
            forall|k: int| 0 <= k < i ==> #[trigger] s@.subrange(k, k + m) != t@,
        decreases n - m + 1 - i,
    {
        let mut j: usize = 0;
        let mut same = true;
        while j < m
            invariant
                sv@ == s@,
                tv@ == t@,
                n == sv.len(),
                m == tv.len(),
                i + m <= n,
                j <= m,
                same <==> forall|l: int| 0 <= l < j ==> sv@[i + l] == tv@[l],
            decreases m - j,
        {
            if sv[i + j] != tv[j] {
                same = false;
            }
            j = j + 1;
        }
        if same {
            assert(s@.subrange(i as int, i + m) =~= t@);
            return true;
        }
        assert(sv@[i + (j - 1)] != tv@[j - 1] || exists|l: int| 0 <= l < m && sv@[i + l] != tv@[l]);
        let ghost w = choose|l: int| 0 <= l < m && sv@[i + l] != tv@[l];
        assert(s@.subrange(i as int, i + m)[w] != t@[w]);
        i = i + 1;
    }
    assert forall|k: int| 0 <= k && k + t@.len() <= s@.len() implies
        #[trigger] s@.subrange(k, k + t@.len()) != t@ by {
        assert(k < i);
    }
    false
}

/// `name` with trailing copies of `suf` removed and `suf` put back once.
pub fn normalize_exe_name(name: &str, suf: &str) -> (r: String)
    ensures
        r@ == with_exe_suffix(name@, suf@),
{
    let nv = chars_of(name);
    let sv = chars_of(suf);
    let m = sv.len();
    let mut k: usize = nv.len();
    assert(name@.subrange(0, k as int) =~= name@);
    if m > 0 {
        loop
            invariant
                nv@ == name@,
                sv@ == suf@,
                m == sv.len(),
                m > 0,
                k <= nv.len(),
                trim_end_all(name@, suf@) == trim_end_all(name@.subrange(0, k as int), suf@),
            ensures
                k <= nv.len(),
                trim_end_all(name@, suf@) == name@.subrange(0, k as int),
            decreases k,
        {
            if k < m {
                assert(!ends_with(name@.subrange(0, k as int), suf@));
                break;
            }
            let mut j: usize = 0;
            let mut same = true;
            while j < m
                invariant
                    nv@ == name@,
                    sv@ == suf@,
                    m == sv.len(),
                    m <= k <= nv.len(),
                    j <= m,
                    same <==> forall|l: int| 0 <= l < j ==> nv@[k - m + l] == sv@[l],
                decreases m - j,
            {
                if nv[k - m + j] != sv[j] {
                    same = false;
                }
                j = j + 1;
            }
            let ghost pre = name@.subrange(0, k as int);
            if !same {
                let ghost w = choose|l: int| 0 <= l < m && nv@[k - m + l] != sv@[l];
                assert(pre.subrange(pre.len() - m, pre.len() as int)[w] != suf@[w]);
                assert(!ends_with(pre, suf@));
                break;
            }
            assert(pre.subrange(pre.len() - m, pre.len() as int) =~= suf@);
            assert(pre.subrange(0, pre.len() - m) =~= name@.subrange(0, k - m));
            k = k - m;
        }
    }
    let kept = name.substring_char(0, k);
    concat(kept, suf)
}

fn digit_text(d: u64) -> (r: &'static str)
    requires
        d < 10,
    ensures
        r@ == seq![digit_char(d as nat)],
{
    proof {
        reveal_strlit("0");
        reveal_strlit("1");
        reveal_strlit("2");
        reveal_strlit("3");
        reveal_strlit("4");
        reveal_strlit("5");
        reveal_strlit("6");
        reveal_strlit("7");
        reveal_strlit("8");
        reveal_strlit("9");
    }
    if d == 0 { "0" } else if d == 1 { "1" } else if d == 2 { "2" } else if d == 3 { "3" }
    else if d == 4 { "4" } else if d == 5 { "5" } else if d == 6 { "6" } else if d == 7 { "7" }
    else if d == 8 { "8" } else { "9" }
}

fn push_decimal(out: &mut String, n: u64)
    ensures
        final(out)@ == old(out)@ + decimal(n as nat),
    decreases n,
{
    if n >= 10 {
        push_decimal(out, n / 10);
    }
    out.append(digit_text(n % 10));
    assert(decimal(n as nat) =~= if n < 10 { seq![digit_char(n as nat)] } else {
        decimal((n / 10) as nat).push(digit_char((n % 10) as nat))
    });
}

/// The decimal text of `n`.
pub fn i64_to_text(n: i64) -> (r: String)
    ensures
        r@ == signed_decimal(n as int),
{
    let mut out = String::new();
    if n < 0 {
        proof { reveal_strlit("-"); }
        out.append("-");
        let mag: u64 = (0i128 - n as i128) as u64;
        push_decimal(&mut out, mag);
    } else {
        push_decimal(&mut out, n as u64);
    }
    out
}

} // verus!
