//! Character-level helpers shared by the parsers of this crate.
use vstd::prelude::*;
use vstd::string::*;

verus! {

/// The characters of `s`, in order.
pub fn chars_of(s: &str) -> (v: Vec<char>)
    ensures
        v@ == s@,
{
    let mut v: Vec<char> = Vec::new();
    for c in it: s.chars()
        invariant
            v@ == it.history(),
    {
        v.push(c);
    }
    assert(v@ =~= s@);
    v
}

/// `n` stands in `h` at position `i`.
pub open spec fn occurs_at(h: Seq<char>, n: Seq<char>, i: int) -> bool {
    0 <= i && i + n.len() <= h.len() && h.subrange(i, i + n.len()) =~= n
}

/// The first position at or after `k` where `n` stands in `h`, or -1.
pub open spec fn find_from(h: Seq<char>, n: Seq<char>, k: int) -> int
    decreases h.len() - k,
{
    if k < 0 || k + n.len() > h.len() {
        -1
    } else if occurs_at(h, n, k) {
        k
    } else {
        find_from(h, n, k + 1)
    }
}

/// `n` stands somewhere in `h`.
pub open spec fn contains(h: Seq<char>, n: Seq<char>) -> bool {
    exists|i: int| occurs_at(h, n, i)
}

/// The search from `k` finds a position where `n` stands, or there is none
/// at or after `k`.
pub proof fn lemma_find_from(h: Seq<char>, n: Seq<char>, k: int)
    requires
        0 <= k,
    ensures
        find_from(h, n, k) >= 0 ==> k <= find_from(h, n, k) && occurs_at(h, n, find_from(h, n, k)),
        find_from(h, n, k) < 0 ==> forall|i: int| k <= i ==> !#[trigger] occurs_at(h, n, i),
    decreases h.len() - k,
{
    if k + n.len() <= h.len() && !occurs_at(h, n, k) {
        lemma_find_from(h, n, k + 1);
    }
}

/// Whether `n` stands in `h` at position `i`.
fn matches_at(h: &Vec<char>, n: &Vec<char>, i: usize) -> (r: bool)
    requires
        i + n.len() <= h.len(),
    ensures
        r == occurs_at(h@, n@, i as int),
{
    let mut j: usize = 0;
    while j < n.len()
        invariant
            j <= n.len(),
            i + n.len() <= h.len(),
            forall|m: int| 0 <= m < j ==> h@[i + m] == n@[m],
        decreases n.len() - j,
    {
        if h[i + j] != n[j] {
            assert(h@.subrange(i as int, i + n@.len())[j as int] != n@[j as int]);
            return false;
        }
        j = j + 1;
    }
    assert(h@.subrange(i as int, i + n@.len()) =~= n@);
    true
}

/// The first position at or after `start` where `n` stands in `h`.
pub fn find_in(h: &Vec<char>, n: &Vec<char>, start: usize) -> (r: Option<usize>)
    ensures
        match r {
            Some(p) => p as int == find_from(h@, n@, start as int) && p + n@.len() <= h@.len(),
            None => find_from(h@, n@, start as int) == -1,
        },
{
    if n.len() > h.len() {
        return None;
    }
    let last = h.len() - n.len();
    let mut i: usize = start;
    while i <= last
        invariant
            last + n.len() == h.len(),
            start <= i,
            find_from(h@, n@, start as int) == find_from(h@, n@, i as int),
        decreases last + 1 - i,
    {
        if matches_at(h, n, i) {
            return Some(i);
        }
        i = i + 1;
    }
    None
}

/// The decimal digits.
pub open spec fn digits() -> Seq<char> {
    "0123456789"@
}

/// The decimal notation of `n`, without leading zeros.
pub open spec fn decimal(n: nat) -> Seq<char>
    decreases n,
{
    if n < 10 {
        seq![digits()[n as int]]
    } else {
        decimal(n / 10) + seq![digits()[(n % 10) as int]]
    }
}

/// Appends the decimal notation of `n` to `out`.
pub fn push_decimal(out: &mut String, n: u64)
    ensures
        final(out)@ == old(out)@ + decimal(n as nat),
    decreases n,
{
    if n >= 10 {
        push_decimal(out, n / 10);
    }
    let d: usize = (n % 10) as usize;
    let all = "0123456789";
    proof {
        reveal_strlit("0123456789");
    }
    out.append(all.substring_char(d, d + 1));
    proof {
        assert(all@.subrange(d as int, d + 1) =~= seq![digits()[d as int]]);
    }
}

} // verus!
