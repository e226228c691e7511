use vstd::prelude::*;

verus! {

/// `pat` stands in `s` starting at index `i`.
pub open spec fn occurs_at(s: Seq<char>, pat: Seq<char>, i: int) -> bool {
    0 <= i && i + pat.len() <= s.len() && s.subrange(i, i + pat.len()) == pat
}

/// The first index at or after `i` where `pat` stands in `s`.
pub open spec fn first_from(s: Seq<char>, pat: Seq<char>, i: int) -> Option<int>
    decreases s.len() + 1 - i,
{
    if i < 0 || i + pat.len() > s.len() {
        None
    } else if occurs_at(s, pat, i) {
        Some(i)
    } else {
        first_from(s, pat, i + 1)
    }
}

/// The first index where `pat` stands in `s`, if it does anywhere.
pub open spec fn first_occurrence(s: Seq<char>, pat: Seq<char>) -> Option<int> {
    first_from(s, pat, 0)
}

/// What `first_from` finds is an occurrence, at or after `i`, with none
/// between `i` and it.
pub proof fn lemma_first_from(s: Seq<char>, pat: Seq<char>, i: int)
    requires
        0 <= i,
    ensures
        match first_from(s, pat, i) {
            Some(k) => occurs_at(s, pat, k) && i <= k && forall|j: int|
                i <= j < k ==> !occurs_at(s, pat, j),
            None => forall|j: int| i <= j ==> !occurs_at(s, pat, j),
        },
    decreases s.len() + 1 - i,
{
    if i + pat.len() > s.len() {
    } else if occurs_at(s, pat, i) {
    } else {
        lemma_first_from(s, pat, i + 1);
    }
}

/// The characters of `s`, one by one.
pub fn chars_of(s: &str) -> (v: Vec<char>)
    ensures
        v@ == s@,
{
    let n = s.unicode_len();
    let mut v: Vec<char> = Vec::new();
    let mut i: usize = 0;
    while i < n
        invariant
            n == s@.len(),
            i <= n,
            v@ == s@.subrange(0, i as int),
        decreases n - i,
    {
        v.push(s.get_char(i));
        i = i + 1;
    }
    assert(v@ =~= s@);
    v
}

/// Whether `pat` stands in `s` at index `i`.
fn matches_at(s: &Vec<char>, pat: &Vec<char>, i: usize) -> (r: bool)
    requires
        i + pat@.len() <= s@.len(),
    ensures
        r == occurs_at(s@, pat@, i as int),
{
    let n = s.len();
    let mut j: usize = 0;
    while j < pat.len()
        invariant
            n == s@.len(),
            i + pat@.len() <= s@.len(),
            j <= pat@.len(),
            forall|k: int| 0 <= k < j ==> s@[i + k] == pat@[k],
        decreases pat@.len() - j,
    {
        if s[i + j] != pat[j] {
            assert(s@.subrange(i as int, i + pat@.len())[j as int] != pat@[j as int]);
            return false;
        }
        j = j + 1;
    }
    assert(s@.subrange(i as int, i + pat@.len()) =~= pat@);
    true
}

/// The first index where `pat` stands in `s`.
pub fn find_first(s: &Vec<char>, pat: &Vec<char>) -> (r: Option<usize>)
    ensures
        match r {
            Some(i) => first_occurrence(s@, pat@) == Some(i as int),
            None => first_occurrence(s@, pat@) is None,
        },
{
    if pat.len() > s.len() {
        return None;
    }
    let last = s.len() - pat.len();
    let mut i: usize = 0;
    loop
        invariant
            last == s@.len() - pat@.len(),
            i <= last,
            first_occurrence(s@, pat@) == first_from(s@, pat@, i as int),
        decreases last - i,
    {
        if matches_at(s, pat, i) {
            return Some(i);
        }
        if i == last {
            assert(first_from(s@, pat@, i + 1) is None);
            return None;
        }
        i = i + 1;
    }
}

/// The index just past the last character of `s` that `stop` holds; 0 where
/// there is none.
pub open spec fn start_after_last(s: Seq<char>, stop: Seq<char>) -> int
    decreases s.len(),
{
    if s.len() == 0 {
        0
    } else if stop.contains(s.last()) {
        s.len() as int
    } else {
        start_after_last(s.drop_last(), stop)
    }
}

/// The first index at or after `i` where `s` holds `c`; the length of `s`
/// where there is none.
pub open spec fn index_of_from(s: Seq<char>, c: char, i: int) -> int
    decreases s.len() - i,
{
    if i < 0 || i >= s.len() {
        s.len() as int
    } else if s[i] == c {
        i
    } else {
        index_of_from(s, c, i + 1)
    }
}

pub proof fn lemma_index_of_from_bound(s: Seq<char>, c: char, i: int)
    requires
        0 <= i <= s.len(),
    ensures
        i <= index_of_from(s, c, i) <= s.len(),
    decreases s.len() - i,
{
    if i < s.len() && s[i] != c {
        lemma_index_of_from_bound(s, c, i + 1);
    }
}

/// Whether `stop` holds `c`.
fn is_one_of(c: char, stop: &Vec<char>) -> (r: bool)
    ensures
        r == stop@.contains(c),
{
    let mut k: usize = 0;
    while k < stop.len()
        invariant
            k <= stop@.len(),
            forall|j: int| 0 <= j < k ==> stop@[j] != c,
        decreases stop@.len() - k,
    {
        if stop[k] == c {
            return true;
        }
        k = k + 1;
    }
    false
}

/// Where the part of `s` after its last character from `stop` begins.
pub fn find_start_after_last(s: &Vec<char>, stop: &Vec<char>) -> (r: usize)
    ensures
        r == start_after_last(s@, stop@),
        r <= s@.len(),
{
    let mut k: usize = s.len();
    assert(s@.subrange(0, k as int) =~= s@);
    while k > 0
        invariant
            k <= s@.len(),
            start_after_last(s@, stop@) == start_after_last(s@.subrange(0, k as int), stop@),
        decreases k,
    {
        let ghost pre = s@.subrange(0, k as int);
        assert(pre.drop_last() =~= s@.subrange(0, k - 1));
        if is_one_of(s[k - 1], stop) {
            return k;
        }
        k = k - 1;
    }
    k
}

/// The first index at or after `i` where `s` holds `c`, or its length.
pub fn find_char_from(s: &Vec<char>, c: char, i: usize) -> (r: usize)
    requires
        i <= s@.len(),
    ensures
        r == index_of_from(s@, c, i as int),
{
    let mut k: usize = i;
    while k < s.len()
        invariant
            i <= k <= s@.len(),
            index_of_from(s@, c, i as int) == index_of_from(s@, c, k as int),
        decreases s@.len() - k,
    {
        if s[k] == c {
            return k;
        }
        k = k + 1;
    }
    k
}

} // verus!
