//! Small verified helpers on strings and lists of strings: trimming,
//! membership, and order-preserving removal of repeats.

use vstd::prelude::*;
use vstd::string::*;

verus! {

/// Whether `char::is_whitespace` holds of `c` (the Unicode `White_Space`
/// property).
pub uninterp spec fn is_whitespace_char(c: char) -> bool;

/// Asks `char::is_whitespace`. Trusted: the answer is the one the
/// uninterpreted `is_whitespace_char` stands for.
#[verifier::external_body]
pub(crate) fn is_whitespace(c: char) -> (res: bool)
    ensures
        res == is_whitespace_char(c),
{
    c.is_whitespace()
}

/// `s` without its leading whitespace.
pub open spec fn trim_start(s: Seq<char>) -> Seq<char>
    decreases s.len(),
{
    if s.len() > 0 && is_whitespace_char(s.first()) {
        trim_start(s.drop_first())
    } else {
        s
    }
}

/// `s` without its trailing whitespace.
pub open spec fn trim_end(s: Seq<char>) -> Seq<char>
    decreases s.len(),
{
    if s.len() > 0 && is_whitespace_char(s.last()) {
        trim_end(s.drop_last())
    } else {
        s
    }
}

/// `s` without leading and trailing whitespace.
pub open spec fn trimmed(s: Seq<char>) -> Seq<char> {
    trim_end(trim_start(s))
}

/// Skipping `i` leading whitespace characters does not change what
/// `trim_start` leaves.
proof fn lemma_trim_start_skip(s: Seq<char>, i: int)
    requires
        0 <= i <= s.len(),
        forall|k: int| 0 <= k < i ==> is_whitespace_char(#[trigger] s[k]),
    ensures
        trim_start(s) == trim_start(s.subrange(i, s.len() as int)),
    decreases i,
{
    if i == 0 {
        assert(s.subrange(0, s.len() as int) =~= s);
    } else {
        let rest = s.drop_first();
        assert forall|k: int| 0 <= k < i - 1 implies is_whitespace_char(#[trigger] rest[k]) by {
            assert(rest[k] == s[k + 1]);
        }
        lemma_trim_start_skip(rest, i - 1);
        assert(rest.subrange(i - 1, rest.len() as int) =~= s.subrange(i, s.len() as int));
    }
}

/// Dropping trailing whitespace characters down to length `j` does not
/// change what `trim_end` leaves.
proof fn lemma_trim_end_take(s: Seq<char>, j: int)
    requires
        0 <= j <= s.len(),
        forall|k: int| j <= k < s.len() ==> is_whitespace_char(#[trigger] s[k]),
    ensures
        trim_end(s) == trim_end(s.subrange(0, j)),
    decreases s.len() - j,
{
    if j == s.len() {
        assert(s.subrange(0, j) =~= s);
    } else {
        let rest = s.drop_last();
        assert(is_whitespace_char(s[s.len() - 1]));
        assert forall|k: int| j <= k < rest.len() implies is_whitespace_char(#[trigger] rest[k]) by {
            assert(rest[k] == s[k]);
        }
        lemma_trim_end_take(rest, j);
        assert(rest.subrange(0, j) =~= s.subrange(0, j));
    }
}

/// Removes leading and trailing whitespace.
pub fn trim(s: &str) -> (res: String)
    ensures
        res@ == trimmed(s@),
{
    let n = s.unicode_len();
    let mut start: usize = 0;
    while start < n && is_whitespace(s.get_char(start))
        invariant
            start <= n,
            n == s@.len(),
            forall|k: int| 0 <= k < start ==> is_whitespace_char(#[trigger] s@[k]),
        decreases n - start,
    {
        start += 1;
    }
    let mut end: usize = n;
    while end > start && is_whitespace(s.get_char(end - 1))
        invariant
            start <= end <= n,
            n == s@.len(),
            forall|k: int| end <= k < n ==> is_whitespace_char(#[trigger] s@[k]),
        decreases end,
    {
        end -= 1;
    }
    let kept = s.substring_char(start, end);
    proof {
        let tail = s@.subrange(start as int, n as int);
        lemma_trim_start_skip(s@, start as int);
        assert(trim_start(tail) == tail) by {
            if tail.len() > 0 {
                assert(tail.first() == s@[start as int]);
            }
        }
        assert forall|k: int| end - start <= k < tail.len() implies is_whitespace_char(
            #[trigger] tail[k],
        ) by {
            assert(tail[k] == s@[k + start]);
        }
        lemma_trim_end_take(tail, end - start);
        assert(tail.subrange(0, end - start) =~= kept@);
        assert(trim_end(kept@) == kept@) by {
            if kept@.len() > 0 {
                assert(kept@.last() == s@[end - 1]);
            }
        }
    }
    String::from_str(kept)
}

/// The first occurrences of the items of `items`, in their order.
pub open spec fn distinct(items: Seq<Seq<char>>) -> Seq<Seq<char>>
    decreases items.len(),
{
    if items.len() == 0 {
        Seq::empty()
    } else {
        let earlier = distinct(items.drop_last());
        if earlier.contains(items.last()) {
            earlier
        } else {
            earlier.push(items.last())
        }
    }
}

/// `distinct` keeps every item and repeats none.
pub proof fn lemma_distinct(items: Seq<Seq<char>>)
    ensures
        distinct(items).no_duplicates(),
        distinct(items).to_set() == items.to_set(),
        distinct(items).len() <= items.len(),
    decreases items.len(),
{
    if items.len() == 0 {
        assert(distinct(items).to_set() =~= items.to_set());
    } else {
        let front = items.drop_last();
        let earlier = distinct(front);
        lemma_distinct(front);
        assert forall|x: Seq<char>| items.contains(x) <==> (front.contains(x) || x
            == items.last()) by {
            if items.contains(x) {
                let i = choose|i: int| 0 <= i < items.len() && items[i] == x;
                if i < items.len() - 1 {
                    assert(front[i] == x);
                }
            }
            if front.contains(x) {
                let i = choose|i: int| 0 <= i < front.len() && front[i] == x;
                assert(items[i] == x);
            }
            if x == items.last() {
                assert(items[items.len() - 1] == x);
            }
        }
        assert forall|x: Seq<char>| front.contains(x) <==> earlier.contains(x) by {
            assert(front.to_set().contains(x) <==> earlier.to_set().contains(x));
        }
        if earlier.contains(items.last()) {
            assert(distinct(items).to_set() =~= items.to_set());
        } else {
            let all = earlier.push(items.last());
            assert forall|x: Seq<char>| all.contains(x) <==> (earlier.contains(x) || x
                == items.last()) by {
                if all.contains(x) {
                    let i = choose|i: int| 0 <= i < all.len() && all[i] == x;
                    if i < earlier.len() {
                        assert(earlier[i] == x);
                    }
                }
                if earlier.contains(x) {
                    let i = choose|i: int| 0 <= i < earlier.len() && earlier[i] == x;
                    assert(all[i] == x);
                }
                if x == items.last() {
                    assert(all[earlier.len() as int] == x);
                }
            }
            assert(distinct(items).to_set() =~= items.to_set());
        }
    }
}

/// Whether `needle` occurs in `items`.
pub fn contains_string(items: &Vec<String>, needle: &String) -> (res: bool)
    ensures
        res == items.deep_view().contains(needle@),
{
    let mut i: usize = 0;
    while i < items.len()
        invariant
            i <= items.len(),
            forall|k: int| 0 <= k < i ==> items.deep_view()[k] != needle@,
        decreases items.len() - i,
    {
        if items[i] == *needle {
            assert(items.deep_view()[i as int] == needle@);
            return true;
        }
        i += 1;
    }
    false
}

/// Removes repeats, keeping the first occurrence of each string in place.
pub fn distinct_strings(items: &Vec<String>) -> (res: Vec<String>)
    ensures
        res.deep_view() == distinct(items.deep_view()),
{
    let mut kept: Vec<String> = Vec::new();
    let mut i: usize = 0;
    assert(items.deep_view().subrange(0, 0) =~= Seq::empty());
    while i < items.len()
        invariant
            i <= items.len(),
            kept.deep_view() == distinct(items.deep_view().subrange(0, i as int)),
        decreases items.len() - i,
    {
        let ghost before = kept.deep_view();
        let ghost prefix = items.deep_view().subrange(0, i as int + 1);
        assert(prefix.drop_last() =~= items.deep_view().subrange(0, i as int));
        assert(prefix.last() == items[i as int]@);
        if !contains_string(&kept, &items[i]) {
            kept.push(items[i].clone());
            assert(kept.deep_view() =~= before.push(items[i as int]@));
        }
        i += 1;
    }
    assert(items.deep_view().subrange(0, i as int) =~= items.deep_view());
    kept
}

/// The values that are present in `items`, in their order.
pub open spec fn present(items: Seq<Option<Seq<char>>>) -> Seq<Seq<char>>
    decreases items.len(),
{
    if items.len() == 0 {
        Seq::empty()
    } else {
        match items.last() {
            Some(s) => present(items.drop_last()).push(s),
            None => present(items.drop_last()),
        }
    }
}

/// Drops the absent values, keeping the present ones in their order.
pub fn present_strings(items: Vec<Option<String>>) -> (res: Vec<String>)
    ensures
        res.deep_view() == present(items.deep_view()),
{
    let mut kept: Vec<String> = Vec::new();
    let mut i: usize = 0;
    assert(items.deep_view().subrange(0, 0) =~= Seq::empty());
    while i < items.len()
        invariant
            i <= items.len(),
            kept.deep_view() == present(items.deep_view().subrange(0, i as int)),
        decreases items.len() - i,
    {
        let ghost before = kept.deep_view();
        let ghost prefix = items.deep_view().subrange(0, i as int + 1);
        assert(prefix.drop_last() =~= items.deep_view().subrange(0, i as int));
        assert(prefix.last() == items[i as int].deep_view());
        match &items[i] {
            Some(s) => {
                kept.push(s.clone());
                assert(kept.deep_view() =~= before.push(s@));
            },
            None => {},
        }
        i += 1;
    }
    assert(items.deep_view().subrange(0, i as int) =~= items.deep_view());
    kept
}

/// Whether two strings hold the same characters.
pub fn same_text(a: &str, b: &str) -> (res: bool)
    ensures
        res == (a@ == b@),
{
    String::from_str(a) == String::from_str(b)
}

} // verus!
