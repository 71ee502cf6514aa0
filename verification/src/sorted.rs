//! Sets of numbers as strictly increasing lists.

use vstd::prelude::*;

verus! {

/// Every number is greater than those before it.
pub open spec fn increasing(values: Seq<u128>) -> bool {
    forall|i: int, j: int| 0 <= i < j < values.len() ==> values[i] < values[j]
}

/// Puts a number in its place, unless it is there; tells whether it was new.
pub fn insert_distinct(values: &mut Vec<u128>, value: u128) -> (new: bool)
    requires
        increasing(old(values)@),
    ensures
        increasing(final(values)@),
        new == !old(values)@.contains(value),
        final(values)@.len() == old(values)@.len() + if new {
            1int
        } else {
            0
        },
        forall|other: u128| #[trigger]
            final(values)@.contains(other) <==> old(values)@.contains(other) || other == value,
{
    let ghost before = values@;
    let mut index: usize = 0;
    while index < values.len() && values[index] < value
        invariant
            values@ == before,
            increasing(before),
            index <= values.len(),
            forall|i: int| 0 <= i < index ==> before[i] < value,
        decreases values.len() - index,
    {
        index = index + 1;
    }
    if index < values.len() && values[index] == value {
        assert(before[index as int] == value);
        return false;
    }
    assert(forall|i: int| index <= i < before.len() ==> before[i] > value) by {
        assert forall|i: int| index <= i < before.len() implies before[i] > value by {
            if index < i {
                assert(before[index as int] < before[i]);
            }
        }
    }
    values.insert(index, value);
    proof {
        let after = values@;
        assert(after == before.insert(index as int, value));
        assert forall|i: int, j: int| 0 <= i < j < after.len() implies after[i] < after[j] by {
            let a = if i < index {
                i
            } else {
                i - 1
            };
            let b = if j < index {
                j
            } else {
                j - 1
            };
            if i != index && j != index {
                assert(before[a] < before[b]);
            }
        }
        assert forall|other: u128| #[trigger] after.contains(other) <==> before.contains(other)
            || other == value by {
            if after.contains(other) {
                let i = choose|i: int| 0 <= i < after.len() && after[i] == other;
                if i < index {
                    assert(before[i] == other);
                } else if i > index {
                    assert(before[i - 1] == other);
                }
            }
            if before.contains(other) {
                let i = choose|i: int| 0 <= i < before.len() && before[i] == other;
                if i < index {
                    assert(after[i] == other);
                } else {
                    assert(after[i + 1] == other);
                }
            }
            if other == value {
                assert(after[index as int] == other);
            }
        }
    }
    true
}

/// Whether the numbers are all different.
pub open spec fn distinct(values: Seq<u128>) -> bool {
    forall|i: int, j: int| 0 <= i < j < values.len() ==> values[i] != values[j]
}

/// The numbers in increasing order; nothing where two of them are the same.
pub fn sorted_distinct(values: &Vec<u128>) -> (sorted: Option<Vec<u128>>)
    ensures
        match sorted {
            Some(sorted) => {
                &&& distinct(values@)
                &&& increasing(sorted@)
                &&& sorted.len() == values.len()
                &&& forall|other: u128| #[trigger]
                    sorted@.contains(other) <==> values@.contains(other)
            },
            None => !distinct(values@),
        },
{
    let mut sorted: Vec<u128> = Vec::new();
    let mut index: usize = 0;
    while index < values.len()
        invariant
            index <= values.len(),
            increasing(sorted@),
            sorted.len() == index,
            distinct(values@.take(index as int)),
            forall|other: u128| #[trigger]
                sorted@.contains(other) <==> values@.take(index as int).contains(other),
        decreases values.len() - index,
    {
        let ghost head = values@.take(index as int);
        let value: u128 = values[index];
        let new: bool = insert_distinct(&mut sorted, value);
        if !new {
            proof {
                assert(head.contains(value));
                let i = choose|i: int| 0 <= i < head.len() && head[i] == value;
                assert(values@[i] == values@[index as int]);
            }
            return None;
        }
        proof {
            let next = values@.take(index + 1);
            assert(next =~= head.push(value));
            assert forall|i: int, j: int| 0 <= i < j < next.len() implies next[i] != next[j] by {
                if j == index {
                    assert(next[i] == head[i]);
                    assert(head.contains(head[i]));
                } else {
                    assert(next[i] == head[i] && next[j] == head[j]);
                }
            }
            assert forall|other: u128| #[trigger] sorted@.contains(other) <==> next.contains(
                other,
            ) by {
                if next.contains(other) {
                    let i = choose|i: int| 0 <= i < next.len() && next[i] == other;
                    if i < index {
                        assert(head[i] == other);
                        assert(head.contains(other));
                    }
                }
                if head.contains(other) {
                    let i = choose|i: int| 0 <= i < head.len() && head[i] == other;
                    assert(next[i] == other);
                }
                assert(next[index as int] == value);
            }
        }
        index = index + 1;
    }
    assert(values@.take(index as int) =~= values@);
    Some(sorted)
}

proof fn lemma_increasing_grows(values: Seq<u128>, i: int, j: int)
    requires
        increasing(values),
        0 <= i <= j < values.len(),
    ensures
        values[j] >= values[i] + (j - i),
    decreases j - i,
{
    if i < j {
        lemma_increasing_grows(values, i, j - 1);
        assert(values[j - 1] < values[j]);
    }
}

/// Whether the numbers are exactly those from one to `last`.
pub open spec fn is_prefix(values: Seq<u128>, last: u64) -> bool {
    forall|n: u128| #[trigger] values.contains(n) <==> 1 <= n <= last
}

/// Whether increasing numbers are exactly those from one to `last`, told by their count and
/// their ends.
pub fn covers_prefix(values: &Vec<u128>, last: u64) -> (result: bool)
    requires
        increasing(values@),
        last >= 1,
    ensures
        result == is_prefix(values@, last),
{
    let count: usize = values.len();
    if count == 0 {
        assert(!values@.contains(1u128));
        return false;
    }
    let matching: bool = count as u64 == last && values[0] == 1 && values[count - 1]
        == last as u128;
    proof {
        let s = values@;
        if matching {
            assert forall|n: u128| #[trigger] s.contains(n) <==> 1 <= n <= last by {
                if s.contains(n) {
                    let i = choose|i: int| 0 <= i < s.len() && s[i] == n;
                    lemma_increasing_grows(s, 0, i);
                    lemma_increasing_grows(s, i, s.len() - 1);
                }
                if 1 <= n <= last {
                    let i = n - 1;
                    lemma_increasing_grows(s, 0, i);
                    lemma_increasing_grows(s, i, s.len() - 1);
                    assert(s[i] == n);
                }
            }
        } else if is_prefix(s, last) {
            assert(s.contains(1u128));
            let first = choose|i: int| 0 <= i < s.len() && s[i] == 1;
            lemma_increasing_grows(s, 0, first);
            assert(s.contains(s[0]));
            assert(s.contains(s[s.len() - 1]));
            assert(s.contains(last as u128));
            let end = choose|i: int| 0 <= i < s.len() && s[i] == last as u128;
            lemma_increasing_grows(s, end, s.len() - 1);
            lemma_increasing_grows(s, 0, s.len() - 1);
            lemma_prefix_is_long(s, last, last as nat);
        }
    }
    matching
}

proof fn lemma_prefix_is_long(values: Seq<u128>, last: u64, n: nat)
    requires
        increasing(values),
        is_prefix(values, last),
        1 <= n <= last,
    ensures
        values.len() >= n,
        values[n - 1] == n,
    decreases n,
{
    assert(values.contains(n as u128));
    let at = choose|i: int| 0 <= i < values.len() && values[i] == n as u128;
    if n == 1 {
        lemma_increasing_grows(values, 0, at);
        assert(values.contains(values[0]));
    } else {
        lemma_prefix_is_long(values, last, (n - 1) as nat);
        if at < n - 1 {
            lemma_increasing_grows(values, at, n - 2);
        } else if at > n - 1 {
            assert(values.contains(values[n - 1]));
            assert(values[n - 2] < values[n - 1]);
            assert(values[n - 1] < values[at]);
        }
    }
}

} // verus!
