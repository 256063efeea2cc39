//! An account book: a list of `(address, amount)` entries with unique
//! addresses, read and updated by address. It backs both the share account
//! book and the advisory allowance cache. Its abstract view is the function
//! [`amount_of`], which is zero for an address without an entry, together with
//! the running total [`sum_amounts`].

use vstd::prelude::*;

verus! {

/// One account's recorded amount.
pub struct Entry {
    pub addr: String,
    pub amount: u128,
}

/// The sum of all recorded amounts.
pub open spec fn sum_amounts(s: Seq<Entry>) -> int
    decreases s.len(),
{
    if s.len() == 0 {
        0
    } else {
        s[0].amount + sum_amounts(s.drop_first())
    }
}

/// The amount recorded for `key`: the amount of the first entry whose address
/// is `key`, and zero when there is none.
pub open spec fn amount_of(s: Seq<Entry>, key: Seq<char>) -> int
    decreases s.len(),
{
    if s.len() == 0 {
        0
    } else if s[0].addr@ == key {
        s[0].amount as int
    } else {
        amount_of(s.drop_first(), key)
    }
}

/// Whether the book has an entry for `key`.
pub open spec fn book_contains(s: Seq<Entry>, key: Seq<char>) -> bool {
    exists|j: int| 0 <= j < s.len() && s[j].addr@ == key
}

/// No two entries share an address.
pub open spec fn keys_unique(s: Seq<Entry>) -> bool {
    forall|i: int, j: int| 0 <= i < j < s.len() ==> s[i].addr@ != s[j].addr@
}

/// A sum of unsigned amounts is nonnegative.
pub proof fn lemma_sum_nonneg(s: Seq<Entry>)
    ensures
        sum_amounts(s) >= 0,
    decreases s.len(),
{
    if s.len() > 0 {
        lemma_sum_nonneg(s.drop_first());
    }
}

/// No single entry records more than the sum of all entries, so no recorded
/// amount exceeds the book's total.
pub proof fn lemma_amount_of_le_sum(s: Seq<Entry>, key: Seq<char>)
    ensures
        0 <= amount_of(s, key) <= sum_amounts(s),
    decreases s.len(),
{
    if s.len() > 0 {
        lemma_amount_of_le_sum(s.drop_first(), key);
        lemma_sum_nonneg(s.drop_first());
    }
}

/// Appending an entry grows the sum by its amount.
pub proof fn lemma_sum_push(s: Seq<Entry>, e: Entry)
    ensures
        sum_amounts(s.push(e)) == sum_amounts(s) + e.amount,
    decreases s.len(),
{
    if s.len() == 0 {
        assert(s.push(e).drop_first() =~= s);
    } else {
        assert(s.push(e).drop_first() =~= s.drop_first().push(e));
        lemma_sum_push(s.drop_first(), e);
    }
}

/// Replacing the entry at `i` changes the sum by the difference of the amounts.
pub proof fn lemma_sum_update(s: Seq<Entry>, i: int, e: Entry)
    requires
        0 <= i < s.len(),
    ensures
        sum_amounts(s.update(i, e)) == sum_amounts(s) - s[i].amount + e.amount,
    decreases s.len(),
{
    if i == 0 {
        assert(s.update(0, e).drop_first() =~= s.drop_first());
    } else {
        assert(s.update(i, e).drop_first() =~= s.drop_first().update(i - 1, e));
        lemma_sum_update(s.drop_first(), i - 1, e);
    }
}

/// If the first `i` entries do not match `key` and entry `i` does, the book
/// records entry `i`'s amount for `key`.
pub proof fn lemma_amount_of_first_match(s: Seq<Entry>, key: Seq<char>, i: int)
    requires
        0 <= i < s.len(),
        s[i].addr@ == key,
        forall|j: int| 0 <= j < i ==> s[j].addr@ != key,
    ensures
        amount_of(s, key) == s[i].amount,
    decreases i,
{
    if i > 0 {
        lemma_amount_of_first_match(s.drop_first(), key, i - 1);
    }
}

/// A key that matches no entry has amount zero.
pub proof fn lemma_amount_of_absent(s: Seq<Entry>, key: Seq<char>)
    requires
        forall|j: int| 0 <= j < s.len() ==> s[j].addr@ != key,
    ensures
        amount_of(s, key) == 0,
    decreases s.len(),
{
    if s.len() > 0 {
        lemma_amount_of_absent(s.drop_first(), key);
    }
}

/// Replacing the first entry matching `key` with another entry for the same
/// address rewrites `key`'s amount and leaves every other key's amount alone.
pub proof fn lemma_amount_of_update(s: Seq<Entry>, key: Seq<char>, i: int, e: Entry)
    requires
        0 <= i < s.len(),
        s[i].addr@ == key,
        forall|j: int| 0 <= j < i ==> s[j].addr@ != key,
        e.addr@ == key,
    ensures
        amount_of(s.update(i, e), key) == e.amount,
        forall|k: Seq<char>| k != key ==> amount_of(s.update(i, e), k) == amount_of(s, k),
    decreases i,
{
    if i == 0 {
        assert forall|k: Seq<char>| k != key implies amount_of(s.update(0, e), k) == amount_of(
            s,
            k,
        ) by {
            assert(s.update(0, e).drop_first() =~= s.drop_first());
        }
    } else {
        lemma_amount_of_update(s.drop_first(), key, i - 1, e);
        let t = s.update(i, e);
        assert(t.drop_first() =~= s.drop_first().update(i - 1, e));
        assert(t[0] == s[0]);
        assert(amount_of(t, key) == e.amount);
        assert forall|k: Seq<char>| k != key implies amount_of(t, k) == amount_of(s, k) by {
            assert(amount_of(t.drop_first(), k) == amount_of(s.drop_first(), k));
        }
    }
}

/// Appending an entry for an absent key records its amount for that key and
/// leaves every other key's amount alone.
pub proof fn lemma_amount_of_push(s: Seq<Entry>, e: Entry)
    requires
        forall|j: int| 0 <= j < s.len() ==> s[j].addr@ != e.addr@,
    ensures
        amount_of(s.push(e), e.addr@) == e.amount,
        forall|k: Seq<char>| k != e.addr@ ==> amount_of(s.push(e), k) == amount_of(s, k),
    decreases s.len(),
{
    if s.len() == 0 {
        assert(s.push(e)[0] == e);
        assert forall|k: Seq<char>| k != e.addr@ implies amount_of(s.push(e), k) == amount_of(
            s,
            k,
        ) by {
            assert(s.push(e).drop_first() =~= s);
        }
    } else {
        lemma_amount_of_push(s.drop_first(), e);
        let t = s.push(e);
        assert(t.drop_first() =~= s.drop_first().push(e));
        assert(t[0] == s[0]);
        assert(amount_of(t, e.addr@) == e.amount);
        assert forall|k: Seq<char>| k != e.addr@ implies amount_of(t, k) == amount_of(s, k) by {
            assert(amount_of(t.drop_first(), k) == amount_of(s.drop_first(), k));
        }
    }
}

/// Replacing an entry with one for the same address keeps the addresses unique.
pub proof fn lemma_unique_update_same_addr(s: Seq<Entry>, i: int, e: Entry)
    requires
        keys_unique(s),
        0 <= i < s.len(),
        e.addr@ == s[i].addr@,
    ensures
        keys_unique(s.update(i, e)),
{
    let t = s.update(i, e);
    assert forall|p: int, q: int| 0 <= p < q < t.len() implies t[p].addr@ != t[q].addr@ by {
        assert(s[p].addr@ != s[q].addr@);
    }
}

/// Appending an entry whose address is new keeps the addresses unique.
pub proof fn lemma_unique_push_new(s: Seq<Entry>, e: Entry)
    requires
        keys_unique(s),
        forall|j: int| 0 <= j < s.len() ==> s[j].addr@ != e.addr@,
    ensures
        keys_unique(s.push(e)),
{
    let t = s.push(e);
    assert forall|p: int, q: int| 0 <= p < q < t.len() implies t[p].addr@ != t[q].addr@ by {
        if q == s.len() {
            assert(t[p] == s[p]);
            assert(t[q] == e);
        } else {
            assert(s[p].addr@ != s[q].addr@);
        }
    }
}

/// The amount the book records for `key`.
pub fn book_lookup(book: &Vec<Entry>, key: &String) -> (r: u128)
    ensures
        r == amount_of(book@, key@),
{
    let n = book.len();
    let mut i: usize = 0;
    while i < n
        invariant
            n == book@.len(),
            0 <= i <= n,
            forall|j: int| 0 <= j < i ==> book@[j].addr@ != key@,
        decreases n - i,
    {
        if book[i].addr == *key {
            proof {
                lemma_amount_of_first_match(book@, key@, i as int);
            }
            return book[i].amount;
        }
        i = i + 1;
    }
    proof {
        lemma_amount_of_absent(book@, key@);
    }
    0
}

/// The amount the book records for `key`, or `None` when there is no entry
/// for it.
pub fn book_get(book: &Vec<Entry>, key: &String) -> (r: Option<u128>)
    ensures
        book_contains(book@, key@) ==> (r matches Some(v) && v == amount_of(book@, key@)),
        !book_contains(book@, key@) ==> r is None,
{
    let n = book.len();
    let mut i: usize = 0;
    while i < n
        invariant
            n == book@.len(),
            0 <= i <= n,
            forall|j: int| 0 <= j < i ==> book@[j].addr@ != key@,
        decreases n - i,
    {
        if book[i].addr == *key {
            proof {
                lemma_amount_of_first_match(book@, key@, i as int);
            }
            return Some(book[i].amount);
        }
        i = i + 1;
    }
    None
}

/// Raise the amount recorded for `key` by `delta`, creating the entry if the
/// key is new. Every other key's amount is untouched and the book's total
/// grows by exactly `delta`.
pub fn book_credit(book: &mut Vec<Entry>, key: &String, delta: u128)
    requires
        keys_unique(old(book)@),
        amount_of(old(book)@, key@) + delta <= u128::MAX,
    ensures
        keys_unique(final(book)@),
        amount_of(final(book)@, key@) == amount_of(old(book)@, key@) + delta,
        forall|k: Seq<char>| k != key@ ==> amount_of(final(book)@, k) == amount_of(old(book)@, k),
        sum_amounts(final(book)@) == sum_amounts(old(book)@) + delta,
    {
    let n = book.len();
    let mut i: usize = 0;
    while i < n
        invariant
            n == book@.len(),
            0 <= i <= n,
            book@ == old(book)@,
            keys_unique(book@),
            amount_of(book@, key@) + delta <= u128::MAX,
            forall|j: int| 0 <= j < i ==> book@[j].addr@ != key@,
        decreases n - i,
    {
        if book[i].addr == *key {
            proof {
                lemma_amount_of_first_match(book@, key@, i as int);
            }
            let cur: u128 = book[i].amount;
            let e = Entry { addr: book[i].addr.clone(), amount: cur + delta };
            proof {
                lemma_amount_of_update(book@, key@, i as int, e);
                lemma_sum_update(book@, i as int, e);
                lemma_unique_update_same_addr(book@, i as int, e);
            }
            book[i] = e;
            return ;
        }
        i = i + 1;
    }
    proof {
        lemma_amount_of_absent(book@, key@);
        lemma_amount_of_push(book@, Entry { addr: *key, amount: delta });
        lemma_sum_push(book@, Entry { addr: *key, amount: delta });
        lemma_unique_push_new(book@, Entry { addr: *key, amount: delta });
    }
    book.push(Entry { addr: key.clone(), amount: delta });
}

/// Lower the amount recorded for `key` by `delta`, which must not exceed it.
/// Every other key's amount is untouched and the book's total shrinks by
/// exactly `delta`.
pub fn book_debit(book: &mut Vec<Entry>, key: &String, delta: u128)
    requires
        keys_unique(old(book)@),
        delta <= amount_of(old(book)@, key@),
    ensures
        keys_unique(final(book)@),
        amount_of(final(book)@, key@) == amount_of(old(book)@, key@) - delta,
        forall|k: Seq<char>| k != key@ ==> amount_of(final(book)@, k) == amount_of(old(book)@, k),
        sum_amounts(final(book)@) == sum_amounts(old(book)@) - delta,
    {
    let n = book.len();
    let mut i: usize = 0;
    while i < n
        invariant
            n == book@.len(),
            0 <= i <= n,
            book@ == old(book)@,
            keys_unique(book@),
            delta <= amount_of(book@, key@),
            forall|j: int| 0 <= j < i ==> book@[j].addr@ != key@,
        decreases n - i,
    {
        if book[i].addr == *key {
            proof {
                lemma_amount_of_first_match(book@, key@, i as int);
            }
            let cur: u128 = book[i].amount;
            let e = Entry { addr: book[i].addr.clone(), amount: cur - delta };
            proof {
                lemma_amount_of_update(book@, key@, i as int, e);
                lemma_sum_update(book@, i as int, e);
                lemma_unique_update_same_addr(book@, i as int, e);
            }
            book[i] = e;
            return ;
        }
        i = i + 1;
    }
    proof {
        lemma_amount_of_absent(book@, key@);
    }
}

/// Overwrite the amount recorded for `key`, creating the entry if the key is
/// new. Every other key's amount is untouched.
pub fn book_set(book: &mut Vec<Entry>, key: &String, value: u128)
    requires
        keys_unique(old(book)@),
    ensures
        keys_unique(final(book)@),
        amount_of(final(book)@, key@) == value,
        forall|k: Seq<char>| k != key@ ==> amount_of(final(book)@, k) == amount_of(old(book)@, k),
    {
    let n = book.len();
    let mut i: usize = 0;
    while i < n
        invariant
            n == book@.len(),
            0 <= i <= n,
            book@ == old(book)@,
            keys_unique(book@),
            forall|j: int| 0 <= j < i ==> book@[j].addr@ != key@,
        decreases n - i,
    {
        if book[i].addr == *key {
            let e = Entry { addr: book[i].addr.clone(), amount: value };
            proof {
                lemma_amount_of_update(book@, key@, i as int, e);
                lemma_unique_update_same_addr(book@, i as int, e);
            }
            book[i] = e;
            return ;
        }
        i = i + 1;
    }
    proof {
        lemma_amount_of_absent(book@, key@);
        lemma_amount_of_push(book@, Entry { addr: *key, amount: value });
        lemma_unique_push_new(book@, Entry { addr: *key, amount: value });
    }
    book.push(Entry { addr: key.clone(), amount: value });
}

} // verus!
