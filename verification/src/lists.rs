//! Bounded allow/deny lists: merchant identities and merchant-category
//! codes.
//!
//! Lists are bounded vectors with membership by equality. Adding an item
//! that is already present is a no-op, even when the list is full; adding a
//! new item beyond the capacity is a hard error, and a failed add leaves
//! the list exactly as it was (all checks run before the mutation is
//! committed).

use vstd::prelude::*;

use crate::errors::HookError;

verus! {

/// Capacity of each merchant list.
pub const MAX_MERCHANTS: usize = 50;
/// Capacity of each merchant-category-code list.
pub const MAX_MCC_CODES: usize = 100;

/// A merchant-category code is a four-digit code: `1..=9999`.
pub open spec fn spec_mcc_valid(mcc: u16) -> bool {
    1 <= mcc <= 9999
}

/// Byte-wise equality of two 32-byte identifiers.
pub fn bytes32_eq(a: &[u8; 32], b: &[u8; 32]) -> (r: bool)
    ensures
        r == (*a == *b),
{
    let mut i: usize = 0;
    while i < 32
        invariant
            i <= 32,
            forall|k: int| 0 <= k < i ==> a@[k] == b@[k],
        decreases 32 - i,
    {
        if a[i] != b[i] {
            assert(a@[i as int] != b@[i as int]);
            assert(*a != *b) by {
                assert(!(*a =~= *b));
            }
            return false;
        }
        i += 1;
    }
    assert(*a =~= *b);
    true
}

/// Whether `m` occurs in `list`.
pub fn contains_merchant(list: &Vec<[u8; 32]>, m: &[u8; 32]) -> (r: bool)
    ensures
        r == list@.contains(*m),
{
    let mut i: usize = 0;
    while i < list.len()
        invariant
            i <= list@.len(),
            forall|k: int| 0 <= k < i ==> list@[k] != *m,
        decreases list@.len() - i,
    {
        if bytes32_eq(&list[i], m) {
            assert(list@.contains(*m));
            return true;
        }
        i += 1;
    }
    false
}

/// Whether `mcc` occurs in `list`.
pub fn contains_mcc(list: &Vec<u16>, mcc: u16) -> (r: bool)
    ensures
        r == list@.contains(mcc),
{
    let mut i: usize = 0;
    while i < list.len()
        invariant
            i <= list@.len(),
            forall|k: int| 0 <= k < i ==> list@[k] != mcc,
        decreases list@.len() - i,
    {
        if list[i] == mcc {
            assert(list@.contains(mcc));
            return true;
        }
        i += 1;
    }
    false
}

/// The outcome of adding `items` to a bounded merchant list, one item at a
/// time: an item already present is skipped — a no-op even when the list is
/// full — a new item is appended, and a new item that meets a full list
/// fails the whole operation with `full_err`.
pub open spec fn spec_add_merchants(
    list: Seq<[u8; 32]>,
    items: Seq<[u8; 32]>,
    full_err: HookError,
) -> Result<Seq<[u8; 32]>, HookError>
    decreases items.len(),
{
    if items.len() == 0 {
        Ok(list)
    } else if list.contains(items[0]) {
        spec_add_merchants(list, items.skip(1), full_err)
    } else if list.len() >= MAX_MERCHANTS {
        Err(full_err)
    } else {
        spec_add_merchants(list.push(items[0]), items.skip(1), full_err)
    }
}

/// The outcome of adding `items` to a bounded code list: an out-of-range
/// code fails with `InvalidMccCode`, an item already present is skipped — a
/// no-op even when the list is full — a new item is appended, and a new
/// item that meets a full list fails with `full_err`.
pub open spec fn spec_add_mccs(
    list: Seq<u16>,
    items: Seq<u16>,
    full_err: HookError,
) -> Result<Seq<u16>, HookError>
    decreases items.len(),
{
    if items.len() == 0 {
        Ok(list)
    } else if !spec_mcc_valid(items[0]) {
        Err(HookError::InvalidMccCode)
    } else if list.contains(items[0]) {
        spec_add_mccs(list, items.skip(1), full_err)
    } else if list.len() >= MAX_MCC_CODES {
        Err(full_err)
    } else {
        spec_add_mccs(list.push(items[0]), items.skip(1), full_err)
    }
}

/// The elements of `list`, in order, that do not occur in `items`.
pub open spec fn spec_retain<T>(list: Seq<T>, items: Seq<T>) -> Seq<T>
    decreases list.len(),
{
    if list.len() == 0 {
        Seq::empty()
    } else if items.contains(list.last()) {
        spec_retain(list.drop_last(), items)
    } else {
        spec_retain(list.drop_last(), items).push(list.last())
    }
}

/// Add every item of `items` to `list`, skipping duplicates. On error the
/// list is left untouched.
pub fn add_merchants(
    list: &mut Vec<[u8; 32]>,
    items: &Vec<[u8; 32]>,
    full_err: HookError,
) -> (r: Result<(), HookError>)
    ensures
        match r {
            Ok(()) => spec_add_merchants(old(list)@, items@, full_err) == Ok::<_, HookError>(
                final(list)@,
            ),
            Err(e) => *final(list) == *old(list) && spec_add_merchants(old(list)@, items@, full_err)
                == Err::<Seq<[u8; 32]>, _>(e),
        },
{
    let mut candidate: Vec<[u8; 32]> = Vec::new();
    let mut j: usize = 0;
    while j < list.len()
        invariant
            j <= list@.len(),
            candidate@ == list@.take(j as int),
        decreases list@.len() - j,
    {
        candidate.push(list[j]);
        assert(candidate@ =~= list@.take(j + 1 as int));
        j += 1;
    }
    assert(candidate@ =~= list@);
    assert(items@.skip(0) =~= items@);

    let mut i: usize = 0;
    while i < items.len()
        invariant
            i <= items@.len(),
            spec_add_merchants(list@, items@, full_err) == spec_add_merchants(
                candidate@,
                items@.skip(i as int),
                full_err,
            ),
        decreases items@.len() - i,
    {
        let item = items[i];
        assert(items@.skip(i as int)[0] == item);
        if !contains_merchant(&candidate, &item) {
            if candidate.len() >= MAX_MERCHANTS {
                return Err(full_err);
            }
            candidate.push(item);
        }
        assert(items@.skip(i as int).skip(1) =~= items@.skip(i + 1 as int));
        i += 1;
    }
    assert(items@.skip(items@.len() as int) =~= Seq::<[u8; 32]>::empty());
    *list = candidate;
    Ok(())
}

/// Add every code of `items` to `list`, validating the four-digit range and
/// skipping duplicates. On error the list is left untouched.
pub fn add_mccs(list: &mut Vec<u16>, items: &Vec<u16>, full_err: HookError) -> (r: Result<
    (),
    HookError,
>)
    ensures
        match r {
            Ok(()) => spec_add_mccs(old(list)@, items@, full_err) == Ok::<_, HookError>(
                final(list)@,
            ),
            Err(e) => *final(list) == *old(list) && spec_add_mccs(old(list)@, items@, full_err)
                == Err::<Seq<u16>, _>(e),
        },
{
    let mut candidate: Vec<u16> = Vec::new();
    let mut j: usize = 0;
    while j < list.len()
        invariant
            j <= list@.len(),
            candidate@ == list@.take(j as int),
        decreases list@.len() - j,
    {
        candidate.push(list[j]);
        assert(candidate@ =~= list@.take(j + 1 as int));
        j += 1;
    }
    assert(candidate@ =~= list@);
    assert(items@.skip(0) =~= items@);

    let mut i: usize = 0;
    while i < items.len()
        invariant
            i <= items@.len(),
            spec_add_mccs(list@, items@, full_err) == spec_add_mccs(
                candidate@,
                items@.skip(i as int),
                full_err,
            ),
        decreases items@.len() - i,
    {
        let item = items[i];
        assert(items@.skip(i as int)[0] == item);
        if item == 0 || item > 9999 {
            return Err(HookError::InvalidMccCode);
        }
        if !contains_mcc(&candidate, item) {
            if candidate.len() >= MAX_MCC_CODES {
                return Err(full_err);
            }
            candidate.push(item);
        }
        assert(items@.skip(i as int).skip(1) =~= items@.skip(i + 1 as int));
        i += 1;
    }
    assert(items@.skip(items@.len() as int) =~= Seq::<u16>::empty());
    *list = candidate;
    Ok(())
}

/// Remove every occurrence of every item of `items` from `list`, keeping
/// the order of the survivors.
pub fn remove_merchants(list: &mut Vec<[u8; 32]>, items: &Vec<[u8; 32]>)
    ensures
        final(list)@ == spec_retain(old(list)@, items@),
{
    let mut kept: Vec<[u8; 32]> = Vec::new();
    let mut j: usize = 0;
    while j < list.len()
        invariant
            j <= list@.len(),
            kept@ == spec_retain(list@.take(j as int), items@),
        decreases list@.len() - j,
    {
        let x = list[j];
        assert(list@.take(j + 1 as int).drop_last() =~= list@.take(j as int));
        assert(list@.take(j + 1 as int).last() == x);
        if !contains_merchant(items, &x) {
            kept.push(x);
        }
        j += 1;
    }
    assert(list@.take(list@.len() as int) =~= list@);
    *list = kept;
}

/// Remove every occurrence of every code of `items` from `list`, keeping
/// the order of the survivors.
pub fn remove_mccs(list: &mut Vec<u16>, items: &Vec<u16>)
    ensures
        final(list)@ == spec_retain(old(list)@, items@),
{
    let mut kept: Vec<u16> = Vec::new();
    let mut j: usize = 0;
    while j < list.len()
        invariant
            j <= list@.len(),
            kept@ == spec_retain(list@.take(j as int), items@),
        decreases list@.len() - j,
    {
        let x = list[j];
        assert(list@.take(j + 1 as int).drop_last() =~= list@.take(j as int));
        assert(list@.take(j + 1 as int).last() == x);
        if !contains_mcc(items, x) {
            kept.push(x);
        }
        j += 1;
    }
    assert(list@.take(list@.len() as int) =~= list@);
    *list = kept;
}

/// Law: a successful add only ever extends the list — membership is
/// preserved, and the result stays within capacity.
pub proof fn lemma_add_merchants_preserves_members(
    list: Seq<[u8; 32]>,
    items: Seq<[u8; 32]>,
    full_err: HookError,
    m: [u8; 32],
)
    requires
        spec_add_merchants(list, items, full_err) is Ok,
        list.contains(m),
    ensures
        spec_add_merchants(list, items, full_err)->Ok_0.contains(m),
    decreases items.len(),
{
    if items.len() > 0 {
        if list.contains(items[0]) {
            lemma_add_merchants_preserves_members(list, items.skip(1), full_err, m);
        } else if list.len() < MAX_MERCHANTS {
            assert(list.push(items[0]).contains(m)) by {
                assert(exists|k: int| 0 <= k < list.len() && list[k] == m);
                let k = choose|k: int| 0 <= k < list.len() && list[k] == m;
                assert(list.push(items[0])[k] == m);
            }
            lemma_add_merchants_preserves_members(list.push(items[0]), items.skip(1), full_err, m);
        }
    }
}

/// Law: every item of a successful add is present in the result.
pub proof fn lemma_add_merchants_adds_items(
    list: Seq<[u8; 32]>,
    items: Seq<[u8; 32]>,
    full_err: HookError,
    i: int,
)
    requires
        spec_add_merchants(list, items, full_err) is Ok,
        0 <= i < items.len(),
    ensures
        spec_add_merchants(list, items, full_err)->Ok_0.contains(items[i]),
    decreases items.len(),
{
    let next = if list.contains(items[0]) {
        list
    } else {
        list.push(items[0])
    };
    assert(next.contains(items[0])) by {
        if !list.contains(items[0]) {
            assert(list.push(items[0])[list.len() as int] == items[0]);
        }
    }
    if i == 0 {
        lemma_add_merchants_preserves_members(next, items.skip(1), full_err, items[0]);
    } else {
        assert(items.skip(1)[i - 1] == items[i]);
        lemma_add_merchants_adds_items(next, items.skip(1), full_err, i - 1);
    }
}

/// Law: removal is exact — an element survives the removal of `items` if
/// and only if it was present before and is not one of `items`.
pub proof fn lemma_retain_membership<T>(list: Seq<T>, items: Seq<T>, x: T)
    ensures
        spec_retain(list, items).contains(x) <==> (list.contains(x) && !items.contains(x)),
    decreases list.len(),
{
    if list.len() > 0 {
        lemma_retain_membership(list.drop_last(), items, x);
        assert(list.contains(x) <==> (list.drop_last().contains(x) || list.last() == x)) by {
            if list.contains(x) {
                let k = choose|k: int| 0 <= k < list.len() && list[k] == x;
                if k < list.len() - 1 {
                    assert(list.drop_last()[k] == x);
                }
            }
            if list.drop_last().contains(x) {
                let k = choose|k: int| 0 <= k < list.len() - 1 && list.drop_last()[k] == x;
                assert(list[k] == x);
            }
        }
        if !items.contains(list.last()) {
            let pre = spec_retain(list.drop_last(), items);
            assert(pre.push(list.last()).contains(x) <==> (pre.contains(x) || list.last() == x))
                by {
                if pre.push(list.last()).contains(x) {
                    let k = choose|k: int|
                        0 <= k < pre.len() + 1 && pre.push(list.last())[k] == x;
                    if k < pre.len() {
                        assert(pre[k] == x);
                    }
                }
                if pre.contains(x) {
                    let k = choose|k: int| 0 <= k < pre.len() && pre[k] == x;
                    assert(pre.push(list.last())[k] == x);
                }
                assert(pre.push(list.last())[pre.len() as int] == list.last());
            }
        }
    }
}

} // verus!
