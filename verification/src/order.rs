//! Lexicographic order.

use vstd::prelude::*;

verus! {

/// Whether `a` comes before `b` because of what stands at `k`: up to there they
/// are equal, and there `a` ends or has the smaller item.
pub open spec fn before_at<T>(
    less: spec_fn(T, T) -> bool,
    a: Seq<T>,
    b: Seq<T>,
    k: int,
) -> bool {
    &&& 0 <= k <= a.len()
    &&& k < b.len()
    &&& forall|j: int| 0 <= j < k ==> a[j] == b[j]
    &&& k == a.len() || less(a[k], b[k])
}

/// Whether `a` comes before `b` in lexicographic order.
pub open spec fn before<T>(less: spec_fn(T, T) -> bool, a: Seq<T>, b: Seq<T>) -> bool {
    exists|k: int| before_at(less, a, b, k)
}

/// Whether a list of keys is in order, without repetitions.
pub open spec fn in_order<T>(less: spec_fn(T, T) -> bool, keys: Seq<Seq<T>>) -> bool {
    forall|i: int, j: int|
        0 <= i < j < keys.len() ==> before(less, #[trigger] keys[i], #[trigger] keys[j])
}

/// Whether `less` is an order of single items.
pub open spec fn is_item_order<T>(less: spec_fn(T, T) -> bool) -> bool {
    &&& forall|x: T| !#[trigger] less(x, x)
    &&& forall|x: T, y: T, z: T| #[trigger] less(x, y) && #[trigger] less(y, z) ==> less(x, z)
}

/// The order of bytes.
pub open spec fn byte_less() -> spec_fn(u8, u8) -> bool {
    |x: u8, y: u8| x < y
}

/// The order of characters.
pub open spec fn char_less() -> spec_fn(char, char) -> bool {
    |x: char, y: char| x < y
}

pub proof fn lemma_before_transitive<T>(
    less: spec_fn(T, T) -> bool,
    a: Seq<T>,
    b: Seq<T>,
    c: Seq<T>,
)
    requires
        is_item_order(less),
        before(less, a, b),
        before(less, b, c),
    ensures
        before(less, a, c),
{
    let k = choose|k: int| before_at(less, a, b, k);
    let l = choose|l: int| before_at(less, b, c, l);
    if k <= l {
        if k == l && k < a.len() {
            assert(less(a[k], b[k]) && less(b[k], c[k]));
        }
        assert(before_at(less, a, c, k));
    } else {
        assert(before_at(less, a, c, l));
    }
}

pub proof fn lemma_before_is_strict<T>(less: spec_fn(T, T) -> bool, a: Seq<T>, b: Seq<T>)
    requires
        is_item_order(less),
        before(less, a, b),
    ensures
        a != b,
        !before(less, b, a),
{
    let k = choose|k: int| before_at(less, a, b, k);
    if a == b {
        assert(!less(a[k], a[k]));
    }
    if before(less, b, a) {
        let l = choose|l: int| before_at(less, b, a, l);
        assert(before_at(less, b, a, l));
        if l < k {
            assert(a[l] == b[l]);
            assert(!less(a[l], a[l]));
        } else if k < l {
            assert(a[k] == b[k]);
            assert(!less(a[k], a[k]));
        } else {
            assert(less(a[k], b[k]) && less(b[k], a[k]));
            assert(!less(a[k], a[k]));
        }
        assert(false);
    }
}

/// A key put between its neighbours keeps a list in order and adds exactly the
/// key.
pub proof fn lemma_insert_in_order<T>(
    less: spec_fn(T, T) -> bool,
    list: Seq<Seq<T>>,
    at: int,
    key: Seq<T>,
)
    requires
        is_item_order(less),
        in_order(less, list),
        0 <= at <= list.len(),
        forall|j: int| 0 <= j < at ==> before(less, #[trigger] list[j], key),
        at < list.len() ==> before(less, key, list[at]),
    ensures
        in_order(less, list.insert(at, key)),
        forall|k: Seq<T>| #[trigger]
            list.insert(at, key).contains(k) <==> list.contains(k) || k == key,
{
    let new = list.insert(at, key);
    assert forall|i: int, j: int| 0 <= i < j < new.len() implies before(
        less,
        #[trigger] new[i],
        #[trigger] new[j],
    ) by {
        if i == at {
            if j - 1 > at {
                assert(before(less, list[at], list[j - 1]));
                lemma_before_transitive(less, key, list[at], list[j - 1]);
            }
        } else if j == at {
            assert(new[i] == list[i]);
        } else {
            let a = if i < at {
                i
            } else {
                i - 1
            };
            let b = if j < at {
                j
            } else {
                j - 1
            };
            assert(before(less, list[a], list[b]));
        }
    }
    assert forall|k: Seq<T>| #[trigger] new.contains(k) <==> list.contains(k) || k == key by {
        if new.contains(k) {
            let i = choose|i: int| 0 <= i < new.len() && new[i] == k;
            if i < at {
                assert(list[i] == k);
            } else if i > at {
                assert(list[i - 1] == k);
            }
        }
        if list.contains(k) {
            let i = choose|i: int| 0 <= i < list.len() && list[i] == k;
            if i < at {
                assert(new[i] == k);
            } else {
                assert(new[i + 1] == k);
            }
        }
        if k == key {
            assert(new[at] == k);
        }
    }
}

} // verus!
