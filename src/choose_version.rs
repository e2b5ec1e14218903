//! Choosing the greatest candidate version that does not exceed a reference version.
use std::cmp::Ordering;
use vstd::prelude::*;

use crate::version::{
    lemma_version_cmp_flip, lemma_version_cmp_transitive, optional_model, version_cmp, version_le, version_lt,
    Version, VersionModel,
};

verus! {

/// The models of a list of derived versions.
pub open spec fn keys_model(keys: Seq<Option<Version>>) -> Seq<Option<VersionModel>> {
    keys.map_values(|k: Option<Version>| optional_model(k))
}

/// A candidate is eligible when its version was derived and does not exceed the reference.
pub open spec fn eligible(key: Option<VersionModel>, reference: VersionModel) -> bool {
    key matches Some(v) && version_le(v, reference)
}

pub open spec fn no_eligible(keys: Seq<Option<VersionModel>>, reference: VersionModel) -> bool {
    forall|j: int| 0 <= j < keys.len() ==> !eligible(#[trigger] keys[j], reference)
}

/// Candidate `i` is the one to choose among the first `n`: it is eligible, no eligible
/// candidate has a greater version, and every eligible candidate before it has a smaller one.
pub open spec fn is_best_among(
    keys: Seq<Option<VersionModel>>,
    reference: VersionModel,
    n: int,
    i: int,
) -> bool {
    &&& 0 <= i < n <= keys.len()
    &&& eligible(keys[i], reference)
    &&& forall|j: int|
        0 <= j < n && eligible(#[trigger] keys[j], reference) ==> version_le(
            keys[j]->0,
            keys[i]->0,
        )
    &&& forall|j: int|
        0 <= j < i && eligible(#[trigger] keys[j], reference) ==> version_lt(
            keys[j]->0,
            keys[i]->0,
        )
}

pub open spec fn is_best(keys: Seq<Option<VersionModel>>, reference: VersionModel, i: int) -> bool {
    is_best_among(keys, reference, keys.len() as int, i)
}

/// `r` is the position to choose: none exactly when nothing is eligible, else the best.
pub open spec fn chosen_index(
    keys: Seq<Option<VersionModel>>,
    reference: VersionModel,
    r: Option<usize>,
) -> bool {
    match r {
        None => no_eligible(keys, reference),
        Some(i) => is_best(keys, reference, i as int),
    }
}

/// `r` is the item to choose, given the versions derived from the items.
pub open spec fn chosen_item<T>(
    items: Seq<T>,
    keys: Seq<Option<VersionModel>>,
    reference: VersionModel,
    r: Option<T>,
) -> bool {
    match r {
        None => no_eligible(keys, reference),
        Some(x) => exists|i: int| is_best(keys, reference, i) && items[i] == x,
    }
}

/// Returns the position of the candidate with the greatest version not exceeding
/// `main_version`, the earliest one among equal versions; `None` if no candidate has a
/// version that does not exceed it.
pub fn choose_index_by_version(main_version: &Version, keys: &Vec<Option<Version>>) -> (r: Option<
    usize,
>)
    ensures
        chosen_index(keys_model(keys@), main_version@, r),
{
    let ghost ks = keys_model(keys@);
    let ghost reference = main_version@;
    let mut best: Option<usize> = None;
    let mut i: usize = 0;
    while i < keys.len()
        invariant
            0 <= i <= keys.len(),
            ks == keys_model(keys@),
            reference == main_version@,
            ks.len() == keys.len(),
            best is None ==> forall|j: int| 0 <= j < i ==> !eligible(#[trigger] ks[j], reference),
            best matches Some(b) ==> is_best_among(ks, reference, i as int, b as int),
        decreases keys.len() - i,
    {
        assert(ks[i as int] == optional_model(keys@[i as int]));
        match &keys[i] {
            None => {},
            Some(v) => {
                if !matches!(v.cmp_precedence(main_version), Ordering::Greater) {
                    match best {
                        None => {
                            proof {
                                lemma_version_cmp_flip(v@, v@);
                            }
                            best = Some(i);
                        },
                        Some(b) => {
                            assert(ks[b as int] == optional_model(keys@[b as int]));
                            let bv = keys[b].as_ref().unwrap();
                            if matches!(v.cmp_precedence(bv), Ordering::Greater) {
                                proof {
                                    assert(ks[b as int]->0 == bv@);
                                    assert(ks[i as int]->0 == v@);
                                    lemma_version_cmp_flip(v@, bv@);
                                    lemma_version_cmp_flip(v@, v@);
                                    assert forall|j: int|
                                        0 <= j < i && eligible(
                                            #[trigger] ks[j],
                                            reference,
                                        ) implies version_lt(ks[j]->0, v@) by {
                                        assert(version_le(ks[j]->0, bv@));
                                        lemma_version_cmp_transitive(ks[j]->0, bv@, v@);
                                    }
                                }
                                best = Some(i);
                            }
                        },
                    }
                }
            },
        }
        i += 1;
    }
    best
}

/// Chooses, among `items`, the one whose derived version is the greatest that does not
/// exceed `main_version`; among equal versions the earliest item wins. Items whose
/// version cannot be derived are passed over. `key_fn` is called once per item.
pub fn choose_version_by_key<T, F: Fn(&T) -> Option<Version>>(
    main_version: Version,
    items: Vec<T>,
    key_fn: F,
) -> (r: Option<T>)
    requires
        items.len() > 0,
        forall|i: int| 0 <= i < items.len() ==> key_fn.requires((&#[trigger] items@[i],)),
    ensures
        exists|keys: Seq<Option<Version>>|
            {
                &&& keys.len() == items.len()
                &&& forall|i: int|
                    0 <= i < items.len() ==> key_fn.ensures((&items@[i],), #[trigger] keys[i])
                &&& chosen_item(items@, keys_model(keys), main_version@, r)
            },
{
    let mut keys: Vec<Option<Version>> = Vec::new();
    let mut i: usize = 0;
    while i < items.len()
        invariant
            0 <= i <= items.len(),
            keys.len() == i,
            forall|j: int| 0 <= j < items.len() ==> key_fn.requires((&#[trigger] items@[j],)),
            forall|j: int| 0 <= j < i ==> key_fn.ensures((&items@[j],), #[trigger] keys@[j]),
        decreases items.len() - i,
    {
        let k = key_fn(&items[i]);
        keys.push(k);
        i += 1;
    }
    let chosen = choose_index_by_version(&main_version, &keys);
    let ghost ks = keys@;
    match chosen {
        None => {
            assert(chosen_item(items@, keys_model(ks), main_version@, None::<T>));
            None
        },
        Some(idx) => {
            let ghost old_items = items@;
            let mut items = items;
            let x = items.remove(idx);
            assert(is_best(keys_model(ks), main_version@, idx as int) && old_items[idx as int]
                == x);
            assert(chosen_item(old_items, keys_model(ks), main_version@, Some(x)));
            Some(x)
        },
    }
}

/// At most one candidate is the one to choose, so a choice is fully determined by the
/// derived versions and the reference.
pub proof fn law_best_is_unique(
    keys: Seq<Option<VersionModel>>,
    reference: VersionModel,
    i: int,
    k: int,
)
    requires
        is_best(keys, reference, i),
        is_best(keys, reference, k),
    ensures
        i == k,
{
    if i < k {
        lemma_version_cmp_flip(keys[i]->0, keys[k]->0);
    } else if k < i {
        lemma_version_cmp_flip(keys[k]->0, keys[i]->0);
    }
}

/// The chosen item's derived version does not exceed the reference version.
pub proof fn law_selection_bound<T>(
    items: Seq<T>,
    keys: Seq<Option<VersionModel>>,
    reference: VersionModel,
    x: T,
)
    requires
        items.len() == keys.len(),
        chosen_item(items, keys, reference, Some(x)),
    ensures
        exists|i: int|
            0 <= i < items.len() && items[i] == x && #[trigger] keys[i] is Some && version_le(
                keys[i]->0,
                reference,
            ),
{
}

/// No eligible candidate has a version greater than that of the chosen item.
pub proof fn law_maximality<T>(
    items: Seq<T>,
    keys: Seq<Option<VersionModel>>,
    reference: VersionModel,
    x: T,
)
    requires
        items.len() == keys.len(),
        chosen_item(items, keys, reference, Some(x)),
    ensures
        exists|i: int|
            #![trigger items[i]]
            {
                &&& 0 <= i < items.len()
                &&& items[i] == x
                &&& keys[i] is Some
                &&& forall|j: int|
                    0 <= j < keys.len() && eligible(#[trigger] keys[j], reference) ==> !version_lt(
                        keys[i]->0,
                        keys[j]->0,
                    )
            },
{
    let i = choose|i: int| is_best(keys, reference, i) && items[i] == x;
    assert forall|j: int|
        0 <= j < keys.len() && eligible(#[trigger] keys[j], reference) implies !version_lt(
        keys[i]->0,
        keys[j]->0,
    ) by {
        lemma_version_cmp_flip(keys[i]->0, keys[j]->0);
    }
}

/// Nothing is chosen exactly when no candidate has a derived version that does not
/// exceed the reference version.
pub proof fn law_none_iff_no_eligible<T>(
    items: Seq<T>,
    keys: Seq<Option<VersionModel>>,
    reference: VersionModel,
    r: Option<T>,
)
    requires
        items.len() == keys.len(),
        chosen_item(items, keys, reference, r),
    ensures
        r is None <==> !exists|j: int| 0 <= j < keys.len() && eligible(#[trigger] keys[j], reference),
{
    if let Some(x) = r {
        let i = choose|i: int| is_best(keys, reference, i) && items[i] == x;
        assert(eligible(keys[i], reference));
    }
}

/// Among candidates with equal versions, the chosen item is the earliest: no candidate
/// before it has a version of equal precedence.
pub proof fn law_tie_break<T>(
    items: Seq<T>,
    keys: Seq<Option<VersionModel>>,
    reference: VersionModel,
    x: T,
)
    requires
        items.len() == keys.len(),
        chosen_item(items, keys, reference, Some(x)),
    ensures
        exists|i: int|
            #![trigger items[i]]
            {
                &&& 0 <= i < items.len()
                &&& items[i] == x
                &&& keys[i] is Some
                &&& forall|j: int|
                    0 <= j < i && #[trigger] keys[j] is Some ==> version_cmp(
                        keys[j]->0,
                        keys[i]->0,
                    ) != Ordering::Equal
            },
{
    let i = choose|i: int| is_best(keys, reference, i) && items[i] == x;
    assert forall|j: int| 0 <= j < i && #[trigger] keys[j] is Some implies version_cmp(
        keys[j]->0,
        keys[i]->0,
    ) != Ordering::Equal by {
        let v = keys[j]->0;
        let w = keys[i]->0;
        if version_cmp(v, w) == Ordering::Equal {
            lemma_version_cmp_transitive(v, w, reference);
            assert(eligible(keys[j], reference));
        }
    }
}

} // verus!
