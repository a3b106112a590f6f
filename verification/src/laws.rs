//! The store's laws, stated over the transition predicates that the
//! operations' contracts establish and proved once and for all.

use vstd::prelude::*;

use crate::pet::PetView;
use crate::store::{
    add_transition, delete_transition, lemma_mapping_key, update_transition,
    StoreState,
};

verus! {

/// Identifiers are issued in strictly increasing order and are therefore
/// unique: across any run of operations, the counter never decreases (each
/// transition fixes it or advances it), and an addition issues exactly the
/// counter's value. So a record issued from a state no earlier than another
/// addition's post-state carries a strictly larger identifier.
pub proof fn lemma_issued_ids_strictly_increase(
    pre1: StoreState,
    post1: StoreState,
    p1: PetView,
    pre2: StoreState,
    post2: StoreState,
    p2: PetView,
)
    requires
        add_transition(pre1, post1, p1),
        post1.counter() <= pre2.counter(),
        add_transition(pre2, post2, p2),
    ensures
        p1.id < p2.id,
{
}

/// No operation moves the counter backwards: an addition advances it by one,
/// an update or a deletion leaves it where it was. Reads do not touch it at
/// all. Together with [`lemma_issued_ids_strictly_increase`] this makes
/// identifiers strictly increasing across any sequence of operations.
pub proof fn lemma_counter_never_decreases(
    pre: StoreState,
    post: StoreState,
    p: PetView,
    id: u64,
    found: bool,
)
    ensures
        add_transition(pre, post, p) ==> pre.counter() < post.counter(),
        update_transition(pre, post, p, found) ==> post.counter() == pre.counter(),
        delete_transition(pre, post, id, found) ==> post.counter() == pre.counter(),
{
}

/// An identifier never issued is never found: looking up 0, or any identifier
/// the counter has not yet reached, returns absent.
pub proof fn lemma_get_unissued_absent(s: StoreState, id: u64)
    requires
        s.wf(),
        id == 0 || id >= s.counter(),
    ensures
        s.spec_get(id) is None,
{
    lemma_mapping_key(s, id);
}

/// Adding a record and then looking up the returned identifier yields exactly
/// the record built from that identifier and the given attributes.
pub proof fn lemma_add_then_get(
    pre: StoreState,
    post: StoreState,
    p: PetView,
    name: Seq<char>,
    species: Seq<char>,
    age: u32,
)
    requires
        add_transition(pre, post, p),
        p == (PetView { id: pre.counter(), name, species, age }),
    ensures
        post.spec_get(p.id) == Some(PetView { id: p.id, name, species, age }),
{
}

/// A successful update changes exactly the targeted record: the new state is
/// the record built from the targeted identifier and the new attributes, the
/// identity is unchanged, and every other identifier maps as before.
pub proof fn lemma_update_changes_only_target(
    pre: StoreState,
    post: StoreState,
    p: PetView,
)
    requires
        update_transition(pre, post, p, true),
    ensures
        post.spec_get(p.id) == Some(p),
        forall|k: u64| k != p.id ==> post.spec_get(k) == pre.spec_get(k),
{
}

/// A successful deletion makes the targeted identifier absent and leaves every
/// other identifier mapping as before; the counter does not move, so the
/// identifier is never issued again (see
/// [`lemma_deleted_id_never_reissued`]).
pub proof fn lemma_delete_then_get(pre: StoreState, post: StoreState, id: u64)
    requires
        delete_transition(pre, post, id, true),
    ensures
        post.spec_get(id) is None,
        forall|k: u64| k != id ==> post.spec_get(k) == pre.spec_get(k),
{
}

/// A deleted identifier is never reissued: it was strictly below the counter
/// when present, the counter never decreases, and an addition issues exactly
/// the counter's value.
pub proof fn lemma_deleted_id_never_reissued(
    pre_del: StoreState,
    post_del: StoreState,
    id: u64,
    pre_add: StoreState,
    post_add: StoreState,
    p: PetView,
)
    requires
        pre_del.wf(),
        delete_transition(pre_del, post_del, id, true),
        post_del.counter() <= pre_add.counter(),
        add_transition(pre_add, post_add, p),
    ensures
        p.id != id,
{
    lemma_mapping_key(pre_del, id);
}

/// A run of `n` additions into a fresh store issues exactly the identifiers
/// `1..=n`, with no duplicates and no gaps: the counter of a fresh store is 1,
/// each addition issues the counter and advances it by one, so after `k`
/// additions the counter is `k + 1` and the record issued at position `k`
/// (counting from 0) carries identifier `k + 1`.
pub proof fn lemma_fresh_store_ids_are_dense(states: Seq<StoreState>, issued: Seq<PetView>)
    requires
        states.len() == issued.len() + 1,
        states.len() >= 1,
        states[0].counter() == 1,
        forall|k: int|
            0 <= k < issued.len() ==> add_transition(
                #[trigger] states[k],
                states[k + 1],
                issued[k],
            ),
    ensures
        forall|k: int| 0 <= k < states.len() ==> (#[trigger] states[k]).counter() == k + 1,
        forall|k: int| 0 <= k < issued.len() ==> (#[trigger] issued[k]).id == k + 1,
    decreases issued.len(),
{
    if issued.len() > 0 {
        let n = issued.len() as int;
        assert(forall|k: int| 0 <= k < n ==> states.drop_last()[k] == states[k]);
        assert(forall|k: int| 0 <= k < n - 1 ==> issued.drop_last()[k] == issued[k]);
        lemma_fresh_store_ids_are_dense(states.drop_last(), issued.drop_last());
        assert(add_transition(states[n - 1], states[n], issued[n - 1]));
        assert(states[n - 1].counter() == n);
        assert(issued[n - 1].id == n);
    }
}

} // verus!
