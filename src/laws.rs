//! Laws that relate the catalogue's operations to one another, stated over
//! the table's model that the operations' contracts use.

use vstd::prelude::*;

use crate::product::{ProductModel, RecordModel};
use crate::table::{
    affected, holds_id, ids_unique, index_of, inserted, lookup, overwritten, removed,
};

verus! {

/// In a table with unique identifiers, the row at position `i` is what a
/// lookup of its identifier finds.
pub proof fn lemma_lookup_at(s: Seq<ProductModel>, i: int)
    requires
        ids_unique(s),
        0 <= i < s.len(),
    ensures
        lookup(s, s[i].id) == Some(s[i].record),
{
    assert(holds_id(s, s[i].id));
    let k = index_of(s, s[i].id);
    assert(s[k].id == s[i].id);
}

/// Creating a product under a fresh identifier keeps every earlier row and
/// adds one whose identifier is the new one and whose fields are the
/// submitted ones, so a listing afterwards holds it; identifiers stay
/// unique.
pub proof fn lemma_create_then_list(s: Seq<ProductModel>, id: u128, rec: RecordModel)
    requires
        ids_unique(s),
        !holds_id(s, id),
    ensures
        ids_unique(inserted(s, id, rec)),
        inserted(s, id, rec).len() == s.len() + 1,
        forall|i: int| 0 <= i < s.len() ==> #[trigger] inserted(s, id, rec)[i] == s[i],
        inserted(s, id, rec).contains(ProductModel { id, record: rec }),
{
    let t = inserted(s, id, rec);
    assert(t[s.len() as int] == ProductModel { id, record: rec });
    assert forall|i: int, j: int|
        0 <= i < t.len() && 0 <= j < t.len() && i != j implies #[trigger] t[i].id
        != #[trigger] t[j].id by {
        if i == s.len() {
            assert(!(0 <= j < s.len() && s[j].id == id));
        } else if j == s.len() {
            assert(!(0 <= i < s.len() && s[i].id == id));
        }
    }
}

/// Fetching, overwriting or deleting an identifier that no row has finds
/// nothing, changes nothing and affects no row: each answers "not found".
pub proof fn lemma_absent_id(s: Seq<ProductModel>, id: u128, rec: RecordModel)
    requires
        !holds_id(s, id),
    ensures
        lookup(s, id) is None,
        overwritten(s, id, rec) == s,
        removed(s, id) == s,
        affected(s, id) == 0,
{
    assert forall|k: int| 0 <= k < s.len() implies s[k].id != id by {
        if s[k].id == id {
            assert(holds_id(s, id));
        }
    }
    assert(overwritten(s, id, rec) =~= s);
}

/// A product created under a fresh identifier is found under it, with the
/// submitted fields.
pub proof fn lemma_create_then_get(s: Seq<ProductModel>, id: u128, rec: RecordModel)
    requires
        ids_unique(s),
        !holds_id(s, id),
    ensures
        lookup(inserted(s, id, rec), id) == Some(rec),
{
    lemma_create_then_list(s, id, rec);
    let t = inserted(s, id, rec);
    lemma_lookup_at(t, s.len() as int);
}

/// After an overwrite of `id`, a fetch of `id` finds exactly the new fields
/// where the row existed, and nothing where it did not.
pub proof fn lemma_update_then_get(s: Seq<ProductModel>, id: u128, rec: RecordModel)
    requires
        ids_unique(s),
    ensures
        ids_unique(overwritten(s, id, rec)),
        lookup(overwritten(s, id, rec), id) == if holds_id(s, id) {
            Some(rec)
        } else {
            None::<RecordModel>
        },
{
    let t = overwritten(s, id, rec);
    assert forall|i: int, j: int|
        0 <= i < t.len() && 0 <= j < t.len() && i != j implies #[trigger] t[i].id
        != #[trigger] t[j].id by {
        assert(s[i].id != s[j].id);
    }
    if holds_id(s, id) {
        let k = index_of(s, id);
        assert(t[k] == ProductModel { id, record: rec });
        lemma_lookup_at(t, k);
    } else {
        lemma_absent_id(s, id, rec);
    }
}

/// After a delete of `id`, a fetch of `id` finds nothing, and a second delete
/// of `id` affects no row and changes nothing.
pub proof fn lemma_delete_then_get(s: Seq<ProductModel>, id: u128)
    requires
        ids_unique(s),
    ensures
        ids_unique(removed(s, id)),
        !holds_id(removed(s, id), id),
        lookup(removed(s, id), id) is None,
        affected(removed(s, id), id) == 0,
        removed(removed(s, id), id) == removed(s, id),
{
    let t = removed(s, id);
    if holds_id(s, id) {
        let k = index_of(s, id);
        assert forall|i: int, j: int|
            0 <= i < t.len() && 0 <= j < t.len() && i != j implies #[trigger] t[i].id
            != #[trigger] t[j].id by {
            let a = if i < k { i } else { i + 1 };
            let b = if j < k { j } else { j + 1 };
            assert(t[i] == s[a] && t[j] == s[b]);
        }
        if holds_id(t, id) {
            let i = choose|i: int| 0 <= i < t.len() && #[trigger] t[i].id == id;
            let a = if i < k { i } else { i + 1 };
            assert(t[i] == s[a]);
            assert(s[a].id == s[k].id);
        }
    }
    lemma_absent_id(t, id, RecordModel {
        name: Seq::empty(),
        details: Seq::empty(),
        price_bits: 0,
        stock: 0,
        image: Seq::empty(),
        category: Seq::empty(),
    });
}

} // verus!
