use vstd::prelude::*;

use crate::product::{InsertProduct, Product, ProductId, ProductModel, RecordModel};

verus! {

/// Whether some row of `s` has identifier `id`.
pub open spec fn holds_id(s: Seq<ProductModel>, id: u128) -> bool {
    exists|i: int| 0 <= i < s.len() && #[trigger] s[i].id == id
}

/// No two rows of `s` share an identifier.
pub open spec fn ids_unique(s: Seq<ProductModel>) -> bool {
    forall|i: int, j: int|
        0 <= i < s.len() && 0 <= j < s.len() && i != j ==> #[trigger] s[i].id != #[trigger] s[j].id
}

/// The position of the row with identifier `id`.
pub open spec fn index_of(s: Seq<ProductModel>, id: u128) -> int
    recommends
        holds_id(s, id),
{
    choose|i: int| 0 <= i < s.len() && #[trigger] s[i].id == id
}

/// The record stored under `id`, if there is one.
pub open spec fn lookup(s: Seq<ProductModel>, id: u128) -> Option<RecordModel> {
    if holds_id(s, id) {
        Some(s[index_of(s, id)].record)
    } else {
        None
    }
}

/// The rows after inserting `rec` under a new identifier `id`; an identifier
/// already in use leaves the rows as they are.
pub open spec fn inserted(s: Seq<ProductModel>, id: u128, rec: RecordModel) -> Seq<ProductModel> {
    if holds_id(s, id) {
        s
    } else {
        s.push(ProductModel { id, record: rec })
    }
}

/// The rows after every field of the row with identifier `id` is replaced by
/// those of `rec`.
pub open spec fn overwritten(s: Seq<ProductModel>, id: u128, rec: RecordModel) -> Seq<ProductModel> {
    s.map_values(|p: ProductModel| if p.id == id { ProductModel { id, record: rec } } else { p })
}

/// The rows after the row with identifier `id` is removed.
pub open spec fn removed(s: Seq<ProductModel>, id: u128) -> Seq<ProductModel> {
    if holds_id(s, id) {
        s.remove(index_of(s, id))
    } else {
        s
    }
}

/// The number of rows that an update or a delete of `id` affects.
pub open spec fn affected(s: Seq<ProductModel>, id: u128) -> usize {
    if holds_id(s, id) {
        1
    } else {
        0
    }
}

/// The product table: rows in the order of their insertion, each under an
/// identifier that no other row has.
pub struct ProductTable {
    rows: Vec<Product>,
}

impl View for ProductTable {
    type V = Seq<ProductModel>;

    closed spec fn view(&self) -> Seq<ProductModel> {
        self.rows@.map_values(|p: Product| p@)
    }
}

impl ProductTable {
    /// The table's invariant: identifiers are unique.
    pub open spec fn wf(&self) -> bool {
        ids_unique(self@)
    }

    /// An empty table.
    pub fn new() -> (r: ProductTable)
        ensures
            r.wf(),
            r@ == Seq::<ProductModel>::empty(),
    {
        let r = ProductTable { rows: Vec::new() };
        assert(r@ =~= Seq::<ProductModel>::empty());
        r
    }

    /// The number of rows.
    pub fn len(&self) -> (r: usize)
        ensures
            r == self@.len(),
    {
        self.rows.len()
    }

    /// Copies of all rows, in the table's order.
    pub fn load_all(&self) -> (r: Vec<Product>)
        ensures
            r@.map_values(|p: Product| p@) == self@,
    {
        let mut out: Vec<Product> = Vec::new();
        let n = self.rows.len();
        for k in 0..n
            invariant
                n == self.rows@.len(),
                out@.len() == k,
                forall|j: int| 0 <= j < k ==> (#[trigger] out@[j])@ == self.rows@[j]@,
        {
            out.push(self.rows[k].duplicate());
        }
        assert(out@.map_values(|p: Product| p@) =~= self@);
        out
    }

    /// The position of the row with identifier `id`.
    fn position(&self, id: ProductId) -> (r: Option<usize>)
        ensures
            match r {
                Some(i) => i < self@.len() && self@[i as int].id == id.value,
                None => !holds_id(self@, id.value),
            },
    {
        let n = self.rows.len();
        for k in 0..n
            invariant
                n == self.rows@.len(),
                forall|j: int| 0 <= j < k ==> (#[trigger] self.rows@[j]).id.value != id.value,
        {
            if self.rows[k].id.value == id.value {
                return Some(k);
            }
        }
        assert(!holds_id(self@, id.value)) by {
            if holds_id(self@, id.value) {
                let i = choose|i: int| 0 <= i < self@.len() && #[trigger] self@[i].id == id.value;
                assert(self.rows@[i].id.value == id.value);
            }
        }
        None
    }

    /// A copy of the row with identifier `id`, if there is one.
    pub fn find(&self, id: ProductId) -> (r: Option<Product>)
        requires
            self.wf(),
        ensures
            match r {
                Some(p) => p@.id == id.value && lookup(self@, id.value) == Some(p@.record),
                None => lookup(self@, id.value) is None,
            },
    {
        match self.position(id) {
            Some(i) => {
                let p = self.rows[i].duplicate();
                proof {
                    let k = index_of(self@, id.value);
                    assert(self@[i as int].id == id.value);
                    assert(k == i as int);
                }
                Some(p)
            },
            None => None,
        }
    }

    /// Adds `item` under identifier `id`. An identifier that is already in
    /// use is refused and leaves the table as it was.
    pub fn insert(&mut self, id: ProductId, item: &InsertProduct) -> (r: bool)
        requires
            old(self).wf(),
        ensures
            final(self).wf(),
            final(self)@ == inserted(old(self)@, id.value, item@),
            r == !holds_id(old(self)@, id.value),
    {
        match self.position(id) {
            Some(_) => false,
            None => {
                let p = item.with_id(id);
                self.rows.push(p);
                proof {
                    assert(self@ =~= old(self)@.push(ProductModel { id: id.value, record: item@ }));
                }
                true
            },
        }
    }

    /// Replaces every field of the row with identifier `id` by those of
    /// `item`, and returns the number of rows changed.
    pub fn overwrite(&mut self, id: ProductId, item: &InsertProduct) -> (r: usize)
        requires
            old(self).wf(),
        ensures
            final(self).wf(),
            final(self)@ == overwritten(old(self)@, id.value, item@),
            r == affected(old(self)@, id.value),
    {
        match self.position(id) {
            Some(i) => {
                let p = item.with_id(id);
                self.rows.set(i, p);
                proof {
                    let s = old(self)@;
                    assert forall|k: int| 0 <= k < s.len() && k != i as int implies s[k].id
                        != id.value by {
                        assert(s[k].id != s[i as int].id);
                    }
                    assert(self@ =~= overwritten(s, id.value, item@));
                }
                1
            },
            None => {
                proof {
                    let s = old(self)@;
                    assert forall|k: int| 0 <= k < s.len() implies s[k].id != id.value by {
                        if s[k].id == id.value {
                            assert(holds_id(s, id.value));
                        }
                    }
                    assert(self@ =~= overwritten(s, id.value, item@));
                }
                0
            },
        }
    }

    /// Removes the row with identifier `id`, and returns the number of rows
    /// removed.
    pub fn remove(&mut self, id: ProductId) -> (r: usize)
        requires
            old(self).wf(),
        ensures
            final(self).wf(),
            final(self)@ == removed(old(self)@, id.value),
            r == affected(old(self)@, id.value),
    {
        match self.position(id) {
            Some(i) => {
                self.rows.remove(i);
                proof {
                    let s = old(self)@;
                    let k = index_of(s, id.value);
                    assert(s[i as int].id == id.value);
                    assert(k == i as int);
                    assert(self@ =~= s.remove(i as int));
                }
                1
            },
            None => 0,
        }
    }
}

} // verus!
