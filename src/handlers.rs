use vstd::prelude::*;

use crate::product::{InsertProduct, Product, ProductId, ProductModel};
use crate::reply::{
    create_reply, delete_reply, fetch_reply, list_reply, update_reply, Reply, StoreError,
};
use crate::table::{holds_id, inserted, lookup, overwritten, removed, ProductTable};

verus! {

/// Lists every product of `table`, in the table's order.
pub fn get_products(table: &ProductTable) -> (r: Reply)
    ensures
        r matches Reply::Listed(rows) && rows@.map_values(|p: Product| p@) == table@,
{
    list_reply(Ok(table.load_all()))
}

/// Fetches the product with identifier `id`.
pub fn get_product_by_id(table: &ProductTable, id: ProductId) -> (r: Reply)
    requires
        table.wf(),
    ensures
        match lookup(table@, id.value) {
            Some(rec) => r matches Reply::Found(p) && p@ == (ProductModel {
                id: id.value,
                record: rec,
            }),
            None => r == Reply::NotFound,
        },
{
    fetch_reply(Ok(table.find(id)))
}

/// Stores `item` under identifier `id` and echoes it back; an identifier
/// already in use is a store failure and stores nothing.
pub fn add_product_with_id(table: &mut ProductTable, id: ProductId, item: InsertProduct) -> (r:
    Reply)
    requires
        old(table).wf(),
    ensures
        final(table).wf(),
        final(table)@ == inserted(old(table)@, id.value, item@),
        if holds_id(old(table)@, id.value) {
            r == Reply::Failed(StoreError::DuplicateId)
        } else {
            r == Reply::Created(item)
        },
{
    let stored = table.insert(id, &item);
    if stored {
        create_reply(item, Ok(()))
    } else {
        create_reply(item, Err(StoreError::DuplicateId))
    }
}

/// Stores `item` under a fresh random identifier and echoes it back.
pub fn add_product(table: &mut ProductTable, item: InsertProduct) -> (r: Reply)
    requires
        old(table).wf(),
    ensures
        final(table).wf(),
        exists|id: u128|
            {
                &&& final(table)@ == inserted(old(table)@, id, item@)
                &&& if holds_id(old(table)@, id) {
                    r == Reply::Failed(StoreError::DuplicateId)
                } else {
                    r == Reply::Created(item)
                }
            },
{
    let id = ProductId::random();
    add_product_with_id(table, id, item)
}

/// Overwrites every field of the product with identifier `id` by those of
/// `item`.
pub fn update_product(table: &mut ProductTable, id: ProductId, item: InsertProduct) -> (r: Reply)
    requires
        old(table).wf(),
    ensures
        final(table).wf(),
        final(table)@ == overwritten(old(table)@, id.value, item@),
        r == if holds_id(old(table)@, id.value) {
            Reply::Updated
        } else {
            Reply::NotFound
        },
{
    let n = table.overwrite(id, &item);
    update_reply(Ok(n))
}

/// Deletes the product with identifier `id`.
pub fn delete_product(table: &mut ProductTable, id: ProductId) -> (r: Reply)
    requires
        old(table).wf(),
    ensures
        final(table).wf(),
        final(table)@ == removed(old(table)@, id.value),
        r == if holds_id(old(table)@, id.value) {
            Reply::Deleted
        } else {
            Reply::NotFound
        },
{
    let n = table.remove(id);
    delete_reply(Ok(n))
}

} // verus!
