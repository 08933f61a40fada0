use vstd::prelude::*;

use crate::product::{InsertProduct, Product};

verus! {

/// Why the store could not carry out an operation.
#[derive(Clone, Copy, PartialEq, Eq, Structural, Debug)]
pub enum StoreError {
    /// No connection to the store could be had.
    Connection,
    /// The identifier of a new row is already in use.
    DuplicateId,
    /// The store refused or failed the statement.
    Query,
}

/// The outcome of one request, as the client sees it.
#[derive(Debug)]
pub enum Reply {
    /// Every stored product (200).
    Listed(Vec<Product>),
    /// The product asked for (200).
    Found(Product),
    /// The record as it was submitted, now stored (201).
    Created(InsertProduct),
    /// A product was overwritten (200, with a message).
    Updated,
    /// A product was deleted (200, with a message).
    Deleted,
    /// No product has the identifier asked for (404, with a message).
    NotFound,
    /// The store failed (500, with no body).
    Failed(StoreError),
}

/// The HTTP status of each reply.
pub open spec fn status_of(r: Reply) -> u16 {
    match r {
        Reply::Listed(_) => 200,
        Reply::Found(_) => 200,
        Reply::Created(_) => 201,
        Reply::Updated => 200,
        Reply::Deleted => 200,
        Reply::NotFound => 404,
        Reply::Failed(_) => 500,
    }
}

/// The message that a reply carries as its body.
pub open spec fn message_of(r: Reply) -> Option<Seq<char>> {
    match r {
        Reply::Updated => Some("Product updated"@),
        Reply::Deleted => Some("Product deleted"@),
        Reply::NotFound => Some("Product not found"@),
        _ => None,
    }
}

impl Reply {
    /// The HTTP status code of this reply.
    pub fn status(&self) -> (r: u16)
        ensures
            r == status_of(*self),
    {
        match self {
            Reply::Listed(_) => 200,
            Reply::Found(_) => 200,
            Reply::Created(_) => 201,
            Reply::Updated => 200,
            Reply::Deleted => 200,
            Reply::NotFound => 404,
            Reply::Failed(_) => 500,
        }
    }

    /// The text message that this reply carries, if its body is one.
    pub fn message(&self) -> (r: Option<&'static str>)
        ensures
            match r {
                Some(m) => message_of(*self) == Some(m@),
                None => message_of(*self) is None,
            },
    {
        proof {
            reveal_strlit("Product updated");
            reveal_strlit("Product deleted");
            reveal_strlit("Product not found");
        }
        match self {
            Reply::Updated => Some("Product updated"),
            Reply::Deleted => Some("Product deleted"),
            Reply::NotFound => Some("Product not found"),
            _ => None,
        }
    }
}

/// The reply to a listing, from what the store returned.
pub fn list_reply(result: Result<Vec<Product>, StoreError>) -> (r: Reply)
    ensures
        match result {
            Ok(rows) => r == Reply::Listed(rows),
            Err(e) => r == Reply::Failed(e),
        },
{
    match result {
        Ok(rows) => Reply::Listed(rows),
        Err(e) => Reply::Failed(e),
    }
}

/// The reply to a fetch of one product, from what the store returned: the
/// row if there was one, or `None` if no row matched.
pub fn fetch_reply(result: Result<Option<Product>, StoreError>) -> (r: Reply)
    ensures
        match result {
            Ok(Some(p)) => r == Reply::Found(p),
            Ok(None) => r == Reply::NotFound,
            Err(e) => r == Reply::Failed(e),
        },
{
    match result {
        Ok(Some(p)) => Reply::Found(p),
        Ok(None) => Reply::NotFound,
        Err(e) => Reply::Failed(e),
    }
}

/// The reply to a creation of `item`, from what the store returned.
pub fn create_reply(item: InsertProduct, result: Result<(), StoreError>) -> (r: Reply)
    ensures
        match result {
            Ok(()) => r == Reply::Created(item),
            Err(e) => r == Reply::Failed(e),
        },
{
    match result {
        Ok(()) => Reply::Created(item),
        Err(e) => Reply::Failed(e),
    }
}

/// The reply to an update, from the number of rows that the store changed.
pub fn update_reply(result: Result<usize, StoreError>) -> (r: Reply)
    ensures
        match result {
            Ok(n) => r == if n > 0 { Reply::Updated } else { Reply::NotFound },
            Err(e) => r == Reply::Failed(e),
        },
{
    match result {
        Ok(n) => if n > 0 {
            Reply::Updated
        } else {
            Reply::NotFound
        },
        Err(e) => Reply::Failed(e),
    }
}

/// The reply to a delete, from the number of rows that the store removed.
pub fn delete_reply(result: Result<usize, StoreError>) -> (r: Reply)
    ensures
        match result {
            Ok(n) => r == if n > 0 { Reply::Deleted } else { Reply::NotFound },
            Err(e) => r == Reply::Failed(e),
        },
{
    match result {
        Ok(n) => if n > 0 {
            Reply::Deleted
        } else {
            Reply::NotFound
        },
        Err(e) => Reply::Failed(e),
    }
}

} // verus!
