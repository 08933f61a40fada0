//! A product catalogue: the records of one table, the operations that create,
//! read, overwrite and delete them, and the replies that each operation
//! gives to an HTTP client.

pub mod product;
pub mod table;
pub mod reply;
pub mod ident;
pub mod handlers;
pub mod laws;
