use vstd::prelude::*;

verus! {

/// The identifier of a product: a 128-bit unique value, assigned once when
/// the product is created and never changed.
#[derive(Clone, Copy, PartialEq, Eq, Structural, Debug, Hash)]
pub struct ProductId {
    pub value: u128,
}

/// The fields of a product without its identifier, as a client submits them.
///
/// The price is held as the bit pattern of an IEEE-754 binary64 number: the
/// catalogue stores and returns it and never computes with it.
#[derive(Debug)]
pub struct InsertProduct {
    pub name: String,
    pub details: String,
    pub price_bits: u64,
    pub stock: i32,
    pub image: String,
    pub category: String,
}

/// A stored product: its identifier and its fields.
#[derive(Debug)]
pub struct Product {
    pub id: ProductId,
    pub name: String,
    pub details: String,
    pub price_bits: u64,
    pub stock: i32,
    pub image: String,
    pub category: String,
}

/// What a record holds, as mathematical values.
pub ghost struct RecordModel {
    pub name: Seq<char>,
    pub details: Seq<char>,
    pub price_bits: u64,
    pub stock: i32,
    pub image: Seq<char>,
    pub category: Seq<char>,
}

/// What a stored product holds: its identifier and its record.
pub ghost struct ProductModel {
    pub id: u128,
    pub record: RecordModel,
}

impl View for InsertProduct {
    type V = RecordModel;

    open spec fn view(&self) -> RecordModel {
        RecordModel {
            name: self.name@,
            details: self.details@,
            price_bits: self.price_bits,
            stock: self.stock,
            image: self.image@,
            category: self.category@,
        }
    }
}

impl View for Product {
    type V = ProductModel;

    open spec fn view(&self) -> ProductModel {
        ProductModel {
            id: self.id.value,
            record: RecordModel {
                name: self.name@,
                details: self.details@,
                price_bits: self.price_bits,
                stock: self.stock,
                image: self.image@,
                category: self.category@,
            },
        }
    }
}

impl InsertProduct {
    /// A copy of this record.
    pub fn duplicate(&self) -> (r: InsertProduct)
        ensures
            r@ == self@,
    {
        InsertProduct {
            name: self.name.clone(),
            details: self.details.clone(),
            price_bits: self.price_bits,
            stock: self.stock,
            image: self.image.clone(),
            category: self.category.clone(),
        }
    }

    /// The stored product that this record becomes under identifier `id`.
    pub fn with_id(&self, id: ProductId) -> (r: Product)
        ensures
            r@ == (ProductModel { id: id.value, record: self@ }),
    {
        Product {
            id,
            name: self.name.clone(),
            details: self.details.clone(),
            price_bits: self.price_bits,
            stock: self.stock,
            image: self.image.clone(),
            category: self.category.clone(),
        }
    }
}

impl Product {
    /// A copy of this product.
    pub fn duplicate(&self) -> (r: Product)
        ensures
            r@ == self@,
    {
        Product {
            id: self.id,
            name: self.name.clone(),
            details: self.details.clone(),
            price_bits: self.price_bits,
            stock: self.stock,
            image: self.image.clone(),
            category: self.category.clone(),
        }
    }

    /// The fields of this product without its identifier.
    pub fn record(&self) -> (r: InsertProduct)
        ensures
            r@ == self@.record,
    {
        InsertProduct {
            name: self.name.clone(),
            details: self.details.clone(),
            price_bits: self.price_bits,
            stock: self.stock,
            image: self.image.clone(),
            category: self.category.clone(),
        }
    }
}

} // verus!
