use vstd::prelude::*;

verus! {

/// A point in time, as microseconds since the Unix epoch (UTC, no zone).
#[derive(Debug, PartialEq, Eq, Structural)]
pub struct Timestamp {
    pub micros: i64,
}

impl Clone for Timestamp {
    fn clone(&self) -> (r: Self)
        ensures
            r == *self,
    {
        Timestamp { micros: self.micros }
    }
}

impl Copy for Timestamp {}

/// A stored product row.
#[derive(Debug)]
pub struct ProductModel {
    /// Store-assigned surrogate key.
    pub id: i32,
    /// External identifier, the 128 bits of a UUID in big-endian order.
    pub uuid: u128,
    pub name: String,
    pub description: String,
    /// Set at creation and refreshed on every update.
    pub created_at: Timestamp,
}

/// The data a product is created or updated from.
#[derive(Debug)]
pub struct CreateProductModel {
    pub name: String,
    pub description: String,
}

/// An item, as handed in and out of the item layers. `id` is `None` on
/// input that has not been stored yet.
#[derive(Debug)]
pub struct ItemModel {
    pub id: Option<i32>,
    pub product_id: i32,
    pub name: String,
    pub quantity: i32,
}

/// The fields of an item without its key.
#[derive(Debug)]
pub struct GetItemModel {
    pub product_id: i32,
    pub name: String,
    pub quantity: i32,
}

/// The fields of an item that an update may change.
#[derive(Debug)]
pub struct UpdateItemModel {
    pub name: String,
    pub quantity: i32,
}

/// A stored item row.
#[derive(Debug)]
pub struct ItemRow {
    pub id: i32,
    pub name: String,
    pub product_id: i32,
    pub quantity: i32,
}

/// Mathematical value of a product row.
pub struct ProductView {
    pub id: i32,
    pub uuid: u128,
    pub name: Seq<char>,
    pub description: Seq<char>,
    pub created_at: i64,
}

/// Mathematical value of an item.
pub struct ItemView {
    pub id: Option<i32>,
    pub product_id: i32,
    pub name: Seq<char>,
    pub quantity: i32,
}

/// Mathematical value of an item row.
pub struct ItemRowView {
    pub id: i32,
    pub name: Seq<char>,
    pub product_id: i32,
    pub quantity: i32,
}

impl View for ProductModel {
    type V = ProductView;

    open spec fn view(&self) -> ProductView {
        ProductView {
            id: self.id,
            uuid: self.uuid,
            name: self.name@,
            description: self.description@,
            created_at: self.created_at.micros,
        }
    }
}

impl View for ItemModel {
    type V = ItemView;

    open spec fn view(&self) -> ItemView {
        ItemView {
            id: self.id,
            product_id: self.product_id,
            name: self.name@,
            quantity: self.quantity,
        }
    }
}

impl View for ItemRow {
    type V = ItemRowView;

    open spec fn view(&self) -> ItemRowView {
        ItemRowView {
            id: self.id,
            name: self.name@,
            product_id: self.product_id,
            quantity: self.quantity,
        }
    }
}

impl ItemRowView {
    /// The item that a stored row is handed out as.
    pub open spec fn to_item(self) -> ItemView {
        ItemView {
            id: Some(self.id),
            product_id: self.product_id,
            name: self.name,
            quantity: self.quantity,
        }
    }
}

impl Clone for ProductModel {
    fn clone(&self) -> (r: Self)
        ensures
            r == *self,
    {
        ProductModel {
            id: self.id,
            uuid: self.uuid,
            name: self.name.clone(),
            description: self.description.clone(),
            created_at: self.created_at,
        }
    }
}

impl Clone for CreateProductModel {
    fn clone(&self) -> (r: Self)
        ensures
            r == *self,
    {
        CreateProductModel { name: self.name.clone(), description: self.description.clone() }
    }
}

impl Clone for ItemModel {
    fn clone(&self) -> (r: Self)
        ensures
            r == *self,
    {
        ItemModel {
            id: self.id,
            product_id: self.product_id,
            name: self.name.clone(),
            quantity: self.quantity,
        }
    }
}

impl Clone for GetItemModel {
    fn clone(&self) -> (r: Self)
        ensures
            r == *self,
    {
        GetItemModel { product_id: self.product_id, name: self.name.clone(), quantity: self.quantity }
    }
}

impl Clone for UpdateItemModel {
    fn clone(&self) -> (r: Self)
        ensures
            r == *self,
    {
        UpdateItemModel { name: self.name.clone(), quantity: self.quantity }
    }
}

impl Clone for ItemRow {
    fn clone(&self) -> (r: Self)
        ensures
            r == *self,
    {
        ItemRow {
            id: self.id,
            name: self.name.clone(),
            product_id: self.product_id,
            quantity: self.quantity,
        }
    }
}

impl ItemRow {
    /// The item that this stored row is handed out as.
    pub fn to_item(&self) -> (r: ItemModel)
        ensures
            r@ == self@.to_item(),
    {
        ItemModel {
            id: Some(self.id),
            product_id: self.product_id,
            name: self.name.clone(),
            quantity: self.quantity,
        }
    }
}

impl UpdateItemModel {
    /// The partial update these fields describe: the product is left as it
    /// is (product id 0).
    pub fn to_item(&self) -> (r: ItemModel)
        ensures
            r@ == (ItemView { id: None, product_id: 0, name: self.name@, quantity: self.quantity }),
    {
        ItemModel { id: None, product_id: 0, name: self.name.clone(), quantity: self.quantity }
    }
}

impl GetItemModel {
    /// The item these fields describe, not stored yet.
    pub fn to_item(&self) -> (r: ItemModel)
        ensures
            r@ == (ItemView {
                id: None,
                product_id: self.product_id,
                name: self.name@,
                quantity: self.quantity,
            }),
    {
        ItemModel {
            id: None,
            product_id: self.product_id,
            name: self.name.clone(),
            quantity: self.quantity,
        }
    }
}

} // verus!
