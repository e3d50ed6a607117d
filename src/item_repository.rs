use vstd::prelude::*;

use crate::error::StoreError;
use crate::model::{ItemModel, ItemRow, ItemRowView, ItemView};
use crate::store::{has_item_id, has_product_id, replace_item, Database};

verus! {

/// The row `existing` after a partial update from `u`: the name is always
/// replaced; a quantity or product id of 0 means "leave unchanged".
pub open spec fn merge_item(existing: ItemRowView, u: ItemView) -> ItemRowView {
    ItemRowView {
        id: existing.id,
        name: u.name,
        product_id: if u.product_id != 0 {
            u.product_id
        } else {
            existing.product_id
        },
        quantity: if u.quantity != 0 {
            u.quantity
        } else {
            existing.quantity
        },
    }
}

/// The items that the rows `rs` are handed out as.
pub open spec fn items_of(rs: Seq<ItemRowView>) -> Seq<ItemView> {
    rs.map_values(|x: ItemRowView| x.to_item())
}

/// Translates item operations into store operations. Items are addressed
/// by their surrogate key.
pub struct ItemRepository;

impl ItemRepository {
    /// The row that a partial update of `existing` from `update_data` stores.
    pub fn merge(existing: &ItemRow, update_data: &ItemModel) -> (r: ItemRow)
        ensures
            r@ == merge_item(existing@, update_data@),
    {
        ItemRow {
            id: existing.id,
            name: update_data.name.clone(),
            product_id: if update_data.product_id != 0 {
                update_data.product_id
            } else {
                existing.product_id
            },
            quantity: if update_data.quantity != 0 {
                update_data.quantity
            } else {
                existing.quantity
            },
        }
    }

    /// Stores a new item. Whether `product_id` names a product is left to
    /// the store's foreign key.
    pub fn create(db: &mut Database, item_data: ItemModel) -> (r: Result<ItemModel, StoreError>)
        requires
            old(db).wf(),
        ensures
            final(db).wf(),
            final(db).products() == old(db).products(),
            final(db).next_product_id() == old(db).next_product_id(),
            !has_product_id(old(db).products(), item_data.product_id) ==> r == Err::<
                ItemModel,
                StoreError,
            >(StoreError::ForeignKeyViolation),
            has_product_id(old(db).products(), item_data.product_id) && old(db).next_item_id()
                == i32::MAX ==> r == Err::<ItemModel, StoreError>(StoreError::KeyExhausted),
            has_product_id(old(db).products(), item_data.product_id) && old(db).next_item_id()
                < i32::MAX ==> r is Ok,
            r is Err ==> final(db).items() == old(db).items() && final(db).next_item_id() == old(
                db,
            ).next_item_id(),
            r matches Ok(it) ==> it@ == (ItemView {
                id: Some(old(db).next_item_id()),
                product_id: item_data.product_id,
                name: item_data.name@,
                quantity: item_data.quantity,
            }) && final(db).items() == old(db).items().push(
                ItemRowView {
                    id: old(db).next_item_id(),
                    name: item_data.name@,
                    product_id: item_data.product_id,
                    quantity: item_data.quantity,
                },
            ) && final(db).next_item_id() == old(db).next_item_id() + 1,
    {
        match db.insert_item(item_data.name, item_data.product_id, item_data.quantity) {
            Ok(row) => Ok(row.to_item()),
            Err(e) => Err(e),
        }
    }

    /// All stored items, in insertion order.
    pub fn find_all(db: &Database) -> (r: Result<Vec<ItemModel>, StoreError>)
        ensures
            r matches Ok(v) && v@.map_values(|it: ItemModel| it@) == items_of(db.items()),
    {
        let rows = db.item_rows();
        let ghost rv = rows@.map_values(|x: ItemRow| x@);
        let mut out: Vec<ItemModel> = Vec::new();
        let mut k: usize = 0;
        while k < rows.len()
            invariant
                k <= rows@.len(),
                rv == db.items(),
                rv == rows@.map_values(|x: ItemRow| x@),
                out@.map_values(|it: ItemModel| it@) == items_of(rv.take(k as int)),
            decreases rows@.len() - k,
        {
            let ghost before = out@.map_values(|it: ItemModel| it@);
            let it = rows[k].to_item();
            out.push(it);
            assert(out@.map_values(|it: ItemModel| it@) =~= before.push(rv[k as int].to_item()));
            assert(items_of(rv.take(k + 1)) =~= items_of(rv.take(k as int)).push(
                rv[k as int].to_item(),
            ));
            k += 1;
        }
        assert(rv.take(k as int) =~= rv);
        Ok(out)
    }

    /// The item with the given key, if one is stored.
    pub fn find_by_id(db: &Database, id: i32) -> (r: Result<Option<ItemModel>, StoreError>)
        ensures
            r matches Ok(found) && (found is None <==> !has_item_id(db.items(), id)) && (
            found matches Some(it) ==> exists|k: int|
                0 <= k < db.items().len() && (#[trigger] db.items()[k]).id == id && it@
                    == db.items()[k].to_item()),
    {
        match db.item_by_id(id) {
            Some(row) => Ok(Some(row.to_item())),
            None => Ok(None),
        }
    }

    /// The stored row with the given key, if there is one.
    pub fn find_row(db: &Database, id: i32) -> (r: Result<Option<ItemRow>, StoreError>)
        ensures
            r matches Ok(found) && (found is None <==> !has_item_id(db.items(), id)) && (
            found matches Some(x) ==> x.id == id && exists|k: int|
                0 <= k < db.items().len() && #[trigger] db.items()[k] == x@),
    {
        Ok(db.item_by_id(id))
    }

    /// Writes back a changed item row, matched by its surrogate key; the
    /// product id must name a stored product.
    pub fn save(db: &mut Database, row: ItemRow) -> (r: Result<ItemRow, StoreError>)
        requires
            old(db).wf(),
        ensures
            final(db).wf(),
            final(db).products() == old(db).products(),
            final(db).next_item_id() == old(db).next_item_id(),
            final(db).next_product_id() == old(db).next_product_id(),
            !has_item_id(old(db).items(), row.id) ==> r == Err::<ItemRow, StoreError>(
                StoreError::RecordNotUpdated,
            ),
            has_item_id(old(db).items(), row.id) && !has_product_id(
                old(db).products(),
                row.product_id,
            ) ==> r == Err::<ItemRow, StoreError>(StoreError::ForeignKeyViolation),
            has_item_id(old(db).items(), row.id) && has_product_id(
                old(db).products(),
                row.product_id,
            ) ==> r is Ok,
            r is Err ==> final(db).items() == old(db).items(),
            r matches Ok(p) ==> p@ == row@ && final(db).items() == replace_item(
                old(db).items(),
                row@,
            ),
    {
        db.update_item_row(row)
    }

    /// Partial update of the item with the given key (see `merge_item`);
    /// `None` where no item has it. The merged product id must name a
    /// stored product.
    pub fn update(db: &mut Database, id: i32, update_data: ItemModel) -> (r: Result<
        Option<ItemModel>,
        StoreError,
    >)
        requires
            old(db).wf(),
        ensures
            final(db).wf(),
            final(db).products() == old(db).products(),
            final(db).next_item_id() == old(db).next_item_id(),
            final(db).next_product_id() == old(db).next_product_id(),
            !has_item_id(old(db).items(), id) ==> r == Ok::<Option<ItemModel>, StoreError>(None),
            r is Err ==> r == Err::<Option<ItemModel>, StoreError>(
                StoreError::ForeignKeyViolation,
            ),
            !(r matches Ok(Some(_))) ==> final(db).items() == old(db).items(),
            forall|k: int|
                0 <= k < old(db).items().len() && (#[trigger] old(db).items()[k]).id == id ==> {
                    let m = merge_item(old(db).items()[k], update_data@);
                    &&& has_product_id(old(db).products(), m.product_id) ==> (r matches Ok(
                        Some(it),
                    ) && it@ == m.to_item() && final(db).items() == old(db).items().update(k, m))
                    &&& !has_product_id(old(db).products(), m.product_id) ==> r is Err
                },
    {
        let existing = match db.item_by_id(id) {
            Some(row) => row,
            None => {
                return Ok(None);
            },
        };
        let ghost rs = db.items();
        let ghost k0 = choose|k: int| 0 <= k < rs.len() && #[trigger] rs[k] == existing@;
        let row = Self::merge(&existing, &update_data);
        let ghost v = row@;
        assert forall|k: int| 0 <= k < rs.len() && (#[trigger] rs[k]).id == id implies k == k0 by {
            if k != k0 {
                assert(rs[k].id != rs[k0].id);
            }
        }
        match db.update_item_row(row) {
            Ok(stored) => {
                assert(replace_item(rs, v) =~= rs.update(k0, v)) by {
                    assert forall|j: int| 0 <= j < rs.len() && j != k0 implies rs[j].id != v.id by {
                        assert(rs[j].id != rs[k0].id);
                    }
                }
                Ok(Some(stored.to_item()))
            },
            Err(e) => Err(e),
        }
    }

    /// Removes the item with the given key; whether one was removed.
    pub fn delete(db: &mut Database, id: i32) -> (r: Result<bool, StoreError>)
        requires
            old(db).wf(),
        ensures
            final(db).wf(),
            final(db).products() == old(db).products(),
            final(db).next_item_id() == old(db).next_item_id(),
            final(db).next_product_id() == old(db).next_product_id(),
            r is Ok,
            r == Ok::<bool, StoreError>(false) <==> !has_item_id(old(db).items(), id),
            r == Ok::<bool, StoreError>(false) ==> final(db).items() == old(db).items(),
            r == Ok::<bool, StoreError>(true) ==> exists|k: int|
                0 <= k < old(db).items().len() && (#[trigger] old(db).items()[k]).id == id
                    && final(db).items() == old(db).items().remove(k),
    {
        let n = db.delete_item_by_id(id);
        Ok(n > 0)
    }
}

} // verus!
