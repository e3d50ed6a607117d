use vstd::prelude::*;

use crate::error::{EntityKind, ServiceError, StoreError, ValidationError};
use crate::item_repository::{items_of, merge_item, ItemRepository};
use crate::model::{ItemModel, ItemRow, ItemRowView, ItemView};
use crate::outcome::{found, removed, stored, Next};
use crate::store::{has_item_id, has_product_id, replace_item, Database};

verus! {

/// `after` is `before` with the item `it` created from `data`: it got the
/// next item key, and nothing else changed.
pub open spec fn item_created(
    before: Database,
    after: Database,
    data: ItemView,
    it: ItemView,
) -> bool {
    &&& it == ItemView {
        id: Some(before.next_item_id()),
        product_id: data.product_id,
        name: data.name,
        quantity: data.quantity,
    }
    &&& after.items() == before.items().push(
        ItemRowView {
            id: before.next_item_id(),
            name: data.name,
            product_id: data.product_id,
            quantity: data.quantity,
        },
    )
    &&& after.products() == before.products()
    &&& after.next_product_id() == before.next_product_id()
    &&& after.next_item_id() == before.next_item_id() + 1
}

/// `it` is what the stored row with key `id` is handed out as.
pub open spec fn found_item(db: Database, id: i32, it: ItemView) -> bool {
    exists|k: int|
        0 <= k < db.items().len() && (#[trigger] db.items()[k]).id == id && it
            == db.items()[k].to_item()
}

/// An item that was just created is found under its key, and what is found
/// there equals in every field what the creation returned.
pub proof fn lemma_created_item_is_found(
    before: Database,
    after: Database,
    data: ItemView,
    it: ItemView,
)
    requires
        before.wf(),
        after.wf(),
        item_created(before, after, data, it),
    ensures
        it.id is Some,
        has_item_id(after.items(), it.id->Some_0),
        found_item(after, it.id->Some_0, it),
        forall|other: ItemView| found_item(after, it.id->Some_0, other) ==> other == it,
{
    let n = before.items().len() as int;
    let id = it.id->Some_0;
    assert(after.items()[n].id == id);
    assert(after.items()[n].to_item() == it);
    assert forall|other: ItemView| found_item(after, id, other) implies other == it by {
        let k = choose|k: int|
            0 <= k < after.items().len() && (#[trigger] after.items()[k]).id == id && other
                == after.items()[k].to_item();
        if k != n {
            assert(after.items()[k].id != after.items()[n].id);
        }
    }
}

/// Enforces the item rules above `ItemRepository` and reports failures in
/// the service error taxonomy.
pub struct ItemService;

impl ItemService {
    /// The business rule on item data, for a creation and for an update:
    /// the name is not empty. Whether the product id names a product is left
    /// to the store's foreign key.
    pub fn validate(item_data: &ItemModel) -> (r: Result<(), ServiceError>)
        ensures
            item_data.name@.len() == 0 ==> r == Err::<(), ServiceError>(
                ServiceError::Validation(ValidationError::EmptyName(EntityKind::Item)),
            ),
            item_data.name@.len() != 0 ==> r is Ok,
    {
        if item_data.name.as_str().is_empty() {
            Err(ServiceError::Validation(ValidationError::EmptyName(EntityKind::Item)))
        } else {
            Ok(())
        }
    }

    /// Creates an item. An empty name is rejected before the store is
    /// touched; a product id that names no product (0 included) fails in the
    /// store.
    pub fn create_item(db: &mut Database, item_data: ItemModel) -> (r: Result<ItemModel, ServiceError>)
        requires
            old(db).wf(),
        ensures
            final(db).wf(),
            item_data.name@.len() == 0 ==> r == Err::<ItemModel, ServiceError>(
                ServiceError::Validation(ValidationError::EmptyName(EntityKind::Item)),
            ) && *final(db) == *old(db),
            item_data.name@.len() != 0 && !has_product_id(
                old(db).products(),
                item_data.product_id,
            ) ==> r == Err::<ItemModel, ServiceError>(
                ServiceError::Store(StoreError::ForeignKeyViolation),
            ),
            item_data.name@.len() != 0 && has_product_id(
                old(db).products(),
                item_data.product_id,
            ) && old(db).next_item_id() == i32::MAX ==> r == Err::<ItemModel, ServiceError>(
                ServiceError::Store(StoreError::KeyExhausted),
            ),
            item_data.name@.len() != 0 && has_product_id(
                old(db).products(),
                item_data.product_id,
            ) && old(db).next_item_id() < i32::MAX ==> r is Ok,
            r is Err ==> final(db).same_as(old(db)),
            r matches Ok(it) ==> item_created(*old(db), *final(db), item_data@, it@),
    {
        match Self::validate(&item_data) {
            Err(e) => {
                return Err(e);
            },
            Ok(()) => {},
        }
        stored(ItemRepository::create(db, item_data))
    }

    /// All items; an empty store gives an empty sequence.
    pub fn get_all_items(db: &Database) -> (r: Result<Vec<ItemModel>, ServiceError>)
        ensures
            r matches Ok(v) && v@.map_values(|it: ItemModel| it@) == items_of(db.items()),
    {
        stored(ItemRepository::find_all(db))
    }

    /// The item with the given key, or `NotFound`.
    pub fn get_item_by_id(db: &Database, id: i32) -> (r: Result<ItemModel, ServiceError>)
        ensures
            !has_item_id(db.items(), id) ==> r == Err::<ItemModel, ServiceError>(
                ServiceError::NotFound(EntityKind::Item),
            ),
            has_item_id(db.items(), id) ==> (r matches Ok(it) && found_item(*db, id, it@)),
    {
        found(ItemRepository::find_by_id(db, id), EntityKind::Item)
    }

    /// The step of an update after the lookup by key: write the merged row,
    /// or reply `NotFound`, or pass a store failure on.
    pub fn after_lookup(found: &Result<Option<ItemRow>, StoreError>, update_data: &ItemModel) -> (n:
        Next<ItemRow, ItemModel>)
        ensures
            match *found {
                Ok(Some(row)) => (n matches Next::Write(w) && w@ == merge_item(row@, update_data@)),
                Ok(None) => n == Next::<ItemRow, ItemModel>::Reply(
                    Err(ServiceError::NotFound(EntityKind::Item)),
                ),
                Err(e) => n == Next::<ItemRow, ItemModel>::Reply(Err(ServiceError::Store(e))),
            },
    {
        match found {
            Ok(Some(row)) => Next::Write(ItemRepository::merge(row, update_data)),
            Ok(None) => Next::Reply(Err(ServiceError::NotFound(EntityKind::Item))),
            Err(e) => Next::Reply(Err(ServiceError::Store(e.clone()))),
        }
    }

    /// The step of an update after the write: the stored row as an item, or
    /// the store failure passed on.
    pub fn after_write(saved: Result<ItemRow, StoreError>) -> (r: Result<ItemModel, ServiceError>)
        ensures
            match saved {
                Ok(row) => (r matches Ok(it) && it@ == row@.to_item()),
                Err(e) => r == Err::<ItemModel, ServiceError>(ServiceError::Store(e)),
            },
    {
        match saved {
            Ok(row) => Ok(row.to_item()),
            Err(e) => Err(ServiceError::Store(e)),
        }
    }

    /// Partial update of the item with the given key: the name is replaced,
    /// and the quantity and product id where they are not 0. An empty name is
    /// rejected before the store is touched; an unknown key gives `NotFound`;
    /// a product id that names no product fails in the store.
    pub fn update_item(db: &mut Database, id: i32, update_data: ItemModel) -> (r: Result<
        ItemModel,
        ServiceError,
    >)
        requires
            old(db).wf(),
        ensures
            final(db).wf(),
            update_data.name@.len() == 0 ==> r == Err::<ItemModel, ServiceError>(
                ServiceError::Validation(ValidationError::EmptyName(EntityKind::Item)),
            ) && *final(db) == *old(db),
            update_data.name@.len() != 0 && !has_item_id(old(db).items(), id) ==> r == Err::<
                ItemModel,
                ServiceError,
            >(ServiceError::NotFound(EntityKind::Item)),
            r is Err ==> final(db).same_as(old(db)),
            update_data.name@.len() != 0 ==> forall|k: int|
                0 <= k < old(db).items().len() && (#[trigger] old(db).items()[k]).id == id ==> {
                    let m = merge_item(old(db).items()[k], update_data@);
                    &&& has_product_id(old(db).products(), m.product_id) ==> (r matches Ok(it)
                        && it@ == m.to_item() && final(db).items() == old(db).items().update(k, m))
                    &&& !has_product_id(old(db).products(), m.product_id) ==> r == Err::<
                        ItemModel,
                        ServiceError,
                    >(ServiceError::Store(StoreError::ForeignKeyViolation))
                },
            final(db).products() == old(db).products(),
            final(db).next_item_id() == old(db).next_item_id(),
            final(db).next_product_id() == old(db).next_product_id(),
    {
        match Self::validate(&update_data) {
            Err(e) => {
                return Err(e);
            },
            Ok(()) => {},
        }
        let lookup = ItemRepository::find_row(db, id);
        let ghost rs = db.items();
        match Self::after_lookup(&lookup, &update_data) {
            Next::Reply(r) => r,
            Next::Write(row) => {
                let ghost existing = lookup->Ok_0->Some_0;
                let ghost k0 = choose|k: int| 0 <= k < rs.len() && #[trigger] rs[k] == existing@;
                assert forall|k: int| 0 <= k < rs.len() && (#[trigger] rs[k]).id == id implies k
                    == k0 by {
                    if k != k0 {
                        assert(rs[k].id != rs[k0].id);
                    }
                }
                let ghost v = row@;
                let saved = ItemRepository::save(db, row);
                assert(replace_item(rs, v) =~= rs.update(k0, v)) by {
                    assert forall|j: int| 0 <= j < rs.len() && j != k0 implies rs[j].id != v.id by {
                        assert(rs[j].id != rs[k0].id);
                    }
                }
                Self::after_write(saved)
            },
        }
    }

    /// Deletes the item with the given key; an unknown key gives `NotFound`.
    pub fn delete_item(db: &mut Database, id: i32) -> (r: Result<(), ServiceError>)
        requires
            old(db).wf(),
        ensures
            final(db).wf(),
            r is Err <==> !has_item_id(old(db).items(), id),
            r is Err ==> r == Err::<(), ServiceError>(ServiceError::NotFound(EntityKind::Item))
                && final(db).same_as(old(db)),
            r is Ok ==> exists|k: int|
                0 <= k < old(db).items().len() && (#[trigger] old(db).items()[k]).id == id
                    && final(db).items() == old(db).items().remove(k),
            final(db).products() == old(db).products(),
            final(db).next_item_id() == old(db).next_item_id(),
            final(db).next_product_id() == old(db).next_product_id(),
    {
        removed(ItemRepository::delete(db, id), EntityKind::Item)
    }
}

} // verus!
