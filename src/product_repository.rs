use vstd::prelude::*;

use crate::error::StoreError;
use crate::ident::{fresh_uuid, is_v4_uuid, now};
use crate::model::{CreateProductModel, ProductModel, ProductView, Timestamp};
use crate::store::{has_product_id, has_uuid, is_referenced, replace_product, Database};

verus! {

/// The row `existing` after an update from `data` at time `at`: name and
/// description replaced, timestamp refreshed, both keys kept.
pub open spec fn updated_product(
    existing: ProductView,
    name: Seq<char>,
    description: Seq<char>,
    at: i64,
) -> ProductView {
    ProductView { name, description, created_at: at, ..existing }
}

/// Translates product operations into store operations. Products are
/// addressed by their uuid, never by the surrogate key.
pub struct ProductRepository;

impl ProductRepository {
    /// The row that an update of `existing` from `data` at `at` stores.
    pub fn updated(existing: &ProductModel, data: &CreateProductModel, at: Timestamp) -> (r:
        ProductModel)
        ensures
            r@ == updated_product(existing@, data.name@, data.description@, at.micros),
    {
        ProductModel {
            id: existing.id,
            uuid: existing.uuid,
            name: data.name.clone(),
            description: data.description.clone(),
            created_at: at,
        }
    }

    /// Stores a new product with the given identifier and creation time.
    pub fn create_with(
        db: &mut Database,
        product_data: CreateProductModel,
        uuid: u128,
        at: Timestamp,
    ) -> (r: Result<ProductModel, StoreError>)
        requires
            old(db).wf(),
        ensures
            final(db).wf(),
            final(db).items() == old(db).items(),
            final(db).next_item_id() == old(db).next_item_id(),
            old(db).next_product_id() == i32::MAX ==> r == Err::<ProductModel, StoreError>(
                StoreError::KeyExhausted,
            ),
            has_uuid(old(db).products(), uuid) && old(db).next_product_id() < i32::MAX ==> r
                == Err::<ProductModel, StoreError>(StoreError::UniqueViolation),
            !has_uuid(old(db).products(), uuid) && old(db).next_product_id() < i32::MAX ==> r is Ok,
            r is Err ==> final(db).products() == old(db).products() && final(db).next_product_id()
                == old(db).next_product_id(),
            r matches Ok(p) ==> p@ == (ProductView {
                id: old(db).next_product_id(),
                uuid,
                name: product_data.name@,
                description: product_data.description@,
                created_at: at.micros,
            }) && final(db).products() == old(db).products().push(p@)
                && final(db).next_product_id() == old(db).next_product_id() + 1,
    {
        db.insert_product(uuid, product_data.name, product_data.description, at)
    }

    /// Stores a new product under a freshly generated uuid, stamped with the
    /// current time.
    pub fn create(db: &mut Database, product_data: CreateProductModel) -> (r: Result<
        ProductModel,
        StoreError,
    >)
        requires
            old(db).wf(),
        ensures
            final(db).wf(),
            final(db).items() == old(db).items(),
            final(db).next_item_id() == old(db).next_item_id(),
            old(db).next_product_id() < i32::MAX ==> r is Ok || r == Err::<
                ProductModel,
                StoreError,
            >(StoreError::UniqueViolation),
            old(db).next_product_id() == i32::MAX ==> r == Err::<ProductModel, StoreError>(
                StoreError::KeyExhausted,
            ),
            r == Err::<ProductModel, StoreError>(StoreError::UniqueViolation) ==> old(
                db,
            ).products().len() > 0,
            r is Err ==> final(db).products() == old(db).products() && final(db).next_product_id()
                == old(db).next_product_id(),
            r matches Ok(p) ==> p.id == old(db).next_product_id() && p.name@
                == product_data.name@ && p.description@ == product_data.description@
                && is_v4_uuid(p.uuid) && !has_uuid(old(db).products(), p.uuid)
                && final(db).products() == old(db).products().push(p@)
                && final(db).next_product_id() == old(db).next_product_id() + 1,
    {
        let uuid = fresh_uuid();
        let at = now();
        Self::create_with(db, product_data, uuid, at)
    }

    /// All stored products, in insertion order.
    pub fn find_all(db: &Database) -> (r: Result<Vec<ProductModel>, StoreError>)
        ensures
            r matches Ok(v) && v@.map_values(|p: ProductModel| p@) == db.products(),
    {
        Ok(db.product_rows())
    }

    /// The product with the given uuid, if one is stored.
    pub fn find_by_uuid(db: &Database, uuid: u128) -> (r: Result<Option<ProductModel>, StoreError>)
        ensures
            r matches Ok(found) && (found is None <==> !has_uuid(db.products(), uuid)) && (
            found matches Some(p) ==> p.uuid == uuid && exists|i: int|
                0 <= i < db.products().len() && #[trigger] db.products()[i] == p@),
    {
        Ok(db.product_by_uuid(uuid))
    }

    /// Writes back a changed product row, matched by its surrogate key.
    pub fn save(db: &mut Database, row: ProductModel) -> (r: Result<ProductModel, StoreError>)
        requires
            old(db).wf(),
        ensures
            final(db).wf(),
            final(db).items() == old(db).items(),
            final(db).next_item_id() == old(db).next_item_id(),
            final(db).next_product_id() == old(db).next_product_id(),
            !has_product_id(old(db).products(), row.id) ==> r == Err::<ProductModel, StoreError>(
                StoreError::RecordNotUpdated,
            ),
            has_product_id(old(db).products(), row.id) ==> (r is Ok <==> forall|j: int|
                0 <= j < old(db).products().len() && (#[trigger] old(db).products()[j]).uuid
                    == row.uuid ==> old(db).products()[j].id == row.id),
            r is Err ==> final(db).products() == old(db).products(),
            r is Err && has_product_id(old(db).products(), row.id) ==> r
                == Err::<ProductModel, StoreError>(StoreError::UniqueViolation),
            r matches Ok(p) ==> p@ == row@ && final(db).products() == replace_product(
                old(db).products(),
                row@,
            ),
    {
        db.update_product_row(row)
    }

    /// Read-modify-write of the product with the given uuid at time `at`;
    /// `None` where no product has it.
    pub fn update_with(
        db: &mut Database,
        uuid: u128,
        update_data: CreateProductModel,
        at: Timestamp,
    ) -> (r: Result<Option<ProductModel>, StoreError>)
        requires
            old(db).wf(),
        ensures
            final(db).wf(),
            final(db).items() == old(db).items(),
            final(db).next_item_id() == old(db).next_item_id(),
            final(db).next_product_id() == old(db).next_product_id(),
            !has_uuid(old(db).products(), uuid) ==> r == Ok::<
                Option<ProductModel>,
                StoreError,
            >(None) && final(db).products() == old(db).products(),
            has_uuid(old(db).products(), uuid) ==> (r matches Ok(Some(p)) && exists|i: int|
                0 <= i < old(db).products().len() && (#[trigger] old(db).products()[i]).uuid
                    == uuid && p@ == updated_product(
                    old(db).products()[i],
                    update_data.name@,
                    update_data.description@,
                    at.micros,
                ) && final(db).products() == old(db).products().update(i, p@)),
    {
        let existing = match db.product_by_uuid(uuid) {
            Some(p) => p,
            None => {
                return Ok(None);
            },
        };
        let ghost ps = db.products();
        let ghost i = choose|i: int| 0 <= i < ps.len() && #[trigger] ps[i] == existing@;
        let row = Self::updated(&existing, &update_data, at);
        assert(ps[i].id == row.id);
        assert forall|j: int| 0 <= j < ps.len() && (#[trigger] ps[j]).uuid == row.uuid implies ps[j].id
            == row.id by {
            if j != i {
                assert(ps[j].uuid != ps[i].uuid);
            }
        }
        let ghost v = row@;
        let result = db.update_product_row(row);
        match result {
            Ok(p) => {
                assert(replace_product(ps, v) =~= ps.update(i, v)) by {
                    assert forall|j: int| 0 <= j < ps.len() && j != i implies ps[j].id != v.id by {
                        assert(ps[j].id != ps[i].id);
                    }
                }
                Ok(Some(p))
            },
            Err(e) => Err(e),
        }
    }

    /// Read-modify-write of the product with the given uuid: name and
    /// description replaced, timestamp refreshed to the current time;
    /// `None` where no product has the uuid.
    pub fn update(db: &mut Database, uuid: u128, update_data: CreateProductModel) -> (r: Result<
        Option<ProductModel>,
        StoreError,
    >)
        requires
            old(db).wf(),
        ensures
            final(db).wf(),
            final(db).items() == old(db).items(),
            final(db).next_item_id() == old(db).next_item_id(),
            final(db).next_product_id() == old(db).next_product_id(),
            !has_uuid(old(db).products(), uuid) ==> r == Ok::<
                Option<ProductModel>,
                StoreError,
            >(None) && final(db).products() == old(db).products(),
            has_uuid(old(db).products(), uuid) ==> (r matches Ok(Some(p)) && exists|i: int|
                0 <= i < old(db).products().len() && (#[trigger] old(db).products()[i]).uuid
                    == uuid && p@ == updated_product(
                    old(db).products()[i],
                    update_data.name@,
                    update_data.description@,
                    p.created_at.micros,
                ) && final(db).products() == old(db).products().update(i, p@)),
    {
        let at = now();
        Self::update_with(db, uuid, update_data, at)
    }

    /// Removes every product with the given uuid; whether one was removed.
    /// A product that items still reference is kept and the store's
    /// foreign-key failure is returned.
    pub fn delete(db: &mut Database, uuid: u128) -> (r: Result<bool, StoreError>)
        requires
            old(db).wf(),
        ensures
            final(db).wf(),
            final(db).items() == old(db).items(),
            final(db).next_item_id() == old(db).next_item_id(),
            final(db).next_product_id() == old(db).next_product_id(),
            !has_uuid(old(db).products(), uuid) ==> r == Ok::<bool, StoreError>(false),
            has_uuid(old(db).products(), uuid) && r is Ok ==> r == Ok::<bool, StoreError>(true),
            r != Ok::<bool, StoreError>(true) ==> final(db).products() == old(db).products(),
            r is Err <==> exists|i: int|
                0 <= i < old(db).products().len() && (#[trigger] old(db).products()[i]).uuid
                    == uuid && is_referenced(old(db).items(), old(db).products()[i].id),
            r is Err ==> r == Err::<bool, StoreError>(StoreError::ForeignKeyViolation),
            r == Ok::<bool, StoreError>(true) <==> exists|i: int|
                0 <= i < old(db).products().len() && (#[trigger] old(db).products()[i]).uuid
                    == uuid && final(db).products() == old(db).products().remove(i),
    {
        match db.delete_products_by_uuid(uuid) {
            Ok(n) => Ok(n > 0),
            Err(e) => Err(e),
        }
    }
}

} // verus!
