use vstd::prelude::*;

use crate::error::{EntityKind, ServiceError, StoreError, ValidationError};
use crate::ident::is_v4_uuid;
use crate::model::{CreateProductModel, ProductModel, ProductView, Timestamp};
use crate::ident::now;
use crate::outcome::{found, removed, stored, Next};
use crate::product_repository::{updated_product, ProductRepository};
use crate::store::{has_uuid, is_referenced, replace_product, Database};

verus! {

/// `after` is `before` with the product `p` created from a name and a
/// description: it got the next product key and a uuid that no stored
/// product had, and nothing else changed.
pub open spec fn product_created(
    before: Database,
    after: Database,
    name: Seq<char>,
    description: Seq<char>,
    p: ProductView,
) -> bool {
    &&& p.id == before.next_product_id()
    &&& p.name == name
    &&& p.description == description
    &&& !has_uuid(before.products(), p.uuid)
    &&& after.products() == before.products().push(p)
    &&& after.items() == before.items()
    &&& after.next_product_id() == before.next_product_id() + 1
    &&& after.next_item_id() == before.next_item_id()
}

/// A created product's uuid differs from the uuid of every product stored
/// before it, and the uuids of all stored products stay pairwise distinct.
pub proof fn lemma_created_uuid_is_unique(
    before: Database,
    after: Database,
    name: Seq<char>,
    description: Seq<char>,
    p: ProductView,
)
    requires
        before.wf(),
        after.wf(),
        product_created(before, after, name, description, p),
    ensures
        forall|i: int|
            0 <= i < before.products().len() ==> (#[trigger] before.products()[i]).uuid
                != p.uuid,
        forall|i: int, j: int|
            0 <= i < after.products().len() && 0 <= j < after.products().len() && i != j ==> (
            #[trigger] after.products()[i]).uuid != (#[trigger] after.products()[j]).uuid,
{
}

/// An update keeps a product's keys and replaces exactly its name, its
/// description and its timestamp.
pub proof fn lemma_update_keeps_keys(
    existing: ProductView,
    name: Seq<char>,
    description: Seq<char>,
    at: i64,
)
    ensures
        updated_product(existing, name, description, at).id == existing.id,
        updated_product(existing, name, description, at).uuid == existing.uuid,
        updated_product(existing, name, description, at).name == name,
        updated_product(existing, name, description, at).description == description,
        updated_product(existing, name, description, at).created_at == at,
{
}

/// Enforces the product rules above `ProductRepository` and reports
/// failures in the service error taxonomy.
pub struct ProductService;

impl ProductService {
    /// The business rule on product data: the name is not empty.
    pub fn validate(product_data: &CreateProductModel) -> (r: Result<(), ServiceError>)
        ensures
            product_data.name@.len() == 0 ==> r == Err::<(), ServiceError>(
                ServiceError::Validation(ValidationError::EmptyName(EntityKind::Product)),
            ),
            product_data.name@.len() != 0 ==> r is Ok,
    {
        if product_data.name.as_str().is_empty() {
            Err(ServiceError::Validation(ValidationError::EmptyName(EntityKind::Product)))
        } else {
            Ok(())
        }
    }

    /// Creates a product with a fresh uuid; an empty name is rejected
    /// before the store is touched.
    pub fn create_product(db: &mut Database, product_data: CreateProductModel) -> (r: Result<
        ProductModel,
        ServiceError,
    >)
        requires
            old(db).wf(),
        ensures
            final(db).wf(),
            product_data.name@.len() == 0 ==> r == Err::<ProductModel, ServiceError>(
                ServiceError::Validation(ValidationError::EmptyName(EntityKind::Product)),
            ) && *final(db) == *old(db),
            product_data.name@.len() != 0 && old(db).next_product_id() < i32::MAX ==> r is Ok
                || r == Err::<ProductModel, ServiceError>(
                ServiceError::Store(StoreError::UniqueViolation),
            ),
            product_data.name@.len() != 0 && old(db).next_product_id() == i32::MAX ==> r == Err::<
                ProductModel,
                ServiceError,
            >(ServiceError::Store(StoreError::KeyExhausted)),
            r == Err::<ProductModel, ServiceError>(
                ServiceError::Store(StoreError::UniqueViolation),
            ) ==> old(db).products().len() > 0,
            r is Err ==> final(db).same_as(old(db)),
            r matches Ok(p) ==> product_created(
                *old(db),
                *final(db),
                product_data.name@,
                product_data.description@,
                p@,
            ) && is_v4_uuid(p.uuid),
    {
        match Self::validate(&product_data) {
            Err(e) => {
                return Err(e);
            },
            Ok(()) => {},
        }
        stored(ProductRepository::create(db, product_data))
    }

    /// All products; an empty store gives an empty sequence.
    pub fn get_all_products(db: &Database) -> (r: Result<Vec<ProductModel>, ServiceError>)
        ensures
            r matches Ok(v) && v@.map_values(|p: ProductModel| p@) == db.products(),
    {
        stored(ProductRepository::find_all(db))
    }

    /// The product with the given uuid, or `NotFound`.
    pub fn get_product_by_uuid(db: &Database, uuid: u128) -> (r: Result<ProductModel, ServiceError>)
        ensures
            !has_uuid(db.products(), uuid) ==> r == Err::<ProductModel, ServiceError>(
                ServiceError::NotFound(EntityKind::Product),
            ),
            has_uuid(db.products(), uuid) ==> (r matches Ok(p) && p.uuid == uuid && exists|i: int|
                0 <= i < db.products().len() && #[trigger] db.products()[i] == p@),
    {
        found(ProductRepository::find_by_uuid(db, uuid), EntityKind::Product)
    }

    /// The step of an update after the lookup by uuid: write the updated row
    /// (stamped `at`), or reply `NotFound`, or pass a store failure on.
    pub fn after_lookup(
        found: &Result<Option<ProductModel>, StoreError>,
        update_data: &CreateProductModel,
        at: Timestamp,
    ) -> (n: Next<ProductModel, ProductModel>)
        ensures
            match *found {
                Ok(Some(p)) => (n matches Next::Write(w) && w@ == updated_product(
                    p@,
                    update_data.name@,
                    update_data.description@,
                    at.micros,
                )),
                Ok(None) => n == Next::<ProductModel, ProductModel>::Reply(
                    Err(ServiceError::NotFound(EntityKind::Product)),
                ),
                Err(e) => n == Next::<ProductModel, ProductModel>::Reply(
                    Err(ServiceError::Store(e)),
                ),
            },
    {
        match found {
            Ok(Some(p)) => Next::Write(ProductRepository::updated(p, update_data, at)),
            Ok(None) => Next::Reply(Err(ServiceError::NotFound(EntityKind::Product))),
            Err(e) => Next::Reply(Err(ServiceError::Store(e.clone()))),
        }
    }

    /// Replaces the name and description of the product with the given uuid
    /// and refreshes its timestamp. An empty name is rejected before the
    /// store is touched; an unknown uuid gives `NotFound`.
    pub fn update_product(db: &mut Database, uuid: u128, update_data: CreateProductModel) -> (r:
        Result<ProductModel, ServiceError>)
        requires
            old(db).wf(),
        ensures
            final(db).wf(),
            update_data.name@.len() == 0 ==> r == Err::<ProductModel, ServiceError>(
                ServiceError::Validation(ValidationError::EmptyName(EntityKind::Product)),
            ) && *final(db) == *old(db),
            update_data.name@.len() != 0 && !has_uuid(old(db).products(), uuid) ==> r == Err::<
                ProductModel,
                ServiceError,
            >(ServiceError::NotFound(EntityKind::Product)),
            r is Err ==> final(db).same_as(old(db)),
            update_data.name@.len() != 0 && has_uuid(old(db).products(), uuid) ==> (r matches Ok(
                p,
            ) && exists|i: int|
                0 <= i < old(db).products().len() && (#[trigger] old(db).products()[i]).uuid
                    == uuid && p@ == updated_product(
                    old(db).products()[i],
                    update_data.name@,
                    update_data.description@,
                    p.created_at.micros,
                ) && final(db).products() == old(db).products().update(i, p@)),
            final(db).items() == old(db).items(),
            final(db).next_item_id() == old(db).next_item_id(),
            final(db).next_product_id() == old(db).next_product_id(),
    {
        match Self::validate(&update_data) {
            Err(e) => {
                return Err(e);
            },
            Ok(()) => {},
        }
        let lookup = ProductRepository::find_by_uuid(db, uuid);
        let ghost ps = db.products();
        let at = now();
        match Self::after_lookup(&lookup, &update_data, at) {
            Next::Reply(r) => r,
            Next::Write(row) => {
                let ghost existing = lookup->Ok_0->Some_0;
                let ghost i = choose|i: int| 0 <= i < ps.len() && #[trigger] ps[i] == existing@;
                assert(ps[i].id == row.id);
                assert forall|j: int| 0 <= j < ps.len() && (#[trigger] ps[j]).uuid
                    == row.uuid implies ps[j].id == row.id by {
                    if j != i {
                        assert(ps[j].uuid != ps[i].uuid);
                    }
                }
                let ghost v = row@;
                let saved = ProductRepository::save(db, row);
                assert(replace_product(ps, v) =~= ps.update(i, v)) by {
                    assert forall|j: int| 0 <= j < ps.len() && j != i implies ps[j].id != v.id by {
                        assert(ps[j].id != ps[i].id);
                    }
                }
                stored(saved)
            },
        }
    }

    /// Deletes the product with the given uuid. An unknown uuid gives
    /// `NotFound`; a product that items still reference is kept and the
    /// store's foreign-key failure is returned.
    pub fn delete_product(db: &mut Database, uuid: u128) -> (r: Result<(), ServiceError>)
        requires
            old(db).wf(),
        ensures
            final(db).wf(),
            !has_uuid(old(db).products(), uuid) ==> r == Err::<(), ServiceError>(
                ServiceError::NotFound(EntityKind::Product),
            ),
            has_uuid(old(db).products(), uuid) ==> r is Ok || r == Err::<(), ServiceError>(
                ServiceError::Store(StoreError::ForeignKeyViolation),
            ),
            r is Err ==> final(db).same_as(old(db)),
            (r == Err::<(), ServiceError>(ServiceError::Store(StoreError::ForeignKeyViolation)))
                <==> exists|i: int|
                0 <= i < old(db).products().len() && (#[trigger] old(db).products()[i]).uuid
                    == uuid && is_referenced(old(db).items(), old(db).products()[i].id),
            r is Ok <==> exists|i: int|
                0 <= i < old(db).products().len() && (#[trigger] old(db).products()[i]).uuid
                    == uuid && final(db).products() == old(db).products().remove(i),
            final(db).items() == old(db).items(),
            final(db).next_item_id() == old(db).next_item_id(),
            final(db).next_product_id() == old(db).next_product_id(),
    {
        removed(ProductRepository::delete(db, uuid), EntityKind::Product)
    }
}

} // verus!
