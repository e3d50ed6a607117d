use inventory::error::{EntityKind, ServiceError, StoreError, ValidationError};
use inventory::item_repository::ItemRepository;
use inventory::item_service::ItemService;
use inventory::model::{
    CreateProductModel, GetItemModel, ItemModel, ItemRow, ProductModel, Timestamp, UpdateItemModel,
};
use inventory::outcome::{found, removed, stored, Next};
use inventory::product_repository::ProductRepository;
use inventory::product_service::ProductService;
use inventory::store::Database;

fn product(name: &str, description: &str) -> CreateProductModel {
    CreateProductModel { name: name.to_string(), description: description.to_string() }
}

fn item(name: &str, product_id: i32, quantity: i32) -> ItemModel {
    ItemModel { id: None, product_id, name: name.to_string(), quantity }
}

fn widget(db: &mut Database) -> ProductModel {
    ProductService::create_product(db, product("Widget", "A widget")).unwrap()
}

#[test]
fn widget_and_bolt_scenario() {
    let mut db = Database::new();
    let p = widget(&mut db);
    assert_eq!(p.name, "Widget");
    assert_eq!(p.description, "A widget");
    assert_ne!(p.uuid, 0);
    let bolt = ItemService::create_item(&mut db, item("Bolt", p.id, 10)).unwrap();
    let id = bolt.id.unwrap();
    let all = ItemService::get_all_items(&db).unwrap();
    assert_eq!(all.len(), 1);
    assert_eq!(all[0].id, Some(id));
    assert_eq!(all[0].name, "Bolt");
    assert_eq!(all[0].product_id, p.id);
    assert_eq!(all[0].quantity, 10);
    assert_eq!(ItemService::delete_item(&mut db, id), Ok(()));
    assert!(ItemService::get_all_items(&db).unwrap().is_empty());
}

#[test]
fn created_products_get_distinct_uuids_and_keys() {
    let mut db = Database::new();
    let a = widget(&mut db);
    let b = ProductService::create_product(&mut db, product("Gadget", "")).unwrap();
    assert_ne!(a.uuid, b.uuid);
    assert_eq!(a.id, 1);
    assert_eq!(b.id, 2);
    assert_eq!(b.description, "");
    assert_eq!(ProductService::get_all_products(&db).unwrap().len(), 2);
}

#[test]
fn created_uuid_is_version_four() {
    let mut db = Database::new();
    let p = widget(&mut db);
    assert_eq!((p.uuid >> 76) & 0xf, 4);
    assert_eq!((p.uuid >> 62) & 0x3, 2);
}

#[test]
fn empty_product_name_is_rejected_without_a_row() {
    let mut db = Database::new();
    let r = ProductService::create_product(&mut db, product("", "nothing"));
    assert_eq!(
        r.unwrap_err(),
        ServiceError::Validation(ValidationError::EmptyName(EntityKind::Product))
    );
    assert!(ProductService::get_all_products(&db).unwrap().is_empty());
    let p = widget(&mut db);
    assert_eq!(p.id, 1);
}

#[test]
fn empty_item_name_is_rejected_without_a_row() {
    let mut db = Database::new();
    let p = widget(&mut db);
    let r = ItemService::create_item(&mut db, item("", p.id, 3));
    assert_eq!(r.unwrap_err(), ServiceError::Validation(ValidationError::EmptyName(EntityKind::Item)));
    assert!(ItemService::get_all_items(&db).unwrap().is_empty());
}

#[test]
fn item_with_product_id_zero_fails_in_the_store() {
    let mut db = Database::new();
    widget(&mut db);
    let r = ItemService::create_item(&mut db, item("Bolt", 0, 3));
    assert_eq!(r.unwrap_err(), ServiceError::Store(StoreError::ForeignKeyViolation));
    assert!(ItemService::get_all_items(&db).unwrap().is_empty());
}

#[test]
fn item_for_missing_product_fails_in_the_store() {
    let mut db = Database::new();
    let p = widget(&mut db);
    let r = ItemService::create_item(&mut db, item("Bolt", p.id + 5, 3));
    assert_eq!(r.unwrap_err(), ServiceError::Store(StoreError::ForeignKeyViolation));
    assert!(ItemService::get_all_items(&db).unwrap().is_empty());
}

#[test]
fn created_item_is_found_by_id() {
    let mut db = Database::new();
    let p = widget(&mut db);
    let created = ItemService::create_item(&mut db, item("Bolt", p.id, -2)).unwrap();
    let got = ItemService::get_item_by_id(&db, created.id.unwrap()).unwrap();
    assert_eq!(got.id, created.id);
    assert_eq!(got.name, created.name);
    assert_eq!(got.product_id, created.product_id);
    assert_eq!(got.quantity, -2);
}

#[test]
fn product_lookup_by_uuid() {
    let mut db = Database::new();
    let p = widget(&mut db);
    let got = ProductService::get_product_by_uuid(&db, p.uuid).unwrap();
    assert_eq!(got.id, p.id);
    assert_eq!(got.name, "Widget");
    assert_eq!(got.created_at, p.created_at);
    let missing = ProductService::get_product_by_uuid(&db, p.uuid ^ 1);
    assert_eq!(missing.unwrap_err(), ServiceError::NotFound(EntityKind::Product));
}

#[test]
fn missing_item_is_not_found() {
    let db = Database::new();
    assert_eq!(ItemService::get_item_by_id(&db, 1).unwrap_err(), ServiceError::NotFound(EntityKind::Item));
}

#[test]
fn deleting_unknown_entities_is_not_found_and_changes_nothing() {
    let mut db = Database::new();
    let p = widget(&mut db);
    ItemService::create_item(&mut db, item("Bolt", p.id, 1)).unwrap();
    assert_eq!(
        ProductService::delete_product(&mut db, p.uuid.wrapping_add(1)),
        Err(ServiceError::NotFound(EntityKind::Product))
    );
    assert_eq!(ItemService::delete_item(&mut db, 99), Err(ServiceError::NotFound(EntityKind::Item)));
    assert_eq!(ProductService::get_all_products(&db).unwrap().len(), 1);
    assert_eq!(ItemService::get_all_items(&db).unwrap().len(), 1);
}

#[test]
fn referenced_product_cannot_be_deleted() {
    let mut db = Database::new();
    let p = widget(&mut db);
    let it = ItemService::create_item(&mut db, item("Bolt", p.id, 1)).unwrap();
    assert_eq!(
        ProductService::delete_product(&mut db, p.uuid),
        Err(ServiceError::Store(StoreError::ForeignKeyViolation))
    );
    assert_eq!(ProductService::get_all_products(&db).unwrap().len(), 1);
    ItemService::delete_item(&mut db, it.id.unwrap()).unwrap();
    assert_eq!(ProductService::delete_product(&mut db, p.uuid), Ok(()));
    assert!(ProductService::get_all_products(&db).unwrap().is_empty());
    assert_eq!(
        ProductService::delete_product(&mut db, p.uuid),
        Err(ServiceError::NotFound(EntityKind::Product))
    );
}

#[test]
fn product_update_replaces_name_and_description_only() {
    let mut db = Database::new();
    let p = widget(&mut db);
    let u = ProductService::update_product(&mut db, p.uuid, product("Sprocket", "A sprocket")).unwrap();
    assert_eq!(u.id, p.id);
    assert_eq!(u.uuid, p.uuid);
    assert_eq!(u.name, "Sprocket");
    assert_eq!(u.description, "A sprocket");
    let stored_row = ProductService::get_product_by_uuid(&db, p.uuid).unwrap();
    assert_eq!(stored_row.name, "Sprocket");
    assert_eq!(stored_row.created_at, u.created_at);
}

#[test]
fn product_update_with_given_time_refreshes_timestamp() {
    let mut db = Database::new();
    let p = ProductRepository::create_with(&mut db, product("Widget", "A widget"), 77, Timestamp { micros: 5 })
        .unwrap();
    assert_eq!(p.uuid, 77);
    assert_eq!(p.created_at, Timestamp { micros: 5 });
    let u = ProductRepository::update_with(&mut db, 77, product("W2", "D2"), Timestamp { micros: 9 })
        .unwrap()
        .unwrap();
    assert_eq!(u.created_at, Timestamp { micros: 9 });
    assert_eq!(u.id, p.id);
    assert_eq!(u.description, "D2");
    let none = ProductRepository::update_with(&mut db, 78, product("W3", ""), Timestamp { micros: 10 });
    assert!(none.unwrap().is_none());
}

#[test]
fn duplicate_uuid_is_a_unique_violation() {
    let mut db = Database::new();
    ProductRepository::create_with(&mut db, product("A", ""), 5, Timestamp { micros: 0 }).unwrap();
    let r = ProductRepository::create_with(&mut db, product("B", ""), 5, Timestamp { micros: 0 });
    assert_eq!(r.unwrap_err(), StoreError::UniqueViolation);
    assert_eq!(ProductRepository::find_all(&db).unwrap().len(), 1);
}

#[test]
fn product_update_rejects_empty_name_and_unknown_uuid() {
    let mut db = Database::new();
    let p = widget(&mut db);
    assert_eq!(
        ProductService::update_product(&mut db, p.uuid, product("", "x")).unwrap_err(),
        ServiceError::Validation(ValidationError::EmptyName(EntityKind::Product))
    );
    assert_eq!(
        ProductService::update_product(&mut db, p.uuid ^ 2, product("N", "x")).unwrap_err(),
        ServiceError::NotFound(EntityKind::Product)
    );
    assert_eq!(ProductService::get_product_by_uuid(&db, p.uuid).unwrap().name, "Widget");
}

#[test]
fn item_update_treats_zero_as_unchanged() {
    let mut db = Database::new();
    let p = widget(&mut db);
    let q = ProductService::create_product(&mut db, product("Gadget", "")).unwrap();
    let it = ItemService::create_item(&mut db, item("Bolt", p.id, 10)).unwrap();
    let id = it.id.unwrap();
    let u = ItemService::update_item(&mut db, id, item("Nut", 0, 0)).unwrap();
    assert_eq!(u.name, "Nut");
    assert_eq!(u.quantity, 10);
    assert_eq!(u.product_id, p.id);
    let u = ItemService::update_item(&mut db, id, item("Nut", q.id, 4)).unwrap();
    assert_eq!(u.quantity, 4);
    assert_eq!(u.product_id, q.id);
    let keep = UpdateItemModel { name: "Screw".to_string(), quantity: 0 }.to_item();
    let u = ItemService::update_item(&mut db, id, keep).unwrap();
    assert_eq!(u.name, "Screw");
    assert_eq!(u.quantity, 4);
    assert_eq!(u.product_id, q.id);
}

#[test]
fn item_update_errors() {
    let mut db = Database::new();
    let p = widget(&mut db);
    let it = ItemService::create_item(&mut db, item("Bolt", p.id, 10)).unwrap();
    let id = it.id.unwrap();
    assert_eq!(
        ItemService::update_item(&mut db, id, item("", 0, 1)).unwrap_err(),
        ServiceError::Validation(ValidationError::EmptyName(EntityKind::Item))
    );
    assert_eq!(
        ItemService::update_item(&mut db, id + 1, item("X", 0, 1)).unwrap_err(),
        ServiceError::NotFound(EntityKind::Item)
    );
    assert_eq!(
        ItemService::update_item(&mut db, id, item("X", p.id + 9, 1)).unwrap_err(),
        ServiceError::Store(StoreError::ForeignKeyViolation)
    );
    assert_eq!(ItemService::get_item_by_id(&db, id).unwrap().name, "Bolt");
}

#[test]
fn merge_keeps_key_and_applies_nonzero_fields() {
    let existing = ItemRow { id: 3, name: "Bolt".to_string(), product_id: 2, quantity: 7 };
    let m = ItemRepository::merge(&existing, &item("Nut", 0, -1));
    assert_eq!(m.id, 3);
    assert_eq!(m.name, "Nut");
    assert_eq!(m.product_id, 2);
    assert_eq!(m.quantity, -1);
}

#[test]
fn updated_product_row_keeps_keys() {
    let existing = ProductModel {
        id: 4,
        uuid: 99,
        name: "A".to_string(),
        description: "B".to_string(),
        created_at: Timestamp { micros: 1 },
    };
    let r = ProductRepository::updated(&existing, &product("C", "D"), Timestamp { micros: 2 });
    assert_eq!((r.id, r.uuid, r.name.as_str(), r.description.as_str()), (4, 99, "C", "D"));
    assert_eq!(r.created_at.micros, 2);
}

#[test]
fn outcome_translation() {
    assert_eq!(stored::<i32>(Ok(1)), Ok(1));
    assert_eq!(stored::<i32>(Err(StoreError::KeyExhausted)), Err(ServiceError::Store(StoreError::KeyExhausted)));
    assert_eq!(found::<i32>(Ok(None), EntityKind::Item), Err(ServiceError::NotFound(EntityKind::Item)));
    assert_eq!(found::<i32>(Ok(Some(2)), EntityKind::Item), Ok(2));
    assert_eq!(
        found::<i32>(Err(StoreError::Backend("down".to_string())), EntityKind::Product),
        Err(ServiceError::Store(StoreError::Backend("down".to_string())))
    );
    assert_eq!(removed(Ok(true), EntityKind::Product), Ok(()));
    assert_eq!(removed(Ok(false), EntityKind::Product), Err(ServiceError::NotFound(EntityKind::Product)));
}

#[test]
fn error_messages() {
    assert_eq!(ServiceError::NotFound(EntityKind::Item).message(), "Item not found");
    assert_eq!(ServiceError::NotFound(EntityKind::Product).message(), "Product not found");
    assert_eq!(
        ServiceError::Validation(ValidationError::EmptyName(EntityKind::Product)).message(),
        "Product name cannot be empty"
    );
    assert_eq!(
        ServiceError::Validation(ValidationError::EmptyName(EntityKind::Item)).message(),
        "Item name cannot be empty"
    );
    assert_eq!(ServiceError::Store(StoreError::ForeignKeyViolation).message(), "foreign key constraint violated");
    assert_eq!(ServiceError::Store(StoreError::Backend("boom".to_string())).message(), "boom");
}

#[test]
fn get_item_model_converts_without_key() {
    let g = GetItemModel { product_id: 2, name: "Bolt".to_string(), quantity: 5 };
    let it = g.to_item();
    assert_eq!(it.id, None);
    assert_eq!((it.product_id, it.name.as_str(), it.quantity), (2, "Bolt", 5));
}

#[test]
fn product_lookup_step_decides_the_write() {
    let existing = ProductModel {
        id: 2,
        uuid: 42,
        name: "Old".to_string(),
        description: "old".to_string(),
        created_at: Timestamp { micros: 1 },
    };
    let data = product("New", "new");
    match ProductService::after_lookup(&Ok(Some(existing)), &data, Timestamp { micros: 8 }) {
        Next::Write(row) => {
            assert_eq!((row.id, row.uuid, row.name.as_str(), row.description.as_str()), (2, 42, "New", "new"));
            assert_eq!(row.created_at.micros, 8);
        }
        Next::Reply(_) => panic!("expected a write"),
    }
    assert!(matches!(
        ProductService::after_lookup(&Ok(None), &data, Timestamp { micros: 8 }),
        Next::Reply(Err(ServiceError::NotFound(EntityKind::Product)))
    ));
    assert!(matches!(
        ProductService::after_lookup(&Err(StoreError::Backend("down".to_string())), &data, Timestamp { micros: 8 }),
        Next::Reply(Err(ServiceError::Store(StoreError::Backend(_))))
    ));
}

#[test]
fn item_lookup_and_write_steps() {
    let existing = ItemRow { id: 5, name: "Bolt".to_string(), product_id: 3, quantity: 7 };
    match ItemService::after_lookup(&Ok(Some(existing)), &item("Nut", 0, 2)) {
        Next::Write(row) => {
            assert_eq!((row.id, row.name.as_str(), row.product_id, row.quantity), (5, "Nut", 3, 2));
            let it = ItemService::after_write(Ok(row)).unwrap();
            assert_eq!(it.id, Some(5));
            assert_eq!(it.quantity, 2);
        }
        Next::Reply(_) => panic!("expected a write"),
    }
    assert!(matches!(
        ItemService::after_lookup(&Ok(None), &item("Nut", 0, 2)),
        Next::Reply(Err(ServiceError::NotFound(EntityKind::Item)))
    ));
    assert_eq!(
        ItemService::after_write(Err(StoreError::ForeignKeyViolation)).unwrap_err(),
        ServiceError::Store(StoreError::ForeignKeyViolation)
    );
}

#[test]
fn repository_save_and_find_row() {
    let mut db = Database::new();
    let p = widget(&mut db);
    let it = ItemService::create_item(&mut db, item("Bolt", p.id, 1)).unwrap();
    let id = it.id.unwrap();
    let row = ItemRepository::find_row(&db, id).unwrap().unwrap();
    assert_eq!(row.name, "Bolt");
    assert!(ItemRepository::find_row(&db, id + 1).unwrap().is_none());
    let moved = ItemRow { id, name: "Bolt".to_string(), product_id: p.id + 1, quantity: 1 };
    assert_eq!(ItemRepository::save(&mut db, moved).unwrap_err(), StoreError::ForeignKeyViolation);
    let gone = ItemRow { id: id + 1, name: "X".to_string(), product_id: p.id, quantity: 1 };
    assert_eq!(ItemRepository::save(&mut db, gone).unwrap_err(), StoreError::RecordNotUpdated);
    let mut renamed = ProductService::get_product_by_uuid(&db, p.uuid).unwrap();
    renamed.name = "Sprocket".to_string();
    assert_eq!(ProductRepository::save(&mut db, renamed).unwrap().name, "Sprocket");
    assert_eq!(ProductRepository::delete(&mut db, p.uuid), Err(StoreError::ForeignKeyViolation));
    ItemService::delete_item(&mut db, id).unwrap();
    assert_eq!(ProductRepository::delete(&mut db, p.uuid), Ok(true));
    assert_eq!(ProductRepository::delete(&mut db, p.uuid), Ok(false));
}
