use inventory::error::{EntityKind, ServiceError, StoreError, ValidationError};
use inventory::item_service::ItemService;
use inventory::model::{ItemModel, ProductModel, Timestamp};
use inventory::response::{status_of, DeleteResponse, ItemResponse, ProductResponse};

fn bolt() -> ItemModel {
    ItemModel { id: Some(1), product_id: 1, name: "Bolt".to_string(), quantity: 10 }
}

#[test]
fn status_codes_follow_the_error_kind() {
    assert_eq!(status_of(&ServiceError::Validation(ValidationError::EmptyName(EntityKind::Item))), 400);
    assert_eq!(status_of(&ServiceError::NotFound(EntityKind::Item)), 404);
    assert_eq!(status_of(&ServiceError::Store(StoreError::UniqueViolation)), 500);
}

#[test]
fn item_reply_carries_item_or_error_text() {
    let (code, body) = ItemResponse::of_item(Ok(bolt()), 201);
    assert_eq!(code, 201);
    assert!(matches!(body, ItemResponse::Success(it) if it.name == "Bolt" && it.quantity == 10));
    let (code, body) = ItemResponse::of_item(Err(ServiceError::NotFound(EntityKind::Item)), 200);
    assert_eq!(code, 404);
    assert!(matches!(body, ItemResponse::Error { message } if message == "Item not found"));
}

#[test]
fn item_list_reply() {
    let (code, body) = ItemResponse::of_items(Ok(vec![bolt(), bolt()]));
    assert_eq!(code, 200);
    assert!(matches!(body, ItemResponse::SuccessList(v) if v.len() == 2));
    let (code, _) = ItemResponse::of_items(Err(ServiceError::Store(StoreError::Backend("x".to_string()))));
    assert_eq!(code, 500);
}

#[test]
fn product_replies() {
    let p = ProductModel {
        id: 1,
        uuid: 9,
        name: "Widget".to_string(),
        description: "A widget".to_string(),
        created_at: Timestamp { micros: 0 },
    };
    let (code, body) = ProductResponse::of_product(Ok(p), 201);
    assert_eq!(code, 201);
    assert!(matches!(body, ProductResponse::Success(p) if p.uuid == 9));
    let (code, body) = ProductResponse::of_product(
        Err(ServiceError::Validation(ValidationError::EmptyName(EntityKind::Product))),
        201,
    );
    assert_eq!(code, 400);
    assert!(matches!(body, ProductResponse::Error { message } if message == "Product name cannot be empty"));
    let (code, body) = ProductResponse::of_products(Ok(vec![]));
    assert_eq!(code, 200);
    assert!(matches!(body, ProductResponse::SuccessList(v) if v.is_empty()));
}

#[test]
fn deletion_replies() {
    let (code, body) = DeleteResponse::of_deletion(Ok(()), "Item");
    assert_eq!(code, 200);
    assert!(matches!(body, DeleteResponse::Success { message } if message == "Item deleted successfully"));
    let (code, body) = DeleteResponse::of_deletion(Err(ServiceError::NotFound(EntityKind::Product)), "Product");
    assert_eq!(code, 404);
    assert!(matches!(body, DeleteResponse::Error { message } if message == "Product not found"));
}

#[test]
fn item_update_validation() {
    let mut empty = bolt();
    empty.name = String::new();
    assert_eq!(
        ItemService::validate(&empty),
        Err(ServiceError::Validation(ValidationError::EmptyName(EntityKind::Item)))
    );
    let mut zero = bolt();
    zero.product_id = 0;
    assert_eq!(ItemService::validate(&zero), Ok(()));
}
