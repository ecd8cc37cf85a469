use invent_core::decoder::AuthConfig;
use invent_core::middleware::jwt_middleware;
use invent_core::product::{blank, classify_db_failure, create_product, finish_create_product, CreateProductError, DbFailure};
use invent_core::roles::Roles;
use invent_core::identity::UserContext;

const SECRET: &[u8] = b"inventory-signing-secret";

fn token_for(role: &str) -> String {
    let mut m = serde_json::Map::new();
    m.insert("userId".to_string(), serde_json::Value::String("6f1c2a4e-8b3d-4e5f-9a7b-1c2d3e4f5a6b".to_string()));
    m.insert("inventoryId".to_string(), serde_json::Value::String("0a1b2c3d-4e5f-4a6b-8c7d-9e0f1a2b3c4d".to_string()));
    m.insert("role".to_string(), serde_json::Value::String(role.to_string()));
    jsonwebtoken::encode(
        &jsonwebtoken::Header::default(),
        &serde_json::Value::Object(m),
        &jsonwebtoken::EncodingKey::from_secret(SECRET),
    )
    .unwrap()
}

#[derive(Debug, PartialEq)]
struct Row {
    id: u32,
    name: String,
    price: f64,
    quantity: i32,
}

#[test]
fn staff_post_is_forbidden_before_any_write() {
    let header = format!("Bearer {}", token_for("staff"));
    let user = jwt_middleware(Some(&header), &AuthConfig::from_secret(SECRET.to_vec())).unwrap();
    let r = create_product(&user, "Widget", 9.99 < 0.0, 3);
    assert_eq!(r, Err(CreateProductError::Forbidden));
    assert_eq!(r.unwrap_err().status_code(), 403);
}

#[test]
fn admin_post_is_created() {
    let header = format!("Bearer {}", token_for("admin"));
    let user = jwt_middleware(Some(&header), &AuthConfig::from_secret(SECRET.to_vec())).unwrap();
    let owner = create_product(&user, "Widget", 9.99 < 0.0, 3).unwrap();
    assert_eq!(owner, user.user_id);
    let stored = Row { id: 77, name: "Widget".to_string(), price: 9.99, quantity: 3 };
    let (status, row) = finish_create_product(Ok(stored)).unwrap();
    assert_eq!(status, 201);
    assert_eq!(row, Row { id: 77, name: "Widget".to_string(), price: 9.99, quantity: 3 });
}

#[test]
fn unauthenticated_posts_are_rejected() {
    let config = AuthConfig::from_secret(SECRET.to_vec());
    assert_eq!(jwt_middleware(None, &config).unwrap_err().status_code(), 401);
    assert_eq!(jwt_middleware(Some("Bearer not-a-token"), &config).unwrap_err().status_code(), 401);
}

#[test]
fn payload_checks() {
    let admin = UserContext { user_id: 3, inventory_id: 4, role: Roles::Admin };
    assert_eq!(create_product(&admin, "", false, 1), Err(CreateProductError::NameRequired));
    assert_eq!(create_product(&admin, " \t\n", false, 1), Err(CreateProductError::NameRequired));
    assert_eq!(create_product(&admin, "Bolt", true, 1), Err(CreateProductError::NegativePrice));
    assert_eq!(create_product(&admin, "Bolt", false, -1), Err(CreateProductError::NegativeQuantity));
    assert_eq!(create_product(&admin, "Bolt", false, 0), Ok(3));
    assert_eq!(CreateProductError::NameRequired.status_code(), 400);
    assert_eq!(CreateProductError::NegativeQuantity.message(), "quantity must be >= 0");
    let staff = UserContext { user_id: 3, inventory_id: 4, role: Roles::Staff };
    assert_eq!(create_product(&staff, "", true, -1), Err(CreateProductError::Forbidden));
}

#[test]
fn blank_names() {
    assert!(blank(""));
    assert!(blank(" \u{a0}\u{2003}"));
    assert!(!blank(" a "));
}

#[test]
fn store_failures_map_to_statuses() {
    let unique = DbFailure::Database { code: Some("23505".to_string()) };
    assert_eq!(classify_db_failure(&unique), CreateProductError::Conflict);
    assert_eq!(CreateProductError::Conflict.status_code(), 409);
    let fk = DbFailure::Database { code: Some("23503".to_string()) };
    assert_eq!(classify_db_failure(&fk), CreateProductError::InvalidReference);
    assert_eq!(CreateProductError::InvalidReference.status_code(), 400);
    let other = DbFailure::Database { code: Some("23502".to_string()) };
    assert_eq!(classify_db_failure(&other), CreateProductError::Internal);
    assert_eq!(classify_db_failure(&DbFailure::Database { code: None }), CreateProductError::Internal);
    assert_eq!(classify_db_failure(&DbFailure::RowNotFound), CreateProductError::NotFound);
    assert_eq!(CreateProductError::NotFound.status_code(), 404);
    assert_eq!(classify_db_failure(&DbFailure::Other), CreateProductError::Internal);
    assert_eq!(CreateProductError::Internal.status_code(), 500);
    let r = finish_create_product::<u8>(Err(DbFailure::RowNotFound));
    assert_eq!(r, Err(CreateProductError::NotFound));
    assert_eq!(r.unwrap_err().message(), "database error");
}

#[test]
fn create_rejection_texts() {
    assert_eq!(CreateProductError::Forbidden.message(), "You are not allowed to create products");
    assert_eq!(CreateProductError::Forbidden.status_code(), 403);
    assert_eq!(CreateProductError::NameRequired.message(), "name is required");
    assert_eq!(CreateProductError::NegativePrice.message(), "price must be >= 0");
    for e in [
        CreateProductError::Conflict,
        CreateProductError::InvalidReference,
        CreateProductError::NotFound,
        CreateProductError::Internal,
    ] {
        assert_eq!(e.message(), "database error");
    }
}
