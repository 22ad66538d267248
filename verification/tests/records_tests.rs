use interface::date::Date;
use interface::error::Error;
use interface::product_types::{self, ProductType};
use interface::products::{self, Product};
use interface::sales::{self, Sale};
use interface::store::Table;

#[test]
fn product_round_trip_keeps_fields() {
    let mut db = Table::new();
    let product = Product::new(
        String::from("Tile"),
        String::from("Glazed tile 20x20"),
        String::from("A-1001"),
        1500,
    );
    product.create(&mut db).unwrap();
    let fetched = products::get(&db, product.id.clone()).unwrap();
    assert_eq!(fetched.product_type, "Tile");
    assert_eq!(fetched.product_name, "Glazed tile 20x20");
    assert_eq!(fetched.article_number, "A-1001");
    assert_eq!(fetched.minimum_cost, 1500);
    assert_eq!(fetched.id, product.id);
}

#[test]
fn product_delete_leaves_other_rows() {
    let mut db = Table::new();
    let kept = Product::new(String::from("Tile"), String::from("Kept"), String::from("K-1"), 1);
    let gone = Product::new(String::from("Tile"), String::from("Gone"), String::from("G-1"), 2);
    kept.create(&mut db).unwrap();
    gone.create(&mut db).unwrap();
    let outcome = gone.delete(&mut db).unwrap();
    assert_eq!(outcome.rows_affected, 1);
    let rows = products::get_all(&db).unwrap();
    assert_eq!(rows.len(), 1);
    assert_eq!(rows[0].id, kept.id);
}

#[test]
fn product_type_is_keyed_by_name() {
    let mut db = Table::new();
    let category = ProductType::new(String::from("Tile"), 1200f64.to_bits());
    category.create(&mut db).unwrap();
    let fetched = product_types::get(&db, String::from("Tile")).unwrap();
    assert_eq!(fetched.product_type, "Tile");
    assert_eq!(f64::from_bits(fetched.coefficient_bits), 1200f64);
    let missing = product_types::get(&db, String::from("Brick"));
    assert!(matches!(missing, Err(Error::DatabaseError(_))));
}

#[test]
fn product_type_equality_is_on_the_name_alone() {
    let one = ProductType::new(String::from("Tile"), 1f64.to_bits());
    let other = ProductType::new(String::from("Tile"), 2f64.to_bits());
    assert_eq!(one, other);
    let different = ProductType::new(String::from("Brick"), 1f64.to_bits());
    assert_ne!(one, different);
}

#[test]
fn duplicate_identities_make_get_ambiguous() {
    let mut db = Table::new();
    let one = ProductType::new(String::from("Tile"), 1f64.to_bits());
    let two = ProductType::new(String::from("Tile"), 2f64.to_bits());
    one.create(&mut db).unwrap();
    two.create(&mut db).unwrap();
    let ambiguous = product_types::get(&db, String::from("Tile"));
    assert!(matches!(ambiguous, Err(Error::DatabaseError(_))));
    let rendered = ambiguous.unwrap_err().message();
    assert_eq!(
        rendered,
        "Ошибка при выполнении запроса:\nquery returned more than one row for an identity expected to be unique"
    );
    let outcome = one.delete(&mut db).unwrap();
    assert_eq!(outcome.rows_affected, 2);
}

#[test]
fn sale_round_trip_keeps_fields() {
    let mut db = Table::new();
    let day = Date::from_ordinal_date(2024, 60).unwrap();
    let sale = Sale::new(String::from("product-1"), 7, day, String::from("partner-1"));
    sale.create(&mut db).unwrap();
    let fetched = sales::get(&db, sale.id.clone()).unwrap();
    assert_eq!(fetched.product_id, "product-1");
    assert_eq!(fetched.quantity, 7);
    assert_eq!(fetched.sale_date, day);
    assert_eq!(fetched.partner_id, "partner-1");
    assert_eq!(fetched.id, sale.id);
}

#[test]
fn sales_survive_partner_deletion() {
    let mut sales_db = Table::new();
    let day = Date::from_ordinal_date(2023, 1).unwrap();
    let sale = Sale::new(String::from("product-1"), 1, day, String::from("partner-1"));
    sale.create(&mut sales_db).unwrap();
    let rows = sales::get_all(&sales_db).unwrap();
    assert_eq!(rows.len(), 1);
    assert_eq!(rows[0].partner_id, "partner-1");
    sale.delete(&mut sales_db).unwrap();
    assert_eq!(sales::get_all(&sales_db).unwrap().len(), 0);
}
