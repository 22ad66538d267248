use interface::error::Error;
use interface::partners::{self, Partner};
use interface::store::Table;

fn sample_partner(name: &str, inn: &str, rating: i64) -> Partner {
    Partner::new(
        String::from("LLC"),
        String::from(name),
        String::from("Director"),
        String::from("mail@example.com"),
        String::from("+7 900 000-00-00"),
        String::from("Main street 1"),
        String::from(inn),
        rating,
    )
}

#[test]
fn generated_identities_are_36_characters() {
    let partner = sample_partner("Acme", "123", 5);
    assert_eq!(partner.id.chars().count(), 36);
}

#[test]
fn new_keeps_every_field() {
    let partner = sample_partner("Acme", "123", 5);
    assert_eq!(partner.partner_type, "LLC");
    assert_eq!(partner.partner_name, "Acme");
    assert_eq!(partner.director, "Director");
    assert_eq!(partner.email, "mail@example.com");
    assert_eq!(partner.phone, "+7 900 000-00-00");
    assert_eq!(partner.legal_address, "Main street 1");
    assert_eq!(partner.inn, "123");
    assert_eq!(partner.rating, 5);
}

#[test]
fn create_then_get_returns_equal_record() {
    let mut db = Table::new();
    let partner = sample_partner("Acme", "123", 5);
    let outcome = partner.create(&mut db).unwrap();
    assert_eq!(outcome.rows_affected, 1);
    let fetched = partners::get(&db, partner.id.clone()).unwrap();
    assert_eq!(fetched.id, partner.id);
    assert_eq!(fetched.partner_type, partner.partner_type);
    assert_eq!(fetched.partner_name, partner.partner_name);
    assert_eq!(fetched.director, partner.director);
    assert_eq!(fetched.email, partner.email);
    assert_eq!(fetched.phone, partner.phone);
    assert_eq!(fetched.legal_address, partner.legal_address);
    assert_eq!(fetched.inn, partner.inn);
    assert_eq!(fetched.rating, partner.rating);
}

#[test]
fn get_of_unknown_identity_is_a_database_error() {
    let db: Table<Partner> = Table::new();
    let missing = partners::get(&db, String::from("no-such-id"));
    assert!(matches!(missing, Err(Error::DatabaseError(_))));
    let rendered = missing.unwrap_err().message();
    assert_eq!(
        rendered,
        "Ошибка при выполнении запроса:\nno rows returned by a query that expected to return at least one row"
    );
}

#[test]
fn delete_is_idempotent_and_get_then_fails() {
    let mut db = Table::new();
    let partner = sample_partner("Acme", "123", 5);
    partner.create(&mut db).unwrap();
    let first = partner.delete(&mut db).unwrap();
    assert_eq!(first.rows_affected, 1);
    let second = partner.delete(&mut db).unwrap();
    assert_eq!(second.rows_affected, 0);
    let gone = partners::get(&db, partner.id.clone());
    assert!(matches!(gone, Err(Error::DatabaseError(_))));
}

#[test]
fn get_all_returns_each_created_identity_once() {
    let mut db = Table::new();
    let first = sample_partner("First", "1", 1);
    let second = sample_partner("Second", "2", 2);
    let third = sample_partner("Third", "3", 3);
    first.create(&mut db).unwrap();
    second.create(&mut db).unwrap();
    third.create(&mut db).unwrap();
    let rows = partners::get_all(&db).unwrap();
    assert_eq!(rows.len(), 3);
    for wanted in [&first, &second, &third] {
        let occurrences = rows.iter().filter(|row| row.id == wanted.id).count();
        assert_eq!(occurrences, 1);
    }
}

#[test]
fn partner_lifecycle_scenario() {
    let mut db = Table::new();
    let partner = sample_partner("Acme", "123", 5);
    partner.create(&mut db).unwrap();
    let rows = partners::get_all(&db).unwrap();
    assert!(rows.iter().any(|row| row.id == partner.id && row.partner_name == "Acme"));
    partner.delete(&mut db).unwrap();
    let rows = partners::get_all(&db).unwrap();
    assert!(rows.iter().all(|row| row.id != partner.id));
    assert_eq!(rows.len(), 0);
}

#[test]
fn partner_equality_is_identity_based() {
    let partner = sample_partner("Acme", "123", 5);
    let same_row = partner.clone();
    assert_eq!(partner, same_row);
    let other = sample_partner("Acme", "123", 5);
    assert_ne!(partner, other);
}
