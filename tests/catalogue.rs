use product_api::handlers::{
    add_product, add_product_with_id, delete_product, get_product_by_id, get_products,
    update_product,
};
use product_api::ident::parse_product_id;
use product_api::product::{InsertProduct, Product, ProductId};
use product_api::reply::{
    create_reply, delete_reply, fetch_reply, list_reply, update_reply, Reply, StoreError,
};
use product_api::table::ProductTable;

fn record(name: &str, price: f64, stock: i32) -> InsertProduct {
    InsertProduct {
        name: name.to_string(),
        details: "Blue ink".to_string(),
        price_bits: price.to_bits(),
        stock,
        image: "pen.png".to_string(),
        category: "Stationery".to_string(),
    }
}

fn same_fields(p: &Product, r: &InsertProduct) -> bool {
    p.name == r.name
        && p.details == r.details
        && p.price_bits == r.price_bits
        && p.stock == r.stock
        && p.image == r.image
        && p.category == r.category
}

fn listed(table: &ProductTable) -> Vec<Product> {
    match get_products(table) {
        Reply::Listed(rows) => rows,
        other => panic!("unexpected reply {:?}", other),
    }
}

#[test]
fn pen_scenario() {
    let mut table = ProductTable::new();
    let created = add_product(&mut table, record("Pen", 1.5, 100));
    assert_eq!(created.status(), 201);
    match &created {
        Reply::Created(item) => {
            assert_eq!(item.name, "Pen");
            assert_eq!(item.details, "Blue ink");
            assert_eq!(f64::from_bits(item.price_bits), 1.5);
            assert_eq!(item.stock, 100);
            assert_eq!(item.image, "pen.png");
            assert_eq!(item.category, "Stationery");
        }
        other => panic!("unexpected reply {:?}", other),
    }

    let rows = listed(&table);
    assert_eq!(rows.len(), 1);
    assert!(same_fields(&rows[0], &record("Pen", 1.5, 100)));
    let id = rows[0].id;

    let got = get_product_by_id(&table, id);
    assert_eq!(got.status(), 200);
    match &got {
        Reply::Found(p) => {
            assert_eq!(p.id, id);
            assert!(same_fields(p, &record("Pen", 1.5, 100)));
        }
        other => panic!("unexpected reply {:?}", other),
    }

    let updated = update_product(&mut table, id, record("Pen", 1.5, 50));
    assert_eq!(updated.status(), 200);
    assert_eq!(updated.message(), Some("Product updated"));
    match get_product_by_id(&table, id) {
        Reply::Found(p) => assert_eq!(p.stock, 50),
        other => panic!("unexpected reply {:?}", other),
    }

    let deleted = delete_product(&mut table, id);
    assert_eq!(deleted.status(), 200);
    assert_eq!(deleted.message(), Some("Product deleted"));
    let gone = get_product_by_id(&table, id);
    assert_eq!(gone.status(), 404);
    assert_eq!(gone.message(), Some("Product not found"));
}

#[test]
fn create_then_list_holds_the_record() {
    let mut table = ProductTable::new();
    add_product(&mut table, record("Pencil", 0.25, 7));
    add_product(&mut table, record("Eraser", 0.5, -3));
    let rows = listed(&table);
    assert_eq!(rows.len(), 2);
    assert!(same_fields(&rows[0], &record("Pencil", 0.25, 7)));
    assert!(same_fields(&rows[1], &record("Eraser", 0.5, -3)));
    assert_ne!(rows[0].id, rows[1].id);
}

#[test]
fn empty_table_lists_nothing() {
    let table = ProductTable::new();
    assert_eq!(table.len(), 0);
    let r = get_products(&table);
    assert_eq!(r.status(), 200);
    assert!(listed(&table).is_empty());
}

#[test]
fn absent_id_is_not_found_everywhere() {
    let mut table = ProductTable::new();
    add_product_with_id(&mut table, ProductId { value: 1 }, record("Pen", 1.5, 100));
    let absent = ProductId { value: 2 };
    assert_eq!(get_product_by_id(&table, absent).status(), 404);
    assert_eq!(update_product(&mut table, absent, record("Ink", 3.0, 1)).status(), 404);
    assert_eq!(delete_product(&mut table, absent).status(), 404);
    let rows = listed(&table);
    assert_eq!(rows.len(), 1);
    assert!(same_fields(&rows[0], &record("Pen", 1.5, 100)));
}

#[test]
fn create_then_get_returns_input_and_id() {
    let mut table = ProductTable::new();
    let id = ProductId { value: 0x1234 };
    let r = add_product_with_id(&mut table, id, record("Ruler", 2.75, 12));
    assert_eq!(r.status(), 201);
    match get_product_by_id(&table, id) {
        Reply::Found(p) => {
            assert_eq!(p.id, id);
            assert!(same_fields(&p, &record("Ruler", 2.75, 12)));
        }
        other => panic!("unexpected reply {:?}", other),
    }
}

#[test]
fn duplicate_id_fails_and_stores_nothing() {
    let mut table = ProductTable::new();
    let id = ProductId { value: 9 };
    add_product_with_id(&mut table, id, record("Pen", 1.5, 100));
    let r = add_product_with_id(&mut table, id, record("Other", 9.0, 1));
    assert_eq!(r.status(), 500);
    assert!(matches!(r, Reply::Failed(StoreError::DuplicateId)));
    assert_eq!(table.len(), 1);
    match get_product_by_id(&table, id) {
        Reply::Found(p) => assert_eq!(p.name, "Pen"),
        other => panic!("unexpected reply {:?}", other),
    }
}

#[test]
fn update_overwrites_every_field() {
    let mut table = ProductTable::new();
    let id = ProductId { value: 5 };
    let other = ProductId { value: 6 };
    add_product_with_id(&mut table, id, record("Pen", 1.5, 100));
    add_product_with_id(&mut table, other, record("Cap", 0.1, 4));
    let fresh = InsertProduct {
        name: "Marker".to_string(),
        details: "Red".to_string(),
        price_bits: 4.0f64.to_bits(),
        stock: 3,
        image: "marker.png".to_string(),
        category: "Art".to_string(),
    };
    assert_eq!(update_product(&mut table, id, fresh.duplicate()).status(), 200);
    match get_product_by_id(&table, id) {
        Reply::Found(p) => assert!(same_fields(&p, &fresh)),
        other => panic!("unexpected reply {:?}", other),
    }
    match get_product_by_id(&table, other) {
        Reply::Found(p) => assert!(same_fields(&p, &record("Cap", 0.1, 4))),
        other => panic!("unexpected reply {:?}", other),
    }
}

#[test]
fn delete_twice_is_not_found_the_second_time() {
    let mut table = ProductTable::new();
    let id = ProductId { value: 11 };
    add_product_with_id(&mut table, id, record("Pen", 1.5, 100));
    assert_eq!(delete_product(&mut table, id).status(), 200);
    assert_eq!(get_product_by_id(&table, id).status(), 404);
    assert_eq!(delete_product(&mut table, id).status(), 404);
    assert_eq!(table.len(), 0);
}

#[test]
fn reply_statuses_and_messages() {
    assert_eq!(Reply::Updated.status(), 200);
    assert_eq!(Reply::Deleted.status(), 200);
    assert_eq!(Reply::NotFound.status(), 404);
    assert_eq!(Reply::Failed(StoreError::Connection).status(), 500);
    assert_eq!(Reply::Failed(StoreError::Query).status(), 500);
    assert_eq!(Reply::Listed(Vec::new()).message(), None);
    assert_eq!(Reply::Failed(StoreError::Query).message(), None);
}

#[test]
fn store_outcomes_map_to_replies() {
    assert_eq!(list_reply(Err(StoreError::Connection)).status(), 500);
    assert_eq!(list_reply(Ok(Vec::new())).status(), 200);
    assert_eq!(fetch_reply(Ok(None)).status(), 404);
    assert_eq!(fetch_reply(Err(StoreError::Query)).status(), 500);
    let p = record("Pen", 1.5, 100).with_id(ProductId { value: 3 });
    assert!(matches!(fetch_reply(Ok(Some(p))), Reply::Found(q) if q.id.value == 3));
    assert_eq!(create_reply(record("Pen", 1.5, 100), Ok(())).status(), 201);
    assert_eq!(create_reply(record("Pen", 1.5, 100), Err(StoreError::Query)).status(), 500);
    assert_eq!(update_reply(Ok(1)).status(), 200);
    assert_eq!(update_reply(Ok(0)).status(), 404);
    assert_eq!(update_reply(Err(StoreError::Query)).status(), 500);
    assert!(matches!(delete_reply(Ok(2)), Reply::Deleted));
    assert_eq!(delete_reply(Ok(0)).status(), 404);
    assert!(matches!(delete_reply(Err(StoreError::Connection)), Reply::Failed(StoreError::Connection)));
}

#[test]
fn parses_identifier_text() {
    let id = parse_product_id("550e8400-e29b-41d4-a716-446655440000");
    assert_eq!(id, Some(ProductId { value: 0x550e8400_e29b_41d4_a716_446655440000 }));
    let simple = parse_product_id("550e8400e29b41d4a716446655440000");
    assert_eq!(simple, id);
    assert_eq!(parse_product_id(""), None);
    assert_eq!(parse_product_id("not-a-uuid"), None);
    assert_eq!(parse_product_id("550e8400-e29b-41d4-a716-44665544000g"), None);
}

#[test]
fn random_ids_are_version_four_and_distinct() {
    let a = ProductId::random();
    let b = ProductId::random();
    assert_eq!((a.value >> 76) & 0xf, 4);
    assert_eq!((b.value >> 76) & 0xf, 4);
    assert_ne!(a, b);
}

#[test]
fn product_record_drops_the_id() {
    let p = record("Pen", 1.5, 100).with_id(ProductId { value: 77 });
    let r = p.record();
    assert!(same_fields(&p, &r));
    let q = p.duplicate();
    assert_eq!(q.id, p.id);
    assert!(same_fields(&q, &r));
}
