use mousuo::db::orders::{
    create_order_query, order_by_id_query, transition_status_query, list_orders_query, CANCEL_SQL,
    TRANSITION_SQL,
};
use mousuo::db::products::{
    build_where, count_products_query, decrement_stock_query, list_products_query, media_refs,
    seed_image_url, update_product_query,
};
use mousuo::db::{new_record_id, page_start, record_id, QueryValue, RecordRef};
use mousuo::models::order::OrderItem;

fn text(v: &QueryValue) -> String {
    match v {
        QueryValue::Text(t) => t.clone(),
        _ => panic!("expected text"),
    }
}

fn int_value(v: &QueryValue) -> i64 {
    match v {
        QueryValue::Int(i) => *i,
        _ => panic!("expected an integer"),
    }
}

fn record(v: &QueryValue) -> RecordRef {
    match v {
        QueryValue::Record(r) => r.clone(),
        _ => panic!("expected a record id"),
    }
}

#[test]
fn parses_record_ids() {
    assert_eq!(
        record_id("session:abc123").unwrap(),
        RecordRef { table: "session".to_string(), key: "abc123".to_string() }
    );
    assert_eq!(
        record_id("order:a:b").unwrap(),
        RecordRef { table: "order".to_string(), key: "a:b".to_string() }
    );
    assert!(record_id("no-colon").is_err());
}

#[test]
fn new_record_ids_round_trip() {
    let id = new_record_id("order");
    assert_eq!(id.len(), "order".len() + 33);
    assert!(id.starts_with("order:"));
    assert!(id[6..].chars().all(|c| c.is_ascii_digit() || ('a'..='f').contains(&c)));
    let r = record_id(&id).unwrap();
    assert_eq!(r.table, "order");
    assert_eq!(r.key, id[6..].to_string());
    assert_ne!(new_record_id("order"), id);
}

#[test]
fn pages_start_where_the_previous_page_ended() {
    assert_eq!(page_start(1, 12), 0);
    assert_eq!(page_start(3, 12), 24);
    assert_eq!(page_start(2, 12) + 12, page_start(3, 12));
}

#[test]
fn id_queries_bind_record_ids() {
    let q = order_by_id_query("order:abc").unwrap();
    assert_eq!(q.sql, "SELECT * FROM order WHERE id = $id");
    assert_eq!(q.params.len(), 1);
    assert_eq!(q.params[0].name, "id");
    assert_eq!(record(&q.params[0].value), RecordRef { table: "order".to_string(), key: "abc".to_string() });
    assert!(order_by_id_query("abc").is_err());
    let q = decrement_stock_query("product:p", 2).unwrap();
    assert_eq!(q.sql, "UPDATE $id SET stock = stock - $qty WHERE stock >= $qty");
    assert_eq!(int_value(&q.params[1].value), 2);
}

#[test]
fn cancelling_stamps_the_time() {
    let q = transition_status_query("order:1", "paid", "cancelled").unwrap();
    assert_eq!(q.sql, CANCEL_SQL);
    assert_eq!(text(&q.params[1].value), "paid");
    assert_eq!(text(&q.params[2].value), "cancelled");
    let q = transition_status_query("order:1", "paid", "shipped").unwrap();
    assert_eq!(q.sql, TRANSITION_SQL);
}

#[test]
fn creates_orders_under_new_ids() {
    let items = vec![OrderItem { product_id: "product:a".to_string(), title: "Mug".to_string(), price_cents: 5, qty: 1 }];
    let (id, q) = create_order_query("alice", items.clone(), 5);
    assert!(id.starts_with("order:"));
    assert_eq!(q.params.len(), 5);
    assert_eq!(record(&q.params[0].value).key, id[6..].to_string());
    assert_eq!(text(&q.params[1].value), "alice");
    assert!(matches!(&q.params[2].value, QueryValue::Items(v) if *v == items));
    assert_eq!(int_value(&q.params[3].value), 5);
    assert_eq!(text(&q.params[4].value), "pending");
}

#[test]
fn product_list_filters_and_searches() {
    let (w, p) = build_where(None);
    assert_eq!(w, " WHERE status = $status");
    assert_eq!(p.len(), 1);
    assert_eq!(text(&p[0].value), "active");
    let (w, p) = build_where(Some(""));
    assert_eq!(w, " WHERE status = $status");
    assert_eq!(p.len(), 1);
    let (w, p) = build_where(Some("Mug"));
    assert_eq!(w, " WHERE status = $status AND string::lowercase(title) CONTAINS $search");
    assert_eq!(text(&p[1].value), "mug");
    let q = list_products_query(Some("Mug"), 2, 12);
    assert_eq!(
        q.sql,
        "SELECT * FROM product WHERE status = $status AND string::lowercase(title) CONTAINS $search ORDER BY created_at DESC, id LIMIT $limit START $start"
    );
    assert_eq!(int_value(&q.params[2].value), 12);
    assert_eq!(int_value(&q.params[3].value), 12);
    let q = count_products_query(None);
    assert_eq!(q.sql, "SELECT count() FROM product WHERE status = $status GROUP ALL");
    let q = list_orders_query("alice", 1, 10);
    assert_eq!(int_value(&q.params[2].value), 0);
}

#[test]
fn product_updates_drop_empty_images() {
    let q = update_product_query("product:1", "mug", "Mug", "d", 10, 2, Some("")).unwrap();
    assert_eq!(q.params.len(), 7);
    assert!(matches!(&q.params[6].value, QueryValue::OptText(None)));
    let q = update_product_query("product:1", "mug", "Mug", "d", 10, 2, Some("/media/a.png")).unwrap();
    assert!(matches!(&q.params[6].value, QueryValue::OptText(Some(s)) if s == "/media/a.png"));
}

#[test]
fn media_references_and_seed_images() {
    assert_eq!(
        media_refs(Some("/media/a.png"), vec!["/media/b.png".to_string()]),
        vec!["/media/a.png".to_string(), "/media/b.png".to_string()]
    );
    assert_eq!(media_refs(Some(""), vec!["/media/b.png".to_string()]), vec!["/media/b.png".to_string()]);
    assert_eq!(media_refs(None, vec![]), Vec::<String>::new());
    assert_eq!(seed_image_url("smart-watch"), "https://picsum.photos/seed/smart-watch/800/600");
}
