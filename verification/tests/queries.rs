use fs_store::repos::pagination::PaginationDto;
use fs_store::repos::product_repo::{products_query, Bind, BoundQuery};
use fs_store::routes::product_routes::{OrderBy, SearchBy};

const IN_CATEGORY: &str = "SELECT * from products p left join stores s on s.id = p.store_id right join products_categories pc on pc.product_id = p.id and pc.category_id = $1 WHERE (p.name ILIKE $2 AND p.description ILIKE $3) ";

const IN_ANY_CATEGORY: &str = "SELECT distinct p.id, p.name, p.i18n_name, p.description, p.i18n_description, p.price, p.store_id, p.created_at, s.id, s.created_at, s.is_holiday, s.name, s.prod_count from products p left join stores s on s.id = p.store_id left join products_categories pc on pc.product_id = p.id WHERE (p.name ILIKE $1 AND p.description ILIKE $2) ";

fn search(name: Option<&str>, description: Option<&str>) -> SearchBy {
    SearchBy {
        name: name.map(str::to_owned),
        description: description.map(str::to_owned),
        in_holiday: None,
    }
}

fn order(by: &str, order: &str) -> Option<OrderBy> {
    Some(OrderBy { order: Some(order.to_owned()), by: Some(by.to_owned()) })
}

fn text(value: &str) -> Bind {
    Bind::Text(value.to_owned())
}

#[test]
fn products_of_all_categories_and_stores() {
    let BoundQuery { sql, binds } = products_query(None, None, None, &search(None, None));
    assert_eq!(sql, format!("{} ORDER BY p.created_at DESC", IN_ANY_CATEGORY));
    assert_eq!(binds, vec![text("%"), text("%")]);
}

#[test]
fn products_of_one_category() {
    let BoundQuery { sql, binds } =
        products_query(Some(7), None, order("price", "ASC"), &search(Some("tea"), None));
    assert_eq!(sql, format!("{} ORDER BY p.price ASC", IN_CATEGORY));
    assert_eq!(binds, vec![Bind::Integer(7), text("%tea%"), text("%")]);
}

#[test]
fn products_of_one_store() {
    let BoundQuery { sql, binds } =
        products_query(None, Some(3), order("name", "DESC"), &search(None, Some("green")));
    assert_eq!(sql, format!("{}AND p.store_id = $3 ORDER BY p.name DESC", IN_ANY_CATEGORY));
    assert_eq!(binds, vec![text("%"), text("%green%"), Bind::Integer(3)]);
}

#[test]
fn products_of_one_category_in_one_store() {
    let BoundQuery { sql, binds } =
        products_query(Some(-1), Some(i32::MAX), order("id", "ASC"), &search(Some("a"), Some("b")));
    assert_eq!(sql, format!("{}AND p.store_id = $4 ORDER BY p.id ASC", IN_CATEGORY));
    assert_eq!(binds, vec![Bind::Integer(-1), text("%a%"), text("%b%"), Bind::Integer(i32::MAX)]);
}

#[test]
fn request_text_never_becomes_query_text() {
    let hostile = "x'; DROP TABLE products; --";
    let BoundQuery { sql, binds } = products_query(
        Some(1),
        Some(2),
        order("id; DROP TABLE x", "ASC; DROP TABLE y"),
        &search(Some(hostile), Some(hostile)),
    );
    assert_eq!(sql, format!("{}AND p.store_id = $4 ORDER BY p.created_at DESC", IN_CATEGORY));
    assert!(!sql.contains("DROP"));
    assert_eq!(
        binds,
        vec![
            Bind::Integer(1),
            text("%x'; DROP TABLE products; --%"),
            text("%x'; DROP TABLE products; --%"),
            Bind::Integer(2),
        ]
    );
}

#[test]
fn product_query_is_wrapped_for_its_page() {
    let BoundQuery { sql, .. } =
        products_query(None, None, order("price", "ASC"), &search(None, None));
    let request = PaginationDto { per_page: Some(10), page: Some(2) };
    let wrapped = request.wrap(());
    assert_eq!(
        wrapped.to_sql(&sql),
        format!(
            "SELECT *, COUNT(*) OVER () FROM ({} ORDER BY p.price ASC) t LIMIT 10 OFFSET 10",
            IN_ANY_CATEGORY
        )
    );
}

#[test]
fn both_search_patterns_have_to_be_met() {
    let requests = [(None, None), (Some(1), None), (None, Some(2)), (Some(1), Some(2))];
    for (category_id, store) in requests {
        let BoundQuery { sql, .. } =
            products_query(category_id, store, None, &search(Some("Shoe"), None));
        assert!(sql.contains("p.name ILIKE"));
        assert!(sql.contains(" AND p.description ILIKE "));
        assert!(!sql.contains(" OR "));
    }
}
