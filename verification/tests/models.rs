use bigdecimal::BigDecimal;
use chrono::{NaiveDate, NaiveDateTime};
use fs_store::models::category::{Category, CategoryDto, UpdateCategoryDto};
use fs_store::models::products::{CategoryId, InsertableProduct, Product, ProductsResult, StoreId};
use fs_store::models::products_categories::ProductsCategories;
use fs_store::models::store::{
    validate_worktimes, worktime_verdict, CreateStoreDto, CreateWorktimeDto, InsertableWorktime,
    MyInto, Store, StoreResult, StoreResultWithProducts, TransformTo, UpdateStoreDto,
    UpdateWorktimeDto, Worktimes, WORKTIME_PATTERN,
};
use fs_store::repos::fetch::{present, with_keys};
use fs_store::repos::grouping::group;
use fs_store::utils::validation::ValidationError;
use std::str::FromStr;

fn moment(day: u32) -> NaiveDateTime {
    NaiveDate::from_ymd_opt(2023, 2, day).unwrap().and_hms_micro_opt(23, 4, 25, 325874).unwrap()
}

fn store(id: i32, name: &str) -> Store {
    Store {
        id,
        name: name.to_owned(),
        is_holiday: id % 2 == 0,
        created_at: moment(14),
        prod_count: id * 3,
    }
}

fn hours(id: i32, store_id: i32, day_id: i32) -> Worktimes {
    Worktimes {
        id,
        day_id,
        store_id,
        am_open: Some("08:00".to_owned()),
        am_close: Some("12:00".to_owned()),
        pm_open: None,
        pm_close: None,
    }
}

fn product(id: i32, name: &str) -> Product {
    Product {
        id,
        name: name.to_owned(),
        i18n_name: Some("i18n".to_owned()),
        price: BigDecimal::from_str("10.50").unwrap(),
        description: Some("description".to_owned()),
        i18n_description: None,
        created_at: moment(15),
        store_id: Some(1),
    }
}

fn category(id: i32, name: &str) -> Category {
    Category { id, name: name.to_owned(), created_at: moment(1) }
}

fn day(day_id: i32) -> CreateWorktimeDto {
    CreateWorktimeDto {
        day_id,
        am_open: Some(format!("0{}:00", day_id)),
        am_close: Some("12:00".to_owned()),
        pm_open: None,
        pm_close: Some(format!("1{}:30", day_id % 3)),
    }
}

#[test]
fn store_and_hours_become_one_value() {
    let shown = StoreResult::from((store(2, "corner"), vec![hours(5, 2, 1), hours(6, 2, 2)]));
    assert_eq!(shown.id, 2);
    assert_eq!(shown.name, "corner");
    assert_eq!(shown.is_holiday, true);
    assert_eq!(shown.created_at, moment(14));
    assert_eq!(shown.prod_count, 6);
    assert_eq!(shown.worktimes.iter().map(|hours| hours.id).collect::<Vec<i32>>(), vec![5, 6]);
    let through_into: StoreResult = (store(3, "market"), Vec::new()).into();
    assert_eq!((through_into.id, through_into.worktimes.len()), (3, 0));
}

#[test]
fn product_and_categories_become_one_value() {
    let categories = vec![category(1, "drinks"), category(2, "hot")];
    let shown = ProductsResult::from((product(9, "tea"), categories));
    assert_eq!(shown.id, 9);
    assert_eq!(shown.name, "tea");
    assert_eq!(shown.i18n_name.as_deref(), Some("i18n"));
    assert_eq!(shown.price, BigDecimal::from_str("10.50").unwrap());
    assert_eq!(shown.description.as_deref(), Some("description"));
    assert_eq!(shown.i18n_description, None);
    assert_eq!(shown.created_at, moment(15));
    assert_eq!(shown.store_id, Some(1));
    assert_eq!(
        shown.categories.iter().map(|category| category.name.as_str()).collect::<Vec<&str>>(),
        vec!["drinks", "hot"]
    );
}

#[test]
fn store_with_products_is_assembled() {
    let shown = StoreResultWithProducts::assemble(
        store(4, "depot"),
        vec![hours(1, 4, 1)],
        vec![product(1, "tea"), product(2, "milk")],
    );
    assert_eq!((shown.id, shown.name.as_str()), (4, "depot"));
    assert_eq!((shown.is_holiday, shown.prod_count), (true, 12));
    assert_eq!(shown.created_at, moment(14));
    assert_eq!(shown.worktimes.len(), 1);
    assert_eq!(shown.products.iter().map(|product| product.id).collect::<Vec<i32>>(), vec![1, 2]);
}

#[test]
fn three_stores_and_the_hours_of_the_second() {
    let parents = vec![store(1, "P1"), store(2, "P2"), store(3, "P3")];
    let children = vec![hours(10, 2, 1), hours(11, 2, 2)];
    let grouped = group(parents, with_keys(children)).expect("the hours belong to the stores");
    let shown: Vec<StoreResult> = present(grouped);
    assert_eq!(
        shown.iter().map(|store| store.name.as_str()).collect::<Vec<&str>>(),
        vec!["P1", "P2", "P3"]
    );
    assert!(shown[0].worktimes.is_empty());
    assert_eq!(shown[1].worktimes.iter().map(|hours| hours.id).collect::<Vec<i32>>(), vec![10, 11]);
    assert!(shown[2].worktimes.is_empty());
}

#[test]
fn products_and_their_categories_through_the_join_rows() {
    let parents = vec![product(1, "tea"), product(2, "milk"), product(3, "salt")];
    let joined = vec![
        (ProductsCategories { id: 1, product_id: 2, category_id: 7 }, category(7, "dairy")),
        (ProductsCategories { id: 2, product_id: 1, category_id: 8 }, category(8, "drinks")),
        (ProductsCategories { id: 3, product_id: 2, category_id: 8 }, category(8, "drinks")),
    ];
    let grouped = group(parents, joined).expect("the categories belong to the products");
    let shown: Vec<ProductsResult> = present(grouped);
    let names = |at: usize| -> Vec<&str> {
        shown[at].categories.iter().map(|category| category.name.as_str()).collect()
    };
    assert_eq!(shown.iter().map(|product| product.id).collect::<Vec<i32>>(), vec![1, 2, 3]);
    assert_eq!(names(0), vec!["drinks"]);
    assert_eq!(names(1), vec!["dairy", "drinks"]);
    assert!(names(2).is_empty());
}

#[test]
fn hours_of_a_day_are_completed_with_the_store() {
    let row: InsertableWorktime = MyInto::into(day(3), 42);
    assert_eq!((row.store_id, row.day_id), (42, 3));
    assert_eq!(row.am_open.as_deref(), Some("03:00"));
    assert_eq!(row.am_close.as_deref(), Some("12:00"));
    assert_eq!(row.pm_open, None);
    assert_eq!(row.pm_close.as_deref(), Some("10:30"));
}

#[test]
fn new_store_asks_for_seven_rows() {
    let request = CreateStoreDto {
        name: "corner".to_owned(),
        is_holiday: false,
        worktimes: [day(1), day(2), day(3), day(4), day(5), day(6), day(7)],
    };
    let rows: Vec<InsertableWorktime> = request.transform_to(-5);
    assert_eq!(rows.len(), 7);
    for (at, row) in rows.iter().enumerate() {
        let expected = day(at as i32 + 1);
        assert_eq!(row.store_id, -5);
        assert_eq!(row.day_id, expected.day_id);
        assert_eq!(row.am_open, expected.am_open);
        assert_eq!(row.am_close, expected.am_close);
        assert_eq!(row.pm_open, expected.pm_open);
        assert_eq!(row.pm_close, expected.pm_close);
    }
}

#[test]
fn hours_of_a_day_can_be_duplicated() {
    let copy = day(6).duplicate();
    assert_eq!((copy.day_id, copy.am_open.as_deref(), copy.pm_open), (6, Some("06:00"), None));
}

#[test]
fn times_of_the_right_form_are_accepted() {
    for time in ["00:00", "09:30", "12:59", "10:05", "11:11", "08:00", "12:00"] {
        assert_eq!(validate_worktimes(time), Ok(()), "{}", time);
    }
}

#[test]
fn times_of_another_form_are_refused() {
    let refused = Err(ValidationError { code: "Wrong time format : HH:MM" });
    for time in [
        "", "9:30", "13:00", "23:59", "12:60", "09:3", "0930", "09:30 ", " 09:30", "09:30:00",
        "ab:cd", "09-30", "09:30\n", "1\u{662}:00",
    ] {
        assert_eq!(validate_worktimes(time), refused, "{:?}", time);
    }
}

#[test]
fn verdict_follows_the_search() {
    let refused = Err(ValidationError { code: "Wrong time format : HH:MM" });
    assert_eq!(worktime_verdict(Some(true)), Ok(()));
    assert_eq!(worktime_verdict(Some(false)), refused);
    assert_eq!(worktime_verdict(None), refused);
    assert_eq!(WORKTIME_PATTERN, "^(0[0-9]|1[0-2]):[0-5][0-9]$");
}

#[test]
fn plain_rows_hold_their_fields() {
    assert_eq!(CategoryId { category_id: Some(2) }.category_id, Some(2));
    assert_eq!(StoreId { store_id: None }.store_id, None);
    assert_eq!(CategoryDto { name: "new".to_owned() }.name, "new");
    assert_eq!(UpdateCategoryDto { name: "renamed".to_owned() }.name, "renamed");
    let link = ProductsCategories { id: 1, product_id: 5, category_id: 3 };
    assert_eq!((link.id, link.product_id, link.category_id), (1, 5, 3));
    let write = InsertableProduct {
        name: "tea".to_owned(),
        i18n_name: None,
        price: BigDecimal::from(10),
        description: None,
        i18n_description: None,
        store_id: Some(2),
    };
    assert_eq!(
        (write.name.as_str(), write.price, write.store_id),
        ("tea", BigDecimal::from(10), Some(2))
    );
    let update = UpdateStoreDto {
        name: "corner".to_owned(),
        is_holiday: true,
        worktimes: vec![UpdateWorktimeDto {
            id: 1,
            store_id: None,
            day_id: Some(2),
            am_open: None,
            am_close: None,
            pm_open: Some("01:00".to_owned()),
            pm_close: None,
        }],
    };
    assert_eq!(
        (update.name.as_str(), update.is_holiday, update.worktimes[0].day_id),
        ("corner", true, Some(2))
    );
}
