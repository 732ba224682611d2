use chrono::NaiveDateTime;
use fs_store::models::products_categories::ProductsCategories;
use fs_store::models::store::{Store, Worktimes};
use fs_store::repos::fetch::with_keys;
use fs_store::repos::grouping::{group, GroupingError, JoinRow, Parent};

type Placement = ProductsCategories;

#[derive(Debug)]
struct Shelf(Store);

impl PartialEq for Shelf {
    fn eq(&self, other: &Shelf) -> bool {
        self.0.id == other.0.id && self.0.name == other.0.name
    }
}

fn shelf(id: i32, label: &'static str) -> Shelf {
    Shelf(Store {
        id,
        name: label.to_owned(),
        is_holiday: false,
        created_at: NaiveDateTime::default(),
        prod_count: 0,
    })
}

fn stores(shelves: Vec<Shelf>) -> Vec<Store> {
    shelves.into_iter().map(|shelf| shelf.0).collect()
}

fn shelves<C>(grouped: Vec<(Store, Vec<C>)>) -> Vec<(Shelf, Vec<C>)> {
    grouped.into_iter().map(|(store, children)| (Shelf(store), children)).collect()
}

fn group_shelves<J: JoinRow, C>(
    parents: Vec<Shelf>,
    joined: Vec<(J, C)>,
) -> Result<Vec<(Shelf, Vec<C>)>, GroupingError> {
    group(stores(parents), joined).map(shelves)
}

fn placement(shelf_id: i32) -> Placement {
    ProductsCategories { id: 0, product_id: shelf_id, category_id: 0 }
}

fn placed(shelf_id: i32, book: &'static str) -> (Placement, &'static str) {
    (placement(shelf_id), book)
}

fn hours(id: i32, store_id: i32) -> Worktimes {
    Worktimes {
        id,
        day_id: 1,
        store_id,
        am_open: None,
        am_close: None,
        pm_open: None,
        pm_close: None,
    }
}

#[test]
fn children_go_to_their_parent_only() {
    let parents = vec![shelf(1, "P1"), shelf(2, "P2"), shelf(3, "P3")];
    let joined = vec![placed(2, "C1"), placed(2, "C2")];
    let grouped = group_shelves(parents, joined).expect("every child has its parent");
    assert_eq!(
        grouped,
        vec![
            (shelf(1, "P1"), vec![]),
            (shelf(2, "P2"), vec!["C1", "C2"]),
            (shelf(3, "P3"), vec![]),
        ]
    );
}

#[test]
fn parents_keep_their_order_and_children_theirs() {
    let parents = vec![shelf(30, "c"), shelf(10, "a"), shelf(20, "b")];
    let joined = vec![
        placed(10, "a1"),
        placed(30, "c1"),
        placed(20, "b1"),
        placed(10, "a2"),
        placed(30, "c2"),
        placed(10, "a3"),
    ];
    let grouped = group_shelves(parents, joined).expect("every child has its parent");
    assert_eq!(
        grouped,
        vec![
            (shelf(30, "c"), vec!["c1", "c2"]),
            (shelf(10, "a"), vec!["a1", "a2", "a3"]),
            (shelf(20, "b"), vec!["b1"]),
        ]
    );
}

#[test]
fn every_child_is_in_exactly_one_group() {
    let ids: Vec<i32> = (0..7).collect();
    let parents: Vec<Shelf> = ids.iter().map(|id| shelf(*id, "s")).collect();
    let joined: Vec<(Placement, i32)> = (0..100).map(|n| (placement((n * n) % 7), n)).collect();
    let grouped = group(stores(parents), joined.clone()).expect("every child has its parent");
    assert_eq!(grouped.len(), ids.len());
    assert_eq!(grouped.iter().map(|(_, children)| children.len()).sum::<usize>(), joined.len());
    for (at, (parent, children)) in grouped.iter().enumerate() {
        assert_eq!(parent.id(), ids[at]);
        let expected: Vec<i32> = joined
            .iter()
            .filter(|(row, _)| row.foreign_key() == parent.id)
            .map(|(_, child)| *child)
            .collect();
        assert_eq!(children, &expected);
    }
}

#[test]
fn no_parents_and_no_children_group_to_nothing() {
    let grouped = group_shelves(Vec::<Shelf>::new(), Vec::<(Placement, u8)>::new());
    assert_eq!(grouped, Ok(vec![]));
}

#[test]
fn parents_without_children_have_empty_lists() {
    let grouped = group_shelves(vec![shelf(1, "a"), shelf(2, "b")], Vec::<(Placement, u8)>::new());
    assert_eq!(grouped, Ok(vec![(shelf(1, "a"), vec![]), (shelf(2, "b"), vec![])]));
}

#[test]
fn stray_child_is_an_error() {
    let parents = vec![shelf(1, "a"), shelf(2, "b")];
    let joined = vec![placed(1, "ok"), placed(42, "stray"), placed(2, "late"), placed(43, "too")];
    assert_eq!(group_shelves(parents, joined), Err(GroupingError { position: 1, foreign_key: 42 }));
}

#[test]
fn child_without_any_parent_is_an_error() {
    let joined = vec![placed(7, "alone")];
    assert_eq!(
        group_shelves(Vec::<Shelf>::new(), joined),
        Err(GroupingError { position: 0, foreign_key: 7 })
    );
}

#[test]
fn stray_child_at_the_end_is_found() {
    let parents = vec![shelf(-1, "a")];
    let joined = vec![placed(-1, "x"), placed(-1, "y"), placed(1, "z")];
    assert_eq!(group_shelves(parents, joined), Err(GroupingError { position: 2, foreign_key: 1 }));
}

#[test]
fn last_of_two_parents_with_one_identifier_owns_the_children() {
    let parents = vec![shelf(5, "first"), shelf(6, "other"), shelf(5, "second")];
    let joined = vec![placed(5, "x"), placed(6, "y"), placed(5, "z")];
    let grouped = group_shelves(parents, joined).expect("every child has its parent");
    assert_eq!(
        grouped,
        vec![
            (shelf(5, "first"), vec![]),
            (shelf(6, "other"), vec!["y"]),
            (shelf(5, "second"), vec!["x", "z"]),
        ]
    );
}

#[test]
fn extreme_identifiers_are_ordinary() {
    let parents = vec![shelf(i32::MIN, "low"), shelf(0, "zero"), shelf(i32::MAX, "high")];
    let joined = vec![placed(i32::MAX, "h"), placed(i32::MIN, "l"), placed(0, "z")];
    let grouped = group_shelves(parents, joined).expect("every child has its parent");
    assert_eq!(grouped[0].1, vec!["l"]);
    assert_eq!(grouped[1].1, vec!["z"]);
    assert_eq!(grouped[2].1, vec!["h"]);
}

#[test]
fn rows_name_their_parents() {
    assert_eq!(shelf(12, "a").0.id(), 12);
    assert_eq!(placement(4).foreign_key(), 4);
    assert_eq!(hours(1, 9).foreign_key(), 9);
}

#[test]
fn bare_identifier_is_a_join_row() {
    assert_eq!(17i32.foreign_key(), 17);
    let parents = vec![shelf(1, "a"), shelf(2, "b")];
    let joined = vec![(2, "x"), (1, "y"), (2, "z")];
    let grouped = group_shelves(parents, joined).expect("every child has its parent");
    assert_eq!(grouped, vec![(shelf(1, "a"), vec!["y"]), (shelf(2, "b"), vec!["x", "z"])]);
}

#[test]
fn children_that_carry_their_key_are_paired_with_it() {
    let joined = with_keys(vec![hours(10, 3), hours(11, 1)]);
    assert_eq!(joined.len(), 2);
    assert_eq!((joined[0].0, joined[0].1.id, joined[0].1.store_id), (3, 10, 3));
    assert_eq!((joined[1].0, joined[1].1.id, joined[1].1.store_id), (1, 11, 1));
    assert!(with_keys(Vec::<Worktimes>::new()).is_empty());
}

#[test]
fn grouping_error_names_its_cause() {
    let stray = GroupingError { position: 3, foreign_key: 9 };
    assert_eq!(stray.cause(), "a child row refers to a parent outside the page");
}
