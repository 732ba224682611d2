//! Stores, their opening hours and the values that are made of them.

use vstd::prelude::*;
use chrono::NaiveDateTime;
use crate::foreign::regex_is_match;
use crate::foreign::regex_match;
use crate::models::products::Product;
use crate::repos::grouping::JoinRow;
use crate::repos::grouping::Parent;
use crate::utils::validation::ValidationError;

verus! {

/// A store as it is stored.
#[derive(Debug)]
pub struct Store {
    pub id: i32,
    pub name: String,
    pub is_holiday: bool,
    pub created_at: NaiveDateTime,
    pub prod_count: i32,
}

impl Parent for Store {
    open spec fn key(&self) -> i32 {
        self.id
    }

    fn id(&self) -> (id: i32) {
        self.id
    }
}

/// A store with its opening hours.
#[derive(Debug)]
pub struct StoreResult {
    pub id: i32,
    pub is_holiday: bool,
    pub created_at: NaiveDateTime,
    pub name: String,
    pub prod_count: i32,
    pub worktimes: Vec<Worktimes>,
}

/// A store with its opening hours and its products.
#[derive(Debug)]
pub struct StoreResultWithProducts {
    pub id: i32,
    pub name: String,
    pub is_holiday: bool,
    pub created_at: NaiveDateTime,
    pub prod_count: i32,
    pub worktimes: Vec<Worktimes>,
    pub products: Vec<Product>,
}

impl StoreResultWithProducts {
    /// Puts a store, its opening hours and its products together.
    pub fn assemble(store: Store, worktimes: Vec<Worktimes>, products: Vec<Product>) -> (shown:
        StoreResultWithProducts)
        ensures
            shown == (StoreResultWithProducts {
                id: store.id,
                name: store.name,
                is_holiday: store.is_holiday,
                created_at: store.created_at,
                prod_count: store.prod_count,
                worktimes,
                products,
            }),
    {
        StoreResultWithProducts {
            id: store.id,
            name: store.name,
            is_holiday: store.is_holiday,
            created_at: store.created_at,
            worktimes,
            products,
            prod_count: store.prod_count,
        }
    }
}

/// A store to create, with the opening hours of its seven days.
#[derive(Debug)]
pub struct CreateStoreDto {
    pub name: String,
    pub is_holiday: bool,
    pub worktimes: [CreateWorktimeDto; 7],
}

/// The new state of a store and of some of its opening hours.
#[derive(Debug)]
pub struct UpdateStoreDto {
    pub name: String,
    pub is_holiday: bool,
    pub worktimes: Vec<UpdateWorktimeDto>,
}

/// The opening hours of one day of one store, as they are stored.
#[derive(Debug)]
pub struct Worktimes {
    pub id: i32,
    pub day_id: i32,
    pub store_id: i32,
    pub am_open: Option<String>,
    pub am_close: Option<String>,
    pub pm_open: Option<String>,
    pub pm_close: Option<String>,
}

/// Opening hours belong to their store.
impl JoinRow for Worktimes {
    open spec fn parent_key(&self) -> i32 {
        self.store_id
    }

    fn foreign_key(&self) -> (key: i32) {
        self.store_id
    }
}

/// The opening hours of one day of a store that is being created.
#[derive(Debug)]
pub struct CreateWorktimeDto {
    pub day_id: i32,
    pub am_open: Option<String>,
    pub am_close: Option<String>,
    pub pm_open: Option<String>,
    pub pm_close: Option<String>,
}

/// The new state of the opening hours of one day.
#[derive(Debug)]
pub struct UpdateWorktimeDto {
    pub id: i32,
    pub store_id: Option<i32>,
    pub day_id: Option<i32>,
    pub am_open: Option<String>,
    pub am_close: Option<String>,
    pub pm_open: Option<String>,
    pub pm_close: Option<String>,
}

/// The columns of opening hours that a write sets.
#[derive(Debug)]
pub struct InsertableWorktime {
    pub store_id: i32,
    pub day_id: i32,
    pub am_open: Option<String>,
    pub am_close: Option<String>,
    pub pm_open: Option<String>,
    pub pm_close: Option<String>,
}

/// Conversion of a value that becomes complete with a store's identifier.
pub trait MyInto<T>: Sized {
    /// The value that `self` becomes for the store `store_id`.
    spec fn converted(self, store_id: i32) -> T;

    /// Converts `self` for the store `store_id`.
    fn into(self, store_id: i32) -> (converted: T)
        ensures
            converted == self.converted(store_id),
    ;
}

impl MyInto<InsertableWorktime> for CreateWorktimeDto {
    open spec fn converted(self, store_id: i32) -> InsertableWorktime {
        InsertableWorktime {
            store_id,
            day_id: self.day_id,
            am_open: self.am_open,
            am_close: self.am_close,
            pm_open: self.pm_open,
            pm_close: self.pm_close,
        }
    }

    fn into(self, store_id: i32) -> (converted: InsertableWorktime) {
        InsertableWorktime {
            store_id,
            day_id: self.day_id,
            am_open: self.am_open,
            am_close: self.am_close,
            pm_open: self.pm_open,
            pm_close: self.pm_close,
        }
    }
}

/// Conversion of a request into the rows to write for a store.
pub trait TransformTo<E>: Sized {
    /// Whether `rows` are the rows that `self` asks for, for the store
    /// `store_id`.
    spec fn transforms_to(self, store_id: i32, rows: E) -> bool;

    /// The rows to write for the store `store_id`.
    fn transform_to(self, store_id: i32) -> (rows: E)
        ensures
            self.transforms_to(store_id, rows),
    ;
}

impl TransformTo<Vec<InsertableWorktime>> for CreateStoreDto {
    /// One row for each of the seven days, in the order of the request.
    open spec fn transforms_to(self, store_id: i32, rows: Vec<InsertableWorktime>) -> bool {
        &&& rows@.len() == 7
        &&& forall|day: int|
            0 <= day < 7 ==> #[trigger] rows@[day] == self.worktimes[day].converted(store_id)
    }

    fn transform_to(self, store_id: i32) -> (rows: Vec<InsertableWorktime>) {
        let mut result: Vec<InsertableWorktime> = Vec::new();
        let mut day: usize = 0;
        while day < 7
            invariant
                day <= 7,
                result@.len() == day,
                forall|d: int|
                    0 <= d < day ==> #[trigger] result@[d] == self.worktimes[d].converted(store_id),
            decreases 7 - day,
        {
            let worktime: CreateWorktimeDto = self.worktimes[day].duplicate();
            let row: InsertableWorktime = <CreateWorktimeDto as MyInto<
                InsertableWorktime,
            >>::into(worktime, store_id);
            result.push(row);
            day = day + 1;
        }
        result
    }
}

fn copy_of(time: &Option<String>) -> (copy: Option<String>)
    ensures
        copy == *time,
{
    match time {
        Some(text) => Some(text.clone()),
        None => None,
    }
}

impl CreateWorktimeDto {
    /// A second value with the same contents.
    pub fn duplicate(&self) -> (copy: CreateWorktimeDto)
        ensures
            copy == *self,
    {
        CreateWorktimeDto {
            day_id: self.day_id,
            am_open: copy_of(&self.am_open),
            am_close: copy_of(&self.am_close),
            pm_open: copy_of(&self.pm_open),
            pm_close: copy_of(&self.pm_close),
        }
    }
}

/// The form of an opening or closing time: two digits from 00 to 12, a colon
/// and two digits from 00 to 59.
pub const WORKTIME_PATTERN: &'static str = "^(0[0-9]|1[0-2]):[0-5][0-9]$";

/// The verdict on a time, given what the search for the pattern found.
pub open spec fn worktime_verdict_of(found: Option<bool>) -> Result<(), ValidationError> {
    if found == Some(true) {
        Ok(())
    } else {
        Err(ValidationError { code: "Wrong time format : HH:MM" })
    }
}

/// Accepts a time where the pattern was found in it, and refuses it where
/// the pattern was not found or could not be used.
pub fn worktime_verdict(found: Option<bool>) -> (verdict: Result<(), ValidationError>)
    ensures
        verdict == worktime_verdict_of(found),
{
    match found {
        Some(true) => Ok(()),
        _ => Err(ValidationError::new("Wrong time format : HH:MM")),
    }
}

/// Accepts a time of the form `HH:MM` and refuses everything else.
pub fn validate_worktimes(worktime: &str) -> (verdict: Result<(), ValidationError>)
    ensures
        verdict == worktime_verdict_of(regex_match(WORKTIME_PATTERN@, worktime@)),
{
    worktime_verdict(regex_is_match(WORKTIME_PATTERN, worktime))
}

impl vstd::std_specs::convert::FromSpecImpl<(Store, Vec<Worktimes>)> for StoreResult {
    open spec fn obeys_from_spec() -> bool {
        true
    }

    /// The store's own columns beside the opening hours.
    open spec fn from_spec(pair: (Store, Vec<Worktimes>)) -> StoreResult {
        StoreResult {
            id: pair.0.id,
            name: pair.0.name,
            created_at: pair.0.created_at,
            is_holiday: pair.0.is_holiday,
            prod_count: pair.0.prod_count,
            worktimes: pair.1,
        }
    }
}

/// A store and its opening hours are shown as one value.
impl From<(Store, Vec<Worktimes>)> for StoreResult {
    fn from(pair: (Store, Vec<Worktimes>)) -> (shown: StoreResult) {
        StoreResult {
            id: pair.0.id,
            name: pair.0.name,
            created_at: pair.0.created_at,
            is_holiday: pair.0.is_holiday,
            prod_count: pair.0.prod_count,
            worktimes: pair.1,
        }
    }
}

} // verus!
