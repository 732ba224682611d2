//! Fetching a page of parents with their children in two queries.
//!
//! The first query loads one page of parents together with the number of all
//! parents that match. The second loads the children of exactly those parents.
//! The fetch itself runs no query: it says which query is due, takes the rows
//! that came back and, after the second query, hands out the grouped page.

use vstd::prelude::*;
use vstd::string::StringExecFns;
use vstd::std_specs::convert::FromSpec;
use crate::models::results::BackendError;
use crate::repos::grouping::correlated;
use crate::repos::grouping::group;
use crate::repos::grouping::is_grouping;
use crate::repos::grouping::keys_of;
use crate::repos::grouping::GroupingError;
use crate::repos::grouping::JoinRow;
use crate::repos::grouping::Parent;
use crate::repos::pagination::records_of;
use crate::repos::pagination::reported_total;
use crate::repos::pagination::total_pages;
use crate::repos::pagination::Paginated;

verus! {

/// A page of parents that waits for its children.
#[derive(Debug)]
pub struct ParentPage<P> {
    pub parents: Vec<P>,
    pub total_pages: i64,
    pub page: i64,
    pub per_page: i64,
}

/// How far a fetch has come.
#[derive(Debug)]
pub enum Stage<Q, P> {
    /// No query has been asked for.
    Start(Paginated<Q>),
    /// The page of parents has been asked for.
    AwaitingParents(Paginated<Q>),
    /// The children of the page have been asked for.
    AwaitingChildren(ParentPage<P>),
    /// The fetch is over.
    Finished,
}

/// What the caller reports to a fetch.
#[derive(Debug)]
pub enum Event<P, J, C> {
    /// The fetch may begin.
    Begin,
    /// The first query returned these rows, each with the count of all
    /// matching rows.
    Parents(Vec<(P, i64)>),
    /// The second query returned these rows.
    Children(Vec<(J, C)>),
    /// The query that was due failed.
    Failed(BackendError),
}

/// Why a fetch ended without a page.
#[derive(Debug)]
pub enum FetchError {
    /// The storage engine failed a query.
    Backend(BackendError),
    /// A child row points to a parent that is not on the page.
    Consistency(GroupingError),
    /// The caller reported something that was not due.
    OutOfTurn,
}

impl FetchError {
    /// The cause in words.
    pub fn cause(&self) -> (text: String)
        ensures
            text@ == match *self {
                FetchError::Backend(failure) => failure.message@,
                FetchError::Consistency(_) => "a child row refers to a parent outside the page"@,
                FetchError::OutOfTurn => "a query result arrived out of turn"@,
            },
    {
        match self {
            FetchError::Backend(failure) => failure.message.clone(),
            FetchError::Consistency(stray) => stray.cause(),
            FetchError::OutOfTurn => String::from_str("a query result arrived out of turn"),
        }
    }
}

/// What the caller is to do next.
#[derive(Debug)]
pub enum Action<P, C> {
    /// Run the wrapped parent query.
    QueryParents,
    /// Run the child query for the parents with these identifiers.
    QueryChildren(Vec<i32>),
    /// Hand out the page: the parents with their children, the number of
    /// pages, the page and the page size.
    Deliver((Vec<(P, Vec<C>)>, i64, i64, i64)),
    /// Report the failure.
    Fail(FetchError),
}

impl<P, C> Action<P, C> {
    /// Whether the action costs a round trip to the database.
    pub open spec fn is_query(&self) -> bool {
        self is QueryParents || self is QueryChildren
    }
}

/// A fetch of one page of parents with their children.
#[derive(Debug)]
pub struct TwoQueryFetch<Q, P> {
    stage: Stage<Q, P>,
    round_trips: u8,
}

impl<Q, P> TwoQueryFetch<Q, P> {
    #[verifier::type_invariant]
    spec fn well_formed(self) -> bool {
        match self.stage {
            Stage::Start(_) => self.round_trips == 0,
            Stage::AwaitingParents(_) => self.round_trips == 1,
            Stage::AwaitingChildren(_) => self.round_trips == 2,
            Stage::Finished => self.round_trips <= 2,
        }
    }

    /// How far the fetch has come.
    pub closed spec fn stage(self) -> Stage<Q, P> {
        self.stage
    }

    /// The number of queries that the fetch has asked for.
    pub closed spec fn round_trips(self) -> int {
        self.round_trips as int
    }

    /// A fetch of the page that `wrapped` shows. No query has been asked for.
    pub fn new(wrapped: Paginated<Q>) -> (fetch: Self)
        ensures
            fetch.stage() == Stage::<Q, P>::Start(wrapped),
            fetch.round_trips() == 0,
    {
        TwoQueryFetch { stage: Stage::Start(wrapped), round_trips: 0 }
    }

    /// The wrapped parent query, until its rows have come back.
    pub fn query(&self) -> (wrapped: Option<&Paginated<Q>>)
        ensures
            wrapped == match self.stage() {
                Stage::Start(query) => Some(&query),
                Stage::AwaitingParents(query) => Some(&query),
                _ => None,
            },
    {
        match &self.stage {
            Stage::Start(query) => Some(query),
            Stage::AwaitingParents(query) => Some(query),
            _ => None,
        }
    }

}

impl<Q, P: Parent> TwoQueryFetch<Q, P> {
    /// Takes what the caller reports and says what is due next.
    ///
    /// A fetch asks for the parent query, then for the child query of the
    /// parents that came back, and then hands out the page. A page is handed
    /// out after exactly two queries, however many children a parent has. A
    /// failed query, a child without a parent on the page and a report that
    /// was not due end the fetch with a failure.
    pub fn step<J: JoinRow, C>(self, event: Event<P, J, C>) -> (next: (Self, Action<P, C>))
        ensures
            next.0.round_trips() == self.round_trips() + if next.1.is_query() {
                1int
            } else {
                0int
            },
            next.1 is Deliver ==> next.0.round_trips() == 2,
            match (self.stage(), event) {
                (Stage::Start(wrapped), Event::Begin) => {
                    &&& next.0.stage() == Stage::<Q, P>::AwaitingParents(wrapped)
                    &&& next.1 is QueryParents
                },
                (Stage::AwaitingParents(wrapped), Event::Parents(rows)) => {
                    &&& next.0.stage() matches Stage::AwaitingChildren(waiting)
                    &&& waiting.parents@ == records_of(rows@)
                    &&& waiting.total_pages == total_pages(reported_total(rows@), wrapped@.per_page)
                    &&& waiting.page == wrapped@.page
                    &&& waiting.per_page == wrapped@.per_page
                    &&& next.1 matches Action::QueryChildren(ids)
                    &&& ids@ == keys_of(waiting.parents@)
                },
                (Stage::AwaitingChildren(waiting), Event::Children(joined)) => {
                    &&& next.0.stage() is Finished
                    &&& match next.1 {
                        Action::Deliver(page) => {
                            &&& correlated(keys_of(waiting.parents@), joined@)
                            &&& is_grouping(page.0@, waiting.parents@, joined@)
                            &&& page.1 == waiting.total_pages
                            &&& page.2 == waiting.page
                            &&& page.3 == waiting.per_page
                        },
                        Action::Fail(FetchError::Consistency(stray)) => stray.names_first_stray(
                            keys_of(waiting.parents@),
                            joined@,
                        ),
                        _ => false,
                    }
                },
                (Stage::AwaitingParents(_), Event::Failed(failure)) => {
                    &&& next.0.stage() is Finished
                    &&& next.1 == Action::<P, C>::Fail(FetchError::Backend(failure))
                },
                (Stage::AwaitingChildren(_), Event::Failed(failure)) => {
                    &&& next.0.stage() is Finished
                    &&& next.1 == Action::<P, C>::Fail(FetchError::Backend(failure))
                },
                _ => {
                    &&& next.0.stage() is Finished
                    &&& next.1 == Action::<P, C>::Fail(FetchError::OutOfTurn)
                },
            },
    {
        proof {
            use_type_invariant(&self);
        }
        let round_trips: u8 = self.round_trips;
        match (self.stage, event) {
            (Stage::Start(wrapped), Event::Begin) => {
                (
                    TwoQueryFetch { stage: Stage::AwaitingParents(wrapped), round_trips: 1 },
                    Action::QueryParents,
                )
            },
            (Stage::AwaitingParents(wrapped), Event::Parents(rows)) => {
                let (parents, total_pages, page, per_page) = wrapped.load_and_count_pages(rows);
                let ids: Vec<i32> = parent_ids(&parents);
                let waiting = ParentPage { parents, total_pages, page, per_page };
                (
                    TwoQueryFetch { stage: Stage::AwaitingChildren(waiting), round_trips: 2 },
                    Action::QueryChildren(ids),
                )
            },
            (Stage::AwaitingChildren(waiting), Event::Children(joined)) => {
                let action: Action<P, C> = match group(waiting.parents, joined) {
                    Ok(groups) => Action::Deliver(
                        (groups, waiting.total_pages, waiting.page, waiting.per_page),
                    ),
                    Err(stray) => Action::Fail(FetchError::Consistency(stray)),
                };
                (TwoQueryFetch { stage: Stage::Finished, round_trips: 2 }, action)
            },
            (Stage::AwaitingParents(_), Event::Failed(failure)) => {
                (
                    TwoQueryFetch { stage: Stage::Finished, round_trips },
                    Action::Fail(FetchError::Backend(failure)),
                )
            },
            (Stage::AwaitingChildren(_), Event::Failed(failure)) => {
                (
                    TwoQueryFetch { stage: Stage::Finished, round_trips },
                    Action::Fail(FetchError::Backend(failure)),
                )
            },
            _ => {
                (
                    TwoQueryFetch { stage: Stage::Finished, round_trips },
                    Action::Fail(FetchError::OutOfTurn),
                )
            },
        }
    }
}

/// The identifiers of the parents, in their order.
pub fn parent_ids<P: Parent>(parents: &Vec<P>) -> (ids: Vec<i32>)
    ensures
        ids@ == keys_of(parents@),
{
    let mut ids: Vec<i32> = Vec::new();
    let mut at: usize = 0;
    while at < parents.len()
        invariant
            at <= parents.len(),
            ids@.len() == at,
            forall|i: int| 0 <= i < at ==> ids@[i] == (#[trigger] parents@[i]).key(),
        decreases parents.len() - at,
    {
        ids.push(parents[at].id());
        at = at + 1;
    }
    assert(ids@ =~= keys_of(parents@));
    ids
}

/// Turns every parent with its children into the value that shows both.
pub fn present<P, C, R: From<(P, Vec<C>)>>(groups: Vec<(P, Vec<C>)>) -> (rows: Vec<R>)
    ensures
        rows@.len() == groups@.len(),
        R::obeys_from_spec() ==> forall|i: int|
            0 <= i < groups@.len() ==> #[trigger] rows@[i] == R::from_spec(groups@[i]),
{
    let mut rows: Vec<R> = Vec::new();
    for pair in it: groups
        invariant
            it.seq() == groups@,
            rows@.len() == it.index(),
            R::obeys_from_spec() ==> forall|i: int|
                0 <= i < rows@.len() ==> #[trigger] rows@[i] == R::from_spec(groups@[i]),
    {
        rows.push(R::from(pair));
    }
    rows
}

/// Pairs every child with the identifier of the parent it points to.
pub open spec fn keyed<C: JoinRow>(children: Seq<C>) -> Seq<(i32, C)> {
    Seq::new(children.len(), |i: int| (children[i].parent_key(), children[i]))
}

/// Pairs every child with the identifier of the parent it points to, for
/// children that carry that identifier themselves.
pub fn with_keys<C: JoinRow>(children: Vec<C>) -> (joined: Vec<(i32, C)>)
    ensures
        joined@ == keyed(children@),
{
    let mut joined: Vec<(i32, C)> = Vec::new();
    for child in it: children
        invariant
            it.seq() == children@,
            joined@ == keyed(children@.take(it.index() as int)),
    {
        let key: i32 = child.foreign_key();
        joined.push((key, child));
        assert(joined@ =~= keyed(children@.take(it.index() + 1)));
    }
    assert(children@.take(children@.len() as int) =~= children@);
    joined
}

} // verus!
