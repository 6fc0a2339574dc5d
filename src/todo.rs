use vstd::prelude::*;
use vstd::string::*;

use crate::errors::{Error, ErrorKind};

verus! {

/// The workflow status of a todo item.
#[derive(Debug, Clone, Copy, PartialEq, Eq, Structural)]
pub enum Status {
    Draft,
    InProgress,
    Completed,
    Rejected,
}

/// The transition table of the status state machine.
pub open spec fn transition_allowed(from: Status, to: Status) -> bool {
    match from {
        Status::Draft => to == Status::InProgress || to == Status::Rejected,
        Status::InProgress => to == Status::Completed || to == Status::Rejected,
        Status::Completed => false,
        Status::Rejected => false,
    }
}

/// A status from which no transition leads anywhere.
pub open spec fn is_terminal(s: Status) -> bool {
    s == Status::Completed || s == Status::Rejected
}

/// The wire name of a status.
pub open spec fn status_name(s: Status) -> Seq<char> {
    match s {
        Status::Draft => "draft"@,
        Status::InProgress => "in_progress"@,
        Status::Completed => "completed"@,
        Status::Rejected => "rejected"@,
    }
}

/// The status whose wire name is `s`, if any.
pub open spec fn status_named(s: Seq<char>) -> Option<Status> {
    if s == "draft"@ {
        Some(Status::Draft)
    } else if s == "in_progress"@ {
        Some(Status::InProgress)
    } else if s == "completed"@ {
        Some(Status::Completed)
    } else if s == "rejected"@ {
        Some(Status::Rejected)
    } else {
        None
    }
}

/// Reading back the wire name of a status gives that status.
pub proof fn lemma_status_name_round_trip(s: Status)
    ensures
        status_named(status_name(s)) == Some(s),
{
    reveal_strlit("draft");
    reveal_strlit("in_progress");
    reveal_strlit("completed");
    reveal_strlit("rejected");
    assert("draft"@.len() == 5);
    assert("in_progress"@.len() == 11);
    assert("completed"@.len() == 9);
    assert("rejected"@.len() == 8);
}

/// No transition leaves a terminal status, and no status moves to itself.
pub proof fn lemma_terminal_and_self_transitions_refused(from: Status, to: Status)
    ensures
        is_terminal(from) ==> !transition_allowed(from, to),
        !transition_allowed(from, from),
{
}

impl Status {
    /// Whether the state machine allows moving from `self` to `next`.
    pub fn can_be_updated_to(&self, next: &Self) -> (r: bool)
        ensures
            r == transition_allowed(*self, *next),
    {
        match self {
            Status::Draft => *next == Status::InProgress || *next == Status::Rejected,
            Status::InProgress => *next == Status::Completed || *next == Status::Rejected,
            _ => false,
        }
    }

    /// The wire name of this status.
    pub fn to_string(&self) -> (r: String)
        ensures
            r@ == status_name(*self),
    {
        match self {
            Status::Draft => String::from_str("draft"),
            Status::InProgress => String::from_str("in_progress"),
            Status::Completed => String::from_str("completed"),
            Status::Rejected => String::from_str("rejected"),
        }
    }

    /// Parses a wire name; any other text is refused with a message naming it.
    pub fn from_str(s: &str) -> (r: Result<Status, String>)
        ensures
            r is Ok <==> status_named(s@) is Some,
            r is Ok ==> r->Ok_0 == status_named(s@)->Some_0,
            r is Err ==> r->Err_0@ == "Invalid status: "@ + s@,
    {
        let text = String::from_str(s);
        if text == String::from_str("draft") {
            Ok(Status::Draft)
        } else if text == String::from_str("in_progress") {
            Ok(Status::InProgress)
        } else if text == String::from_str("completed") {
            Ok(Status::Completed)
        } else if text == String::from_str("rejected") {
            Ok(Status::Rejected)
        } else {
            let mut message = String::from_str("Invalid status: ");
            message.append(s);
            Err(message)
        }
    }
}

/// A stored todo item. Timestamps are Unix seconds.
#[derive(Debug, Clone)]
pub struct TodoItem {
    pub id: i32,
    pub owner_id: i32,
    pub title: String,
    pub status: Status,
    pub description: String,
    pub created_at: i64,
    pub updated_at: i64,
}

/// Selection and pagination of a listing.
///
/// `status` restricts both the page and the total; `limit` and `offset`
/// bound the page only.
#[derive(Debug, Clone, Copy)]
pub struct Filters {
    pub status: Option<Status>,
    pub limit: Option<i32>,
    pub offset: Option<i32>,
}

/// What the owner asks for when creating an item.
#[derive(Debug, Clone)]
pub struct CreateTodoItemRequest {
    pub owner_id: i32,
    pub title: String,
    pub description: String,
}

/// An account's request to move an item to another status.
#[derive(Debug, Clone, Copy)]
pub struct UpdateTodoItemRequest {
    pub owner_id: i32,
    pub item_id: i32,
    pub status: Status,
}

/// Whether `item` passes the status filter `status`.
pub open spec fn passes(item: TodoItem, status: Option<Status>) -> bool {
    match status {
        None => true,
        Some(s) => item.status == s,
    }
}

/// The records that pass the status filter, in stored order.
pub open spec fn matching(records: Seq<TodoItem>, status: Option<Status>) -> Seq<TodoItem> {
    records.filter(|item: TodoItem| passes(item, status))
}

/// A bound clamped into `0..=max`.
pub open spec fn clamp(bound: i32, max: int) -> int {
    if bound < 0 {
        0
    } else if bound > max {
        max
    } else {
        bound as int
    }
}

/// The page of `items` that skips `offset` items and keeps at most `limit`.
pub open spec fn page(items: Seq<TodoItem>, limit: Option<i32>, offset: Option<i32>) -> Seq<TodoItem> {
    let start = match offset {
        None => 0,
        Some(o) => clamp(o, items.len() as int),
    };
    let rest = items.subrange(start, items.len() as int);
    match limit {
        None => rest,
        Some(l) => rest.subrange(0, clamp(l, rest.len() as int)),
    }
}

/// The last record with identifier `id`.
pub open spec fn stored(records: Seq<TodoItem>, id: i32) -> Option<TodoItem>
    decreases records.len(),
{
    if records.len() == 0 {
        None
    } else if records.last().id == id {
        Some(records.last())
    } else {
        stored(records.drop_last(), id)
    }
}

/// `after` is `before` moved to `status`, every other field but the
/// modification time kept.
pub open spec fn is_status_change(before: TodoItem, after: TodoItem, status: Status) -> bool {
    &&& after.id == before.id
    &&& after.owner_id == before.owner_id
    &&& after.title == before.title
    &&& after.description == before.description
    &&& after.created_at == before.created_at
    &&& after.status == status
}

/// `after` is `before` with every record of identifier `id` moved to `status`.
pub open spec fn is_records_status_change(
    before: Seq<TodoItem>,
    after: Seq<TodoItem>,
    id: i32,
    status: Status,
) -> bool {
    &&& after.len() == before.len()
    &&& forall|k: int|
        0 <= k < before.len() ==> if (#[trigger] before[k]).id == id {
            is_status_change(before[k], after[k], status)
        } else {
            after[k] == before[k]
        }
}

/// The todo items a store holds, in the order in which it lists them.
pub trait TodoRecords {
    spec fn records(&self) -> Seq<TodoItem>;

    /// Whether the store serves requests: it is reachable and consistent.
    /// The capabilities below say what a ready store owes.
    spec fn ready(&self) -> bool;
}

/// Storage capability: create an item.
pub trait TodoCreator: TodoRecords {
    /// Stores a new item in `status` and returns it as stored, with its
    /// generated identifier and timestamps.
    fn create(&mut self, request: CreateTodoItemRequest, status: Status) -> (r: Result<TodoItem, Error>)
        ensures
            r is Ok ==> {
                let item = r->Ok_0;
                &&& item.owner_id == request.owner_id
                &&& item.title == request.title
                &&& item.description == request.description
                &&& item.status == status
                &&& stored(old(self).records(), item.id) is None
                &&& final(self).records() == old(self).records().push(item)
            },
            r is Err ==> final(self).records() == old(self).records(),
            old(self).ready() && old(self).records().len() + 1 < i32::MAX ==> r is Ok,
            old(self).ready() && old(self).records().len() + 1 < i32::MAX ==> final(self).ready(),
    ;
}

/// Storage capability: count the items that pass a filter.
pub trait TodoCounter: TodoRecords {
    /// Counts the items that pass `filters.status`; limit and offset are not
    /// looked at.
    fn count(&self, filters: &Filters) -> (r: Result<i64, Error>)
        ensures
            r is Ok ==> r->Ok_0 == matching(self.records(), filters.status).len(),
            self.ready() ==> r is Ok,
    ;
}

/// Storage capability: list one page of the items that pass a filter.
pub trait TodoLister: TodoRecords {
    fn list(&self, filters: &Filters) -> (r: Result<Vec<TodoItem>, Error>)
        ensures
            self.ready() ==> r is Ok,
            self.ready() && r is Ok ==> ids_unique(r->Ok_0@),
            r is Ok ==> r->Ok_0@ == page(
                matching(self.records(), filters.status),
                filters.limit,
                filters.offset,
            ),
    ;
}

/// A page of items together with the number of items that pass the filter.
pub trait TodoListerAndCounter: TodoRecords {
    fn list(&self, filters: &Filters) -> (r: Result<(Vec<TodoItem>, i64), Error>)
        ensures
            self.ready() ==> r is Ok,
            self.ready() && r is Ok ==> ids_unique(r->Ok_0.0@),
            r is Ok ==> {
                let (items, total) = r->Ok_0;
                &&& items@ == page(
                    matching(self.records(), filters.status),
                    filters.limit,
                    filters.offset,
                )
                &&& total == matching(self.records(), filters.status).len()
            },
    ;
}

/// Storage capability: fetch one item.
pub trait TodoGetter: TodoRecords {
    fn one(&self, id: i32) -> (r: Result<TodoItem, Error>)
        ensures
            self.ready() && stored(self.records(), id) is Some ==> r is Ok,
            r is Ok ==> stored(self.records(), id) == Some(r->Ok_0),
            stored(self.records(), id) is None ==> r is Err,
            r is Err ==> (r->Err_0.kind() == ErrorKind::NotFound <==> stored(self.records(), id) is None),
            r is Err ==> r->Err_0.kind() == ErrorKind::NotFound || r->Err_0.kind() == ErrorKind::Unknown,
    ;
}

/// Storage capability: move an item to another status.
pub trait TodoUpdater: TodoRecords {
    fn update(&mut self, request: UpdateTodoItemRequest) -> (r: Result<TodoItem, Error>)
        ensures
            r is Ok ==> {
                &&& stored(old(self).records(), request.item_id) is Some
                &&& is_status_change(
                    stored(old(self).records(), request.item_id)->Some_0,
                    r->Ok_0,
                    request.status,
                )
                &&& is_records_status_change(
                    old(self).records(),
                    final(self).records(),
                    request.item_id,
                    request.status,
                )
            },
            r is Err ==> final(self).records() == old(self).records(),
            old(self).ready() && stored(old(self).records(), request.item_id) is Some ==> r is Ok,
            old(self).ready() ==> final(self).ready(),
    ;
}

/// No two items share an identifier.
pub open spec fn ids_unique(items: Seq<TodoItem>) -> bool {
    forall|a: int, b: int| 0 <= a < b < items.len() ==> #[trigger] items[a].id != #[trigger] items[b].id
}

/// Each record's identifier is its position plus one, as when identifiers
/// are handed out in creation order from 1.
pub open spec fn ids_are_positions(records: Seq<TodoItem>) -> bool {
    forall|k: int| 0 <= k < records.len() ==> (#[trigger] records[k]).id == k + 1
}

} // verus!
