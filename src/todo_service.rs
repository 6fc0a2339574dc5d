use vstd::prelude::*;
use vstd::string::*;

use crate::errors::{Error, ErrorKind};
use crate::todo::{
    is_records_status_change, is_status_change, matching, page, status_name, stored,
    transition_allowed, CreateTodoItemRequest, Filters, Status, TodoCounter, TodoCreator,
    TodoGetter, TodoItem, TodoLister, TodoListerAndCounter, TodoRecords, TodoUpdater,
    UpdateTodoItemRequest,
};

verus! {

/// Why a status change of `current` asked for by `request` is refused, if it is.
///
/// Ownership is looked at first, so that a non-owner never learns whether the
/// transition itself would have been legal.
pub open spec fn update_refusal(current: TodoItem, request: UpdateTodoItemRequest) -> Option<ErrorKind> {
    if current.owner_id != request.owner_id {
        Some(ErrorKind::Forbidden)
    } else if !transition_allowed(current.status, request.status) {
        Some(ErrorKind::OperationNotApplicable)
    } else {
        None
    }
}

/// Decides whether `request` may move the stored item `current` to its status.
///
/// A refusal for a transition outside the table names the attempted pair:
/// `can't update from <from> to <to>`.
pub fn check_update(current: &TodoItem, request: &UpdateTodoItemRequest) -> (r: Result<(), Error>)
    ensures
        r is Ok <==> update_refusal(*current, *request) is None,
        r is Err ==> Some(r->Err_0.kind()) == update_refusal(*current, *request),
        r matches Err(Error::OperationNotApplicable(m)) ==> m@ == "can't update from "@
            + status_name(current.status) + " to "@ + status_name(request.status),
{
    if current.owner_id != request.owner_id {
        return Err(Error::Forbidden(String::from_str("the item belongs to another account")));
    }
    if !current.status.can_be_updated_to(&request.status) {
        let mut message = String::from_str("can't update from ");
        let from = current.status.to_string();
        let to = request.status.to_string();
        message.append(from.as_str());
        message.append(" to ");
        message.append(to.as_str());
        return Err(Error::OperationNotApplicable(message));
    }
    Ok(())
}

/// A request from a non-owner is refused as forbidden, whatever the transition.
pub proof fn lemma_non_owner_forbidden(current: TodoItem, request: UpdateTodoItemRequest)
    requires
        current.owner_id != request.owner_id,
    ensures
        update_refusal(current, request) == Some(ErrorKind::Forbidden),
{
}

/// The owner's request for a transition outside the table is refused as not
/// applicable.
pub proof fn lemma_illegal_transition_not_applicable(current: TodoItem, request: UpdateTodoItemRequest)
    requires
        current.owner_id == request.owner_id,
        !transition_allowed(current.status, request.status),
    ensures
        update_refusal(current, request) == Some(ErrorKind::OperationNotApplicable),
{
}

/// The total reported for a filter (the number of items that pass its
/// status) is the length of the listing for the same filter with limit and
/// offset removed: pagination never changes the total.
pub proof fn lemma_total_ignores_pagination(records: Seq<TodoItem>, filters: Filters)
    ensures
        ({
            let unpaged = (Filters { status: filters.status, limit: None, offset: None });
            matching(records, filters.status).len() == page(
                matching(records, unpaged.status),
                unpaged.limit,
                unpaged.offset,
            ).len()
        }),
{
    let m = matching(records, filters.status);
    assert(m.subrange(0, m.len() as int) =~= m);
}

/// The todo workflow: creation, listing, lookup and status changes over a
/// store that provides every storage capability.
pub struct TodoService<S> {
    store: S,
}

impl<S: TodoRecords> TodoRecords for TodoService<S> {
    closed spec fn records(&self) -> Seq<TodoItem> {
        self.store.records()
    }

    closed spec fn ready(&self) -> bool {
        self.store.ready()
    }
}

impl<S> TodoService<S> where S: TodoCreator + TodoCounter + TodoLister + TodoGetter + TodoUpdater {
    pub fn new(store: S) -> (r: Self)
        ensures
            r.records() == store.records(),
            r.ready() == store.ready(),
    {
        TodoService { store }
    }

    /// Creates an item for `request.owner_id`; every new item starts as a draft.
    pub fn create(&mut self, request: CreateTodoItemRequest) -> (r: Result<TodoItem, Error>)
        ensures
            r is Ok ==> {
                let item = r->Ok_0;
                &&& item.status == Status::Draft
                &&& item.owner_id == request.owner_id
                &&& item.title == request.title
                &&& item.description == request.description
                &&& stored(old(self).records(), item.id) is None
                &&& final(self).records() == old(self).records().push(item)
            },
            r is Err ==> final(self).records() == old(self).records(),
            old(self).ready() && old(self).records().len() + 1 < i32::MAX ==> r is Ok,
            old(self).ready() && old(self).records().len() + 1 < i32::MAX ==> final(self).ready(),
    {
        self.store.create(request, Status::Draft)
    }

    /// Fetches one item; a missing one is reported as not found.
    pub fn one(&self, id: i32) -> (r: Result<TodoItem, Error>)
        ensures
            r is Ok ==> stored(self.records(), id) == Some(r->Ok_0),
            stored(self.records(), id) is None ==> r is Err,
            r is Err ==> (r->Err_0.kind() == ErrorKind::NotFound <==> stored(self.records(), id) is None),
            self.ready() && stored(self.records(), id) is Some ==> r is Ok,
    {
        self.store.one(id)
    }

    /// Moves an item to `request.status` on behalf of `request.owner_id`.
    ///
    /// The item is fetched, ownership is checked, then the transition; only
    /// then is the change written. Nothing is written on any refusal. The read
    /// and the write are not atomic: a concurrent change of the same item in
    /// between is overwritten (last writer wins).
    pub fn update(&mut self, request: UpdateTodoItemRequest) -> (r: Result<TodoItem, Error>)
        ensures
            r is Ok ==> {
                &&& stored(old(self).records(), request.item_id) is Some
                &&& update_refusal(stored(old(self).records(), request.item_id)->Some_0, request) is None
                &&& is_status_change(
                    stored(old(self).records(), request.item_id)->Some_0,
                    r->Ok_0,
                    request.status,
                )
                &&& is_records_status_change(
                    old(self).records(),
                    final(self).records(),
                    request.item_id,
                    request.status,
                )
            },
            r is Err ==> final(self).records() == old(self).records(),
            stored(old(self).records(), request.item_id) is None ==> r is Err && r->Err_0.kind()
                == ErrorKind::NotFound,
            stored(old(self).records(), request.item_id) is Some && update_refusal(
                stored(old(self).records(), request.item_id)->Some_0,
                request,
            ) is Some ==> r is Err && (Some(r->Err_0.kind()) == update_refusal(
                stored(old(self).records(), request.item_id)->Some_0,
                request,
            ) || r->Err_0.kind() == ErrorKind::Unknown),
            old(self).ready() ==> final(self).ready(),
            old(self).ready() && stored(old(self).records(), request.item_id) is Some ==> match update_refusal(
                stored(old(self).records(), request.item_id)->Some_0,
                request,
            ) {
                None => r is Ok,
                Some(k) => r is Err && r->Err_0.kind() == k,
            },
    {
        let current = match self.store.one(request.item_id) {
            Ok(item) => item,
            Err(e) => return Err(e),
        };
        match check_update(&current, &request) {
            Ok(()) => {},
            Err(e) => return Err(e),
        }
        self.store.update(request)
    }
}

impl<S> TodoListerAndCounter for TodoService<S> where
    S: TodoCreator + TodoCounter + TodoLister + TodoGetter + TodoUpdater,
 {
    /// Counts and lists with the same filter, so the total always belongs to
    /// the filter that produced the page.
    fn list(&self, filters: &Filters) -> (r: Result<(Vec<TodoItem>, i64), Error>) {
        let total = match self.store.count(filters) {
            Ok(n) => n,
            Err(e) => return Err(e),
        };
        let items = match TodoLister::list(&self.store, filters) {
            Ok(v) => v,
            Err(e) => return Err(e),
        };
        Ok((items, total))
    }
}

} // verus!
