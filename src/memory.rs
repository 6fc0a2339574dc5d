use vstd::prelude::*;
use vstd::string::*;

use crate::account::{
    account_with_id, account_with_login, Account, AccountRepository, CreateAccountRequest,
};
use crate::errors::Error;
use crate::todo::{
    ids_are_positions, ids_unique, is_status_change, matching, page, passes, stored, clamp,
    CreateTodoItemRequest, Filters, Status, TodoCounter, TodoCreator, TodoGetter, TodoItem,
    TodoLister, TodoRecords, TodoUpdater, UpdateTodoItemRequest,
};

verus! {

/// `stored` finds the record at `k` when no later record has its identifier.
proof fn lemma_stored_at(records: Seq<TodoItem>, id: i32, k: int)
    requires
        0 <= k < records.len(),
        records[k].id == id,
        forall|j: int| k < j < records.len() ==> (#[trigger] records[j]).id != id,
    ensures
        stored(records, id) == Some(records[k]),
    decreases records.len(),
{
    if k < records.len() - 1 {
        lemma_stored_at(records.drop_last(), id, k);
    }
}

/// `stored` finds nothing when no record has the identifier.
proof fn lemma_stored_none(records: Seq<TodoItem>, id: i32)
    requires
        forall|j: int| 0 <= j < records.len() ==> (#[trigger] records[j]).id != id,
    ensures
        stored(records, id) is None,
    decreases records.len(),
{
    if records.len() > 0 {
        lemma_stored_none(records.drop_last(), id);
    }
}

/// One more record extends the filtered prefix by at most that record.
proof fn lemma_matching_step(records: Seq<TodoItem>, status: Option<Status>, i: int)
    requires
        0 <= i < records.len(),
    ensures
        matching(records.subrange(0, i + 1), status) == if passes(records[i], status) {
            matching(records.subrange(0, i), status).push(records[i])
        } else {
            matching(records.subrange(0, i), status)
        },
{
    let prefix = records.subrange(0, i + 1);
    assert(prefix.drop_last() =~= records.subrange(0, i));
    reveal(Seq::filter);
}

/// A field-by-field copy of `item`.
fn copy_item(item: &TodoItem) -> (r: TodoItem)
    ensures
        r == *item,
{
    TodoItem {
        id: item.id,
        owner_id: item.owner_id,
        title: item.title.clone(),
        status: item.status,
        description: item.description.clone(),
        created_at: item.created_at,
        updated_at: item.updated_at,
    }
}

/// An in-memory todo store, holding its items in creation order.
///
/// A new item gets the identifier after the largest one stored.
pub struct MemoryTodoStore {
    items: Vec<TodoItem>,
    clock: i64,
}

impl MemoryTodoStore {
    /// An empty store whose timestamps start after `clock`.
    pub fn new(clock: i64) -> (r: Self)
        ensures
            r.records() == Seq::<TodoItem>::empty(),
    {
        MemoryTodoStore { items: Vec::new(), clock }
    }

    fn tick(&mut self) -> (r: i64)
        ensures
            final(self).records() == old(self).records(),
    {
        if self.clock < i64::MAX {
            self.clock = self.clock + 1;
        }
        self.clock
    }

    /// The largest stored identifier, or 0.
    fn largest_id(&self) -> (r: i32)
        ensures
            forall|k: int| 0 <= k < self.records().len() ==> (#[trigger] self.records()[k]).id <= r,
            r == 0 || exists|k: int| 0 <= k < self.records().len() && self.records()[k].id == r,
    {
        let mut top: i32 = 0;
        let mut i: usize = 0;
        while i < self.items.len()
            invariant
                i <= self.items@.len(),
                forall|k: int| 0 <= k < i ==> (#[trigger] self.items@[k]).id <= top,
                top == 0 || exists|k: int| 0 <= k < i && self.items@[k].id == top,
            decreases self.items@.len() - i,
        {
            if self.items[i].id > top {
                top = self.items[i].id;
            }
            i = i + 1;
        }
        top
    }
}

impl TodoRecords for MemoryTodoStore {
    closed spec fn records(&self) -> Seq<TodoItem> {
        self.items@
    }

    /// Identifiers follow creation order from 1, and there is room for
    /// another one.
    open spec fn ready(&self) -> bool {
        &&& ids_are_positions(self.records())
        &&& self.records().len() < i32::MAX
    }
}

impl TodoCreator for MemoryTodoStore {
    /// Succeeds unless some stored identifier is already `i32::MAX`.
    fn create(&mut self, request: CreateTodoItemRequest, status: Status) -> (r: Result<TodoItem, Error>)
        ensures
            (forall|k: int|
                0 <= k < old(self).records().len() ==> (#[trigger] old(self).records()[k]).id
                    < i32::MAX) ==> r is Ok,
    {
        let top = self.largest_id();
        proof {
            if self.ready() {
                let n = self.items@.len();
                if n > 0 {
                    assert(self.items@[n - 1].id == n);
                }
                if top != 0 {
                    let k = choose|k: int| 0 <= k < n && self.items@[k].id == top;
                    assert(self.items@[k].id == k + 1);
                }
                assert(top == n);
            }
        }
        if top == i32::MAX {
            return Err(Error::Unknown(String::from_str("identifier space exhausted")));
        }
        let now = self.tick();
        let id = top + 1;
        proof {
            lemma_stored_none(self.items@, id);
        }
        let item = TodoItem {
            id,
            owner_id: request.owner_id,
            title: request.title,
            status,
            description: request.description,
            created_at: now,
            updated_at: now,
        };
        self.items.push(copy_item(&item));
        proof {
            if old(self).ready() && old(self).records().len() + 1 < i32::MAX {
                assert(forall|k: int|
                    0 <= k < self.items@.len() ==> (#[trigger] self.items@[k]).id == k + 1);
            }
        }
        Ok(item)
    }
}

impl MemoryTodoStore {
    /// The items that pass `status`, in stored order.
    fn matching_items(&self, status: Option<Status>) -> (r: Vec<TodoItem>)
        ensures
            r@ == matching(self.records(), status),
            ids_are_positions(self.records()) ==> forall|a: int, b: int|
                0 <= a < b < r@.len() ==> #[trigger] r@[a].id < #[trigger] r@[b].id,
    {
        let mut out: Vec<TodoItem> = Vec::new();
        let mut i: usize = 0;
        while i < self.items.len()
            invariant
                i <= self.items@.len(),
                out@ == matching(self.items@.subrange(0, i as int), status),
                ids_are_positions(self.items@) ==> forall|k: int|
                    0 <= k < out@.len() ==> (#[trigger] out@[k]).id <= i,
                ids_are_positions(self.items@) ==> forall|a: int, b: int|
                    0 <= a < b < out@.len() ==> #[trigger] out@[a].id < #[trigger] out@[b].id,
            decreases self.items@.len() - i,
        {
            proof {
                lemma_matching_step(self.items@, status, i as int);
            }
            let item = &self.items[i];
            let keep = match status {
                None => true,
                Some(s) => item.status == s,
            };
            if keep {
                out.push(copy_item(item));
            }
            i = i + 1;
        }
        assert(self.items@.subrange(0, i as int) =~= self.items@);
        out
    }
}

impl TodoCounter for MemoryTodoStore {
    fn count(&self, filters: &Filters) -> (r: Result<i64, Error>)
        ensures
            matching(self.records(), filters.status).len() <= i64::MAX ==> r is Ok,
    {
        let found = self.matching_items(filters.status);
        proof {
            broadcast use Seq::lemma_filter_len;
        }
        if found.len() as u64 > i64::MAX as u64 {
            return Err(Error::Unknown(String::from_str("count out of range")));
        }
        Ok(found.len() as i64)
    }
}

/// A bound clamped into `0..=max`, as an index.
fn clamp_index(bound: i32, max: usize) -> (r: usize)
    ensures
        r as int == clamp(bound, max as int),
{
    if bound < 0 {
        0
    } else if bound as usize > max {
        max
    } else {
        bound as usize
    }
}

impl TodoLister for MemoryTodoStore {
    fn list(&self, filters: &Filters) -> (r: Result<Vec<TodoItem>, Error>)
        ensures
            r is Ok,
    {
        let found = self.matching_items(filters.status);
        let n = found.len();
        let start: usize = match filters.offset {
            None => 0,
            Some(o) => clamp_index(o, n),
        };
        let take: usize = match filters.limit {
            None => n - start,
            Some(l) => clamp_index(l, n - start),
        };
        let mut out: Vec<TodoItem> = Vec::new();
        let mut j: usize = 0;
        while j < take
            invariant
                start + take <= n == found@.len(),
                j <= take,
                out@ == found@.subrange(start as int, (start + j) as int),
            decreases take - j,
        {
            out.push(copy_item(&found[start + j]));
            assert(found@.subrange(start as int, (start + j + 1) as int) =~= found@.subrange(
                start as int,
                (start + j) as int,
            ).push(found@[start + j]));
            j = j + 1;
        }
        assert(out@ =~= page(matching(self.records(), filters.status), filters.limit, filters.offset));
        proof {
            if self.ready() {
                assert forall|a: int, b: int| 0 <= a < b < out@.len() implies #[trigger] out@[a].id
                    != #[trigger] out@[b].id by {
                    assert(out@[a] == found@[start + a]);
                    assert(out@[b] == found@[start + b]);
                }
            }
        }
        Ok(out)
    }
}

impl TodoGetter for MemoryTodoStore {
    fn one(&self, id: i32) -> (r: Result<TodoItem, Error>)
        ensures
            stored(self.records(), id) is Some ==> r is Ok,
    {
        let mut i: usize = self.items.len();
        while i > 0
            invariant
                i <= self.items@.len(),
                forall|j: int| i <= j < self.items@.len() ==> (#[trigger] self.items@[j]).id != id,
            decreases i,
        {
            i = i - 1;
            if self.items[i].id == id {
                proof {
                    lemma_stored_at(self.items@, id, i as int);
                }
                return Ok(copy_item(&self.items[i]));
            }
        }
        proof {
            lemma_stored_none(self.items@, id);
        }
        Err(Error::NotFound(String::from_str("todo item not found")))
    }
}

impl TodoUpdater for MemoryTodoStore {
    fn update(&mut self, request: UpdateTodoItemRequest) -> (r: Result<TodoItem, Error>)
        ensures
            stored(old(self).records(), request.item_id) is Some ==> r is Ok,
    {
        let ghost before = self.items@;
        let now = self.tick();
        let id = request.item_id;
        let mut last: Option<usize> = None;
        let mut i: usize = 0;
        while i < self.items.len()
            invariant
                self.items@.len() == before.len(),
                i <= before.len(),
                forall|k: int|
                    0 <= k < i ==> if (#[trigger] before[k]).id == id {
                        is_status_change(before[k], self.items@[k], request.status)
                    } else {
                        self.items@[k] == before[k]
                    },
                forall|k: int| i <= k < before.len() ==> #[trigger] self.items@[k] == before[k],
                match last {
                    None => forall|k: int| 0 <= k < i ==> (#[trigger] before[k]).id != id,
                    Some(x) => {
                        &&& x < i
                        &&& before[x as int].id == id
                        &&& forall|k: int| x < k < i ==> (#[trigger] before[k]).id != id
                    },
                },
            decreases before.len() - i,
        {
            if self.items[i].id == id {
                let current = &self.items[i];
                let changed = TodoItem {
                    id: current.id,
                    owner_id: current.owner_id,
                    title: current.title.clone(),
                    status: request.status,
                    description: current.description.clone(),
                    created_at: current.created_at,
                    updated_at: now,
                };
                self.items.set(i, changed);
                last = Some(i);
            }
            i = i + 1;
        }
        assert(forall|k: int| 0 <= k < before.len() ==> (#[trigger] self.items@[k]).id == before[k].id);
        match last {
            None => {
                proof {
                    lemma_stored_none(before, id);
                }
                assert(self.items@ =~= before);
                Err(Error::NotFound(String::from_str("todo item not found")))
            },
            Some(x) => {
                proof {
                    lemma_stored_at(before, id, x as int);
                }
                Ok(copy_item(&self.items[x]))
            },
        }
    }
}

proof fn lemma_login_at(accounts: Seq<Account>, login: Seq<char>, k: int)
    requires
        0 <= k < accounts.len(),
        accounts[k].login@ == login,
        forall|j: int| k < j < accounts.len() ==> (#[trigger] accounts[j]).login@ != login,
    ensures
        account_with_login(accounts, login) == Some(accounts[k]),
    decreases accounts.len(),
{
    if k < accounts.len() - 1 {
        lemma_login_at(accounts.drop_last(), login, k);
    }
}

proof fn lemma_login_found(accounts: Seq<Account>, login: Seq<char>, k: int)
    requires
        0 <= k < accounts.len(),
        accounts[k].login@ == login,
    ensures
        account_with_login(accounts, login) is Some,
    decreases accounts.len(),
{
    if k < accounts.len() - 1 && accounts.last().login@ != login {
        lemma_login_found(accounts.drop_last(), login, k);
    }
}

proof fn lemma_login_none(accounts: Seq<Account>, login: Seq<char>)
    requires
        forall|j: int| 0 <= j < accounts.len() ==> (#[trigger] accounts[j]).login@ != login,
    ensures
        account_with_login(accounts, login) is None,
    decreases accounts.len(),
{
    if accounts.len() > 0 {
        lemma_login_none(accounts.drop_last(), login);
    }
}

proof fn lemma_id_at(accounts: Seq<Account>, id: i32, k: int)
    requires
        0 <= k < accounts.len(),
        accounts[k].id == id,
        forall|j: int| k < j < accounts.len() ==> (#[trigger] accounts[j]).id != id,
    ensures
        account_with_id(accounts, id) == Some(accounts[k]),
    decreases accounts.len(),
{
    if k < accounts.len() - 1 {
        lemma_id_at(accounts.drop_last(), id, k);
    }
}

proof fn lemma_id_none(accounts: Seq<Account>, id: i32)
    requires
        forall|j: int| 0 <= j < accounts.len() ==> (#[trigger] accounts[j]).id != id,
    ensures
        account_with_id(accounts, id) is None,
    decreases accounts.len(),
{
    if accounts.len() > 0 {
        lemma_id_none(accounts.drop_last(), id);
    }
}

/// A field-by-field copy of `account`.
fn copy_account(account: &Account) -> (r: Account)
    ensures
        r == *account,
{
    Account {
        id: account.id,
        login: account.login.clone(),
        password: account.password.clone(),
        created_at: account.created_at,
    }
}

/// Each account's identifier is its position plus one.
pub open spec fn account_ids_are_positions(accounts: Seq<Account>) -> bool {
    forall|k: int| 0 <= k < accounts.len() ==> (#[trigger] accounts[k]).id == k + 1
}

/// An in-memory account store that refuses a second account with a login
/// already taken.
pub struct MemoryAccountStore {
    accounts: Vec<Account>,
    clock: i64,
}

impl MemoryAccountStore {
    /// An empty store that stamps accounts with `clock`.
    pub fn new(clock: i64) -> (r: Self)
        ensures
            r.accounts() == Seq::<Account>::empty(),
    {
        MemoryAccountStore { accounts: Vec::new(), clock }
    }
}

impl AccountRepository for MemoryAccountStore {
    closed spec fn accounts(&self) -> Seq<Account> {
        self.accounts@
    }

    /// Identifiers follow creation order from 1, and there is room for
    /// another one.
    open spec fn ready(&self) -> bool {
        &&& account_ids_are_positions(self.accounts())
        &&& self.accounts().len() < i32::MAX
    }

    /// Succeeds unless the login is taken or some stored identifier is
    /// already `i32::MAX`.
    fn create(&mut self, request: CreateAccountRequest) -> (r: Result<Account, Error>)
        ensures
            account_with_login(old(self).accounts(), request.login@) is None && (forall|k: int|
                0 <= k < old(self).accounts().len() ==> (#[trigger] old(self).accounts()[k]).id
                    < i32::MAX) ==> r is Ok,
    {
        let mut top: i32 = 0;
        let mut i: usize = 0;
        while i < self.accounts.len()
            invariant
                i <= self.accounts@.len(),
                forall|k: int| 0 <= k < i ==> (#[trigger] self.accounts@[k]).id <= top,
                forall|k: int| 0 <= k < i ==> (#[trigger] self.accounts@[k]).login@ != request.login@,
                top == 0 || exists|k: int| 0 <= k < i && self.accounts@[k].id == top,
            decreases self.accounts@.len() - i,
        {
            if self.accounts[i].login == request.login {
                proof {
                    lemma_login_found(self.accounts@, request.login@, i as int);
                }
                return Err(Error::Unknown(String::from_str("login already taken")));
            }
            if self.accounts[i].id > top {
                top = self.accounts[i].id;
            }
            i = i + 1;
        }
        proof {
            if self.ready() {
                let n = self.accounts@.len();
                if n > 0 {
                    assert(self.accounts@[n - 1].id == n);
                }
                if top != 0 {
                    let k = choose|k: int| 0 <= k < n && self.accounts@[k].id == top;
                    assert(self.accounts@[k].id == k + 1);
                }
                assert(top == n);
            }
        }
        if top == i32::MAX {
            return Err(Error::Unknown(String::from_str("identifier space exhausted")));
        }
        proof {
            lemma_login_none(self.accounts@, request.login@);
        }
        let account = Account {
            id: top + 1,
            login: request.login,
            password: request.password,
            created_at: self.clock,
        };
        self.accounts.push(copy_account(&account));
        proof {
            if old(self).ready() && old(self).accounts().len() + 1 < i32::MAX {
                assert(forall|k: int|
                    0 <= k < self.accounts@.len() ==> (#[trigger] self.accounts@[k]).id == k + 1);
            }
        }
        Ok(account)
    }

    fn get(&self, id: i32) -> (r: Result<Account, Error>)
        ensures
            account_with_id(self.accounts(), id) is Some ==> r is Ok,
    {
        let mut i: usize = self.accounts.len();
        while i > 0
            invariant
                i <= self.accounts@.len(),
                forall|j: int| i <= j < self.accounts@.len() ==> (#[trigger] self.accounts@[j]).id != id,
            decreases i,
        {
            i = i - 1;
            if self.accounts[i].id == id {
                proof {
                    lemma_id_at(self.accounts@, id, i as int);
                }
                return Ok(copy_account(&self.accounts[i]));
            }
        }
        proof {
            lemma_id_none(self.accounts@, id);
        }
        Err(Error::NotFound(String::from_str("account not found")))
    }

    fn get_by_login(&self, login: String) -> (r: Result<Account, Error>)
        ensures
            account_with_login(self.accounts(), login@) is Some ==> r is Ok,
    {
        let mut i: usize = self.accounts.len();
        while i > 0
            invariant
                i <= self.accounts@.len(),
                forall|j: int|
                    i <= j < self.accounts@.len() ==> (#[trigger] self.accounts@[j]).login@ != login@,
            decreases i,
        {
            i = i - 1;
            if self.accounts[i].login == login {
                proof {
                    lemma_login_at(self.accounts@, login@, i as int);
                }
                return Ok(copy_account(&self.accounts[i]));
            }
        }
        proof {
            lemma_login_none(self.accounts@, login@);
        }
        Err(Error::NotFound(String::from_str("account not found")))
    }
}

} // verus!
