use vstd::prelude::*;

use crate::errors::{Error, ErrorKind};

verus! {

/// A registered account. `password` holds the stored hash, never the
/// plaintext; `created_at` is in Unix seconds.
#[derive(Debug, Clone)]
pub struct Account {
    pub id: i32,
    pub login: String,
    pub password: String,
    pub created_at: i64,
}

/// A request to open an account.
#[derive(Debug, Clone)]
pub struct RegisterRequest {
    pub login: String,
    pub password: String,
}

/// A request to sign in.
#[derive(Debug, Clone)]
pub struct LoginRequest {
    pub login: String,
    pub password: String,
}

/// What the account store is asked to persist: the login and the hash.
#[derive(Debug, Clone)]
pub struct CreateAccountRequest {
    pub login: String,
    pub password: String,
}

/// A signed bearer token and the instant (Unix seconds) from which it is no
/// longer accepted.
#[derive(Debug, Clone)]
pub struct AuthToken {
    pub token: String,
    pub expires: i64,
}

/// The last account in `accounts` whose login is `login`.
pub open spec fn account_with_login(accounts: Seq<Account>, login: Seq<char>) -> Option<Account>
    decreases accounts.len(),
{
    if accounts.len() == 0 {
        None
    } else if accounts.last().login@ == login {
        Some(accounts.last())
    } else {
        account_with_login(accounts.drop_last(), login)
    }
}

/// The last account in `accounts` whose identifier is `id`.
pub open spec fn account_with_id(accounts: Seq<Account>, id: i32) -> Option<Account>
    decreases accounts.len(),
{
    if accounts.len() == 0 {
        None
    } else if accounts.last().id == id {
        Some(accounts.last())
    } else {
        account_with_id(accounts.drop_last(), id)
    }
}

/// One-way, salted password hashing.
pub trait PasswordHasher {
    /// Whether the stored hash `stored` was made from `password`.
    spec fn accepts(&self, password: Seq<char>, stored: Seq<char>) -> bool;

    /// Hashes `password` under a fresh salt; the result verifies against it.
    fn hash(&self, password: String) -> (r: Result<String, Error>)
        ensures
            r is Ok ==> self.accepts(password@, r->Ok_0@),
            r is Err ==> r->Err_0.kind() == ErrorKind::Unknown,
    ;

    /// Whether `password` reproduces the stored hash `actual`; a malformed
    /// hash is a mismatch.
    fn verify(&self, password: String, actual: String) -> (r: bool)
        ensures
            r == self.accepts(password@, actual@),
    ;
}

/// Issues and checks signed bearer tokens.
///
/// Each token carries a serial number that the generator advances on every
/// issue, so no two tokens it issues are equal, even for one account at one
/// instant.
pub trait AuthTokenGenerator {
    /// How long, in seconds, an issued token stays valid.
    spec fn lifetime(&self) -> int;

    /// The serial number the next token will carry.
    spec fn serial(&self) -> int;

    /// The token for `account_id` that expires at `expires` and carries `serial`.
    spec fn token_for(&self, account_id: i32, expires: i64, serial: int) -> Seq<char>;

    /// The account a token stands for at `now`, if it is accepted then.
    spec fn accepted(&self, token: Seq<char>, now: i64) -> Option<i32>;

    /// Whether a token can be issued at `now`: its expiry and the next serial
    /// number are in range.
    spec fn can_issue(&self, now: i64) -> bool;

    /// Issues a token for `account_id` that expires `lifetime` seconds after
    /// `now`, and advances the serial number.
    fn generate(&mut self, account_id: i32, now: i64) -> (r: Result<AuthToken, Error>)
        ensures
            final(self).lifetime() == old(self).lifetime(),
            forall|id: i32, expires: i64, serial: int|
                #[trigger] final(self).token_for(id, expires, serial) == old(self).token_for(
                    id,
                    expires,
                    serial,
                ),
            forall|token: Seq<char>, at: i64|
                #[trigger] final(self).accepted(token, at) == old(self).accepted(token, at),
            r is Ok ==> final(self).serial() == old(self).serial() + 1,
            r is Err ==> final(self).serial() == old(self).serial(),
            old(self).can_issue(now) ==> r is Ok,
            r is Err ==> r->Err_0.kind() == ErrorKind::Unknown,
            r is Ok ==> {
                let t = r->Ok_0;
                &&& t.expires == now + old(self).lifetime()
                &&& t.token@ == old(self).token_for(account_id, t.expires, old(self).serial())
                &&& t.token@.len() > 0
                &&& forall|id: i32, expires: i64, serial: int|
                    (id, expires, serial) != (account_id, t.expires, old(self).serial()) ==> t.token@
                        != #[trigger] old(self).token_for(id, expires, serial)
            },
    ;

    /// The account that `token` stands for, if its signature holds and it has
    /// not expired at `now`.
    fn parse(&self, token: String, now: i64) -> (r: Result<i32, Error>)
        ensures
            r is Ok <==> self.accepted(token@, now) is Some,
            r is Ok ==> r->Ok_0 == self.accepted(token@, now)->Some_0,
            r is Err ==> r->Err_0.kind() == ErrorKind::Forbidden,
            forall|account_id: i32, expires: i64, serial: int|
                token@ == #[trigger] self.token_for(account_id, expires, serial) ==> (r is Ok
                    <==> now < expires) && (r is Ok ==> r->Ok_0 == account_id),
    ;
}

/// `after` signs and checks tokens as `before` does.
pub open spec fn same_keys<G: AuthTokenGenerator>(before: G, after: G) -> bool {
    &&& after.lifetime() == before.lifetime()
    &&& forall|id: i32, expires: i64, serial: int|
        #[trigger] after.token_for(id, expires, serial) == before.token_for(id, expires, serial)
    &&& forall|token: Seq<char>, at: i64| #[trigger] after.accepted(token, at) == before.accepted(token, at)
}

/// Persistence of accounts.
pub trait AccountRepository {
    /// The stored accounts.
    spec fn accounts(&self) -> Seq<Account>;

    /// Whether the store serves requests: it is reachable and consistent.
    spec fn ready(&self) -> bool;

    /// Stores a new account; the store refuses a login that is taken. A
    /// ready store with room for one more identifier accepts a free login and
    /// stays ready.
    fn create(&mut self, request: CreateAccountRequest) -> (r: Result<Account, Error>)
        ensures
            old(self).ready() && account_with_login(old(self).accounts(), request.login@) is None
                && old(self).accounts().len() + 1 < i32::MAX ==> r is Ok,
            old(self).ready() && old(self).accounts().len() + 1 < i32::MAX ==> final(self).ready(),
            r is Err ==> r->Err_0.kind() == ErrorKind::Unknown,
            r is Ok ==> {
                &&& r->Ok_0.login == request.login
                &&& r->Ok_0.password == request.password
                &&& account_with_login(old(self).accounts(), request.login@) is None
                &&& final(self).accounts() == old(self).accounts().push(r->Ok_0)
            },
            r is Err ==> final(self).accounts() == old(self).accounts(),
    ;

    /// The account with identifier `id`.
    fn get(&self, id: i32) -> (r: Result<Account, Error>)
        ensures
            self.ready() && account_with_id(self.accounts(), id) is Some ==> r is Ok,
            r is Ok ==> account_with_id(self.accounts(), id) == Some(r->Ok_0),
            account_with_id(self.accounts(), id) is None ==> r is Err,
            r is Err ==> (r->Err_0.kind() == ErrorKind::NotFound <==> account_with_id(
                self.accounts(),
                id,
            ) is None),
            r is Err ==> r->Err_0.kind() == ErrorKind::NotFound || r->Err_0.kind() == ErrorKind::Unknown,
    ;

    /// The account whose login is `login`.
    fn get_by_login(&self, login: String) -> (r: Result<Account, Error>)
        ensures
            self.ready() && account_with_login(self.accounts(), login@) is Some ==> r is Ok,
            r is Ok ==> account_with_login(self.accounts(), login@) == Some(r->Ok_0),
            account_with_login(self.accounts(), login@) is None ==> r is Err,
            r is Err ==> (r->Err_0.kind() == ErrorKind::NotFound <==> account_with_login(
                self.accounts(),
                login@,
            ) is None),
            r is Err ==> r->Err_0.kind() == ErrorKind::NotFound || r->Err_0.kind() == ErrorKind::Unknown,
    ;
}

/// Registration, login and token authorization.
pub trait AccountService {
    /// The account that `token` authorizes at `now`, if any.
    spec fn authorized(&self, token: Seq<char>, now: i64) -> Option<i32>;

    fn register(&mut self, request: RegisterRequest, now: i64) -> Result<AuthToken, Error>;

    fn login(&mut self, request: LoginRequest, now: i64) -> Result<AuthToken, Error>;

    fn authorize(&self, token: String, now: i64) -> (r: Result<i32, Error>)
        ensures
            r is Ok <==> self.authorized(token@, now) is Some,
            r is Ok ==> r->Ok_0 == self.authorized(token@, now)->Some_0,
    ;
}

} // verus!
