use vstd::prelude::*;
use vstd::string::*;

use crate::account::{
    account_with_login, same_keys, Account, AccountRepository, AccountService as AccountServiceTrait,
    AuthToken, AuthTokenGenerator, CreateAccountRequest, LoginRequest, PasswordHasher,
    RegisterRequest,
};
use crate::errors::{Error, ErrorKind};

verus! {

/// Checks a login attempt's password against the account fetched for it.
/// A wrong password is `Forbidden` ("Unauthorized").
pub fn check_password<H: PasswordHasher>(hasher: &H, account: &Account, password: String) -> (r: Result<(), Error>)
    ensures
        r is Ok <==> hasher.accepts(password@, account.password@),
        r is Err ==> r->Err_0.kind() == ErrorKind::Forbidden,
{
    if hasher.verify(password, account.password.clone()) {
        Ok(())
    } else {
        Err(Error::Forbidden(String::from_str("Unauthorized")))
    }
}

/// Registration and login over an account store, a password hasher and a
/// token generator.
pub struct AccountService<R, H, G> {
    repository: R,
    password_hasher: H,
    token_generator: G,
}

impl<R, H, G> AccountService<R, H, G> where
    R: AccountRepository,
    H: PasswordHasher,
    G: AuthTokenGenerator,
 {
    pub closed spec fn repository(&self) -> R {
        self.repository
    }

    pub closed spec fn hasher(&self) -> H {
        self.password_hasher
    }

    pub closed spec fn generator(&self) -> G {
        self.token_generator
    }

    pub fn new(repository: R, password_hasher: H, token_generator: G) -> (r: Self)
        ensures
            r.repository() == repository,
            r.hasher() == password_hasher,
            r.generator() == token_generator,
    {
        AccountService { repository, password_hasher, token_generator }
    }

    /// Opens an account for `request.login` holding the hash of the password,
    /// and issues a token for it at `now`.
    ///
    /// Every failure is `Unknown`, a login that is taken included. When the
    /// store is ready, the login free and a token can be issued, only hashing
    /// can fail, and then nothing is stored.
    pub fn register(&mut self, request: RegisterRequest, now: i64) -> (r: Result<AuthToken, Error>)
        ensures
            final(self).hasher() == old(self).hasher(),
            same_keys(old(self).generator(), final(self).generator()),
            r is Err ==> r->Err_0.kind() == ErrorKind::Unknown,
            r is Err ==> final(self).generator().serial() == old(self).generator().serial(),
            r is Ok ==> final(self).generator().serial() == old(self).generator().serial() + 1,
            r is Ok ==> exists|account: Account|
                {
                    &&& final(self).repository().accounts() == old(self).repository().accounts().push(
                        account,
                    )
                    &&& account.login == request.login
                    &&& old(self).hasher().accepts(request.password@, account.password@)
                    &&& r->Ok_0.expires == now + old(self).generator().lifetime()
                    &&& r->Ok_0.token@ == old(self).generator().token_for(
                        account.id,
                        r->Ok_0.expires,
                        old(self).generator().serial(),
                    )
                },
            r is Ok ==> forall|id: i32, expires: i64, serial: int|
                serial != old(self).generator().serial() ==> r->Ok_0.token@
                    != #[trigger] old(self).generator().token_for(id, expires, serial),
            final(self).repository().accounts() == old(self).repository().accounts() || exists|
                account: Account,
            |
                {
                    &&& final(self).repository().accounts() == old(self).repository().accounts().push(
                        account,
                    )
                    &&& account.login == request.login
                    &&& old(self).hasher().accepts(request.password@, account.password@)
                },
            old(self).repository().ready() && old(self).repository().accounts().len() + 1 < i32::MAX
                ==> final(self).repository().ready(),
            old(self).repository().ready() && account_with_login(
                old(self).repository().accounts(),
                request.login@,
            ) is None && old(self).repository().accounts().len() + 1 < i32::MAX
                && old(self).generator().can_issue(now) ==> r is Ok || final(self).repository().accounts()
                == old(self).repository().accounts(),
    {
        let hashed = match self.password_hasher.hash(request.password) {
            Ok(h) => h,
            Err(e) => return Err(e),
        };
        let create_request = CreateAccountRequest { login: request.login, password: hashed };
        let account = match self.repository.create(create_request) {
            Ok(a) => a,
            Err(e) => return Err(e),
        };
        let result = self.token_generator.generate(account.id, now);
        assert(self.repository().accounts() == old(self).repository().accounts().push(account));
        result
    }

    /// Checks `request.password` against the stored hash of `request.login`
    /// and issues a token at `now`.
    ///
    /// An unknown login is `NotFound`; a wrong password is `Forbidden`, and no
    /// token is issued.
    pub fn login(&mut self, request: LoginRequest, now: i64) -> (r: Result<AuthToken, Error>)
        ensures
            final(self).repository() == old(self).repository(),
            final(self).hasher() == old(self).hasher(),
            same_keys(old(self).generator(), final(self).generator()),
            r is Err ==> final(self).generator().serial() == old(self).generator().serial(),
            r is Ok ==> final(self).generator().serial() == old(self).generator().serial() + 1,
            r is Ok ==> {
                let found = account_with_login(old(self).repository().accounts(), request.login@);
                &&& found is Some
                &&& old(self).hasher().accepts(request.password@, found->Some_0.password@)
                &&& r->Ok_0.expires == now + old(self).generator().lifetime()
                &&& r->Ok_0.token@ == old(self).generator().token_for(
                    found->Some_0.id,
                    r->Ok_0.expires,
                    old(self).generator().serial(),
                )
            },
            r is Ok ==> forall|id: i32, expires: i64, serial: int|
                serial != old(self).generator().serial() ==> r->Ok_0.token@
                    != #[trigger] old(self).generator().token_for(id, expires, serial),
            account_with_login(old(self).repository().accounts(), request.login@) is None ==> r is Err
                && r->Err_0.kind() == ErrorKind::NotFound,
            old(self).repository().ready() && account_with_login(
                old(self).repository().accounts(),
                request.login@,
            ) is Some ==> if old(self).hasher().accepts(
                request.password@,
                account_with_login(old(self).repository().accounts(), request.login@)->Some_0.password@,
            ) {
                old(self).generator().can_issue(now) ==> r is Ok
            } else {
                r is Err && r->Err_0.kind() == ErrorKind::Forbidden
            },
    {
        let account = match self.repository.get_by_login(request.login) {
            Ok(a) => a,
            Err(e) => return Err(e),
        };
        match check_password(&self.password_hasher, &account, request.password) {
            Ok(()) => {},
            Err(e) => return Err(e),
        }
        self.token_generator.generate(account.id, now)
    }

    /// The account that `token` stands for at `now`.
    pub fn authorize(&self, token: String, now: i64) -> (r: Result<i32, Error>)
        ensures
            r is Ok <==> self.generator().accepted(token@, now) is Some,
            r is Ok ==> r->Ok_0 == self.generator().accepted(token@, now)->Some_0,
            r is Err ==> r->Err_0.kind() == ErrorKind::Forbidden,
            forall|account_id: i32, expires: i64, serial: int|
                token@ == #[trigger] self.generator().token_for(account_id, expires, serial) ==> (r is Ok
                    <==> now < expires) && (r is Ok ==> r->Ok_0 == account_id),
    {
        self.token_generator.parse(token, now)
    }
}

impl<R, H, G> AccountServiceTrait for AccountService<R, H, G> where
    R: AccountRepository,
    H: PasswordHasher,
    G: AuthTokenGenerator,
 {
    open spec fn authorized(&self, token: Seq<char>, now: i64) -> Option<i32> {
        self.generator().accepted(token, now)
    }

    fn register(&mut self, request: RegisterRequest, now: i64) -> Result<AuthToken, Error> {
        AccountService::register(self, request, now)
    }

    fn login(&mut self, request: LoginRequest, now: i64) -> Result<AuthToken, Error> {
        AccountService::login(self, request, now)
    }

    fn authorize(&self, token: String, now: i64) -> (r: Result<i32, Error>) {
        AccountService::authorize(self, token, now)
    }
}

} // verus!
