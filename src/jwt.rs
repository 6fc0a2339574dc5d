use vstd::prelude::*;
use vstd::string::*;

use jsonwebtoken::errors::Error as JwtError;
use jsonwebtoken::{DecodingKey, EncodingKey, Header, Validation};
use std::collections::BTreeMap;
use std::collections::HashSet;

use crate::account::{AuthToken, AuthTokenGenerator as AuthTokenGeneratorTrait};
use crate::errors::{Error, ErrorKind};

verus! {

#[verifier::external_type_specification]
#[verifier::external_body]
pub struct ExJwtError(JwtError);

/// The HS256 token whose claims are
/// `{"exp": expires, "jti": serial, "sub": account_id}`, signed with `secret`.
pub uninterp spec fn hs256_token(account_id: int, expires: int, serial: int, secret: Seq<char>) -> Seq<char>;

/// The `sub` and `exp` claims of `token` when its HS256 signature under
/// `secret` holds and its claims are integers; `None` when it is refused.
pub uninterp spec fn hs256_claims(token: Seq<char>, secret: Seq<char>) -> Option<(Option<i64>, Option<i64>)>;

/// Relies on `jsonwebtoken::encode` with the default (HS256) header: it
/// serialises the claims and signs them with the secret. It fails only when
/// the key's family differs from the header's algorithm or serialisation
/// fails, neither of which can happen for a secret key and a map of integers.
/// The token holds the encoded claims, so other claims give another token.
#[verifier::external_body]
fn hs256_encode(account_id: i32, expires: i64, serial: i64, secret: &str) -> (r: Result<String, JwtError>)
    ensures
        r is Ok,
        r->Ok_0@ == hs256_token(account_id as int, expires as int, serial as int, secret@),
        r->Ok_0@.len() > 0,
        forall|id: int, exp: int, ser: int|
            (id, exp, ser) != (account_id as int, expires as int, serial as int) ==> r->Ok_0@
                != #[trigger] hs256_token(id, exp, ser, secret@),
{
    let claims: BTreeMap<&str, i64> =
        BTreeMap::from([("exp", expires), ("jti", serial), ("sub", account_id as i64)]);
    jsonwebtoken::encode(&Header::default(), &claims, &EncodingKey::from_secret(secret.as_bytes()))
}

/// Relies on `jsonwebtoken::decode` with HS256, with its own expiry check and
/// required claims switched off: it checks the signature and hands back the
/// claims. A token that `encode` made with the same secret decodes to the
/// claims it was made from.
#[verifier::external_body]
fn hs256_decode(token: &str, secret: &str) -> (r: Result<(Option<i64>, Option<i64>), JwtError>)
    ensures
        r is Ok <==> hs256_claims(token@, secret@) is Some,
        r is Ok ==> r->Ok_0 == hs256_claims(token@, secret@)->Some_0,
        forall|account_id: i32, expires: i64, serial: int|
            token@ == #[trigger] hs256_token(account_id as int, expires as int, serial, secret@)
                ==> r is Ok && r->Ok_0 == (Some(account_id as i64), Some(expires)),
{
    let mut validation = Validation::default();
    validation.validate_exp = false;
    validation.required_spec_claims = HashSet::new();
    let key = DecodingKey::from_secret(secret.as_bytes());
    let data = jsonwebtoken::decode::<BTreeMap<String, i64>>(token, &key, &validation)?;
    Ok((data.claims.get("sub").copied(), data.claims.get("exp").copied()))
}

/// The account that claims `(sub, exp)` authorize at `now`: `sub` when both
/// are present, `sub` is an account identifier and `now` is before `exp`.
pub open spec fn account_from_claims_spec(sub: Option<i64>, exp: Option<i64>, now: i64) -> Option<i32> {
    match (sub, exp) {
        (Some(s), Some(e)) => if now < e && i32::MIN <= s <= i32::MAX {
            Some(s as i32)
        } else {
            None
        },
        _ => None,
    }
}

/// Decides what decoded claims authorize at `now`. Expiry is enforced here,
/// whatever the signing layer checked.
pub fn account_from_claims(sub: Option<i64>, exp: Option<i64>, now: i64) -> (r: Result<i32, Error>)
    ensures
        r is Ok <==> account_from_claims_spec(sub, exp, now) is Some,
        r is Ok ==> r->Ok_0 == account_from_claims_spec(sub, exp, now)->Some_0,
        r is Err ==> r->Err_0.kind() == ErrorKind::Forbidden,
{
    match (sub, exp) {
        (Some(s), Some(e)) => {
            if now >= e {
                Err(Error::Forbidden(String::from_str("token expired")))
            } else if s < i32::MIN as i64 || s > i32::MAX as i64 {
                Err(Error::Forbidden(String::from_str("invalid token subject")))
            } else {
                Ok(s as i32)
            }
        },
        _ => Err(Error::Forbidden(String::from_str("token lacks a subject or an expiry"))),
    }
}

/// Signs and checks HS256 bearer tokens with a shared secret.
///
/// Tokens are stateless: nothing revokes one before it expires, and a later
/// change of the account does not affect tokens issued before it. Each token
/// carries the generator's next serial number as its `jti` claim.
pub struct AuthTokenGenerator {
    lifetime: i64,
    secret: String,
    issued: i64,
}

impl AuthTokenGenerator {
    /// A generator whose tokens last `lifetime` seconds, signed with `secret`.
    pub fn new(lifetime: i64, secret: String) -> (r: Self)
        ensures
            r.lifetime_seconds() == lifetime,
            r.secret_text() == secret@,
            r.issued_count() == 0,
    {
        AuthTokenGenerator { lifetime, secret, issued: 0 }
    }

    pub closed spec fn issued_count(&self) -> i64 {
        self.issued
    }

    pub closed spec fn lifetime_seconds(&self) -> i64 {
        self.lifetime
    }

    pub closed spec fn secret_text(&self) -> Seq<char> {
        self.secret@
    }
}

impl AuthTokenGeneratorTrait for AuthTokenGenerator {
    open spec fn lifetime(&self) -> int {
        self.lifetime_seconds() as int
    }

    open spec fn serial(&self) -> int {
        self.issued_count() as int
    }

    open spec fn token_for(&self, account_id: i32, expires: i64, serial: int) -> Seq<char> {
        hs256_token(account_id as int, expires as int, serial, self.secret_text())
    }

    open spec fn can_issue(&self, now: i64) -> bool {
        &&& i64::MIN <= now + self.lifetime_seconds() <= i64::MAX
        &&& self.issued_count() < i64::MAX
    }

    open spec fn accepted(&self, token: Seq<char>, now: i64) -> Option<i32> {
        match hs256_claims(token, self.secret_text()) {
            Some((sub, exp)) => account_from_claims_spec(sub, exp, now),
            None => None,
        }
    }

    /// Fails with `Unknown` exactly when the expiry does not fit in an `i64`
    /// or the serial numbers are used up.
    fn generate(&mut self, account_id: i32, now: i64) -> (r: Result<AuthToken, Error>)
        ensures
            r is Ok <==> old(self).can_issue(now),
            final(self).secret_text() == old(self).secret_text(),
            final(self).lifetime_seconds() == old(self).lifetime_seconds(),
    {
        let expires = match now.checked_add(self.lifetime) {
            Some(e) => e,
            None => return Err(Error::Unknown(String::from_str("token expiry out of range"))),
        };
        if self.issued == i64::MAX {
            return Err(Error::Unknown(String::from_str("token serial numbers used up")));
        }
        let serial = self.issued;
        match hs256_encode(account_id, expires, serial, self.secret.as_str()) {
            Ok(token) => {
                self.issued = serial + 1;
                Ok(AuthToken { token, expires })
            },
            Err(_) => Err(Error::Unknown(String::from_str("token signing failed"))),
        }
    }

    fn parse(&self, token: String, now: i64) -> (r: Result<i32, Error>) {
        match hs256_decode(token.as_str(), self.secret.as_str()) {
            Ok((sub, exp)) => account_from_claims(sub, exp, now),
            Err(_) => Err(Error::Forbidden(String::from_str("invalid token"))),
        }
    }
}

} // verus!
