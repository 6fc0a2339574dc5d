use vstd::prelude::*;
use vstd::string::*;

use crate::account::{
    AuthToken, AuthTokenGenerator, LoginRequest as DomainLoginRequest,
    RegisterRequest as DomainRegisterRequest,
};
use crate::errors::{Error, ErrorKind};
use crate::todo::{
    status_named, CreateTodoItemRequest as DomainCreateTodoItemRequest, Filters, Status, TodoItem,
    UpdateTodoItemRequest as DomainUpdateTodoItemRequest, status_name,
};

verus! {

/// The page size used when a listing names none.
pub const DEFAULT_PAGE_LIMIT: i32 = 10;

/// The optional status filter of a listing query.
#[derive(Debug, Clone, Copy, PartialEq, Eq, Structural)]
pub enum StatusQuery {
    Any,
    Status(Status),
}

impl StatusQuery {
    /// Reads a query value: an empty one filters nothing, any other must be a
    /// status name.
    pub fn from_value(value: &str) -> (r: Result<StatusQuery, String>)
        ensures
            value@.len() == 0 ==> r == Ok::<StatusQuery, String>(StatusQuery::Any),
            value@.len() != 0 ==> (r is Ok <==> status_named(value@) is Some),
            value@.len() != 0 && r is Ok ==> r->Ok_0 == StatusQuery::Status(
                status_named(value@)->Some_0,
            ),
    {
        if value.unicode_len() == 0 {
            Ok(StatusQuery::Any)
        } else {
            match Status::from_str(value) {
                Ok(status) => Ok(StatusQuery::Status(status)),
                Err(_) => Err(String::from_str("Invalid status value")),
            }
        }
    }

    pub open spec fn spec_into_status(self) -> Option<Status> {
        match self {
            StatusQuery::Any => None,
            StatusQuery::Status(s) => Some(s),
        }
    }

    /// The filter as an optional status.
    #[verifier::when_used_as_spec(spec_into_status)]
    pub fn into_status(self) -> (r: Option<Status>)
        ensures
            r == self.spec_into_status(),
    {
        match self {
            StatusQuery::Any => None,
            StatusQuery::Status(status) => Some(status),
        }
    }
}

/// A status given by name in a request body.
#[derive(Debug, Clone, Copy)]
pub struct StatusField(pub Status);

impl StatusField {
    pub fn parse(text: &str) -> (r: Result<StatusField, String>)
        ensures
            r is Ok <==> status_named(text@) is Some,
            r is Ok ==> r->Ok_0.0 == status_named(text@)->Some_0,
            r is Err ==> r->Err_0@ == "Invalid status: "@ + text@,
    {
        match Status::from_str(text) {
            Ok(status) => Ok(StatusField(status)),
            Err(e) => Err(e),
        }
    }
}

/// Registration body.
#[derive(Debug, Clone)]
pub struct RegisterRequest {
    pub login: String,
    pub password: String,
}

impl RegisterRequest {
    pub fn into_domain(self) -> (r: DomainRegisterRequest)
        ensures
            r.login == self.login,
            r.password == self.password,
    {
        DomainRegisterRequest { login: self.login, password: self.password }
    }
}

/// Login body.
#[derive(Debug, Clone)]
pub struct LoginRequest {
    pub login: String,
    pub password: String,
}

impl LoginRequest {
    pub fn into_domain(self) -> (r: DomainLoginRequest)
        ensures
            r.login == self.login,
            r.password == self.password,
    {
        DomainLoginRequest { login: self.login, password: self.password }
    }
}

/// The token handed to a client: its text, its kind and the seconds it has
/// left.
#[derive(Debug, Clone)]
pub struct AuthTokenResponse {
    pub access_token: String,
    pub token_type: String,
    pub expires_in: u64,
}

impl AuthTokenResponse {
    /// Describes `token` at `now`; a token already expired has 0 seconds left.
    pub fn from_token(token: AuthToken, now: i64) -> (r: AuthTokenResponse)
        ensures
            r.access_token == token.token,
            r.token_type@ == "bearer"@,
            r.expires_in == if token.expires > now {
                token.expires - now
            } else {
                0
            },
    {
        let expires_in: u64 = if token.expires > now {
            (token.expires as i128 - now as i128) as u64
        } else {
            0
        };
        AuthTokenResponse {
            access_token: token.token,
            token_type: String::from_str("bearer"),
            expires_in,
        }
    }
}

/// The query of a listing.
#[derive(Debug, Clone, Copy)]
pub struct GetTodoFilters {
    pub status: StatusQuery,
    pub limit: Option<i32>,
    pub offset: Option<i32>,
}

impl GetTodoFilters {
    /// A query whose absent limit is the default page size.
    pub fn new(status: StatusQuery, limit: Option<i32>, offset: Option<i32>) -> (r: GetTodoFilters)
        ensures
            r.status == status,
            r.limit == (match limit {
                Some(l) => Some(l),
                None => Some(DEFAULT_PAGE_LIMIT),
            }),
            r.offset == offset,
    {
        let limit = match limit {
            Some(l) => Some(l),
            None => Some(DEFAULT_PAGE_LIMIT),
        };
        GetTodoFilters { status, limit, offset }
    }

    pub fn into_filters(self) -> (r: Filters)
        ensures
            r.status == self.status.into_status(),
            r.limit == self.limit,
            r.offset == self.offset,
    {
        Filters { status: self.status.into_status(), limit: self.limit, offset: self.offset }
    }
}

/// Creation body; the owner comes from the authenticated account.
#[derive(Debug, Clone)]
pub struct CreateTodoItemRequest {
    pub title: String,
    pub description: String,
}

impl CreateTodoItemRequest {
    pub fn into_domain(self, owner_id: i32) -> (r: DomainCreateTodoItemRequest)
        ensures
            r.owner_id == owner_id,
            r.title == self.title,
            r.description == self.description,
    {
        DomainCreateTodoItemRequest { owner_id, title: self.title, description: self.description }
    }
}

/// Status change body; the item comes from the path, the owner from the
/// authenticated account.
#[derive(Debug, Clone, Copy)]
pub struct UpdateTodoItemRequest {
    pub status: StatusField,
}

impl UpdateTodoItemRequest {
    pub fn into_domain(self, item_id: i32, owner_id: i32) -> (r: DomainUpdateTodoItemRequest)
        ensures
            r.owner_id == owner_id,
            r.item_id == item_id,
            r.status == self.status.0,
    {
        DomainUpdateTodoItemRequest { owner_id, item_id, status: self.status.0 }
    }
}

/// Listing metadata: the number of items that pass the filter.
#[derive(Debug, Clone, Copy)]
pub struct Meta {
    pub total: i64,
}

/// A response envelope: the data, and for listings the total.
#[derive(Debug, Clone)]
pub struct Response<T> {
    pub data: T,
    pub meta: Option<Meta>,
}

impl<T> Response<T> {
    pub fn from_data(data: T) -> (r: Response<T>)
        ensures
            r.data == data,
            r.meta is None,
    {
        Response { data, meta: None }
    }

    pub fn with_total(data: T, total: i64) -> (r: Response<T>)
        ensures
            r.data == data,
            r.meta == Some(Meta { total }),
    {
        Response { data, meta: Some(Meta { total }) }
    }
}

/// A todo item as handed to clients.
#[derive(Debug, Clone)]
pub struct TodoItemData {
    pub id: i32,
    pub title: String,
    pub status: String,
    pub description: String,
    pub created_at: i64,
    pub updated_at: i64,
}

impl TodoItemData {
    pub fn from_item(item: &TodoItem) -> (r: TodoItemData)
        ensures
            r.id == item.id,
            r.title == item.title,
            r.status@ == status_name(item.status),
            r.description == item.description,
            r.created_at == item.created_at,
            r.updated_at == item.updated_at,
    {
        TodoItemData {
            id: item.id,
            title: item.title.clone(),
            status: item.status.to_string(),
            description: item.description.clone(),
            created_at: item.created_at,
            updated_at: item.updated_at,
        }
    }
}

/// The code a client sees for each kind of error.
pub open spec fn error_code(kind: ErrorKind) -> Seq<char> {
    match kind {
        ErrorKind::NotFound => "not_found"@,
        ErrorKind::Forbidden => "forbidden"@,
        ErrorKind::OperationNotApplicable => "operation_not_applicable"@,
        ErrorKind::Unknown => "internal_server_error"@,
    }
}

/// The HTTP status for each kind of error.
pub open spec fn error_http_status(kind: ErrorKind) -> u16 {
    match kind {
        ErrorKind::NotFound => 404,
        ErrorKind::Forbidden => 403,
        ErrorKind::OperationNotApplicable => 400,
        ErrorKind::Unknown => 500,
    }
}

/// The error code of a failed request.
#[derive(Debug, Clone)]
pub struct ErrorData {
    pub code: String,
}

/// The body of a failed request. Internal details never reach it.
#[derive(Debug, Clone)]
pub struct ErrorResponse {
    pub error: ErrorData,
}

impl ErrorResponse {
    pub fn from_error(error: &Error) -> (r: ErrorResponse)
        ensures
            r.error.code@ == error_code(error.kind()),
    {
        let code = match error {
            Error::NotFound(_) => String::from_str("not_found"),
            Error::Forbidden(_) => String::from_str("forbidden"),
            Error::OperationNotApplicable(_) => String::from_str("operation_not_applicable"),
            Error::Unknown(_) => String::from_str("internal_server_error"),
        };
        ErrorResponse { error: ErrorData { code } }
    }
}

/// The HTTP status code that reports `error`.
pub fn http_status(error: &Error) -> (r: u16)
    ensures
        r == error_http_status(error.kind()),
{
    match error {
        Error::NotFound(_) => 404,
        Error::Forbidden(_) => 403,
        Error::OperationNotApplicable(_) => 400,
        Error::Unknown(_) => 500,
    }
}

/// Why a request could not be authenticated.
#[derive(Debug, Clone, Copy, PartialEq, Eq, Structural)]
pub enum AuthError {
    /// No `Authorization` header.
    Missing,
    /// A header that is not a bearer token, or a token that is refused.
    Invalid,
}

/// The token of an `Authorization: Bearer <token>` header value.
pub open spec fn bearer_of(header: Seq<char>) -> Option<Seq<char>> {
    if header.len() >= 7 && header.subrange(0, 7) == "Bearer "@ {
        Some(header.subrange(7, header.len() as int))
    } else {
        None
    }
}

/// Takes the token out of an `Authorization` header value.
pub fn bearer_token(header: &str) -> (r: Result<String, AuthError>)
    ensures
        r is Ok <==> bearer_of(header@) is Some,
        r is Ok ==> r->Ok_0@ == bearer_of(header@)->Some_0,
        r is Err ==> r->Err_0 == AuthError::Invalid,
{
    let n = header.unicode_len();
    if n < 7 {
        return Err(AuthError::Invalid);
    }
    let prefix = String::from_str(header.substring_char(0, 7));
    if !(prefix == String::from_str("Bearer ")) {
        return Err(AuthError::Invalid);
    }
    Ok(String::from_str(header.substring_char(7, n)))
}

/// The authenticated account of a request.
#[derive(Debug, Clone, Copy)]
pub struct AuthGuard {
    pub account_id: i32,
}

impl AuthGuard {
    /// Authenticates a request from its `Authorization` header at `now`.
    pub fn from_header<G: AuthTokenGenerator>(tokens: &G, header: Option<&str>, now: i64) -> (r: Result<
        AuthGuard,
        AuthError,
    >)
        ensures
            header is None ==> r == Err::<AuthGuard, AuthError>(AuthError::Missing),
            header is Some ==> match bearer_of(header->Some_0@) {
                None => r == Err::<AuthGuard, AuthError>(AuthError::Invalid),
                Some(token) => match tokens.accepted(token, now) {
                    None => r == Err::<AuthGuard, AuthError>(AuthError::Invalid),
                    Some(id) => r == Ok::<AuthGuard, AuthError>(AuthGuard { account_id: id }),
                },
            },
    {
        let value = match header {
            None => return Err(AuthError::Missing),
            Some(v) => v,
        };
        let token = match bearer_token(value) {
            Ok(t) => t,
            Err(e) => return Err(e),
        };
        match tokens.parse(token, now) {
            Ok(account_id) => Ok(AuthGuard { account_id }),
            Err(_) => Err(AuthError::Invalid),
        }
    }
}

} // verus!
