use todo_service::account::{AuthToken, AuthTokenGenerator as _};
use todo_service::jwt::AuthTokenGenerator;
use todo_service::errors::{Error, ErrorKind};
use todo_service::handler::{
    bearer_token, http_status, AuthError, AuthGuard, AuthTokenResponse, CreateTodoItemRequest,
    ErrorResponse, GetTodoFilters, Response, StatusField, StatusQuery, TodoItemData,
    UpdateTodoItemRequest, DEFAULT_PAGE_LIMIT,
};
use todo_service::todo::{Status, TodoItem};

fn tokens() -> AuthTokenGenerator {
    AuthTokenGenerator::new(600, "SECRET-REDACTED".to_string())
}

#[test]
fn bearer_header_is_read() {
    assert_eq!(bearer_token("Bearer abc.def").unwrap(), "abc.def");
    assert_eq!(bearer_token("Bearer ").unwrap(), "");
    assert_eq!(bearer_token("bearer abc").unwrap_err(), AuthError::Invalid);
    assert_eq!(bearer_token("Basic abc").unwrap_err(), AuthError::Invalid);
    assert_eq!(bearer_token("Bear").unwrap_err(), AuthError::Invalid);
}

#[test]
fn guard_outcomes() {
    let mut service = tokens();
    let token = service.generate(1, 100).unwrap().token;
    let header = format!("Bearer {}", token);
    let other = format!("Token {}", token);
    assert_eq!(AuthGuard::from_header(&service, None, 200).unwrap_err(), AuthError::Missing);
    assert_eq!(AuthGuard::from_header(&service, Some(&other), 200).unwrap_err(), AuthError::Invalid);
    assert_eq!(AuthGuard::from_header(&service, Some("Bearer bad"), 200).unwrap_err(), AuthError::Invalid);
    assert_eq!(AuthGuard::from_header(&service, Some(&header), 200).unwrap().account_id, 1);
    assert_eq!(AuthGuard::from_header(&service, Some(&header), 700).unwrap_err(), AuthError::Invalid);
}

#[test]
fn error_codes_and_statuses() {
    let cases = [
        (Error::NotFound("x".to_string()), "not_found", 404),
        (Error::Forbidden("x".to_string()), "forbidden", 403),
        (Error::OperationNotApplicable("x".to_string()), "operation_not_applicable", 400),
        (Error::Unknown("db down".to_string()), "internal_server_error", 500),
    ];
    for (error, code, status) in cases {
        assert_eq!(ErrorResponse::from_error(&error).error.code, code);
        assert_eq!(http_status(&error), status);
    }
    assert_eq!(Error::NotFound("x".to_string()).kind(), ErrorKind::NotFound);
}

#[test]
fn status_query_values() {
    assert_eq!(StatusQuery::from_value("").unwrap(), StatusQuery::Any);
    assert_eq!(StatusQuery::from_value("completed").unwrap(), StatusQuery::Status(Status::Completed));
    assert_eq!(StatusQuery::from_value("nope").unwrap_err(), "Invalid status value");
    assert_eq!(StatusQuery::Any.into_status(), None);
    assert_eq!(StatusQuery::Status(Status::Rejected).into_status(), Some(Status::Rejected));
}

#[test]
fn listing_query_defaults_the_limit() {
    let query = GetTodoFilters::new(StatusQuery::Status(Status::Draft), None, Some(3));
    let filters = query.into_filters();
    assert_eq!(filters.status, Some(Status::Draft));
    assert_eq!(filters.limit, Some(DEFAULT_PAGE_LIMIT));
    assert_eq!(filters.limit, Some(10));
    assert_eq!(filters.offset, Some(3));
    let explicit = GetTodoFilters::new(StatusQuery::Any, Some(25), None).into_filters();
    assert_eq!(explicit.status, None);
    assert_eq!(explicit.limit, Some(25));
    assert_eq!(explicit.offset, None);
}

#[test]
fn request_bodies_become_domain_requests() {
    let create = CreateTodoItemRequest { title: "buy milk".to_string(), description: "2l".to_string() }
        .into_domain(4);
    assert_eq!((create.owner_id, create.title.as_str(), create.description.as_str()), (4, "buy milk", "2l"));
    let update = UpdateTodoItemRequest { status: StatusField::parse("in_progress").unwrap() }.into_domain(8, 4);
    assert_eq!((update.owner_id, update.item_id, update.status), (4, 8, Status::InProgress));
    assert_eq!(StatusField::parse("later").unwrap_err(), "Invalid status: later");
    let register = todo_service::handler::RegisterRequest { login: "a".to_string(), password: "b".to_string() }
        .into_domain();
    assert_eq!((register.login.as_str(), register.password.as_str()), ("a", "b"));
    let login = todo_service::handler::LoginRequest { login: "c".to_string(), password: "d".to_string() }
        .into_domain();
    assert_eq!((login.login.as_str(), login.password.as_str()), ("c", "d"));
}

#[test]
fn token_response_counts_remaining_seconds() {
    let token = AuthToken { token: "t".to_string(), expires: 5_000 };
    let response = AuthTokenResponse::from_token(token.clone(), 1_400);
    assert_eq!(response.access_token, "t");
    assert_eq!(response.token_type, "bearer");
    assert_eq!(response.expires_in, 3_600);
    assert_eq!(AuthTokenResponse::from_token(token, 6_000).expires_in, 0);
}

#[test]
fn response_envelopes() {
    let plain = Response::from_data(5);
    assert_eq!(plain.data, 5);
    assert!(plain.meta.is_none());
    let listed = Response::with_total(vec![1, 2], 7);
    assert_eq!(listed.data, vec![1, 2]);
    assert_eq!(listed.meta.unwrap().total, 7);
}

#[test]
fn item_data_names_the_status() {
    let item = TodoItem {
        id: 1,
        owner_id: 2,
        title: "t".to_string(),
        status: Status::InProgress,
        description: "d".to_string(),
        created_at: 10,
        updated_at: 20,
    };
    let data = TodoItemData::from_item(&item);
    assert_eq!(data.status, "in_progress");
    assert_eq!((data.id, data.title.as_str(), data.description.as_str()), (1, "t", "d"));
    assert_eq!((data.created_at, data.updated_at), (10, 20));
}
