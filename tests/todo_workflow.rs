use todo_service::errors::{Error, ErrorKind};
use todo_service::memory::MemoryTodoStore;
use todo_service::todo::{
    CreateTodoItemRequest, Filters, Status, TodoItem, TodoListerAndCounter, UpdateTodoItemRequest,
};
use todo_service::todo_service::{check_update, TodoService};

fn service() -> TodoService<MemoryTodoStore> {
    TodoService::new(MemoryTodoStore::new(1_700_000_000))
}

fn create(service: &mut TodoService<MemoryTodoStore>, owner_id: i32, title: &str) -> TodoItem {
    service
        .create(CreateTodoItemRequest {
            owner_id,
            title: title.to_string(),
            description: String::new(),
        })
        .unwrap()
}

fn update(
    service: &mut TodoService<MemoryTodoStore>,
    owner_id: i32,
    item_id: i32,
    status: Status,
) -> Result<TodoItem, Error> {
    service.update(UpdateTodoItemRequest { owner_id, item_id, status })
}

const ALL: [Status; 4] = [Status::Draft, Status::InProgress, Status::Completed, Status::Rejected];

fn legal(from: Status, to: Status) -> bool {
    matches!(
        (from, to),
        (Status::Draft, Status::InProgress)
            | (Status::Draft, Status::Rejected)
            | (Status::InProgress, Status::Completed)
            | (Status::InProgress, Status::Rejected)
    )
}

/// Brings a fresh item of `owner_id` to `status` through legal transitions.
fn item_in(service: &mut TodoService<MemoryTodoStore>, owner_id: i32, status: Status) -> TodoItem {
    let item = create(service, owner_id, "task");
    match status {
        Status::Draft => item,
        Status::InProgress | Status::Rejected => update(service, owner_id, item.id, status).unwrap(),
        Status::Completed => {
            update(service, owner_id, item.id, Status::InProgress).unwrap();
            update(service, owner_id, item.id, Status::Completed).unwrap()
        }
    }
}

#[test]
fn buy_milk_scenario() {
    let mut service = service();
    let item = create(&mut service, 1, "buy milk");
    assert_eq!(item.status, Status::Draft);
    assert_eq!(item.owner_id, 1);
    assert_eq!(item.title, "buy milk");
    assert_eq!(item.description, "");

    let moved = update(&mut service, 1, item.id, Status::InProgress).unwrap();
    assert_eq!(moved.status, Status::InProgress);

    let again = update(&mut service, 1, item.id, Status::InProgress).unwrap_err();
    assert_eq!(again.kind(), ErrorKind::OperationNotApplicable);
    assert_eq!(again.message(), "can't update from in_progress to in_progress");

    let foreign = update(&mut service, 2, item.id, Status::Completed).unwrap_err();
    assert_eq!(foreign.kind(), ErrorKind::Forbidden);
    assert_eq!(service.one(item.id).unwrap().status, Status::InProgress);
}

#[test]
fn filtered_listing_scenario() {
    let mut service = service();
    item_in(&mut service, 1, Status::Draft);
    let in_progress = item_in(&mut service, 1, Status::InProgress);
    item_in(&mut service, 1, Status::Completed);

    let filters = Filters { status: Some(Status::InProgress), limit: None, offset: None };
    let (items, total) = TodoListerAndCounter::list(&service, &filters).unwrap();
    assert_eq!(items.len(), 1);
    assert_eq!(items[0].id, in_progress.id);
    assert_eq!(items[0].status, Status::InProgress);
    assert_eq!(total, 1);
}

#[test]
fn every_new_item_is_a_draft() {
    let mut service = service();
    for owner in [1, 2, 3] {
        let item = create(&mut service, owner, "x");
        assert_eq!(item.status, Status::Draft);
        assert_eq!(service.one(item.id).unwrap().status, Status::Draft);
    }
}

#[test]
fn transitions_outside_the_table_are_not_applicable() {
    for from in ALL {
        for to in ALL {
            let mut service = service();
            let item = item_in(&mut service, 7, from);
            let result = update(&mut service, 7, item.id, to);
            if legal(from, to) {
                assert_eq!(result.unwrap().status, to);
            } else {
                let err = result.unwrap_err();
                assert_eq!(err.kind(), ErrorKind::OperationNotApplicable);
                let expected = format!("can't update from {} to {}", from.to_string(), to.to_string());
                assert_eq!(err.message(), &expected);
                assert_eq!(service.one(item.id).unwrap().status, from);
            }
        }
    }
}

#[test]
fn non_owners_are_forbidden_whatever_the_transition() {
    for from in ALL {
        for to in ALL {
            let mut service = service();
            let item = item_in(&mut service, 7, from);
            let err = update(&mut service, 8, item.id, to).unwrap_err();
            assert_eq!(err.kind(), ErrorKind::Forbidden);
            assert_eq!(service.one(item.id).unwrap().status, from);
        }
    }
}

#[test]
fn total_ignores_limit_and_offset() {
    let mut service = service();
    for _ in 0..5 {
        item_in(&mut service, 1, Status::Draft);
    }
    item_in(&mut service, 1, Status::Rejected);
    for status in [None, Some(Status::Draft), Some(Status::Rejected), Some(Status::Completed)] {
        let unpaged = Filters { status, limit: None, offset: None };
        let (all, total) = TodoListerAndCounter::list(&service, &unpaged).unwrap();
        assert_eq!(total, all.len() as i64);
        for (limit, offset) in [(Some(2), Some(1)), (Some(0), None), (None, Some(4)), (Some(10), Some(10))] {
            let paged = Filters { status, limit, offset };
            let (page, paged_total) = TodoListerAndCounter::list(&service, &paged).unwrap();
            assert_eq!(paged_total, total);
            assert!(page.len() as i64 <= total);
        }
    }
}

#[test]
fn pagination_windows() {
    let mut service = service();
    let ids: Vec<i32> = (0..5).map(|_| create(&mut service, 1, "t").id).collect();
    let filters = Filters { status: None, limit: Some(2), offset: Some(1) };
    let (page, total) = TodoListerAndCounter::list(&service, &filters).unwrap();
    assert_eq!(page.iter().map(|i| i.id).collect::<Vec<_>>(), vec![ids[1], ids[2]]);
    assert_eq!(total, 5);
}

#[test]
fn missing_item_is_not_found() {
    let mut service = service();
    assert_eq!(service.one(42).unwrap_err().kind(), ErrorKind::NotFound);
    let err = update(&mut service, 1, 42, Status::InProgress).unwrap_err();
    assert_eq!(err.kind(), ErrorKind::NotFound);
}

#[test]
fn check_update_decides_ownership_first() {
    let current = TodoItem {
        id: 3,
        owner_id: 1,
        title: "t".to_string(),
        status: Status::Completed,
        description: String::new(),
        created_at: 0,
        updated_at: 0,
    };
    let foreign = UpdateTodoItemRequest { owner_id: 2, item_id: 3, status: Status::Draft };
    assert_eq!(check_update(&current, &foreign).unwrap_err().kind(), ErrorKind::Forbidden);
    let own = UpdateTodoItemRequest { owner_id: 1, item_id: 3, status: Status::Draft };
    let err = check_update(&current, &own).unwrap_err();
    assert_eq!(err.kind(), ErrorKind::OperationNotApplicable);
    assert_eq!(err.message(), "can't update from completed to draft");
    let draft = TodoItem { status: Status::Draft, ..current };
    let start = UpdateTodoItemRequest { owner_id: 1, item_id: 3, status: Status::InProgress };
    assert!(check_update(&draft, &start).is_ok());
}

#[test]
fn status_transition_table() {
    for from in ALL {
        for to in ALL {
            assert_eq!(from.can_be_updated_to(&to), legal(from, to), "{:?} -> {:?}", from, to);
        }
    }
}

#[test]
fn status_names_round_trip() {
    let names = ["draft", "in_progress", "completed", "rejected"];
    for (status, name) in ALL.iter().zip(names) {
        assert_eq!(status.to_string(), name);
        assert_eq!(Status::from_str(name).unwrap(), *status);
    }
    assert_eq!(Status::from_str("done").unwrap_err(), "Invalid status: done");
    assert!(Status::from_str("Draft").is_err());
    assert!(Status::from_str("").is_err());
}
