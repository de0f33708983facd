use todo_api::handler::{
    create_todo_handler, created_response, find_single_todo_handler, found_response,
    health_check_handler, todo_list_handler, update_todo_handler,
};
use todo_api::model::{init_todo_db, Timestamp, Todo};
use todo_api::response::{
    Body, GenericResponse, Response, SingleTodoResponse, StatusCode, TodoData, TodoListResponse,
};
use todo_api::schema::{QueryOptions, UpdateTodoSchema};
use todo_api::store::{DuplicateTitle, Store};

fn submitted(title: &str, content: &str) -> Todo {
    Todo {
        id: None,
        title: title.to_string(),
        content: content.to_string(),
        completed: None,
        created_at: None,
        updated_at: None,
    }
}

fn failure(code: StatusCode, message: &str) -> Response {
    Response {
        code,
        body: Body::Message(GenericResponse {
            status: "fail".to_string(),
            message: message.to_string(),
        }),
    }
}

fn single(code: StatusCode, todo: Todo) -> Response {
    Response {
        code,
        body: Body::Single(SingleTodoResponse {
            status: "success".to_string(),
            data: TodoData { todo },
        }),
    }
}

fn page(todos: Vec<Todo>) -> Response {
    Response {
        code: StatusCode::Success,
        body: Body::List(TodoListResponse {
            status: "success".to_string(),
            results: todos.len(),
            todos,
        }),
    }
}

fn created(reply: Response) -> Todo {
    assert_eq!(reply.code, StatusCode::Created);
    match reply.body {
        Body::Single(envelope) => {
            assert_eq!(envelope.status, "success");
            envelope.data.todo
        }
        other => panic!("a created record was expected, not {:?}", other),
    }
}

fn filled(n: usize) -> (Store, Vec<Todo>) {
    let mut db = init_todo_db();
    let mut todos = Vec::new();
    for i in 0..n {
        let reply = create_todo_handler(submitted(&format!("todo {}", i), "c"), &mut db);
        todos.push(created(reply));
    }
    (db, todos)
}

fn query(page: Option<usize>, limit: Option<usize>) -> QueryOptions {
    QueryOptions { page, limit }
}

#[test]
fn health_check_says_alive() {
    let reply = health_check_handler();
    assert_eq!(
        reply,
        Response {
            code: StatusCode::Success,
            body: Body::Message(GenericResponse {
                status: "success".to_string(),
                message: "Alive and kicking.".to_string(),
            }),
        }
    );
}

#[test]
fn status_codes_have_their_numbers() {
    assert_eq!(StatusCode::Success.as_u16(), 200);
    assert_eq!(StatusCode::Created.as_u16(), 201);
    assert_eq!(StatusCode::BadRequest.as_u16(), 400);
    assert_eq!(StatusCode::NotFound.as_u16(), 404);
    assert_eq!(StatusCode::Conflict.as_u16(), 409);
}

#[test]
fn create_assigns_id_times_and_completion() {
    let mut db = init_todo_db();
    let mut body = submitted("A", "x");
    body.id = Some("chosen by the client".to_string());
    body.completed = Some(true);
    body.created_at = Some(Timestamp { secs: 1, nanos: 2 });
    body.updated_at = Some(Timestamp { secs: 3, nanos: 4 });
    let todo = created(create_todo_handler(body, &mut db));
    assert_eq!(todo.title, "A");
    assert_eq!(todo.content, "x");
    assert_eq!(todo.completed, Some(false));
    let id = todo.id.clone().unwrap();
    assert_ne!(id, "chosen by the client");
    assert_eq!(uuid::Uuid::parse_str(&id).unwrap().get_version_num(), 4);
    assert!(todo.created_at.is_some());
    assert_ne!(todo.created_at, Some(Timestamp { secs: 1, nanos: 2 }));
    assert_eq!(todo.updated_at, todo.created_at);
    assert_eq!(db.len(), 1);
    assert_eq!(db.find(&id), Some(todo));
}

#[test]
fn create_then_duplicate_then_list() {
    let mut db = init_todo_db();
    let first = created(create_todo_handler(submitted("A", "x"), &mut db));
    assert!(first.id.is_some());
    assert_eq!(first.completed, Some(false));

    let second = create_todo_handler(submitted("A", "y"), &mut db);
    assert_eq!(second.code, StatusCode::Conflict);
    assert_eq!(second.code.as_u16(), 409);
    match &second.body {
        Body::Message(envelope) => {
            assert_eq!(envelope.status, "fail");
            assert!(envelope.message.contains("A"));
            assert_eq!(envelope.message, "Todo with title: 'A' already exists");
        }
        other => panic!("a message was expected, not {:?}", other),
    }

    let listed = todo_list_handler(query(None, Some(1)), &db);
    assert_eq!(listed, page(vec![first]));
}

#[test]
fn create_with_a_taken_title_leaves_the_store() {
    let (mut db, todos) = filled(3);
    let reply = create_todo_handler(submitted("todo 1", "another content"), &mut db);
    assert_eq!(reply, failure(StatusCode::Conflict, "Todo with title: 'todo 1' already exists"));
    assert_eq!(db.len(), 3);
    assert_eq!(db.list(0, 10), todos);
}

#[test]
fn create_without_a_title_leaves_the_store() {
    let (mut db, todos) = filled(2);
    let reply = create_todo_handler(submitted("", "content"), &mut db);
    assert_eq!(reply, failure(StatusCode::BadRequest, "Title and Body cannot be empty"));
    assert_eq!(reply.code.as_u16(), 400);
    assert_eq!(db.len(), 2);
    assert_eq!(db.list(0, 10), todos);

    let mut empty = init_todo_db();
    let reply = create_todo_handler(submitted("", ""), &mut empty);
    assert_eq!(reply, failure(StatusCode::BadRequest, "Title and Body cannot be empty"));
    assert_eq!(empty.len(), 0);
}

#[test]
fn create_without_a_content_succeeds() {
    let mut db = init_todo_db();
    let todo = created(create_todo_handler(submitted("only a title", ""), &mut db));
    assert_eq!(todo.content, "");
    assert_eq!(db.len(), 1);
}

#[test]
fn create_without_a_title_comes_before_the_taken_title() {
    let (mut db, todos) = filled(1);
    let id = todos[0].id.clone().unwrap();
    update_todo_handler(id, submitted("", "c"), &mut db);
    let reply = create_todo_handler(submitted("", "c"), &mut db);
    assert_eq!(reply.code, StatusCode::BadRequest);
    assert_eq!(db.len(), 1);
}

#[test]
fn creates_with_distinct_titles_grow_the_store_one_by_one() {
    let mut db = init_todo_db();
    let mut todos = Vec::new();
    for i in 0..7 {
        let reply = create_todo_handler(submitted(&format!("t{}", i), "c"), &mut db);
        todos.push(created(reply));
        assert_eq!(db.len(), i + 1);
    }
    assert_eq!(todo_list_handler(query(None, Some(100)), &db), page(todos.clone()));
    assert_eq!(todo_list_handler(query(Some(1), Some(7)), &db), page(todos));
}

#[test]
fn list_page_two_of_twelve_by_five() {
    let (db, todos) = filled(12);
    let reply = todo_list_handler(query(Some(2), Some(5)), &db);
    assert_eq!(reply.code.as_u16(), 200);
    assert_eq!(reply, page(todos[5..10].to_vec()));
    match reply.body {
        Body::List(envelope) => {
            assert_eq!(envelope.results, 5);
            assert_eq!(envelope.todos.len(), 5);
            for (i, todo) in envelope.todos.iter().enumerate() {
                assert_eq!(todo.title, format!("todo {}", i + 5));
            }
        }
        other => panic!("a page was expected, not {:?}", other),
    }
}

#[test]
fn list_starts_at_page_minus_one_times_limit() {
    let (db, todos) = filled(12);
    assert_eq!(todo_list_handler(query(Some(3), Some(4)), &db), page(todos[8..12].to_vec()));
    assert_eq!(todo_list_handler(query(Some(1), Some(4)), &db), page(todos[0..4].to_vec()));
    assert_eq!(todo_list_handler(query(Some(3), Some(5)), &db), page(todos[10..12].to_vec()));
    assert_eq!(todo_list_handler(query(Some(12), Some(1)), &db), page(todos[11..12].to_vec()));
}

#[test]
fn list_defaults_to_the_first_page_of_ten() {
    let (db, todos) = filled(12);
    assert_eq!(todo_list_handler(query(None, None), &db), page(todos[0..10].to_vec()));
    assert_eq!(todo_list_handler(query(Some(2), None), &db), page(todos[10..12].to_vec()));
    assert_eq!(todo_list_handler(query(None, Some(3)), &db), page(todos[0..3].to_vec()));
}

#[test]
fn list_behind_the_last_record_is_empty() {
    let (db, _) = filled(12);
    assert_eq!(todo_list_handler(query(Some(4), Some(5)), &db), page(Vec::new()));
    assert_eq!(todo_list_handler(query(Some(13), Some(1)), &db), page(Vec::new()));
    assert_eq!(todo_list_handler(query(Some(2), Some(12)), &db), page(Vec::new()));
    assert_eq!(todo_list_handler(query(None, None), &init_todo_db()), page(Vec::new()));
}

#[test]
fn list_with_limit_zero_is_empty() {
    let (db, _) = filled(3);
    assert_eq!(todo_list_handler(query(Some(1), Some(0)), &db), page(Vec::new()));
    assert_eq!(todo_list_handler(query(Some(5), Some(0)), &db), page(Vec::new()));
}

#[test]
fn list_of_page_zero_is_empty() {
    let (db, _) = filled(3);
    assert_eq!(todo_list_handler(query(Some(0), Some(2)), &db), page(Vec::new()));
    assert_eq!(todo_list_handler(query(Some(0), None), &db), page(Vec::new()));
    assert_eq!(todo_list_handler(query(Some(0), Some(0)), &db), page(Vec::new()));
    assert_eq!(todo_list_handler(query(Some(0), Some(usize::MAX)), &db), page(Vec::new()));
}

#[test]
fn list_with_an_offset_too_large_for_the_machine_is_empty() {
    let (db, todos) = filled(3);
    assert_eq!(todo_list_handler(query(Some(usize::MAX), Some(usize::MAX)), &db), page(Vec::new()));
    assert_eq!(todo_list_handler(query(Some(3), Some(usize::MAX)), &db), page(Vec::new()));
    assert_eq!(todo_list_handler(query(Some(1), Some(usize::MAX)), &db), page(todos));
}

#[test]
fn list_leaves_the_store() {
    let (db, todos) = filled(4);
    todo_list_handler(query(Some(2), Some(2)), &db);
    assert_eq!(db.list(0, 10), todos);
}

#[test]
fn find_replies_with_the_record() {
    let (db, todos) = filled(3);
    let id = todos[1].id.clone().unwrap();
    let reply = find_single_todo_handler(id, &db);
    assert_eq!(reply.code.as_u16(), 200);
    assert_eq!(reply, single(StatusCode::Success, todos[1].clone()));
}

#[test]
fn find_of_a_missing_id_replies_not_found() {
    let (db, todos) = filled(3);
    let reply = find_single_todo_handler("no-such-id".to_string(), &db);
    assert_eq!(reply, failure(StatusCode::NotFound, "Todo with id: 'no-such-id' not found"));
    assert_eq!(reply.code.as_u16(), 404);
    assert_eq!(db.list(0, 10), todos);
    let reply = find_single_todo_handler("x".to_string(), &init_todo_db());
    assert_eq!(reply, failure(StatusCode::NotFound, "Todo with id: 'x' not found"));
}

#[test]
fn update_overwrites_and_refreshes_the_time_of_update() {
    let (mut db, todos) = filled(3);
    let id = todos[1].id.clone().unwrap();
    let mut body = submitted("new title", "new content");
    body.completed = Some(true);
    body.id = Some("another id".to_string());
    body.created_at = Some(Timestamp { secs: 0, nanos: 0 });
    let before = chrono::Utc::now();
    let reply = update_todo_handler(id.clone(), body, &mut db);
    let after = chrono::Utc::now();
    assert_eq!(reply.code, StatusCode::Success);
    let updated = match reply.body {
        Body::Single(envelope) => envelope.data.todo,
        other => panic!("a record was expected, not {:?}", other),
    };
    assert_eq!(updated.id, Some(id.clone()));
    assert_eq!(updated.title, "new title");
    assert_eq!(updated.content, "new content");
    assert_eq!(updated.completed, Some(true));
    assert_eq!(updated.created_at, todos[1].created_at);
    let stamp = updated.updated_at.unwrap();
    let reading = chrono::DateTime::from_timestamp(stamp.secs, stamp.nanos).unwrap();
    assert!(before <= reading && reading <= after);
    assert_eq!(db.list(0, 10), vec![todos[0].clone(), updated, todos[2].clone()]);
}

#[test]
fn update_with_the_same_values_keeps_all_but_the_time_of_update() {
    let (mut db, todos) = filled(2);
    let current = todos[0].clone();
    let id = current.id.clone().unwrap();
    let mut body = submitted(&current.title, &current.content);
    body.completed = current.completed;
    let reply = update_todo_handler(id, body, &mut db);
    let updated = match reply.body {
        Body::Single(envelope) => envelope.data.todo,
        other => panic!("a record was expected, not {:?}", other),
    };
    assert_eq!(Todo { updated_at: current.updated_at, ..updated.clone() }, current);
    assert!(updated.updated_at.is_some());
    assert_eq!(db.list(0, 10), vec![updated, todos[1].clone()]);
}

#[test]
fn update_may_take_the_title_of_another_record() {
    let (mut db, todos) = filled(2);
    let id = todos[1].id.clone().unwrap();
    let reply = update_todo_handler(id, submitted("todo 0", "c"), &mut db);
    assert_eq!(reply.code, StatusCode::Success);
    let all = db.list(0, 10);
    assert_eq!(all[0].title, "todo 0");
    assert_eq!(all[1].title, "todo 0");
}

#[test]
fn update_of_a_missing_id_replies_not_found() {
    let (mut db, todos) = filled(3);
    let reply = update_todo_handler("gone".to_string(), submitted("t", "c"), &mut db);
    assert_eq!(reply, failure(StatusCode::NotFound, "Todo with id: 'gone' not found"));
    assert_eq!(db.len(), 3);
    assert_eq!(db.list(0, 10), todos);
}

#[test]
fn created_response_shapes_both_outcomes() {
    let todo = Todo {
        id: Some("id-1".to_string()),
        title: "A".to_string(),
        content: "x".to_string(),
        completed: Some(false),
        created_at: Some(Timestamp { secs: 10, nanos: 20 }),
        updated_at: Some(Timestamp { secs: 10, nanos: 20 }),
    };
    assert_eq!(created_response(Ok(todo.clone())), single(StatusCode::Created, todo));
    assert_eq!(
        created_response(Err(DuplicateTitle { title: "it's".to_string() })),
        failure(StatusCode::Conflict, "Todo with title: 'it's' already exists")
    );
    assert_eq!(
        created_response(Err(DuplicateTitle { title: String::new() })),
        failure(StatusCode::Conflict, "Todo with title: '' already exists")
    );
}

#[test]
fn found_response_shapes_both_outcomes() {
    let todo = submitted("A", "x");
    assert_eq!(
        found_response(&"id-1".to_string(), Some(todo.clone())),
        single(StatusCode::Success, todo)
    );
    assert_eq!(
        found_response(&"id-1".to_string(), None),
        failure(StatusCode::NotFound, "Todo with id: 'id-1' not found")
    );
}

#[test]
fn a_copy_of_an_update_schema_equals_it() {
    let schema = UpdateTodoSchema {
        title: Some("t".to_string()),
        content: None,
        completed: Some(true),
    };
    assert_eq!(schema.clone(), schema);
}
