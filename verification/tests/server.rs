use todo_app::clock::Timestamp;
use todo_app::db::Database;
use todo_app::errors::AppError;
use todo_app::handlers::auth::{login, logout, register, register_at};
use todo_app::handlers::todos::{
    all_todos, create_todo, create_todo_at, delete_todo, get_todo, update_todo, update_todo_at,
    DUMMY_USER_ID,
};
use todo_app::models::{CreateTodo, LoginUser, Priority, RegisterUser, Todo, UpdateTodo};

fn payload(title: &str) -> CreateTodo {
    CreateTodo { title: title.to_string(), description: None, priority: Priority::Medium }
}

fn no_change() -> UpdateTodo {
    UpdateTodo { title: None, description: None, completed: None, priority: None }
}

fn foreign_todo(id: u128) -> Todo {
    Todo {
        id,
        user_id: 7,
        title: "Not yours".to_string(),
        description: None,
        completed: false,
        priority: Priority::Low,
        created_at: Timestamp::new(10, 0),
        updated_at: Timestamp::new(10, 0),
    }
}

#[test]
fn create_then_get_returns_the_todo() {
    let mut db = Database::new();
    let request = CreateTodo {
        title: "Buy milk".to_string(),
        description: Some("two litres".to_string()),
        priority: Priority::High,
    };
    let (code, made) = create_todo(&mut db, request).unwrap();
    assert_eq!(code, 201);
    let found = get_todo(&db, made.id).unwrap();
    assert_eq!(found, made);
    assert_eq!(found.title, "Buy milk");
    assert_eq!(found.description, Some("two litres".to_string()));
    assert_eq!(found.priority, Priority::High);
    assert_eq!(found.user_id, DUMMY_USER_ID);
    assert!(!found.completed);
    assert_eq!(found.created_at, found.updated_at);
}

#[test]
fn create_at_stores_the_given_identifier_and_instant() {
    let mut db = Database::new();
    let at = Timestamp::new(1_700_000_000, 250);
    let (code, made) = create_todo_at(&mut db, payload("Write"), 42, at).unwrap();
    assert_eq!(code, 201);
    assert_eq!(
        made,
        Todo {
            id: 42,
            user_id: 0xa0eebc99_9c0b_4ef8_bb6d_6bb9bd380a11,
            title: "Write".to_string(),
            description: None,
            completed: false,
            priority: Priority::Medium,
            created_at: at,
            updated_at: at,
        }
    );
    assert_eq!(get_todo(&db, 42).unwrap(), made);
}

#[test]
fn the_service_stores_titles_that_the_form_refuses() {
    let mut db = Database::new();
    let long = "x".repeat(500);
    let (_, blank) = create_todo_at(&mut db, payload("   "), 1, Timestamp::new(0, 0)).unwrap();
    let (_, empty) = create_todo_at(&mut db, payload(""), 2, Timestamp::new(0, 0)).unwrap();
    let (_, huge) = create_todo_at(&mut db, payload(&long), 3, Timestamp::new(0, 0)).unwrap();
    assert_eq!(blank.title, "   ");
    assert_eq!(empty.title, "");
    assert_eq!(huge.title, long);
    assert_eq!(get_todo(&db, 3).unwrap().title, long);
}

#[test]
fn create_under_a_taken_identifier_is_a_database_error() {
    let mut db = Database::new();
    create_todo_at(&mut db, payload("first"), 5, Timestamp::new(1, 0)).unwrap();
    let again = create_todo_at(&mut db, payload("second"), 5, Timestamp::new(2, 0));
    assert_eq!(again, Err(AppError::DatabaseError("UNIQUE constraint failed".to_string())));
    assert_eq!(get_todo(&db, 5).unwrap().title, "first");
    assert_eq!(all_todos(&db).unwrap().len(), 1);
}

#[test]
fn two_creations_get_different_identifiers() {
    let mut db = Database::new();
    let (_, a) = create_todo(&mut db, payload("a")).unwrap();
    let (_, b) = create_todo(&mut db, payload("b")).unwrap();
    assert_ne!(a.id, b.id);
    assert_eq!(all_todos(&db).unwrap().len(), 2);
}

#[test]
fn get_of_a_missing_todo_is_not_found() {
    let db = Database::new();
    assert_eq!(get_todo(&db, 9), Err(AppError::NotFound));
}

#[test]
fn a_todo_of_another_user_is_out_of_sight() {
    let mut db = Database::new();
    assert!(db.insert_todo(foreign_todo(11)));
    assert_eq!(get_todo(&db, 11), Err(AppError::NotFound));
    assert_eq!(update_todo(&mut db, 11, no_change()), Err(AppError::NotFound));
    assert_eq!(delete_todo(&mut db, 11), Err(AppError::NotFound));
    assert!(all_todos(&db).unwrap().is_empty());
    assert_eq!(db.todo(11), Some(foreign_todo(11)));
}

#[test]
fn completing_changes_the_flag_and_the_stamp_only() {
    let mut db = Database::new();
    let request = CreateTodo {
        title: "Call".to_string(),
        description: Some("before noon".to_string()),
        priority: Priority::Low,
    };
    let made_at = Timestamp::new(100, 5);
    create_todo_at(&mut db, request, 1, made_at).unwrap();
    let patch = UpdateTodo { completed: Some(true), ..no_change() };
    let later = Timestamp::new(100, 6);
    let answer = update_todo_at(&mut db, 1, patch, later).unwrap();
    let found = get_todo(&db, 1).unwrap();
    assert_eq!(found, answer);
    assert!(found.completed);
    assert!(found.updated_at.is_after(&found.created_at));
    assert_eq!(found.updated_at, later);
    assert_eq!(found.created_at, made_at);
    assert_eq!(found.title, "Call");
    assert_eq!(found.description, Some("before noon".to_string()));
    assert_eq!(found.priority, Priority::Low);
    assert_eq!(found.user_id, DUMMY_USER_ID);
    assert_eq!(found.id, 1);
}

#[test]
fn update_replaces_the_fields_that_are_sent() {
    let mut db = Database::new();
    create_todo_at(&mut db, payload("old"), 1, Timestamp::new(1, 0)).unwrap();
    let patch = UpdateTodo {
        title: Some("new".to_string()),
        description: Some("more".to_string()),
        completed: Some(true),
        priority: Some(Priority::High),
    };
    let answer = update_todo_at(&mut db, 1, patch, Timestamp::new(2, 0)).unwrap();
    assert_eq!(answer.title, "new");
    assert_eq!(answer.description, Some("more".to_string()));
    assert!(answer.completed);
    assert_eq!(answer.priority, Priority::High);
    assert_eq!(answer.created_at, Timestamp::new(1, 0));
    assert_eq!(answer.updated_at, Timestamp::new(2, 0));
}

#[test]
fn an_update_without_a_description_keeps_the_stored_one() {
    let mut db = Database::new();
    let request = CreateTodo {
        title: "t".to_string(),
        description: Some("kept".to_string()),
        priority: Priority::Medium,
    };
    create_todo_at(&mut db, request, 1, Timestamp::new(1, 0)).unwrap();
    let answer = update_todo_at(&mut db, 1, no_change(), Timestamp::new(3, 0)).unwrap();
    assert_eq!(answer.description, Some("kept".to_string()));
    assert_eq!(answer.updated_at, Timestamp::new(3, 0));
}

#[test]
fn update_leaves_other_todos_alone() {
    let mut db = Database::new();
    create_todo_at(&mut db, payload("one"), 1, Timestamp::new(1, 0)).unwrap();
    create_todo_at(&mut db, payload("two"), 2, Timestamp::new(1, 0)).unwrap();
    let before = get_todo(&db, 2).unwrap();
    let patch = UpdateTodo { title: Some("uno".to_string()), ..no_change() };
    update_todo_at(&mut db, 1, patch, Timestamp::new(9, 0)).unwrap();
    assert_eq!(get_todo(&db, 2).unwrap(), before);
}

#[test]
fn update_of_a_missing_todo_is_not_found() {
    let mut db = Database::new();
    let patch = UpdateTodo { completed: Some(true), ..no_change() };
    assert_eq!(update_todo(&mut db, 3, patch), Err(AppError::NotFound));
    assert!(all_todos(&db).unwrap().is_empty());
}

#[test]
fn update_stamps_with_the_clock() {
    let mut db = Database::new();
    let (_, made) = create_todo(&mut db, payload("t")).unwrap();
    let patch = UpdateTodo { completed: Some(true), ..no_change() };
    let answer = update_todo(&mut db, made.id, patch).unwrap();
    assert!(answer.completed);
    assert_eq!(answer.created_at, made.created_at);
    assert!(!made.created_at.is_after(&answer.updated_at));
    assert!(answer.updated_at.secs > 1_600_000_000);
}

#[test]
fn delete_then_get_is_not_found() {
    let mut db = Database::new();
    let (_, made) = create_todo(&mut db, payload("gone soon")).unwrap();
    assert_eq!(delete_todo(&mut db, made.id), Ok(204));
    assert_eq!(get_todo(&db, made.id), Err(AppError::NotFound));
    assert!(all_todos(&db).unwrap().is_empty());
}

#[test]
fn delete_of_a_missing_todo_is_not_found() {
    let mut db = Database::new();
    create_todo_at(&mut db, payload("stays"), 1, Timestamp::new(1, 0)).unwrap();
    assert_eq!(delete_todo(&mut db, 2), Err(AppError::NotFound));
    assert_eq!(get_todo(&db, 1).unwrap().title, "stays");
}

#[test]
fn deleting_twice_fails_the_second_time() {
    let mut db = Database::new();
    create_todo_at(&mut db, payload("once"), 1, Timestamp::new(1, 0)).unwrap();
    assert_eq!(delete_todo(&mut db, 1), Ok(204));
    assert_eq!(delete_todo(&mut db, 1), Err(AppError::NotFound));
}

#[test]
fn delete_leaves_other_todos_alone() {
    let mut db = Database::new();
    create_todo_at(&mut db, payload("one"), 1, Timestamp::new(1, 0)).unwrap();
    create_todo_at(&mut db, payload("two"), 2, Timestamp::new(1, 0)).unwrap();
    create_todo_at(&mut db, payload("three"), 3, Timestamp::new(1, 0)).unwrap();
    delete_todo(&mut db, 2).unwrap();
    assert_eq!(get_todo(&db, 1).unwrap().title, "one");
    assert_eq!(get_todo(&db, 3).unwrap().title, "three");
}

#[test]
fn the_list_holds_the_served_users_todos_each_once() {
    let mut db = Database::new();
    create_todo_at(&mut db, payload("one"), 1, Timestamp::new(1, 0)).unwrap();
    assert!(db.insert_todo(foreign_todo(2)));
    create_todo_at(&mut db, payload("three"), 3, Timestamp::new(1, 0)).unwrap();
    let list = all_todos(&db).unwrap();
    let mut ids: Vec<u128> = list.iter().map(|t| t.id).collect();
    ids.sort();
    assert_eq!(ids, vec![1, 3]);
    assert!(list.iter().all(|t| t.user_id == DUMMY_USER_ID));
}

#[test]
fn replace_of_a_missing_row_changes_nothing() {
    let mut db = Database::new();
    assert!(!db.replace_todo(foreign_todo(1)));
    assert_eq!(db.todo(1), None);
    assert_eq!(db.remove_todo(1, 7), 0);
}

#[test]
fn remove_asks_for_the_owner() {
    let mut db = Database::new();
    assert!(db.insert_todo(foreign_todo(1)));
    assert_eq!(db.remove_todo(1, 8), 0);
    assert_eq!(db.remove_todo(1, 7), 1);
    assert_eq!(db.todo(1), None);
}

fn registration(name: &str, password: &str) -> RegisterUser {
    RegisterUser { username: name.to_string(), password: password.to_string() }
}

fn attempt(name: &str, password: &str) -> LoginUser {
    LoginUser { username: name.to_string(), password: password.to_string() }
}

#[test]
fn register_then_login_gives_the_token() {
    let mut db = Database::new();
    let (code, answer) = register(&mut db, registration("ann", "secret1")).unwrap();
    assert_eq!(code, 201);
    assert_eq!(answer.token, "dummy-token");
    let stored = db.user_by_name("ann").unwrap();
    assert_eq!(stored.username, "ann");
    assert_eq!(stored.password_hash, "secret1");
    assert_eq!(login(&db, attempt("ann", "secret1")).unwrap().token, "dummy-token");
}

#[test]
fn login_of_an_unknown_user_is_user_not_found() {
    let mut db = Database::new();
    assert_eq!(login(&db, attempt("ann", "secret1")).unwrap_err(), AppError::UserNotFound);
    register(&mut db, registration("ann", "secret1")).unwrap();
    assert_eq!(login(&db, attempt("bob", "secret1")).unwrap_err(), AppError::UserNotFound);
    assert_eq!(login(&db, attempt("Ann", "secret1")).unwrap_err(), AppError::UserNotFound);
}

#[test]
fn login_with_a_wrong_password_is_invalid_credentials() {
    let mut db = Database::new();
    register(&mut db, registration("ann", "secret1")).unwrap();
    assert_eq!(login(&db, attempt("ann", "secret2")).unwrap_err(), AppError::InvalidCredentials);
    assert_eq!(login(&db, attempt("ann", "")).unwrap_err(), AppError::InvalidCredentials);
}

#[test]
fn the_store_refuses_a_second_user_of_the_same_name_or_identifier() {
    let mut db = Database::new();
    let at = Timestamp::new(1, 0);
    assert!(register_at(&mut db, registration("ann", "one"), 1, at).is_ok());
    let same_name = register_at(&mut db, registration("ann", "two"), 2, at);
    assert_eq!(
        same_name.unwrap_err(),
        AppError::DatabaseError("UNIQUE constraint failed".to_string())
    );
    let same_id = register_at(&mut db, registration("bob", "two"), 1, at);
    assert_eq!(same_id.unwrap_err().status_code(), 500);
    assert!(register_at(&mut db, registration("bob", "two"), 2, at).is_ok());
    assert_eq!(db.user_by_name("ann").unwrap().password_hash, "one");
    assert_eq!(db.user_by_name("bob").unwrap().id, 2);
    assert_eq!(db.user_by_name("bob").unwrap().created_at, at);
}

#[test]
fn registration_does_not_touch_the_todos() {
    let mut db = Database::new();
    create_todo_at(&mut db, payload("one"), 1, Timestamp::new(1, 0)).unwrap();
    register(&mut db, registration("ann", "secret1")).unwrap();
    assert_eq!(get_todo(&db, 1).unwrap().title, "one");
}

#[test]
fn logout_always_answers_ok() {
    assert_eq!(logout(), Ok(200));
}

#[test]
fn each_failure_has_its_status_and_body() {
    let cases = vec![
        (AppError::DatabaseError("disk full".to_string()), 500, "Database Error"),
        (AppError::AuthenticationError, 401, "Authentication Failed"),
        (AppError::UserNotFound, 404, "User Not Found"),
        (AppError::InvalidCredentials, 401, "Invalid Credentials"),
        (AppError::NotFound, 404, "Not Found"),
        (AppError::InternalServerError, 500, "Internal Server Error"),
    ];
    for (error, status, body) in cases {
        assert_eq!(error.status_code(), status);
        assert_eq!(error.into_response(), (status, body.to_string()));
    }
}

#[test]
fn each_failure_describes_itself() {
    assert_eq!(
        AppError::DatabaseError("disk full".to_string()).to_string(),
        "Database error: disk full"
    );
    assert_eq!(AppError::AuthenticationError.to_string(), "Authentication failed");
    assert_eq!(AppError::UserNotFound.to_string(), "User not found");
    assert_eq!(AppError::InvalidCredentials.to_string(), "Invalid credentials");
    assert_eq!(AppError::NotFound.to_string(), "Item not found");
    assert_eq!(AppError::InternalServerError.to_string(), "Internal Server Error");
}
