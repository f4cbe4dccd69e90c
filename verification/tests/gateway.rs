use nullith::api::{
    collection_action, log_level, log_message, required_setting, trash_item_action, worker_endpoint,
    worker_item_endpoint, worker_url, CollectionAction, TrashItemAction, DEFAULT_WORKER_URL,
};
use nullith::number::decimal_string;

#[test]
fn worker_address() {
    assert_eq!(worker_url(None), DEFAULT_WORKER_URL);
    assert_eq!(worker_url(None), "https://nullith-worker.shedrackgodstime.workers.dev");
    assert_eq!(worker_url(Some("http://w".to_string())), "http://w");
    assert_eq!(worker_endpoint("http://w", "notes"), "http://w/notes");
    assert_eq!(worker_item_endpoint("http://w", "files", "a.txt"), "http://w/files/a.txt");
}

#[test]
fn settings() {
    assert_eq!(required_setting(Some("x".to_string()), "NEON_DB_URL"), Ok("x".to_string()));
    assert_eq!(required_setting(None, "NEON_DB_URL"), Err("NEON_DB_URL not set".to_string()));
    assert_eq!(required_setting(None, "NULLITH_API_KEY"), Err("NULLITH_API_KEY not set".to_string()));
}

#[test]
fn collection_actions() {
    assert_eq!(collection_action("/api/logs", "GET", "logs"), CollectionAction::List);
    assert_eq!(collection_action("/api/logs", "POST", "logs"), CollectionAction::Add);
    assert_eq!(collection_action("/api/logs", "DELETE", "logs"), CollectionAction::NotFound);
    assert_eq!(collection_action("/api/trash", "GET", "logs"), CollectionAction::NotFound);
    assert_eq!(collection_action("/api/logs", "get", "logs"), CollectionAction::NotFound);
    assert_eq!(collection_action("/trash", "GET", "trash"), CollectionAction::List);
    assert_eq!(CollectionAction::List.status(), 200);
    assert_eq!(CollectionAction::Add.status(), 201);
    assert_eq!(CollectionAction::NotFound.status(), 404);
}

#[test]
fn trash_item_actions() {
    assert_eq!(trash_item_action("DELETE", "/trash/12"), Ok(TrashItemAction::Delete(12)));
    assert_eq!(trash_item_action("DELETE", "/trash/-3"), Ok(TrashItemAction::Delete(-3)));
    assert_eq!(trash_item_action("DELETE", "/trash/abc"), Err("Invalid ID".to_string()));
    assert_eq!(trash_item_action("DELETE", "/other/12"), Err("Invalid ID".to_string()));
    assert_eq!(trash_item_action("GET", "/trash/12"), Ok(TrashItemAction::NotFound));
}

#[test]
fn delete_by_rendered_id() {
    for id in [0i64, 1, 77, 9223372036854775807] {
        let path = format!("/trash/{}", decimal_string(id as u64));
        assert_eq!(trash_item_action("DELETE", &path), Ok(TrashItemAction::Delete(id)));
    }
    for id in [-1i64, -42, -9223372036854775807, i64::MIN] {
        let path = format!("/trash/-{}", decimal_string(id.unsigned_abs()));
        assert_eq!(trash_item_action("DELETE", &path), Ok(TrashItemAction::Delete(id)));
    }
}

#[test]
fn log_defaults() {
    assert_eq!(log_level(None), "info");
    assert_eq!(log_level(Some("warn".to_string())), "warn");
    assert_eq!(log_message(None), "");
    assert_eq!(log_message(Some("hi".to_string())), "hi");
}
