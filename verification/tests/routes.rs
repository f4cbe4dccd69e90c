use nullith::models::health_check;
use nullith::routes::admin::generate_secure_key;
use nullith::auth::{AuthError, HeaderLookup};
use nullith::routes::files::{content_length, extension, mime_type_for_path, missing_file};
use nullith::routes::notes::{
    authorize_notes, delete_note_statement, get_note_statement, list_notes_statement,
    note_exists_statement, note_not_found_message, note_value, plan_note_write, require_note,
    saved_note, NotesAccess, DELETE_NOTE_SQL, GET_NOTE_SQL, INSERT_NOTE_SQL, LIST_NOTES_SQL,
    NOTE_EXISTS_SQL, UPDATE_NOTE_SQL,
};
use nullith::routes::required_param;
use nullith::utils::uuid;

#[test]
fn mime_types() {
    assert_eq!(mime_type_for_path("a.png"), "image/png");
    assert_eq!(mime_type_for_path("photos/b.jpg"), "image/jpeg");
    assert_eq!(mime_type_for_path("c.jpeg"), "image/jpeg");
    assert_eq!(mime_type_for_path("d.gif"), "image/gif");
    assert_eq!(mime_type_for_path("e.pdf"), "application/pdf");
    assert_eq!(mime_type_for_path("notes.txt"), "text/plain");
    assert_eq!(mime_type_for_path("data.json"), "application/json");
    assert_eq!(mime_type_for_path("index.html"), "text/html");
    assert_eq!(mime_type_for_path("site.css"), "text/css");
    assert_eq!(mime_type_for_path("app.js"), "application/javascript");
    assert_eq!(mime_type_for_path("archive.tar.gz"), "application/octet-stream");
    assert_eq!(mime_type_for_path("photo.PNG"), "application/octet-stream");
    assert_eq!(mime_type_for_path("png"), "image/png");
    assert_eq!(mime_type_for_path("dir.v1/readme"), "application/octet-stream");
    assert_eq!(mime_type_for_path("trailing."), "application/octet-stream");
    assert_eq!(mime_type_for_path(""), "application/octet-stream");
}

#[test]
fn extensions() {
    assert_eq!(extension("a.b.c").into_iter().collect::<String>(), "c");
    assert_eq!(extension("abc").into_iter().collect::<String>(), "abc");
    assert_eq!(extension("abc.").into_iter().collect::<String>(), "");
}

#[test]
fn content_length_is_decimal() {
    assert_eq!(content_length(0), "0");
    assert_eq!(content_length(1234), "1234");
}

#[test]
fn missing_params() {
    assert_eq!(required_param(Some("k".to_string()), "key"), Ok("k".to_string()));
    assert_eq!(required_param(None, "key"), Err("Missing key".to_string()));
    assert_eq!(required_param(None, "path"), Err("Missing path".to_string()));
}

fn access() -> NotesAccess {
    match authorize_notes(&Some("k".to_string()), &HeaderLookup::Present("k".to_string())) {
        Ok(a) => a,
        Err(e) => panic!("{:?}", e),
    }
}

#[test]
fn notes_need_the_key() {
    let secret = Some("k".to_string());
    assert!(authorize_notes(&secret, &HeaderLookup::Present("k".to_string())).is_ok());
    assert_eq!(authorize_notes(&secret, &HeaderLookup::Absent).err(), Some(AuthError::MissingKey));
    assert_eq!(
        authorize_notes(&secret, &HeaderLookup::Present("x".to_string())).err(),
        Some(AuthError::InvalidKey)
    );
    assert_eq!(authorize_notes(&None, &HeaderLookup::Present("k".to_string())).err(), Some(AuthError::NotConfigured));
    assert_eq!(authorize_notes(&Some(String::new()), &HeaderLookup::Absent).err(), Some(AuthError::EmptyKey));
    assert_eq!(authorize_notes(&secret, &HeaderLookup::Unreadable).err(), Some(AuthError::HeaderUnreadable));
}

#[test]
fn note_statements() {
    let a = access();
    let st = list_notes_statement(&a);
    assert_eq!(st.sql, LIST_NOTES_SQL);
    assert!(st.params.is_empty());
    let st = get_note_statement(&a, "todo");
    assert_eq!((st.sql, st.params), (GET_NOTE_SQL, vec!["todo".to_string()]));
    let st = note_exists_statement(&a, "todo");
    assert_eq!((st.sql, st.params), (NOTE_EXISTS_SQL, vec!["todo".to_string()]));
    let st = delete_note_statement(&a, "todo");
    assert_eq!((st.sql, st.params), (DELETE_NOTE_SQL, vec!["todo".to_string()]));
    assert_eq!(DELETE_NOTE_SQL, "DELETE FROM notes WHERE key = ?");
}

#[test]
fn note_write_plans() {
    let a = access();
    let st = plan_note_write(&a, true, "todo", "milk", 1700);
    assert_eq!(st.sql, UPDATE_NOTE_SQL);
    assert_eq!(st.sql, "UPDATE notes SET value = ?, update_at = ? WHERE key = ?");
    assert_eq!(st.params, vec!["milk", "1700", "todo"]);
    let st = plan_note_write(&a, false, "todo", "milk", 1778403344535);
    assert_eq!(st.sql, INSERT_NOTE_SQL);
    assert_eq!(st.params, vec!["todo", "milk", "1778403344535", "1778403344535"]);
}

#[test]
fn saved_note_times_are_equal() {
    let n = saved_note("todo", "Note content", 1778403344535);
    assert_eq!((n.key.as_str(), n.value.as_str()), ("todo", "Note content"));
    assert_eq!(n.create_at, 1778403344535);
    assert_eq!(n.create_at, n.update_at);
}

#[test]
fn note_values_and_absence() {
    let a = access();
    assert_eq!(note_value(Some("v".to_string())), "v");
    assert_eq!(note_value(None), "");
    assert_eq!(note_not_found_message("todo"), "Note 'todo' not found");
    assert_eq!(require_note(&a, true, "todo"), Ok(()));
    assert_eq!(require_note(&a, false, "x"), Err("Note 'x' not found".to_string()));
}

#[test]
fn missing_file_answer() {
    assert_eq!(missing_file(), ("File not found", 404));
}

#[test]
fn ids_and_keys() {
    assert_eq!(uuid(1700000000000, 42), "1700000000000-42");
    assert_eq!(uuid(0, 0), "0-0");
    assert_ne!(uuid(1, 23), uuid(12, 3));
    assert_eq!(generate_secure_key(255, 16, 0), "nullith_ff_10_0");
}

#[test]
fn health() {
    let h = health_check();
    assert_eq!((h.name.as_str(), h.version.as_str(), h.status.as_str()), ("Nullith API", "1.0.0", "running"));
}

#[test]
fn keys_from_different_inputs_differ() {
    assert_eq!(generate_secure_key(0x1, 0x23, 0), "nullith_1_23_0");
    assert_ne!(generate_secure_key(0x1, 0x23, 0), generate_secure_key(0x12, 0x3, 0));
    assert_ne!(generate_secure_key(5, 5, 6), generate_secure_key(5, 6, 5));
}

#[test]
fn type_follows_last_extension() {
    assert_eq!(mime_type_for_path("dir.v2/report.final.pdf"), "application/pdf");
    assert_eq!(mime_type_for_path("x.png.txt"), "text/plain");
    assert_eq!(mime_type_for_path(".json"), "application/json");
}

#[test]
fn write_plan_follows_existence() {
    let a = access();
    // A note that exists is updated in place: its key is bound last, after the new value and time.
    let update = plan_note_write(&a, true, "k", "v2", 2000);
    assert_eq!(update.params[2], "k");
    assert_eq!(update.params[0], "v2");
    // A new note is inserted with both times set to now.
    let insert = plan_note_write(&a, false, "k", "v1", 1000);
    assert_eq!(insert.params[0], "k");
    assert_eq!(insert.params[2], insert.params[3]);
}
