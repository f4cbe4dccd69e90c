use vstd::prelude::*;

use crate::auth::{header_holds, spec_auth_enabled, spec_check, verify_api_key, AuthError, HeaderLookup};
use crate::number::{decimal_digits, decimal_string};

verus! {

/// The newest notes first, at most fifty.
pub const LIST_NOTES_SQL: &'static str =
    "SELECT key, value, create_at, update_at FROM notes ORDER BY update_at DESC LIMIT 50";

/// One note by its key; binds the key.
pub const GET_NOTE_SQL: &'static str = "SELECT key, value, create_at, update_at FROM notes WHERE key = ?";

/// Whether a note with the key exists; binds the key.
pub const NOTE_EXISTS_SQL: &'static str = "SELECT key FROM notes WHERE key = ?";

/// Replaces the value of an existing note; binds value, time, key.
pub const UPDATE_NOTE_SQL: &'static str = "UPDATE notes SET value = ?, update_at = ? WHERE key = ?";

/// Adds a note; binds key, value, creation time, update time.
pub const INSERT_NOTE_SQL: &'static str =
    "INSERT INTO notes (key, value, create_at, update_at) VALUES (?, ?, ?, ?)";

/// Removes a note by its key; binds the key.
pub const DELETE_NOTE_SQL: &'static str = "DELETE FROM notes WHERE key = ?";

/// Proof that a request to the notes routes passed the API-key check. Only
/// [`authorize_notes`] makes one, and every statement on the notes table needs one.
pub struct NotesAccess {
    checked: (),
}

/// Lets a notes request through only when its key check succeeds, as on every endpoint.
pub fn authorize_notes(secret: &Option<String>, header: &HeaderLookup) -> (r: Result<
    NotesAccess,
    AuthError,
>)
    ensures
        r is Ok <==> spec_check(*secret, *header) is Ok,
        r matches Err(e) ==> spec_check(*secret, *header) == Err::<(), AuthError>(e),
{
    if !verify_api_key(secret, header)? {
        return Err(AuthError::Unauthorized);
    }
    Ok(NotesAccess { checked: () })
}

/// A statement to run with the values bound to its `?` placeholders, in order.
pub struct NoteStatement {
    pub sql: &'static str,
    pub params: Vec<String>,
}

/// The views of a list of strings.
pub open spec fn views(v: Seq<String>) -> Seq<Seq<char>> {
    v.map_values(|p: String| p@)
}

/// The query that lists the notes (it binds nothing).
pub fn list_notes_statement(access: &NotesAccess) -> (st: NoteStatement)
    ensures
        st.sql@ == LIST_NOTES_SQL@,
        st.params@.len() == 0,
{
    NoteStatement { sql: LIST_NOTES_SQL, params: Vec::new() }
}

/// A statement that binds only `key`.
fn keyed_statement(sql: &'static str, key: &str) -> (st: NoteStatement)
    ensures
        st.sql == sql,
        views(st.params@) == seq![key@],
{
    let mut params: Vec<String> = Vec::new();
    params.push(String::from_str(key));
    assert(views(params@) =~= seq![key@]);
    NoteStatement { sql, params }
}

/// The query that reads the note under `key`.
pub fn get_note_statement(access: &NotesAccess, key: &str) -> (st: NoteStatement)
    ensures
        st.sql@ == GET_NOTE_SQL@,
        views(st.params@) == seq![key@],
{
    keyed_statement(GET_NOTE_SQL, key)
}

/// The query that tells whether a note is stored under `key`.
pub fn note_exists_statement(access: &NotesAccess, key: &str) -> (st: NoteStatement)
    ensures
        st.sql@ == NOTE_EXISTS_SQL@,
        views(st.params@) == seq![key@],
{
    keyed_statement(NOTE_EXISTS_SQL, key)
}

/// The statement that removes the note under `key`.
pub fn delete_note_statement(access: &NotesAccess, key: &str) -> (st: NoteStatement)
    ensures
        st.sql@ == DELETE_NOTE_SQL@,
        views(st.params@) == seq![key@],
{
    keyed_statement(DELETE_NOTE_SQL, key)
}

/// The statement that stores `value` under `key` at time `now`: an update of the existing
/// note, or the insertion of a new one whose creation and update times are both `now`.
pub open spec fn spec_note_write(exists: bool, key: Seq<char>, value: Seq<char>, now: Seq<char>) -> (
    Seq<char>,
    Seq<Seq<char>>,
) {
    if exists {
        (UPDATE_NOTE_SQL@, seq![value, now, key])
    } else {
        (INSERT_NOTE_SQL@, seq![key, value, now, now])
    }
}

/// Chooses the statement that stores a note, once it is known whether the key exists; the
/// time, in milliseconds, is bound in decimal.
pub fn plan_note_write(access: &NotesAccess, exists: bool, key: &str, value: &str, now: u64) -> (st: NoteStatement)
    ensures
        (st.sql@, views(st.params@)) == spec_note_write(exists, key@, value@, decimal_digits(now as nat)),
{
    let time = decimal_string(now);
    let mut params: Vec<String> = Vec::new();
    if exists {
        params.push(String::from_str(value));
        params.push(time);
        params.push(String::from_str(key));
        assert(views(params@) =~= seq![value@, decimal_digits(now as nat), key@]);
        NoteStatement { sql: UPDATE_NOTE_SQL, params }
    } else {
        params.push(String::from_str(key));
        params.push(String::from_str(value));
        params.push(time.clone());
        params.push(time);
        assert(views(params@) =~= seq![key@, value@, decimal_digits(now as nat), decimal_digits(now as nat)]);
        NoteStatement { sql: INSERT_NOTE_SQL, params }
    }
}

/// The note that a write answers with; its times are in milliseconds.
#[derive(Debug, Clone)]
pub struct SavedNote {
    pub key: String,
    pub value: String,
    pub create_at: u64,
    pub update_at: u64,
}

/// The answer to storing `value` under `key` at time `now`: both times are `now`.
pub fn saved_note(key: &str, value: &str, now: u64) -> (note: SavedNote)
    ensures
        note.key@ == key@,
        note.value@ == value@,
        note.create_at == now,
        note.update_at == now,
{
    SavedNote {
        key: String::from_str(key),
        value: String::from_str(value),
        create_at: now,
        update_at: now,
    }
}

/// The value given in a write's body: its `value` field when that is a string, else empty.
pub fn note_value(field: Option<String>) -> (value: String)
    ensures
        field matches Some(v) ==> value@ == v@,
        field is None ==> value@ == Seq::<char>::empty(),
{
    match field {
        Some(v) => v,
        None => String::new(),
    }
}

/// The text that reports that no note has the key.
pub open spec fn spec_note_not_found(key: Seq<char>) -> Seq<char> {
    "Note '"@ + key + "' not found"@
}

/// `Note '<key>' not found`.
pub fn note_not_found_message(key: &str) -> (m: String)
    ensures
        m@ == spec_note_not_found(key@),
{
    let mut m = String::from_str("Note '");
    m.append(key);
    m.append("' not found");
    m
}

/// Passes when a note with the key was found, else gives the 404 text for it.
pub fn require_note(access: &NotesAccess, found: bool, key: &str) -> (r: Result<(), String>)
    ensures
        found ==> r is Ok,
        !found ==> (r matches Err(m) && m@ == spec_note_not_found(key@)),
{
    if found {
        Ok(())
    } else {
        Err(note_not_found_message(key))
    }
}

/// The notes table: each key's value, creation time and update time. A key holds at most
/// one note (the notes table's `key` column is `UNIQUE`).
pub type NotesTable = Map<Seq<char>, (Seq<char>, Seq<char>, Seq<char>)>;

/// What the writing statements of this module do to the notes table, with their values
/// bound in order. An update changes the value and the update time of an existing note; an
/// insertion adds a note whose key is not yet used; a deletion removes the note.
pub open spec fn spec_run_note_statement(table: NotesTable, sql: Seq<char>, params: Seq<Seq<char>>) -> NotesTable {
    if sql == UPDATE_NOTE_SQL@ && params.len() == 3 {
        if table.contains_key(params[2]) {
            table.insert(params[2], (params[0], table[params[2]].1, params[1]))
        } else {
            table
        }
    } else if sql == INSERT_NOTE_SQL@ && params.len() == 4 {
        if table.contains_key(params[0]) {
            table
        } else {
            table.insert(params[0], (params[1], params[2], params[3]))
        }
    } else if sql == DELETE_NOTE_SQL@ && params.len() == 1 {
        table.remove(params[0])
    } else {
        table
    }
}

/// The rows that the keyed queries of this module read from the notes table: the note's key,
/// value and times for the read of one note, its key for the existence check.
pub open spec fn spec_query_notes(table: NotesTable, sql: Seq<char>, params: Seq<Seq<char>>) -> Seq<Seq<Seq<char>>> {
    if params.len() == 1 && table.contains_key(params[0]) {
        if sql == GET_NOTE_SQL@ {
            seq![seq![params[0], table[params[0]].0, table[params[0]].1, table[params[0]].2]]
        } else if sql == NOTE_EXISTS_SQL@ {
            seq![seq![params[0]]]
        } else {
            Seq::empty()
        }
    } else {
        Seq::empty()
    }
}

proof fn lemma_statements_differ()
    ensures
        UPDATE_NOTE_SQL@ != INSERT_NOTE_SQL@,
        UPDATE_NOTE_SQL@ != DELETE_NOTE_SQL@,
        INSERT_NOTE_SQL@ != DELETE_NOTE_SQL@,
{
    reveal_strlit("UPDATE notes SET value = ?, update_at = ? WHERE key = ?");
    reveal_strlit("INSERT INTO notes (key, value, create_at, update_at) VALUES (?, ?, ?, ?)");
    reveal_strlit("DELETE FROM notes WHERE key = ?");
    assert(UPDATE_NOTE_SQL@[0] == 'U');
    assert(INSERT_NOTE_SQL@[0] == 'I');
    assert(DELETE_NOTE_SQL@[0] == 'D');
}

/// Law: the existence check finds a row exactly when the table holds a note under the key.
pub proof fn law_exists_check(table: NotesTable, key: Seq<char>)
    ensures
        (spec_query_notes(table, NOTE_EXISTS_SQL@, seq![key]).len() > 0) == table.contains_key(key),
{
}

/// Law: a read gives back what a write stored. Storing `value` under `key` at time `now`
/// (with the existence check made on the same table) makes the read of `key` return one row
/// with that key, value and update time, keeping the creation time of a note that was there
/// (else `now`), and leaves every other note as it was.
pub proof fn law_write_then_read(table: NotesTable, key: Seq<char>, value: Seq<char>, now: Seq<char>)
    ensures
        ({
            let exists = spec_query_notes(table, NOTE_EXISTS_SQL@, seq![key]).len() > 0;
            let (sql, params) = spec_note_write(exists, key, value, now);
            let after = spec_run_note_statement(table, sql, params);
            let created = if table.contains_key(key) { table[key].1 } else { now };
            &&& spec_query_notes(after, GET_NOTE_SQL@, seq![key]) == seq![seq![key, value, created, now]]
            &&& after.remove(key) == table.remove(key)
        }),
{
    lemma_statements_differ();
    let exists = spec_query_notes(table, NOTE_EXISTS_SQL@, seq![key]).len() > 0;
    assert(exists == table.contains_key(key));
    let (sql, params) = spec_note_write(exists, key, value, now);
    let after = spec_run_note_statement(table, sql, params);
    assert(after.remove(key) =~= table.remove(key));
}

/// Law: after a deletion the read of the key finds nothing, and every other note is as it was.
pub proof fn law_delete_then_absent(table: NotesTable, key: Seq<char>)
    ensures
        spec_query_notes(spec_run_note_statement(table, DELETE_NOTE_SQL@, seq![key]), GET_NOTE_SQL@, seq![key]).len() == 0,
        spec_run_note_statement(table, DELETE_NOTE_SQL@, seq![key]).remove(key) == table.remove(key),
{
    lemma_statements_differ();
    assert(spec_run_note_statement(table, DELETE_NOTE_SQL@, seq![key]).remove(key) =~= table.remove(key));
}

/// What a request to write a note leads to: refused, with the notes table unchanged, unless
/// the request carries the configured key; else the planned write.
pub open spec fn spec_write_request(
    secret: Option<String>,
    header: HeaderLookup,
    table: NotesTable,
    key: Seq<char>,
    value: Seq<char>,
    now: Seq<char>,
) -> (Result<(), AuthError>, NotesTable) {
    match spec_check(secret, header) {
        Err(e) => (Err(e), table),
        Ok(()) => {
            let (sql, params) = spec_note_write(table.contains_key(key), key, value, now);
            (Ok(()), spec_run_note_statement(table, sql, params))
        },
    }
}

/// What a request to delete a note leads to: refused, with the table unchanged, unless the
/// request carries the configured key; else the deletion.
pub open spec fn spec_delete_request(secret: Option<String>, header: HeaderLookup, table: NotesTable, key: Seq<char>) -> (
    Result<(), AuthError>,
    NotesTable,
) {
    match spec_check(secret, header) {
        Err(e) => (Err(e), table),
        Ok(()) => (Ok(()), spec_run_note_statement(table, DELETE_NOTE_SQL@, seq![key])),
    }
}

/// Law: every notes request (list, read, write, delete) passes exactly when a non-empty key is
/// configured and the request's header holds it; a write or a deletion that is refused leaves
/// the notes table as it was.
pub proof fn law_notes_need_the_key(
    secret: Option<String>,
    header: HeaderLookup,
    table: NotesTable,
    key: Seq<char>,
    value: Seq<char>,
    now: Seq<char>,
)
    ensures
        spec_check(secret, header) is Ok <==> (spec_auth_enabled(secret) && header_holds(header, secret->0@)),
        spec_check(secret, header) is Err ==> spec_write_request(secret, header, table, key, value, now).1 == table,
        spec_check(secret, header) is Err ==> spec_delete_request(secret, header, table, key).1 == table,
        spec_write_request(secret, header, table, key, value, now).0 == spec_check(secret, header),
        spec_delete_request(secret, header, table, key).0 == spec_check(secret, header),
{
}


/// Law: the 404 text for a missing note names its key between quotes: `Note '<key>' not found`.
pub proof fn law_not_found_names_the_key(key: Seq<char>)
    ensures
        spec_note_not_found(key) == "Note '"@ + key + "' not found"@,
{
}

} // verus!
