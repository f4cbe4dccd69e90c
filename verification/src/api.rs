use vstd::prelude::*;

use crate::number::{law_parse_decimal_roundtrip, parse_i64, signed_decimal_digits, spec_parse_i64};
use crate::text::{chars_equal_str, chars_of, ends_with, spec_ends_with, spec_strip_prefix, strip_prefix};

verus! {

/// The worker that the gateway forwards to when none is configured.
pub const DEFAULT_WORKER_URL: &'static str = "https://nullith-worker.shedrackgodstime.workers.dev";

/// The body of the gateway's index.
pub const INDEX_BODY: &'static str = "Nullith API\n";

/// The body that confirms a write.
pub const STATUS_OK_BODY: &'static str = "{\"status\": \"ok\"}";

/// The body that confirms a deletion.
pub const STATUS_DELETED_BODY: &'static str = "{\"status\": \"deleted\"}";

/// The body of a 404 answer.
pub const NOT_FOUND_BODY: &'static str = "Not found";

/// The trash items that have not expired at the time bound first, newest first.
pub const LIST_TRASH_SQL: &'static str =
    "SELECT id, data_key, data_type, content, created_at, expires_at FROM trash WHERE expires_at > $1 ORDER BY created_at DESC";

/// Adds a trash item.
pub const INSERT_TRASH_SQL: &'static str =
    "INSERT INTO trash (data_key, data_type, content, created_at, expires_at) VALUES ($1, $2, $3, $4, $5)";

/// Removes a trash item by its id.
pub const DELETE_TRASH_SQL: &'static str = "DELETE FROM trash WHERE id = $1";

/// The newest hundred log entries.
pub const LIST_LOGS_SQL: &'static str =
    "SELECT id, level, message, created_at FROM logs ORDER BY created_at DESC LIMIT 100";

/// Adds a log entry.
pub const INSERT_LOG_SQL: &'static str =
    "INSERT INTO logs (level, message, created_at) VALUES ($1, $2, $3)";

/// The worker's address: the configured one, else the default.
pub fn worker_url(configured: Option<String>) -> (url: String)
    ensures
        match configured {
            Some(c) => url@ == c@,
            None => url@ == DEFAULT_WORKER_URL@,
        },
{
    match configured {
        Some(c) => c,
        None => String::from_str(DEFAULT_WORKER_URL),
    }
}

/// The text of the error for a setting `name` that is not set.
pub open spec fn spec_setting_missing(name: Seq<char>) -> Seq<char> {
    name + " not set"@
}

/// The value of the setting `name`, or the error `<name> not set`.
pub fn required_setting(value: Option<String>, name: &str) -> (r: Result<String, String>)
    ensures
        match value {
            Some(v) => (r matches Ok(rv) && rv@ == v@),
            None => (r matches Err(e) && e@ == spec_setting_missing(name@)),
        },
{
    match value {
        Some(v) => Ok(v),
        None => {
            let mut e = String::from_str(name);
            e.append(" not set");
            Err(e)
        },
    }
}

/// The address of a collection of the worker: `<base>/<resource>`.
pub fn worker_endpoint(base: &str, resource: &str) -> (url: String)
    ensures
        url@ == base@ + "/"@ + resource@,
{
    let mut url = String::from_str(base);
    url.append("/");
    url.append(resource);
    url
}

/// The address of one item of a collection of the worker: `<base>/<resource>/<item>`.
pub fn worker_item_endpoint(base: &str, resource: &str, item: &str) -> (url: String)
    ensures
        url@ == base@ + "/"@ + resource@ + "/"@ + item@,
{
    let mut url = worker_endpoint(base, resource);
    url.append("/");
    url.append(item);
    url
}

/// What a request to a collection endpoint asks for.
#[derive(Debug, Clone, Copy, PartialEq, Eq, Structural)]
pub enum CollectionAction {
    /// List the collection.
    List,
    /// Add an item to the collection.
    Add,
    /// Nothing that the endpoint serves.
    NotFound,
}

impl CollectionAction {
    /// The status code of a successful answer.
    pub open spec fn spec_status(self) -> u16 {
        match self {
            CollectionAction::List => 200,
            CollectionAction::Add => 201,
            CollectionAction::NotFound => 404,
        }
    }

    /// The status code of a successful answer: 200 for a list, 201 for an addition, 404 else.
    pub fn status(&self) -> (code: u16)
        ensures
            code == self.spec_status(),
    {
        match self {
            CollectionAction::List => 200,
            CollectionAction::Add => 201,
            CollectionAction::NotFound => 404,
        }
    }
}

/// A `GET` to a path that ends with the collection's name lists it, a `POST` adds to it;
/// anything else is not served.
pub open spec fn spec_collection_action(path: Seq<char>, method: Seq<char>, collection: Seq<char>) -> CollectionAction {
    if spec_ends_with(path, collection) && method == "GET"@ {
        CollectionAction::List
    } else if spec_ends_with(path, collection) && method == "POST"@ {
        CollectionAction::Add
    } else {
        CollectionAction::NotFound
    }
}

/// What a request with `method` to `path` asks of the collection named `collection`.
pub fn collection_action(path: &str, method: &str, collection: &str) -> (a: CollectionAction)
    ensures
        a == spec_collection_action(path@, method@, collection@),
{
    let m = chars_of(method);
    if ends_with(path, collection) && chars_equal_str(&m, "GET") {
        CollectionAction::List
    } else if ends_with(path, collection) && chars_equal_str(&m, "POST") {
        CollectionAction::Add
    } else {
        CollectionAction::NotFound
    }
}

/// What a request to the endpoint of one trash item asks for.
#[derive(Debug, Clone, Copy, PartialEq, Eq, Structural)]
pub enum TrashItemAction {
    /// Delete the item with this id.
    Delete(i64),
    /// Nothing that the endpoint serves.
    NotFound,
}

/// A `DELETE` deletes the item whose id follows `/trash/` (an id that does not parse, or a
/// path without that prefix, is refused); any other method is not served.
pub open spec fn spec_trash_item_action(method: Seq<char>, path: Seq<char>) -> Result<
    TrashItemAction,
    Seq<char>,
> {
    if method == "DELETE"@ {
        let id_text = match spec_strip_prefix(path, "/trash/"@) {
            Some(rest) => rest,
            None => Seq::empty(),
        };
        match spec_parse_i64(id_text) {
            Some(id) => Ok(TrashItemAction::Delete(id)),
            None => Err("Invalid ID"@),
        }
    } else {
        Ok(TrashItemAction::NotFound)
    }
}

/// What a request with `method` to `path` asks of one trash item; `Err("Invalid ID")` when
/// a deletion names no valid id.
pub fn trash_item_action(method: &str, path: &str) -> (r: Result<TrashItemAction, String>)
    ensures
        match spec_trash_item_action(method@, path@) {
            Ok(a) => r == Ok::<TrashItemAction, String>(a),
            Err(e) => (r matches Err(re) && re@ == e),
        },
{
    let m = chars_of(method);
    if chars_equal_str(&m, "DELETE") {
        let id_text = match strip_prefix(path, "/trash/") {
            Some(rest) => rest,
            None => String::new(),
        };
        match parse_i64(id_text.as_str()) {
            Some(id) => Ok(TrashItemAction::Delete(id)),
            None => Err(String::from_str("Invalid ID")),
        }
    } else {
        Ok(TrashItemAction::NotFound)
    }
}

/// Law: a deletion sent to the path of a trash item's id, written in decimal, deletes
/// exactly that item.
pub proof fn law_delete_trash_item_by_path(id: i64)
    ensures
        spec_trash_item_action("DELETE"@, "/trash/"@ + signed_decimal_digits(id as int)) == Ok::<
            TrashItemAction,
            Seq<char>,
        >(TrashItemAction::Delete(id)),
{
    let path = "/trash/"@ + signed_decimal_digits(id as int);
    assert(path.subrange(0, "/trash/"@.len() as int) =~= "/trash/"@);
    assert(path.subrange("/trash/"@.len() as int, path.len() as int) =~= signed_decimal_digits(id as int));
    law_parse_decimal_roundtrip(id);
}

/// Law: a collection endpoint serves at most the two methods it names, and only on paths that
/// end with the collection's name.
pub proof fn law_collection_served_only_on_its_path(path: Seq<char>, method: Seq<char>, collection: Seq<char>)
    ensures
        spec_collection_action(path, method, collection) != CollectionAction::NotFound ==> spec_ends_with(path, collection),
        spec_collection_action(path, method, collection) == CollectionAction::List ==> method == "GET"@,
        spec_collection_action(path, method, collection) == CollectionAction::Add ==> method == "POST"@,
{
}

/// The level of a log entry: the given one, else `info`.
pub fn log_level(level: Option<String>) -> (l: String)
    ensures
        match level {
            Some(v) => l@ == v@,
            None => l@ == "info"@,
        },
{
    match level {
        Some(v) => v,
        None => String::from_str("info"),
    }
}

/// The message of a log entry: the given one, else empty.
pub fn log_message(message: Option<String>) -> (m: String)
    ensures
        match message {
            Some(v) => m@ == v@,
            None => m@ == Seq::<char>::empty(),
        },
{
    match message {
        Some(v) => v,
        None => String::new(),
    }
}


/// Law: on a path that ends with the collection's name, a `GET` lists the collection, a
/// `POST` adds to it, and any other method is not served.
pub proof fn law_collection_methods(path: Seq<char>, method: Seq<char>, collection: Seq<char>)
    requires
        collection.len() <= path.len(),
        path.subrange(path.len() - collection.len(), path.len() as int) == collection,
    ensures
        method == "GET"@ ==> spec_collection_action(path, method, collection) == CollectionAction::List,
        method == "POST"@ ==> spec_collection_action(path, method, collection) == CollectionAction::Add,
        (method != "GET"@ && method != "POST"@) ==> spec_collection_action(path, method, collection)
            == CollectionAction::NotFound,
{
    reveal_strlit("GET");
    reveal_strlit("POST");
    assert("GET"@.len() == 3);
    assert("POST"@.len() == 4);
}

/// Law: a path that does not end with the collection's name is not served, whatever the method.
pub proof fn law_collection_other_paths(path: Seq<char>, method: Seq<char>, collection: Seq<char>)
    requires
        !(collection.len() <= path.len() && path.subrange(path.len() - collection.len(), path.len() as int)
            == collection),
    ensures
        spec_collection_action(path, method, collection) == CollectionAction::NotFound,
{
}

/// Law: only a `DELETE` deletes: any other method, on any path, is answered "not found"; and
/// a deletion's id is what the text after `/trash/` parses to.
pub proof fn law_only_delete_deletes(method: Seq<char>, path: Seq<char>)
    ensures
        method != "DELETE"@ ==> spec_trash_item_action(method, path) == Ok::<TrashItemAction, Seq<char>>(
            TrashItemAction::NotFound,
        ),
        spec_trash_item_action(method, path) matches Ok(TrashItemAction::Delete(id)) ==> method
            == "DELETE"@ && exists|rest: Seq<char>|
            path == "/trash/"@ + rest && spec_parse_i64(rest) == Some(id),
        spec_trash_item_action(method, path) is Err ==> method == "DELETE"@,
{
    if spec_trash_item_action(method, path) matches Ok(TrashItemAction::Delete(id)) {
        let rest = spec_strip_prefix(path, "/trash/"@)->0;
        assert(spec_strip_prefix(path, "/trash/"@) is Some) by {
            reveal_strlit("/trash/");
            if spec_strip_prefix(path, "/trash/"@) is None {
                assert(spec_parse_i64(Seq::<char>::empty()) is None);
            }
        }
        assert(path =~= "/trash/"@ + rest);
    }
}


/// Law: the error for an absent setting is the setting's name followed by ` not set`.
pub proof fn law_missing_setting_names_it(name: Seq<char>)
    ensures
        spec_setting_missing(name) == name + " not set"@,
{
}

} // verus!
