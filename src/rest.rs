//! The REST adapter's decisions: which status and which `{success, data,
//! message}` body each grid operation answers with. Routing, the lock around
//! the store and JSON encoding are left to the HTTP server.

use vstd::prelude::*;
use crate::errors::{code_message, ErrorCode};
use crate::grid::{
    has_id, max_id, new_item, patched, CreateGridItem, GridItem, GridStore, UpdateGridItem,
};

verus! {

/// A grid item as the API returns it.
#[derive(Debug)]
pub struct GridItemResponse {
    pub id: u64,
    pub name: String,
    pub description: String,
    pub x: i32,
    pub y: i32,
}

/// The body of every grid response.
#[derive(Debug)]
pub struct ApiResponse<T> {
    pub success: bool,
    pub data: Option<T>,
    pub message: String,
}

/// The body of a health check.
#[derive(Debug)]
pub struct HealthResponse {
    pub status: String,
    pub message: String,
    pub timestamp: u64,
}

pub open spec fn list_ok_message() -> Seq<char> {
    "获取网格项列表成功"@
}

pub open spec fn get_ok_message() -> Seq<char> {
    "获取网格项成功"@
}

pub open spec fn create_ok_message() -> Seq<char> {
    "Successfully created grid item"@
}

pub open spec fn update_ok_message() -> Seq<char> {
    "Successfully updated grid item"@
}

pub open spec fn delete_ok_message() -> Seq<char> {
    "Successfully deleted grid item"@
}

pub open spec fn not_found_message() -> Seq<char> {
    "Specified grid item not found"@
}

/// The API form of a stored record: the same five fields.
pub open spec fn as_response(it: GridItem) -> GridItemResponse {
    GridItemResponse { id: it.id, name: it.name, description: it.description, x: it.x, y: it.y }
}

/// The API form of a stored record.
pub fn to_response(it: &GridItem) -> (r: GridItemResponse)
    ensures
        r == as_response(*it),
{
    GridItemResponse {
        id: it.id,
        name: it.name.clone(),
        description: it.description.clone(),
        x: it.x,
        y: it.y,
    }
}

/// `GET /grid`: every record, always successful.
pub fn list(store: &GridStore) -> (r: ApiResponse<Vec<GridItemResponse>>)
    ensures
        r.success,
        r.data matches Some(v) && v@ == store@.map_values(|it: GridItem| as_response(it)),
        r.message@ == list_ok_message(),
{
    let items = store.list();
    let mut out: Vec<GridItemResponse> = Vec::new();
    let mut i: usize = 0;
    while i < items.len()
        invariant
            i <= items@.len(),
            items@ == store@,
            out@ == items@.take(i as int).map_values(|it: GridItem| as_response(it)),
        decreases items@.len() - i,
    {
        out.push(to_response(&items[i]));
        i += 1;
        assert(out@ =~= items@.take(i as int).map_values(|it: GridItem| as_response(it)));
    }
    assert(items@.take(i as int) =~= items@);
    ApiResponse { success: true, data: Some(out), message: String::from_str("获取网格项列表成功") }
}

/// `GET /grid/{id}`: the record with `id`, or a failure when there is none.
pub fn get_by_id(store: &GridStore, id: u64) -> (r: ApiResponse<GridItemResponse>)
    ensures
        r.success == has_id(store@, id),
        r.data is Some == r.success,
        r.data matches Some(d) ==> d.id == id && exists|i: int|
            #![trigger store@[i]]
            0 <= i < store@.len() && d == as_response(store@[i]),
        r.success ==> r.message@ == get_ok_message(),
        !r.success ==> r.message@ == not_found_message(),
{
    match store.get(id) {
        Some(it) => ApiResponse {
            success: true,
            data: Some(to_response(&it)),
            message: String::from_str("获取网格项成功"),
        },
        None => ApiResponse {
            success: false,
            data: None,
            message: String::from_str("Specified grid item not found"),
        },
    }
}

/// `POST /grid`: 201 with the new record; 500 when no id is left.
pub fn create(store: &mut GridStore, payload: CreateGridItem) -> (r: (
    u16,
    ApiResponse<GridItemResponse>,
))
    requires
        old(store).wf(),
    ensures
        final(store).wf(),
        r.1.success <==> max_id(old(store)@) < u64::MAX,
        r.1.success ==> r.0 == 201 && r.1.message@ == create_ok_message() && r.1.data == Some(
            as_response(new_item(old(store)@, payload)),
        ) && final(store)@ == old(store)@.push(new_item(old(store)@, payload)),
        !r.1.success ==> r.0 == 500 && r.1.data is None && r.1.message@ == code_message(
            ErrorCode::GridItemCreationFailed,
        ) && final(store)@ == old(store)@,
{
    match store.create(payload) {
        Ok(it) => (
            201,
            ApiResponse {
                success: true,
                data: Some(to_response(&it)),
                message: String::from_str("Successfully created grid item"),
            },
        ),
        Err(e) => {
            let info = e.error_info();
            (e.http_status(), ApiResponse { success: false, data: None, message: info.message })
        },
    }
}

/// `PUT /grid/{id}`: 200 with the patched record, or 404.
pub fn update(store: &mut GridStore, id: u64, payload: UpdateGridItem) -> (r: (
    u16,
    ApiResponse<GridItemResponse>,
))
    requires
        old(store).wf(),
    ensures
        final(store).wf(),
        r.1.success == has_id(old(store)@, id),
        r.1.success ==> r.0 == 200 && r.1.message@ == update_ok_message(),
        r.1.data matches Some(d) ==> exists|i: int|
            #![trigger old(store)@[i]]
            0 <= i < old(store)@.len() && old(store)@[i].id == id && d == as_response(
                patched(old(store)@[i], payload),
            ) && final(store)@ == old(store)@.update(i, patched(old(store)@[i], payload)),
        r.1.data is Some == r.1.success,
        !r.1.success ==> r.0 == 404 && r.1.message@ == not_found_message() && final(store)@ == old(
            store,
        )@,
{
    match store.update(id, payload) {
        Some(it) => (
            200,
            ApiResponse {
                success: true,
                data: Some(to_response(&it)),
                message: String::from_str("Successfully updated grid item"),
            },
        ),
        None => (
            404,
            ApiResponse {
                success: false,
                data: None,
                message: String::from_str("Specified grid item not found"),
            },
        ),
    }
}

/// `DELETE /grid/{id}`: success when a record was removed.
pub fn delete_by_id(store: &mut GridStore, id: u64) -> (r: ApiResponse<()>)
    requires
        old(store).wf(),
    ensures
        final(store).wf(),
        r.success == has_id(old(store)@, id),
        !has_id(final(store)@, id),
        r.data is Some == r.success,
        r.success ==> r.message@ == delete_ok_message() && exists|i: int|
            #![trigger old(store)@[i]]
            0 <= i < old(store)@.len() && old(store)@[i].id == id && final(store)@ == old(
                store,
            )@.remove(i),
        !r.success ==> r.message@ == not_found_message() && final(store)@ == old(store)@,
{
    if store.delete(id) {
        ApiResponse {
            success: true,
            data: Some(()),
            message: String::from_str("Successfully deleted grid item"),
        }
    } else {
        ApiResponse {
            success: false,
            data: None,
            message: String::from_str("Specified grid item not found"),
        }
    }
}

/// `GET /health`: always healthy, stamped with `timestamp` (seconds since
/// the Unix epoch).
pub fn health_check(timestamp: u64) -> (r: HealthResponse)
    ensures
        r.status@ == "healthy"@,
        r.message@ == "Server is running normally"@,
        r.timestamp == timestamp,
{
    HealthResponse {
        status: String::from_str("healthy"),
        message: String::from_str("Server is running normally"),
        timestamp,
    }
}

} // verus!
