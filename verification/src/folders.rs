//! Paging through the folders recorded by the background service.
//!
//! `GET /winforge/folders?per_page=N[&last_id=K]` returns at most `N` folders
//! whose id is greater than `K`, in ascending id order. This module checks the
//! parameters and names the errors; the query runs against the database.

use vstd::prelude::*;

verus! {

/// The largest page the service returns.
pub const MAX_FOLDERS_PER_PAGE: usize = 100;

/// HTTP 400.
pub const STATUS_BAD_REQUEST: u16 = 400;
/// HTTP 500.
pub const STATUS_INTERNAL_SERVER_ERROR: u16 = 500;
/// HTTP 503.
pub const STATUS_SERVICE_UNAVAILABLE: u16 = 503;

/// The query parameters of a folders request.
#[derive(Debug, Clone, Copy, PartialEq, Eq)]
pub struct Pagination {
    pub last_id: Option<i64>,
    pub per_page: usize,
}

/// The JSON body of an error answer.
#[derive(Debug, Clone, Copy, PartialEq, Eq)]
pub struct ErrorResponse {
    pub code: &'static str,
    pub message: &'static str,
}

/// An error answer: an HTTP status and its body.
#[derive(Debug, Clone, Copy, PartialEq, Eq)]
pub struct ApiError {
    pub status: u16,
    pub body: ErrorResponse,
}

/// The database query that a valid request asks for: the folders with an id
/// above `last_id` (all of them when it is absent), at most `limit` of them.
#[derive(Debug, Clone, Copy, PartialEq, Eq)]
pub struct FolderQuery {
    pub last_id: Option<i64>,
    pub limit: i64,
}

impl ApiError {
    pub open spec fn spec_new(status: u16, code: &'static str, message: &'static str) -> ApiError {
        ApiError { status, body: ErrorResponse { code, message } }
    }

    /// An error answer with the given status, code and message.
    pub fn new(status: u16, code: &'static str, message: &'static str) -> (e: Self)
        ensures
            e == ApiError::spec_new(status, code, message),
    {
        ApiError { status, body: ErrorResponse { code, message } }
    }
}

/// The answer to query parameters that are missing or not numbers.
pub open spec fn spec_invalid_pagination() -> ApiError {
    ApiError::spec_new(
        400,
        "INVALID_PAGINATION",
        "Expected a numeric per_page and an optional numeric last_id",
    )
}

/// The answer to a `per_page` outside `1..=100`.
pub open spec fn spec_invalid_per_page() -> ApiError {
    ApiError::spec_new(400, "INVALID_PER_PAGE", "per_page must be between 1 and 100")
}

/// The answer to a negative `last_id`.
pub open spec fn spec_invalid_last_id() -> ApiError {
    ApiError::spec_new(400, "INVALID_LAST_ID", "last_id must be zero or greater")
}

/// The answer when no database connection can be had.
pub open spec fn spec_database_unavailable() -> ApiError {
    ApiError::spec_new(503, "DATABASE_UNAVAILABLE", "The folder service is temporarily unavailable")
}

/// The answer when the database query fails.
pub open spec fn spec_database_error() -> ApiError {
    ApiError::spec_new(500, "DATABASE_ERROR", "Failed to retrieve folders")
}

/// What a folders request is answered, given its decoded parameters
/// (`None` when they could not be decoded).
pub open spec fn spec_folders_query(pagination: Option<Pagination>) -> Result<FolderQuery, ApiError> {
    match pagination {
        None => Err(spec_invalid_pagination()),
        Some(p) => if !(1 <= p.per_page && p.per_page <= MAX_FOLDERS_PER_PAGE) {
            Err(spec_invalid_per_page())
        } else if p.last_id matches Some(last_id) && last_id < 0 {
            Err(spec_invalid_last_id())
        } else {
            Ok(FolderQuery { last_id: p.last_id, limit: p.per_page as i64 })
        },
    }
}

/// The error for parameters that could not be decoded.
pub fn invalid_pagination() -> (e: ApiError)
    ensures
        e == spec_invalid_pagination(),
{
    ApiError::new(
        STATUS_BAD_REQUEST,
        "INVALID_PAGINATION",
        "Expected a numeric per_page and an optional numeric last_id",
    )
}

/// The error when no database connection can be had.
pub fn database_unavailable() -> (e: ApiError)
    ensures
        e == spec_database_unavailable(),
{
    ApiError::new(
        STATUS_SERVICE_UNAVAILABLE,
        "DATABASE_UNAVAILABLE",
        "The folder service is temporarily unavailable",
    )
}

/// The error when preparing, running or reading the query fails.
pub fn internal_database_error() -> (e: ApiError)
    ensures
        e == spec_database_error(),
{
    ApiError::new(STATUS_INTERNAL_SERVER_ERROR, "DATABASE_ERROR", "Failed to retrieve folders")
}

/// Checks the parameters of a folders request: `per_page` must lie in
/// `1..=100` (checked first), then `last_id`, when given, must not be negative.
pub fn folders_query(pagination: Option<Pagination>) -> (res: Result<FolderQuery, ApiError>)
    ensures
        res == spec_folders_query(pagination),
        res matches Ok(q) ==> 1 <= q.limit <= MAX_FOLDERS_PER_PAGE,
        res matches Ok(q) ==> (q.last_id matches Some(last_id) ==> last_id >= 0),
        pagination is Some && 1 <= pagination->0.per_page <= 100 && (pagination->0.last_id is None || pagination->0.last_id->0 >= 0)
            ==> res == Ok::<FolderQuery, ApiError>(FolderQuery { last_id: pagination->0.last_id, limit: pagination->0.per_page as i64 }),
        pagination is Some && !(1 <= pagination->0.per_page <= 100) ==> (res matches Err(e) && e.status == 400
            && e.body.code@ == "INVALID_PER_PAGE"@),
        pagination is Some && 1 <= pagination->0.per_page <= 100 && (pagination->0.last_id is Some && pagination->0.last_id->0 < 0)
            ==> (res matches Err(e) && e.status == 400 && e.body.code@ == "INVALID_LAST_ID"@),
        pagination is None ==> (res matches Err(e) && e.status == 400 && e.body.code@ == "INVALID_PAGINATION"@),
{
    match pagination {
        None => Err(invalid_pagination()),
        Some(p) => {
            if !(1 <= p.per_page && p.per_page <= MAX_FOLDERS_PER_PAGE) {
                Err(ApiError::new(
                    STATUS_BAD_REQUEST,
                    "INVALID_PER_PAGE",
                    "per_page must be between 1 and 100",
                ))
            } else if p.last_id.is_some() && p.last_id.unwrap() < 0 {
                Err(ApiError::new(
                    STATUS_BAD_REQUEST,
                    "INVALID_LAST_ID",
                    "last_id must be zero or greater",
                ))
            } else {
                Ok(FolderQuery { last_id: p.last_id, limit: p.per_page as i64 })
            }
        },
    }
}

/// The rules of a folders request, over all parameters: a `per_page` in
/// `1..=100` with no `last_id` or a `last_id` of zero or more is always
/// accepted as asked; a `per_page` outside `1..=100` is refused with
/// `INVALID_PER_PAGE`; otherwise a negative `last_id` is refused with
/// `INVALID_LAST_ID`; and undecodable parameters with `INVALID_PAGINATION`.
pub proof fn lemma_folders_query_rules(pagination: Option<Pagination>)
    ensures
        pagination is Some && 1 <= pagination->0.per_page <= 100 && (pagination->0.last_id is None || pagination->0.last_id->0 >= 0)
            ==> spec_folders_query(pagination) == Ok::<FolderQuery, ApiError>(
            FolderQuery { last_id: pagination->0.last_id, limit: pagination->0.per_page as i64 },
        ),
        pagination is Some && !(1 <= pagination->0.per_page <= 100) ==> (spec_folders_query(pagination) matches Err(e)
            && e.status == 400 && e.body.code@ == "INVALID_PER_PAGE"@),
        pagination is Some && 1 <= pagination->0.per_page <= 100 && (pagination->0.last_id is Some && pagination->0.last_id->0 < 0) ==> (
        spec_folders_query(pagination) matches Err(e) && e.status == 400 && e.body.code@ == "INVALID_LAST_ID"@),
        pagination is None ==> (spec_folders_query(pagination) matches Err(e) && e.status == 400
            && e.body.code@ == "INVALID_PAGINATION"@),
{
}

} // verus!
