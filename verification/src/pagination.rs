//! Offset pagination of list endpoints.
use vstd::prelude::*;
use crate::error::{AppError, AppErrorView};

verus! {

pub const DEFAULT_OFFSET_PAGE_SIZE: i64 = 20;
pub const MAX_PAGE_SIZE: i64 = 100;

/// Page request: 1-based page number and page size, both optional.
#[derive(Debug, Default)]
pub struct OffsetPagination {
    pub page: Option<i64>,
    pub page_size: Option<i64>,
}

/// One page of a list together with the total number of items.
#[derive(Debug)]
pub struct OffsetPageResponse<T> {
    pub items: Vec<T>,
    pub page: i64,
    pub page_size: i64,
    pub total: i64,
}

/// Page size actually used for a requested size (default, then capped).
pub open spec fn spec_page_size(page_size: Option<i64>) -> int {
    let size = match page_size { Some(s) => s as int, None => DEFAULT_OFFSET_PAGE_SIZE as int };
    if size > MAX_PAGE_SIZE { MAX_PAGE_SIZE as int } else { size }
}

/// Requested page number, 1 when absent.
pub open spec fn spec_page(page: Option<i64>) -> int {
    match page { Some(p) => p as int, None => 1 }
}

/// The offset of a valid page request fits into an `i64`.
pub open spec fn spec_offset_fits(input: OffsetPagination) -> bool {
    spec_page(input.page) >= 1 && spec_page_size(input.page_size) >= 1
        ==> (spec_page(input.page) - 1) * spec_page_size(input.page_size) <= i64::MAX
}

/// Validates a page request and returns `(page, page_size, offset)`.
///
/// The page defaults to 1 and must be positive; the size defaults to
/// `DEFAULT_OFFSET_PAGE_SIZE`, must be positive and is capped at `MAX_PAGE_SIZE`.
pub fn normalize_offset_page(input: &OffsetPagination) -> (res: Result<(i64, i64, i64), AppError>)
    requires
        spec_offset_fits(*input),
    ensures
        res is Ok <==> (spec_page(input.page) >= 1 && match input.page_size {
            Some(s) => s >= 1,
            None => true,
        }),
        res matches Ok((page, size, offset)) ==> {
            &&& page == spec_page(input.page)
            &&& size == spec_page_size(input.page_size)
            &&& offset == (page - 1) * size
        },
        res matches Err(e) ==> e@ == (if spec_page(input.page) < 1 {
            AppErrorView::BadRequest("page must be greater than 0"@)
        } else {
            AppErrorView::BadRequest("page_size must be greater than 0"@)
        }),
{
    let page = match input.page {
        Some(p) => p,
        None => 1,
    };
    if page < 1 {
        return Err(AppError::bad_request("page must be greater than 0"));
    }
    let page_size = normalize_limit(input.page_size, DEFAULT_OFFSET_PAGE_SIZE)?;
    assert((page - 1) * page_size <= i64::MAX);
    assert(0 <= (page - 1) * page_size) by (nonlinear_arith)
        requires
            page >= 1,
            page_size >= 1,
    ;
    Ok((page, page_size, (page - 1) * page_size))
}

/// Applies the default to a requested limit, rejects non-positive limits and caps the
/// result at `MAX_PAGE_SIZE`.
fn normalize_limit(value: Option<i64>, default: i64) -> (res: Result<i64, AppError>)
    ensures
        ({
            let limit = match value { Some(v) => v, None => default };
            &&& res is Ok <==> limit >= 1
            &&& res matches Ok(l) ==> l == (if limit > MAX_PAGE_SIZE { MAX_PAGE_SIZE } else { limit })
            &&& res matches Err(e) ==> e@ == AppErrorView::BadRequest("page_size must be greater than 0"@)
        }),
{
    let limit = match value {
        Some(v) => v,
        None => default,
    };
    if limit < 1 {
        return Err(AppError::bad_request("page_size must be greater than 0"));
    }
    Ok(if limit > MAX_PAGE_SIZE { MAX_PAGE_SIZE } else { limit })
}

} // verus!
