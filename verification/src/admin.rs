//! Rules of the administration back office: login, product definitions, inventory,
//! announcement and order remarks.
use vstd::prelude::*;
use vstd::string::*;
use crate::codec::{parse_uuid, spec_parse_uuid};
use crate::domain::ProductStatus;
use crate::error::{AppError, AppErrorView, DbError};
use crate::pagination::{OffsetPagination, normalize_offset_page, spec_offset_fits, spec_page, spec_page_size};
use crate::security::{spec_admin_key_matches, verify_admin_key};
use crate::text::{push_char, spec_trim, str_eq, strings_view, trim};

verus! {

/// Login request of the back office: the deployment's administrator key.
#[derive(Debug)]
pub struct AdminLoginRequest {
    pub admin_key: String,
}

/// Whether the current session is an authenticated administrator session.
#[derive(Debug)]
pub struct AdminSessionResponse {
    pub authenticated: bool,
}

/// Checks a login against the configured administrator key. On success the caller
/// rotates the session id and marks the session authenticated; on failure it clears the
/// session, so that a stale or planted cookie keeps no administrator identity.
pub fn login(request: &AdminLoginRequest, admin_key: &str) -> (res: Result<AdminSessionResponse, AppError>)
    ensures
        spec_admin_key_matches(request.admin_key@, admin_key@) ==> (res matches Ok(r)
            && r.authenticated),
        !spec_admin_key_matches(request.admin_key@, admin_key@) ==> (res matches Err(e) && e@
            == AppErrorView::Unauthorized),
{
    if !verify_admin_key(request.admin_key.as_str(), admin_key) {
        return Err(AppError::Unauthorized);
    }
    Ok(AdminSessionResponse { authenticated: true })
}

/// Every back-office action but login needs an authenticated administrator session.
pub fn require_admin(is_admin_session: bool) -> (res: Result<(), AppError>)
    ensures
        is_admin_session ==> res is Ok,
        !is_admin_session ==> (res matches Err(e) && e@ == AppErrorView::Unauthorized),
{
    if is_admin_session {
        Ok(())
    } else {
        Err(AppError::Unauthorized)
    }
}

/// Fewest characters an inventory content keeps once trimmed. The database enforces the
/// same bound; both count characters, not UTF-8 bytes.
pub const MIN_PRODUCT_CONTENT_CHARS: usize = 4;

/// The back office sees at most this many characters of an inventory content: its end.
pub const PRODUCT_CONTENT_VISIBLE_CHARS: usize = 4;

/// Most characters of an order remark.
pub const MAX_ORDER_REMARK_CHARS: usize = 1000;

/// Most characters of the storefront announcement.
pub const MAX_ANNOUNCEMENT_CHARS: usize = 10_000;

/// The characters of an inventory content that the back office may see: its last
/// `PRODUCT_CONTENT_VISIBLE_CHARS` characters (all of a shorter content).
pub open spec fn spec_visible_tail(content: Seq<char>) -> Seq<char> {
    if content.len() > PRODUCT_CONTENT_VISIBLE_CHARS {
        content.skip(content.len() - PRODUCT_CONTENT_VISIBLE_CHARS)
    } else {
        content
    }
}

/// What the back office shows of an inventory content: four stars, which hide the
/// beginning and the length, then only its last four characters.
pub open spec fn spec_mask(content: Seq<char>) -> Seq<char> {
    seq!['*', '*', '*', '*'] + spec_visible_tail(content)
}

/// Masks an inventory content for the back office; the full card secret never reaches
/// the browser.
pub fn mask_product_content(content: &str) -> (masked: String)
    ensures
        masked@ == spec_mask(content@),
{
    let n = content.unicode_len();
    let start = if n > PRODUCT_CONTENT_VISIBLE_CHARS {
        n - PRODUCT_CONTENT_VISIBLE_CHARS
    } else {
        0
    };
    let mut masked = String::new();
    push_char(&mut masked, '*');
    push_char(&mut masked, '*');
    push_char(&mut masked, '*');
    push_char(&mut masked, '*');
    masked.append(content.substring_char(start, n));
    assert(content@.subrange(start as int, n as int) =~= spec_visible_tail(content@));
    assert(masked@ =~= spec_mask(content@));
    masked
}

/// A mask shows only the end of a content: after the four stars come at most its last
/// four characters, and nothing before them. A content of more than four characters is
/// never shown whole.
pub proof fn lemma_mask_shows_only_the_end(content: Seq<char>)
    ensures
        spec_mask(content).take(4) == seq!['*', '*', '*', '*'],
        spec_mask(content).skip(4).len() <= PRODUCT_CONTENT_VISIBLE_CHARS,
        content.len() >= spec_mask(content).skip(4).len(),
        spec_mask(content).skip(4) == content.skip(content.len() - spec_mask(content).skip(4).len()),
        content.len() > PRODUCT_CONTENT_VISIBLE_CHARS ==> spec_mask(content).skip(4).len() < content.len(),
{
    assert(spec_mask(content).take(4) =~= seq!['*', '*', '*', '*']);
    assert(spec_mask(content).skip(4) =~= spec_visible_tail(content));
    assert(content.skip(0) =~= content);
}

/// The announcement to store (trimmed), or the reason it is refused.
pub open spec fn spec_announcement(announcement: Seq<char>) -> Result<Seq<char>, Seq<char>> {
    let t = spec_trim(announcement);
    if t.len() > MAX_ANNOUNCEMENT_CHARS {
        Err("公告内容不能超过 10000 个字符"@)
    } else {
        Ok(t)
    }
}

/// Checks a new announcement: trimmed, at most `MAX_ANNOUNCEMENT_CHARS` characters; an
/// empty announcement clears it.
pub fn validate_announcement(announcement: &str) -> (res: Result<String, AppError>)
    ensures
        match spec_announcement(announcement@) {
            Ok(t) => res matches Ok(r) && r@ == t,
            Err(m) => res matches Err(e) && e@ == AppErrorView::BadRequest(m),
        },
{
    let t = trim(announcement);
    if t.unicode_len() > MAX_ANNOUNCEMENT_CHARS {
        return Err(AppError::bad_request("公告内容不能超过 10000 个字符"));
    }
    Ok(String::from_str(t))
}

/// The order remark to store (trimmed, inner line breaks kept), or the reason it is
/// refused.
pub open spec fn spec_order_remark(remark: Seq<char>) -> Result<Seq<char>, Seq<char>> {
    let t = spec_trim(remark);
    if t.len() > MAX_ORDER_REMARK_CHARS {
        Err("备注不能超过 1000 个字符"@)
    } else {
        Ok(t)
    }
}

/// Checks an administrator's internal remark on an order.
pub fn validate_order_remark(remark: &str) -> (res: Result<String, AppError>)
    ensures
        match spec_order_remark(remark@) {
            Ok(t) => res matches Ok(r) && r@ == t,
            Err(m) => res matches Err(e) && e@ == AppErrorView::BadRequest(m),
        },
{
    let t = trim(remark);
    if t.unicode_len() > MAX_ORDER_REMARK_CHARS {
        return Err(AppError::bad_request("备注不能超过 1000 个字符"));
    }
    Ok(String::from_str(t))
}

/// The remark update found its order, or the order does not exist.
pub fn remark_update_result(updated: Option<(u128, String)>) -> (res: Result<(u128, String), AppError>)
    ensures
        updated is None ==> (res matches Err(e) && e@ == AppErrorView::NotFound("order not found"@)),
        updated is Some ==> res == Ok::<(u128, String), AppError>(updated->0),
{
    match updated {
        Some(u) => Ok(u),
        None => Err(AppError::not_found("order not found")),
    }
}

/// Checks of a product definition: a name that is not blank and a price that is not
/// negative.
pub open spec fn spec_product_info_check(name: Seq<char>, price_cents: i64) -> Result<(), Seq<char>> {
    if spec_trim(name).len() == 0 {
        Err("name is required"@)
    } else if price_cents < 0 {
        Err("price_cents must be greater than or equal to 0"@)
    } else {
        Ok(())
    }
}

/// Checks a product definition.
pub fn validate_product_info(name: &str, price_cents: i64) -> (res: Result<(), AppError>)
    ensures
        match spec_product_info_check(name@, price_cents) {
            Ok(()) => res is Ok,
            Err(m) => res matches Err(e) && e@ == AppErrorView::BadRequest(m),
        },
{
    if trim(name).unicode_len() == 0 {
        return Err(AppError::bad_request("name is required"));
    }
    if price_cents < 0 {
        return Err(AppError::bad_request("price_cents must be greater than or equal to 0"));
    }
    Ok(())
}

/// A new product definition.
#[derive(Debug, Clone)]
pub struct CreateProductInfoRequest {
    pub image_base64: Option<String>,
    pub name: String,
    pub details: Option<String>,
    pub price_cents: i64,
    pub active: Option<bool>,
}

/// New values of a product definition.
#[derive(Debug, Clone)]
pub struct UpdateProductInfoRequest {
    pub image_base64: Option<String>,
    pub name: String,
    pub details: Option<String>,
    pub price_cents: i64,
}

/// The stored values of a product definition.
#[derive(Debug, Clone)]
pub struct ProductInfoValues {
    pub image_base64: Option<String>,
    pub name: String,
    pub details: String,
    pub price_cents: i64,
    pub active: bool,
}

/// The details to store: trimmed, empty when absent.
pub open spec fn spec_details(details: Option<String>) -> Seq<char> {
    match details {
        Some(d) => spec_trim(d@),
        None => Seq::empty(),
    }
}

fn normalized_details(details: &Option<String>) -> (d: String)
    ensures
        d@ == spec_details(*details),
{
    match details {
        Some(d) => String::from_str(trim(d.as_str())),
        None => String::new(),
    }
}

/// The values a new product definition is stored with: trimmed name and details, and
/// on sale unless the request says otherwise.
pub fn create_product_info_values(request: &CreateProductInfoRequest) -> (res: Result<
    ProductInfoValues,
    AppError,
>)
    ensures
        match spec_product_info_check(request.name@, request.price_cents) {
            Err(m) => res matches Err(e) && e@ == AppErrorView::BadRequest(m),
            Ok(()) => res matches Ok(v) && {
                &&& v.image_base64 == request.image_base64
                &&& v.name@ == spec_trim(request.name@)
                &&& v.details@ == spec_details(request.details)
                &&& v.price_cents == request.price_cents
                &&& v.active == request.active.unwrap_or(true)
            },
        },
{
    validate_product_info(request.name.as_str(), request.price_cents)?;
    Ok(
        ProductInfoValues {
            image_base64: request.image_base64.clone(),
            name: String::from_str(trim(request.name.as_str())),
            details: normalized_details(&request.details),
            price_cents: request.price_cents,
            active: match request.active {
                Some(a) => a,
                None => true,
            },
        },
    )
}

/// The values an edit of a product definition sets, in one statement: image, trimmed
/// name and details, and price. Orders keep the name and price they were placed with.
pub fn update_product_info_values(request: &UpdateProductInfoRequest) -> (res: Result<
    (Option<String>, String, String, i64),
    AppError,
>)
    ensures
        match spec_product_info_check(request.name@, request.price_cents) {
            Err(m) => res matches Err(e) && e@ == AppErrorView::BadRequest(m),
            Ok(()) => res matches Ok((image, name, details, price)) && {
                &&& image == request.image_base64
                &&& name@ == spec_trim(request.name@)
                &&& details@ == spec_details(request.details)
                &&& price == request.price_cents
            },
        },
{
    validate_product_info(request.name.as_str(), request.price_cents)?;
    Ok(
        (
            request.image_base64.clone(),
            String::from_str(trim(request.name.as_str())),
            normalized_details(&request.details),
            request.price_cents,
        ),
    )
}

/// How a write of a product definition failed.
#[derive(Debug)]
pub enum ProductInfoWriteFailure {
    /// A unique constraint refused the row; the constraint's name, when known.
    UniqueViolation { constraint: Option<String> },
    /// No row has the id.
    NotFound,
    /// Any other database failure, with its description.
    Other(String),
}

/// A duplicate product name is a conflict the administrator can act on; the database's
/// unique constraint decides it, so concurrent writes cannot both pass. Other failures
/// stay database errors.
pub fn product_info_write_error(failure: ProductInfoWriteFailure) -> (e: AppError)
    ensures
        match failure {
            ProductInfoWriteFailure::UniqueViolation { constraint: Some(c) } => if c@
                == "product_info_name_unique"@ {
                e@ == AppErrorView::Conflict("商品名称已存在"@)
            } else {
                e@ == AppErrorView::DatabaseOther
            },
            ProductInfoWriteFailure::UniqueViolation { constraint: None } => e@
                == AppErrorView::DatabaseOther,
            ProductInfoWriteFailure::NotFound => e@ == AppErrorView::DatabaseNotFound,
            ProductInfoWriteFailure::Other(_) => e@ == AppErrorView::DatabaseOther,
        },
{
    match failure {
        ProductInfoWriteFailure::UniqueViolation { constraint } => {
            match constraint {
                Some(c) => {
                    if str_eq(c.as_str(), "product_info_name_unique") {
                        AppError::conflict("商品名称已存在")
                    } else {
                        AppError::Database(DbError::Other(c))
                    }
                },
                None => AppError::Database(DbError::Other(String::from_str("unique violation"))),
            }
        },
        ProductInfoWriteFailure::NotFound => AppError::Database(DbError::NotFound),
        ProductInfoWriteFailure::Other(m) => AppError::Database(DbError::Other(m)),
    }
}

/// The trimmed, non-blank contents of a restock request, in order.
pub open spec fn spec_nonblank(items: Seq<Seq<char>>) -> Seq<Seq<char>>
    decreases items.len(),
{
    if items.len() == 0 {
        Seq::empty()
    } else {
        let prev = spec_nonblank(items.drop_last());
        let t = spec_trim(items.last());
        if t.len() > 0 {
            prev.push(t)
        } else {
            prev
        }
    }
}

/// Every content is long enough.
pub open spec fn spec_all_long_enough(contents: Seq<Seq<char>>) -> bool {
    forall|i: int| 0 <= i < contents.len() ==> (#[trigger] contents[i]).len() >= MIN_PRODUCT_CONTENT_CHARS
}

/// The inventory contents of a restock request: each item trimmed (items are already
/// split; line breaks inside an item are kept), blank items dropped. The request is
/// refused when nothing is left, and refused as a whole when any item is too short, so
/// that a batch is never stocked in part.
pub open spec fn spec_product_contents(items: Seq<Seq<char>>) -> Result<Seq<Seq<char>>, Seq<char>> {
    let contents = spec_nonblank(items);
    if contents.len() == 0 {
        Err("contents is required"@)
    } else if !spec_all_long_enough(contents) {
        Err("每条发货内容不得少于 4 位"@)
    } else {
        Ok(contents)
    }
}

/// Normalises and checks the contents of a restock request.
pub fn product_contents(items: &Vec<String>) -> (res: Result<Vec<String>, AppError>)
    ensures
        match spec_product_contents(strings_view(items@)) {
            Ok(c) => res matches Ok(r) && strings_view(r@) == c,
            Err(m) => res matches Err(e) && e@ == AppErrorView::BadRequest(m),
        },
{
    let ghost iv = strings_view(items@);
    let mut contents: Vec<String> = Vec::new();
    let mut i: usize = 0;
    assert(iv.take(0) =~= Seq::<Seq<char>>::empty());
    while i < items.len()
        invariant
            i <= items@.len(),
            iv == strings_view(items@),
            strings_view(contents@) == spec_nonblank(iv.take(i as int)),
        decreases items.len() - i,
    {
        let t = trim(items[i].as_str());
        proof {
            assert(iv.take(i + 1).drop_last() =~= iv.take(i as int));
            assert(iv.take(i + 1).last() == items@[i as int]@);
        }
        if t.unicode_len() > 0 {
            contents.push(String::from_str(t));
        }
        assert(strings_view(contents@) =~= spec_nonblank(iv.take(i + 1)));
        i = i + 1;
    }
    assert(iv.take(items@.len() as int) =~= iv);
    if contents.len() == 0 {
        return Err(AppError::bad_request("contents is required"));
    }
    let ghost cv = strings_view(contents@);
    assert(cv.len() == contents@.len());
    let mut k: usize = 0;
    while k < contents.len()
        invariant
            k <= contents@.len(),
            cv == strings_view(contents@),
            cv == spec_nonblank(strings_view(items@)),
            cv.len() > 0,
            forall|j: int| 0 <= j < k ==> (#[trigger] cv[j]).len() >= MIN_PRODUCT_CONTENT_CHARS,
        decreases contents.len() - k,
    {
        assert(cv[k as int] == contents@[k as int]@);
        if contents[k].as_str().unicode_len() < MIN_PRODUCT_CONTENT_CHARS {
            assert(!spec_all_long_enough(cv));
            return Err(AppError::bad_request("每条发货内容不得少于 4 位"));
        }
        k = k + 1;
    }
    Ok(contents)
}

/// The items with every repetition removed, first occurrences kept in their order.
pub open spec fn spec_dedup<T>(items: Seq<T>) -> Seq<T>
    decreases items.len(),
{
    if items.len() == 0 {
        Seq::empty()
    } else {
        let prev = spec_dedup(items.drop_last());
        if items.drop_last().contains(items.last()) {
            prev
        } else {
            prev.push(items.last())
        }
    }
}

/// No item occurs twice.
pub open spec fn spec_no_repeats<T>(items: Seq<T>) -> bool {
    forall|i: int, j: int| 0 <= i < j < items.len() ==> items[i] != items[j]
}

/// Removing repetitions leaves each item once and loses none.
pub proof fn lemma_dedup<T>(items: Seq<T>)
    ensures
        spec_no_repeats(spec_dedup(items)),
        forall|x: T| spec_dedup(items).contains(x) <==> items.contains(x),
        spec_dedup(items).len() <= items.len(),
    decreases items.len(),
{
    if items.len() > 0 {
        let p = items.drop_last();
        let x = items.last();
        lemma_dedup(p);
        let d = spec_dedup(p);
        assert forall|y: T| spec_dedup(items).contains(y) <==> items.contains(y) by {
            if items.contains(y) {
                let k = choose|k: int| 0 <= k < items.len() && items[k] == y;
                let r = spec_dedup(items);
                if k < items.len() - 1 {
                    assert(p[k] == y);
                    assert(p.contains(y));
                    assert(d.contains(y));
                    let m = choose|m: int| 0 <= m < d.len() && d[m] == y;
                    if !p.contains(x) {
                        assert(r[m] == y);
                    }
                    assert(r.contains(y));
                } else {
                    assert(y == x);
                    if p.contains(x) {
                        assert(d.contains(y));
                    } else {
                        assert(r[r.len() - 1] == y);
                    }
                    assert(r.contains(y));
                }
            }
            if spec_dedup(items).contains(y) {
                if d.contains(y) {
                    assert(p.contains(y));
                    let k = choose|k: int| 0 <= k < p.len() && p[k] == y;
                    assert(items[k] == y);
                } else {
                    let r = spec_dedup(items);
                    let k = choose|k: int| 0 <= k < r.len() && r[k] == y;
                    if !p.contains(x) && k < d.len() {
                        assert(d[k] == y);
                    }
                    assert(y == x);
                    assert(items[items.len() - 1] == y);
                }
            }
        }
        if !p.contains(x) {
            let r = d.push(x);
            assert forall|i: int, j: int| 0 <= i < j < r.len() implies r[i] != r[j] by {
                if j == r.len() - 1 {
                    assert(r[i] == d[i]);
                    assert(d.contains(d[i]));
                }
            }
        }
    }
}

/// Removes repeated contents, keeping the first of each in order; the database's unique
/// index on contents remains the final guard against concurrent imports.
pub fn dedup_contents(contents: &Vec<String>) -> (unique: Vec<String>)
    ensures
        strings_view(unique@) == spec_dedup(strings_view(contents@)),
{
    let ghost cv = strings_view(contents@);
    let mut unique: Vec<String> = Vec::new();
    let mut i: usize = 0;
    assert(cv.take(0) =~= Seq::<Seq<char>>::empty());
    while i < contents.len()
        invariant
            i <= contents@.len(),
            cv == strings_view(contents@),
            strings_view(unique@) == spec_dedup(cv.take(i as int)),
        decreases contents.len() - i,
    {
        let mut seen = false;
        let mut j: usize = 0;
        while j < i
            invariant
                i < contents@.len(),
                j <= i,
                cv == strings_view(contents@),
                seen == exists|k: int| 0 <= k < j && cv[k] == cv[i as int],
            decreases i - j,
        {
            if str_eq(contents[j].as_str(), contents[i].as_str()) {
                assert(cv[j as int] == cv[i as int]);
                seen = true;
            }
            j = j + 1;
        }
        proof {
            let p = cv.take(i + 1);
            assert(p.drop_last() =~= cv.take(i as int));
            assert(p.last() == cv[i as int]);
            if seen {
                let k = choose|k: int| 0 <= k < i && cv[k] == cv[i as int];
                assert(cv.take(i as int)[k] == cv[i as int]);
            } else {
                assert(!cv.take(i as int).contains(cv[i as int])) by {
                    if cv.take(i as int).contains(cv[i as int]) {
                        let k = choose|k: int| 0 <= k < i && cv.take(i as int)[k] == cv[i as int];
                        assert(cv[k] == cv[i as int]);
                    }
                }
            }
        }
        if !seen {
            unique.push(contents[i].clone());
        }
        assert(strings_view(unique@) =~= spec_dedup(cv.take(i + 1)));
        i = i + 1;
    }
    assert(cv.take(contents@.len() as int) =~= cv);
    unique
}

/// A restock request.
#[derive(Debug, Clone)]
pub struct CreateProductRequest {
    pub product_info_id: u128,
    pub contents: Vec<String>,
}

/// A new inventory item.
#[derive(Debug)]
pub struct NewProductRow {
    pub id: u128,
    pub product_info_id: u128,
    pub content: String,
    pub status: String,
}

/// The items a restock inserts, one available item per content with the given ids,
/// when the product definition exists. Restocking only adds available items; it never
/// fulfils older orders.
pub fn plan_restock(
    product_info_exists: bool,
    product_info_id: u128,
    contents: &Vec<String>,
    ids: &Vec<u128>,
) -> (res: Result<Vec<NewProductRow>, AppError>)
    requires
        ids@.len() == contents@.len(),
    ensures
        !product_info_exists ==> (res matches Err(e) && e@ == AppErrorView::NotFound(
            "product info not found"@,
        )),
        product_info_exists ==> (res matches Ok(rows) && rows@.len() == contents@.len() && forall|
            i: int,
        |
            0 <= i < rows@.len() ==> {
                &&& (#[trigger] rows@[i]).id == ids@[i]
                &&& rows@[i].product_info_id == product_info_id
                &&& rows@[i].content@ == contents@[i]@
                &&& rows@[i].status@ == ProductStatus::Available.spec_str()
            }),
{
    if !product_info_exists {
        return Err(AppError::not_found("product info not found"));
    }
    let mut rows: Vec<NewProductRow> = Vec::new();
    let mut i: usize = 0;
    while i < contents.len()
        invariant
            i <= contents@.len(),
            ids@.len() == contents@.len(),
            rows@.len() == i,
            forall|k: int|
                0 <= k < i ==> {
                    &&& (#[trigger] rows@[k]).id == ids@[k]
                    &&& rows@[k].product_info_id == product_info_id
                    &&& rows@[k].content@ == contents@[k]@
                    &&& rows@[k].status@ == ProductStatus::Available.spec_str()
                },
        decreases contents.len() - i,
    {
        rows.push(
            NewProductRow {
                id: ids[i],
                product_info_id,
                content: contents[i].clone(),
                status: String::from_str(ProductStatus::Available.as_ref()),
            },
        );
        i = i + 1;
    }
    Ok(rows)
}

/// The outcome of a restock.
#[derive(Debug, Clone, Copy, PartialEq, Eq, Structural)]
pub struct CreateProductResponse {
    /// Contents left after normalisation.
    pub submitted: usize,
    /// Items actually stocked.
    pub stocked: usize,
    /// Contents that were not stocked because they repeat, in the request or in stock.
    pub duplicates: usize,
}

/// Counts a restock's outcome.
pub fn create_product_response(submitted: usize, stocked: usize) -> (r: CreateProductResponse)
    ensures
        r.submitted == submitted,
        r.stocked == stocked,
        r.duplicates == (if stocked <= submitted { (submitted - stocked) as usize } else { 0usize }),
{
    CreateProductResponse { submitted, stocked, duplicates: submitted.saturating_sub(stocked) }
}

/// A request to take inventory items off sale or put them back.
#[derive(Debug, Clone)]
pub struct UpdateProductStatusRequest {
    pub product_ids: Vec<u128>,
    pub status: String,
}

/// A checked status change: the distinct selected items, in the order first selected,
/// and the status they move from and to.
#[derive(Debug)]
pub struct ProductStatusUpdate {
    pub product_ids: Vec<u128>,
    pub source_status: ProductStatus,
    pub target_status: ProductStatus,
}

/// The status an item must have to move to `target`: the other of available and
/// disabled.
pub open spec fn spec_source_status(target: ProductStatus) -> ProductStatus {
    if target == ProductStatus::Available {
        ProductStatus::Disabled
    } else {
        ProductStatus::Available
    }
}

/// Checks of a status change: the target (trimmed) must be available or disabled, and
/// the selection must not be empty.
pub open spec fn spec_status_update_check(status: Seq<char>, ids: Seq<u128>) -> Result<
    ProductStatus,
    Seq<char>,
> {
    match ProductStatus::spec_parse(spec_trim(status)) {
        Some(t) => if t != ProductStatus::Available && t != ProductStatus::Disabled {
            Err("status must be available or disabled"@)
        } else if ids.len() == 0 {
            Err("product_ids is required"@)
        } else {
            Ok(t)
        },
        None => Err("status must be available or disabled"@),
    }
}

/// Checks a status change and removes repeated ids. Only available and disabled items
/// ever change: reserved and delivered items belong to orders.
pub fn plan_product_status_update(request: &UpdateProductStatusRequest) -> (res: Result<
    ProductStatusUpdate,
    AppError,
>)
    ensures
        match spec_status_update_check(request.status@, request.product_ids@) {
            Err(m) => res matches Err(e) && e@ == AppErrorView::BadRequest(m),
            Ok(t) => res matches Ok(u) && {
                &&& u.target_status == t
                &&& u.source_status == spec_source_status(t)
                &&& u.product_ids@ == spec_dedup(request.product_ids@)
            },
        },
{
    let target = match ProductStatus::parse(trim(request.status.as_str())) {
        Some(t) => t,
        None => return Err(AppError::bad_request("status must be available or disabled")),
    };
    if target != ProductStatus::Available && target != ProductStatus::Disabled {
        return Err(AppError::bad_request("status must be available or disabled"));
    }
    if request.product_ids.len() == 0 {
        return Err(AppError::bad_request("product_ids is required"));
    }
    let ids = &request.product_ids;
    let mut unique: Vec<u128> = Vec::new();
    let mut i: usize = 0;
    assert(ids@.take(0) =~= Seq::<u128>::empty());
    while i < ids.len()
        invariant
            i <= ids@.len(),
            unique@ == spec_dedup(ids@.take(i as int)),
        decreases ids.len() - i,
    {
        let mut seen = false;
        let mut j: usize = 0;
        while j < i
            invariant
                i < ids@.len(),
                j <= i,
                seen == exists|k: int| 0 <= k < j && ids@[k] == ids@[i as int],
            decreases i - j,
        {
            if ids[j] == ids[i] {
                seen = true;
            }
            j = j + 1;
        }
        proof {
            let p = ids@.take(i + 1);
            assert(p.drop_last() =~= ids@.take(i as int));
            if seen {
                let k = choose|k: int| 0 <= k < i && ids@[k] == ids@[i as int];
                assert(ids@.take(i as int)[k] == ids@[i as int]);
            } else {
                assert(!ids@.take(i as int).contains(ids@[i as int])) by {
                    if ids@.take(i as int).contains(ids@[i as int]) {
                        let k = choose|k: int| 0 <= k < i && ids@.take(i as int)[k] == ids@[i as int];
                        assert(ids@[k] == ids@[i as int]);
                    }
                }
            }
        }
        if !seen {
            unique.push(ids[i]);
        }
        i = i + 1;
    }
    assert(ids@.take(ids@.len() as int) =~= ids@);
    let source = if target == ProductStatus::Available {
        ProductStatus::Disabled
    } else {
        ProductStatus::Available
    };
    Ok(ProductStatusUpdate { product_ids: unique, source_status: source, target_status: target })
}

/// Effect of a status change on the statuses of the inventory: a selected item in the
/// source status takes the target status; every other item keeps its status.
pub open spec fn spec_apply_status_update(
    statuses: Map<u128, ProductStatus>,
    ids: Seq<u128>,
    source: ProductStatus,
    target: ProductStatus,
) -> Map<u128, ProductStatus> {
    Map::new(
        |k: u128| statuses.contains_key(k),
        |k: u128| if ids.contains(k) && statuses[k] == source {
            target
        } else {
            statuses[k]
        },
    )
}

/// Taking items off sale or back on sale never touches an item that is reserved for an
/// order or delivered, and moves items only between available and disabled.
pub proof fn lemma_status_update_spares_orders(
    statuses: Map<u128, ProductStatus>,
    status: Seq<char>,
    ids: Seq<u128>,
)
    requires
        spec_status_update_check(status, ids) is Ok,
    ensures
        ({
            let t = spec_status_update_check(status, ids)->Ok_0;
            let after = spec_apply_status_update(statuses, spec_dedup(ids), spec_source_status(t), t);
            &&& after.dom() == statuses.dom()
            &&& forall|k: u128|
                statuses.contains_key(k) && (statuses[k] == ProductStatus::Reserved || statuses[k]
                    == ProductStatus::Delivered) ==> #[trigger] after[k] == statuses[k]
            &&& forall|k: u128|
                statuses.contains_key(k) && #[trigger] after[k] != statuses[k] ==> {
                    &&& statuses[k] == spec_source_status(t)
                    &&& after[k] == t
                    &&& (t == ProductStatus::Available || t == ProductStatus::Disabled)
                }
        }),
{
    let t = spec_status_update_check(status, ids)->Ok_0;
    let after = spec_apply_status_update(statuses, spec_dedup(ids), spec_source_status(t), t);
    assert(after.dom() =~= statuses.dom());
}

/// The outcome of a status change.
#[derive(Debug)]
pub struct UpdateProductStatusResponse {
    /// Distinct items selected.
    pub selected: usize,
    /// Items that changed.
    pub updated: usize,
    /// Selected items that were not in the source status.
    pub ignored: usize,
    pub status: String,
}

/// Counts a status change's outcome.
pub fn product_status_response(update: &ProductStatusUpdate, updated: usize) -> (r:
    UpdateProductStatusResponse)
    ensures
        r.selected == update.product_ids@.len(),
        r.updated == updated,
        r.ignored == (if updated <= r.selected { (r.selected - updated) as usize } else { 0usize }),
        r.status@ == update.target_status.spec_str(),
{
    let selected = update.product_ids.len();
    UpdateProductStatusResponse {
        selected,
        updated,
        ignored: selected.saturating_sub(updated),
        status: String::from_str(update.target_status.as_ref()),
    }
}

/// Filters of the back office's inventory list.
#[derive(Debug, Clone, Default)]
pub struct AdminProductQuery {
    pub page: Option<i64>,
    pub page_size: Option<i64>,
    pub product_info_id: Option<String>,
    pub status: Option<String>,
}

/// A checked inventory query.
#[derive(Debug)]
pub struct AdminProductFilter {
    pub page: i64,
    pub page_size: i64,
    pub offset: i64,
    pub product_info_id: Option<u128>,
    pub status: Option<ProductStatus>,
}

/// A filter value: absent or blank means no filter.
pub open spec fn spec_filter_value(value: Option<String>) -> Option<Seq<char>> {
    match value {
        Some(v) => if spec_trim(v@).len() > 0 {
            Some(spec_trim(v@))
        } else {
            None
        },
        None => None,
    }
}

/// The product filter: no filter, a UUID, or an error.
pub open spec fn spec_product_filter(value: Option<String>) -> Result<Option<u128>, Seq<char>> {
    match spec_filter_value(value) {
        None => Ok(None),
        Some(v) => match spec_parse_uuid(v) {
            Some(id) => Ok(Some(id)),
            None => Err("product_info_id must be a uuid"@),
        },
    }
}

/// The status filter: no filter, a status, or an error.
pub open spec fn spec_status_filter(value: Option<String>) -> Result<Option<ProductStatus>, Seq<char>> {
    match spec_filter_value(value) {
        None => Ok(None),
        Some(v) => match ProductStatus::spec_parse(v) {
            Some(s) => Ok(Some(s)),
            None => Err("status must be available, reserved, delivered, or disabled"@),
        },
    }
}

fn filter_value(value: &Option<String>) -> (res: Option<&str>)
    ensures
        match res {
            Some(v) => spec_filter_value(*value) == Some(v@),
            None => spec_filter_value(*value) is None,
        },
{
    match value {
        Some(v) => {
            let t = trim(v.as_str());
            if t.unicode_len() > 0 {
                Some(t)
            } else {
                None
            }
        },
        None => None,
    }
}

/// Checks an inventory query: the page first, then the product filter, then the status
/// filter.
pub fn parse_admin_product_query(query: &AdminProductQuery) -> (res: Result<AdminProductFilter, AppError>)
    requires
        spec_offset_fits(OffsetPagination { page: query.page, page_size: query.page_size }),
    ensures
        ({
            let page_ok = spec_page(query.page) >= 1 && match query.page_size {
                Some(s) => s >= 1,
                None => true,
            };
            &&& !page_ok ==> res is Err
            &&& page_ok ==> match (spec_product_filter(query.product_info_id), spec_status_filter(query.status)) {
                (Err(m), _) => res matches Err(e) && e@ == AppErrorView::BadRequest(m),
                (Ok(_), Err(m)) => res matches Err(e) && e@ == AppErrorView::BadRequest(m),
                (Ok(p), Ok(s)) => res matches Ok(f) && {
                    &&& f.page == spec_page(query.page)
                    &&& f.page_size == spec_page_size(query.page_size)
                    &&& f.offset == (f.page - 1) * f.page_size
                    &&& f.product_info_id == p
                    &&& f.status == s
                },
            }
        }),
{
    let pagination = OffsetPagination { page: query.page, page_size: query.page_size };
    let (page, page_size, offset) = normalize_offset_page(&pagination)?;
    let product_info_id = match filter_value(&query.product_info_id) {
        None => None,
        Some(v) => match parse_uuid(v) {
            Some(id) => Some(id),
            None => return Err(AppError::bad_request("product_info_id must be a uuid")),
        },
    };
    let status = match filter_value(&query.status) {
        None => None,
        Some(v) => match ProductStatus::parse(v) {
            Some(s) => Some(s),
            None => return Err(
                AppError::bad_request("status must be available, reserved, delivered, or disabled"),
            ),
        },
    };
    Ok(AdminProductFilter { page, page_size, offset, product_info_id, status })
}

/// Masks the contents of listed inventory items or orders (absent contents stay absent).
pub fn mask_contents(contents: Vec<Option<String>>) -> (masked: Vec<Option<String>>)
    ensures
        masked@.len() == contents@.len(),
        forall|i: int|
            0 <= i < contents@.len() ==> match #[trigger] contents@[i] {
                Some(c) => masked@[i] matches Some(m) && m@ == spec_mask(c@),
                None => masked@[i] is None,
            },
{
    let mut masked: Vec<Option<String>> = Vec::new();
    let mut i: usize = 0;
    while i < contents.len()
        invariant
            i <= contents@.len(),
            masked@.len() == i,
            forall|k: int|
                0 <= k < i ==> match #[trigger] contents@[k] {
                    Some(c) => masked@[k] matches Some(m) && m@ == spec_mask(c@),
                    None => masked@[k] is None,
                },
        decreases contents.len() - i,
    {
        let m = match &contents[i] {
            Some(c) => Some(mask_product_content(c.as_str())),
            None => None,
        };
        masked.push(m);
        i = i + 1;
    }
    masked
}

} // verus!
