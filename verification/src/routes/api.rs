//! The JSON API: input validation, pagination of the deliveries, and the
//! answers to refused votes, submissions and admin requests.

use vstd::prelude::*;

use crate::constants::{DELIVERIES_PER_PAGE, MAX_MODEL_ID_LEN};
use crate::error::AppError;
use crate::extractors::{is_valid_model_id, model_id_well_formed, utf8, MAX_CLIENT_UUID_LEN};
use crate::models::VoteRequest;
use crate::queries::DeliverySort;
use crate::submission::SubmitRefusal;
use crate::text::{
    begins_with, is_space, same_text, signed_decimal, signed_decimal_text, starts_with_text, trim,
    trim_start, trimmed, utf8_len,
};
use crate::voting::VoteRefusal;

verus! {

// ---------------------------------------------------------------------------
// Model IDs
// ---------------------------------------------------------------------------

/// What validating the model ID `input` gives: the trimmed ID, or the
/// message of the `BadRequest` that refuses it.
pub open spec fn model_id_check(input: Seq<char>) -> Result<Seq<char>, Seq<char>> {
    let id = trim(input);
    if id.len() == 0 {
        Err("model_id is required"@)
    } else if utf8(id).len() > MAX_MODEL_ID_LEN {
        Err("model_id must be 100 characters or less"@)
    } else if !model_id_well_formed(id) {
        Err("model_id contains invalid characters (allowed: alphanumeric, - _ . /)"@)
    } else {
        Ok(id)
    }
}

/// Validate a model ID: non-empty, within length, safe characters. The ID
/// is trimmed of white space first, and the trimmed ID is returned.
pub fn validate_model_id(id: &str) -> (r: Result<String, AppError>)
    ensures
        match model_id_check(id@) {
            Ok(v) => r matches Ok(s) && s@ == v,
            Err(m) => r matches Err(e) && e.is_bad_request(m),
        },
{
    let id = trimmed(id);
    if id.as_str().unicode_len() == 0 {
        return Err(AppError::BadRequest(String::from_str("model_id is required")));
    }
    if utf8_len(id.as_str()) > MAX_MODEL_ID_LEN as u128 {
        return Err(AppError::BadRequest(String::from_str("model_id must be 100 characters or less")));
    }
    if !is_valid_model_id(id.as_str()) {
        return Err(
            AppError::BadRequest(
                String::from_str(
                    "model_id contains invalid characters (allowed: alphanumeric, - _ . /)",
                ),
            ),
        );
    }
    Ok(id)
}

/// A well-formed model ID has no white space at either end.
proof fn lemma_well_formed_id_is_trimmed(id: Seq<char>)
    requires
        model_id_well_formed(id),
    ensures
        trim(id) == id,
{
    assert(!is_space(id[0]));
    assert(trim_start(id) == id);
    assert(!is_space(id.last()));
}

/// A model ID is accepted exactly when, once trimmed, it is well formed and
/// its UTF-8 encoding takes at most 100 bytes; what is accepted is the
/// trimmed ID.
pub proof fn law_model_id_accepted_iff_valid(input: Seq<char>)
    ensures
        model_id_check(input) is Ok <==> (model_id_well_formed(trim(input)) && utf8(trim(input)).len()
            <= 100),
        model_id_check(input) is Ok ==> model_id_check(input) == Ok::<Seq<char>, Seq<char>>(
            trim(input),
        ),
{
}

/// A validated model ID passes validation again, unchanged.
pub proof fn law_validated_model_id_is_stable(input: Seq<char>)
    ensures
        model_id_check(input) matches Ok(id) ==> model_id_check(id) == Ok::<Seq<char>, Seq<char>>(
            id,
        ),
{
    if let Ok(id) = model_id_check(input) {
        lemma_well_formed_id_is_trimmed(id);
    }
}

// ---------------------------------------------------------------------------
// Votes
// ---------------------------------------------------------------------------

/// What validating a vote request gives: the trimmed model ID, or the
/// message of the `BadRequest` that refuses it.
pub open spec fn vote_request_check(client_uuid: Seq<char>, model_id: Seq<char>) -> Result<
    Seq<char>,
    Seq<char>,
> {
    if client_uuid.len() == 0 {
        Err("client_uuid is required"@)
    } else if utf8(client_uuid).len() > MAX_CLIENT_UUID_LEN {
        Err("client_uuid must be 64 characters or less"@)
    } else {
        model_id_check(model_id)
    }
}

/// A vote request is accepted exactly when its client UUID is given and
/// takes at most 64 bytes, and its model ID is accepted; the request then
/// names the validated model ID.
pub proof fn law_vote_request_accepted_iff_valid(client_uuid: Seq<char>, model_id: Seq<char>)
    ensures
        vote_request_check(client_uuid, model_id) is Ok <==> (client_uuid.len() > 0 && utf8(
            client_uuid,
        ).len() <= 64 && model_id_check(model_id) is Ok),
        vote_request_check(client_uuid, model_id) is Ok ==> vote_request_check(client_uuid, model_id)
            == model_id_check(model_id),
{
}

/// Validates a vote request of the JSON API: the client UUID must be given
/// and at most 64 bytes long, and the model ID must validate. Gives the
/// trimmed model ID.
pub fn validate_vote_request(req: &VoteRequest) -> (r: Result<String, AppError>)
    ensures
        match vote_request_check(req.client_uuid@, req.model_id@) {
            Ok(v) => r matches Ok(s) && s@ == v,
            Err(m) => r matches Err(e) && e.is_bad_request(m),
        },
{
    if req.client_uuid.as_str().unicode_len() == 0 {
        return Err(AppError::BadRequest(String::from_str("client_uuid is required")));
    }
    if utf8_len(req.client_uuid.as_str()) > MAX_CLIENT_UUID_LEN as u128 {
        return Err(
            AppError::BadRequest(String::from_str("client_uuid must be 64 characters or less")),
        );
    }
    validate_model_id(req.model_id.as_str())
}

/// The status and message that answer a refused vote; `size_gb` is the text
/// of the size that a `TooLarge` HuggingFace error reports.
pub open spec fn vote_refusal_answer(r: VoteRefusal, size_gb: Seq<char>) -> (u16, Seq<char>) {
    match r {
        VoteRefusal::AlreadyVoted => (409, "You have already voted for this model"@),
        VoteRefusal::IpAlreadyVotedForModel => (
            429,
            "Rate limit: This IP already voted for this model in the last hour"@,
        ),
        VoteRefusal::HourlyLimitReached => (429, "Rate limit: Maximum 3 votes per hour per IP"@),
        VoteRefusal::AlreadyDelivered => (409, "This model has already been abliterated"@),
        VoteRefusal::BoardFull => (403, "Maximum 50 models allowed on the board"@),
        VoteRefusal::NotOnHf(e) => (400, e.text(size_gb)),
    }
}

/// The text of a vote refusal.
pub fn vote_refusal_text(r: &VoteRefusal, size_gb_text: &str) -> (m: String)
    ensures
        m@ == vote_refusal_answer(*r, size_gb_text@).1,
{
    match r {
        VoteRefusal::AlreadyVoted => String::from_str("You have already voted for this model"),
        VoteRefusal::IpAlreadyVotedForModel => String::from_str(
            "Rate limit: This IP already voted for this model in the last hour",
        ),
        VoteRefusal::HourlyLimitReached => String::from_str(
            "Rate limit: Maximum 3 votes per hour per IP",
        ),
        VoteRefusal::AlreadyDelivered => String::from_str(
            "This model has already been abliterated",
        ),
        VoteRefusal::BoardFull => String::from_str("Maximum 50 models allowed on the board"),
        VoteRefusal::NotOnHf(e) => e.message(size_gb_text),
    }
}

/// The error that answers a refused vote in the JSON API.
pub fn vote_refusal_error(r: &VoteRefusal, size_gb_text: &str) -> (e: AppError)
    ensures
        (e.status(), e.text()) == vote_refusal_answer(*r, size_gb_text@),
{
    let m = vote_refusal_text(r, size_gb_text);
    match r {
        VoteRefusal::AlreadyVoted => AppError::Conflict(m),
        VoteRefusal::IpAlreadyVotedForModel => AppError::TooManyRequests(m),
        VoteRefusal::HourlyLimitReached => AppError::TooManyRequests(m),
        VoteRefusal::AlreadyDelivered => AppError::Conflict(m),
        VoteRefusal::BoardFull => AppError::Forbidden(m),
        VoteRefusal::NotOnHf(_) => AppError::BadRequest(m),
    }
}

// ---------------------------------------------------------------------------
// Model submissions
// ---------------------------------------------------------------------------

/// The status and message that answer a refused submission in the JSON
/// API (user and admin alike).
pub open spec fn submit_refusal_answer(r: SubmitRefusal, size_gb: Seq<char>) -> (u16, Seq<char>) {
    match r {
        SubmitRefusal::BoardFull => (403, "Maximum 50 models allowed on the board"@),
        SubmitRefusal::AlreadyExists => (409, "Model already exists"@),
        SubmitRefusal::AlreadyDelivered => (409, "This model has already been abliterated"@),
        SubmitRefusal::DailyLimitReached => (429, "Rate limit: You can only add 1 model per day"@),
        SubmitRefusal::NotOnHf(e) => (400, e.text(size_gb)),
        SubmitRefusal::BadHfLink(e) => (400, e.text(size_gb)),
    }
}

/// The error that answers a refused submission in the JSON API.
pub fn submit_refusal_error(r: &SubmitRefusal, size_gb_text: &str) -> (e: AppError)
    ensures
        (e.status(), e.text()) == submit_refusal_answer(*r, size_gb_text@),
{
    match r {
        SubmitRefusal::BoardFull => AppError::Forbidden(
            String::from_str("Maximum 50 models allowed on the board"),
        ),
        SubmitRefusal::AlreadyExists => AppError::Conflict(String::from_str("Model already exists")),
        SubmitRefusal::AlreadyDelivered => AppError::Conflict(
            String::from_str("This model has already been abliterated"),
        ),
        SubmitRefusal::DailyLimitReached => AppError::TooManyRequests(
            String::from_str("Rate limit: You can only add 1 model per day"),
        ),
        SubmitRefusal::NotOnHf(e) => AppError::BadRequest(e.message(size_gb_text)),
        SubmitRefusal::BadHfLink(e) => AppError::BadRequest(e.message(size_gb_text)),
    }
}

// ---------------------------------------------------------------------------
// Deliveries: pagination and sorting
// ---------------------------------------------------------------------------

/// Pagination and sorting query parameters.
#[derive(Debug, Clone)]
pub struct PaginationParams {
    pub page: Option<i64>,
    pub per_page: Option<i64>,
    pub sort: Option<String>,
}

/// The sort order that a `sort` parameter asks for: `kl` and `refusal`
/// name theirs, anything else (or nothing) sorts by date.
pub open spec fn sort_of(sort: Option<Seq<char>>) -> DeliverySort {
    match sort {
        Some(s) => if s == "kl"@ {
            DeliverySort::KlDivergence
        } else if s == "refusal"@ {
            DeliverySort::Refusal
        } else {
            DeliverySort::Date
        },
        None => DeliverySort::Date,
    }
}

impl PaginationParams {
    /// The `sort` parameter's text.
    pub open spec fn sort_text(&self) -> Option<Seq<char>> {
        match self.sort {
            Some(s) => Some(s@),
            None => None,
        }
    }

    /// The page asked for: 1 when absent, and at least 1.
    pub open spec fn page_spec(&self) -> i64 {
        match self.page {
            Some(p) => if p < 1 {
                1
            } else {
                p
            },
            None => 1,
        }
    }

    /// The page size asked for: `DELIVERIES_PER_PAGE` when absent, clamped
    /// to 1..=100.
    pub open spec fn per_page_spec(&self) -> i64 {
        let n = match self.per_page {
            Some(n) => n,
            None => DELIVERIES_PER_PAGE,
        };
        if n < 1 {
            1
        } else if n > 100 {
            100
        } else {
            n
        }
    }

    /// The sort order of the deliveries.
    pub fn delivery_sort(&self) -> (r: DeliverySort)
        ensures
            r == sort_of(self.sort_text()),
    {
        match &self.sort {
            Some(s) => if same_text(s.as_str(), "kl") {
                DeliverySort::KlDivergence
            } else if same_text(s.as_str(), "refusal") {
                DeliverySort::Refusal
            } else {
                DeliverySort::Date
            },
            None => DeliverySort::Date,
        }
    }

    /// The page number (1-based).
    pub fn page_number(&self) -> (r: i64)
        ensures
            r == self.page_spec(),
            r >= 1,
    {
        match self.page {
            Some(p) => if p < 1 {
                1
            } else {
                p
            },
            None => 1,
        }
    }

    /// The page size.
    pub fn page_size(&self) -> (r: i64)
        ensures
            r == self.per_page_spec(),
            1 <= r <= 100,
    {
        let n = match self.per_page {
            Some(n) => n,
            None => DELIVERIES_PER_PAGE,
        };
        if n < 1 {
            1
        } else if n > 100 {
            100
        } else {
            n
        }
    }

    /// The `sort` parameter as given, or `date` when absent.
    pub fn sort_label(&self) -> (r: String)
        ensures
            r@ == match self.sort_text() {
                Some(s) => s,
                None => "date"@,
            },
    {
        match &self.sort {
            Some(s) => s.clone(),
            None => String::from_str("date"),
        }
    }
}

/// A page size asked for within 1..=100 is used as given; one below 1 is
/// raised to 1, one above 100 lowered to 100, and without one a page holds
/// 20 deliveries.
pub proof fn law_page_size_is_the_clamped_request(params: PaginationParams)
    ensures
        params.per_page is Some && 1 <= params.per_page->0 <= 100 ==> params.per_page_spec()
            == params.per_page->0,
        params.per_page is Some && params.per_page->0 < 1 ==> params.per_page_spec() == 1,
        params.per_page is Some && params.per_page->0 > 100 ==> params.per_page_spec() == 100,
        params.per_page is None ==> params.per_page_spec() == 20,
{
}

/// A page number of at least 1 is used as given; a smaller one, or none,
/// asks for the first page.
pub proof fn law_page_number_is_the_request(params: PaginationParams)
    ensures
        params.page is Some && params.page->0 >= 1 ==> params.page_spec() == params.page->0,
        params.page is Some && params.page->0 < 1 ==> params.page_spec() == 1,
        params.page is None ==> params.page_spec() == 1,
{
}

/// The number of deliveries to skip for page `page` of size `per_page`,
/// `(page - 1) * per_page`; `None` when that leaves the range of `i64`.
pub fn page_offset(page: i64, per_page: i64) -> (r: Option<i64>)
    requires
        page >= 1,
        per_page >= 1,
    ensures
        r matches Some(o) ==> o == (page - 1) * per_page,
        r is None <==> (page - 1) * per_page > i64::MAX,
{
    let before: i64 = page - 1;
    before.checked_mul(per_page)
}

/// The number of pages of size `per_page` that `total` deliveries fill,
/// `(total + per_page - 1) / per_page`; `None` when the sum leaves the
/// range of `i64`.
pub fn total_pages(total: i64, per_page: i64) -> (r: Option<i64>)
    requires
        total >= 0,
        per_page >= 1,
    ensures
        r matches Some(n) ==> n == (total + per_page - 1) / (per_page as int),
        r is None <==> total + per_page - 1 > i64::MAX,
{
    match total.checked_add(per_page - 1) {
        Some(s) => Some(s / per_page),
        None => None,
    }
}

/// The pages cover every delivery and no page is empty: `total_pages`
/// pages of `per_page` hold all `total` deliveries, and one page fewer does
/// not.
pub proof fn law_total_pages_cover_all(total: int, per_page: int)
    requires
        total >= 0,
        per_page >= 1,
    ensures
        ((total + per_page - 1) / per_page) * per_page >= total,
        ((total + per_page - 1) / per_page - 1) * per_page < total || total == 0,
        total == 0 ==> (total + per_page - 1) / per_page == 0,
{
    let q = (total + per_page - 1) / per_page;
    let r = (total + per_page - 1) % per_page;
    assert(total + per_page - 1 == q * per_page + r && 0 <= r < per_page) by (nonlinear_arith)
        requires
            per_page >= 1,
            q == (total + per_page - 1) / per_page,
            r == (total + per_page - 1) % per_page,
    ;
    assert(q * per_page >= total);
    assert((q - 1) * per_page == q * per_page - per_page) by (nonlinear_arith);
    if total == 0 {
        assert(q == 0) by (nonlinear_arith)
            requires
                per_page >= 1,
                q == (per_page - 1) / per_page,
        ;
    }
}

// ---------------------------------------------------------------------------
// Admin requests
// ---------------------------------------------------------------------------

/// What an admin update of a model's HF link is checked for, in order: the
/// model must exist, and the link must be given and not blank. Gives the
/// trimmed link, or the status and message of the refusal.
pub open spec fn update_link_check(exists: bool, hf_link: Option<Seq<char>>) -> Result<
    Seq<char>,
    (u16, Seq<char>),
> {
    if !exists {
        Err((404, "Model not found"@))
    } else {
        match hf_link {
            None => Err((400, "hf_link is required"@)),
            Some(l) => if trim(l).len() == 0 {
                Err((400, "hf_link must not be empty"@))
            } else {
                Ok(trim(l))
            },
        }
    }
}

/// An update of a model's link is answered 404 exactly when the model is
/// not on the board; for a model that is, a link that is not blank is
/// accepted, trimmed, and a missing or blank one is refused with 400.
pub proof fn law_update_link_not_found_iff_missing(exists: bool, hf_link: Option<Seq<char>>)
    ensures
        (update_link_check(exists, hf_link) matches Err((status, _)) && status == 404) <==> !exists,
        exists && (hf_link matches Some(l) && trim(l).len() > 0) ==> update_link_check(
            exists,
            hf_link,
        ) == Ok::<Seq<char>, (u16, Seq<char>)>(trim(hf_link->0)),
        exists && (hf_link is None || (hf_link matches Some(l) && trim(l).len() == 0))
            ==> (update_link_check(exists, hf_link) matches Err((status, _)) && status == 400),
{
}

/// Checks an admin update of a model's HF link, once it is known whether
/// the model exists. Gives the trimmed link to validate and store.
pub fn admin_update_link(exists: bool, hf_link: &Option<String>) -> (r: Result<String, AppError>)
    ensures
        match update_link_check(
            exists,
            match hf_link {
                Some(l) => Some(l@),
                None => None,
            },
        ) {
            Ok(l) => r matches Ok(s) && s@ == l,
            Err((status, msg)) => r matches Err(e) && e.status() == status && e.text() == msg,
        },
{
    if !exists {
        return Err(AppError::NotFound(String::from_str("Model not found")));
    }
    match hf_link {
        None => Err(AppError::BadRequest(String::from_str("hf_link is required"))),
        Some(l) => {
            let t = trimmed(l.as_str());
            if t.as_str().unicode_len() == 0 {
                Err(AppError::BadRequest(String::from_str("hf_link must not be empty")))
            } else {
                Ok(t)
            }
        },
    }
}

/// What a delivery request is checked for, in order: the model ID must
/// validate, the trimmed HF link must be given and be an HTTPS URL, the KL
/// divergence must not be negative, `refused` must be at least 0,
/// `total_prompts` above 0, and `refused` at most `total_prompts`. Gives
/// the trimmed model ID and link, or the message of the `BadRequest`.
pub open spec fn delivery_check(
    model_id: Seq<char>,
    hf_link: Seq<char>,
    kl_divergence_negative: bool,
    refused: i64,
    total_prompts: i64,
) -> Result<(Seq<char>, Seq<char>), Seq<char>> {
    match model_id_check(model_id) {
        Err(m) => Err(m),
        Ok(id) => {
            let link = trim(hf_link);
            if link.len() == 0 {
                Err("hf_link is required"@)
            } else if !begins_with(link, "https://"@) {
                Err("hf_link must be an HTTPS URL"@)
            } else if kl_divergence_negative {
                Err("kl_divergence must be non-negative"@)
            } else if refused < 0 || total_prompts <= 0 {
                Err("refused must be >= 0 and total_prompts must be > 0"@)
            } else if refused > total_prompts {
                Err("refused cannot exceed total_prompts"@)
            } else {
                Ok((id, link))
            }
        },
    }
}

/// A delivery is accepted exactly when its model ID validates, its trimmed
/// link begins with `https://`, its KL divergence is not negative, and
/// `0 <= refused <= total_prompts` with `total_prompts > 0` (so a delivery
/// with no refusal at all is accepted); it then gives the validated ID and
/// the trimmed link.
pub proof fn law_delivery_accepted_iff_valid(
    model_id: Seq<char>,
    hf_link: Seq<char>,
    kl_divergence_negative: bool,
    refused: i64,
    total_prompts: i64,
)
    ensures
        delivery_check(model_id, hf_link, kl_divergence_negative, refused, total_prompts) is Ok
            <==> (model_id_check(model_id) is Ok && begins_with(trim(hf_link), "https://"@)
            && !kl_divergence_negative && 0 <= refused <= total_prompts && total_prompts > 0),
        delivery_check(model_id, hf_link, kl_divergence_negative, refused, total_prompts) is Ok
            ==> delivery_check(model_id, hf_link, kl_divergence_negative, refused, total_prompts)
            == Ok::<(Seq<char>, Seq<char>), Seq<char>>(
            (model_id_check(model_id)->Ok_0, trim(hf_link)),
        ),
{
    reveal_strlit("https://");
}

/// Checks a delivery request. `kl_divergence_negative` tells whether the
/// request's KL divergence is below 0.0.
pub fn validate_delivery(
    model_id: &str,
    hf_link: &str,
    kl_divergence_negative: bool,
    refused: i64,
    total_prompts: i64,
) -> (r: Result<(String, String), AppError>)
    ensures
        match delivery_check(model_id@, hf_link@, kl_divergence_negative, refused, total_prompts) {
            Ok((id, link)) => r matches Ok((s, l)) && s@ == id && l@ == link,
            Err(m) => r matches Err(e) && e.is_bad_request(m),
        },
{
    let id = match validate_model_id(model_id) {
        Ok(id) => id,
        Err(e) => return Err(e),
    };
    let link = trimmed(hf_link);
    if link.as_str().unicode_len() == 0 {
        return Err(AppError::BadRequest(String::from_str("hf_link is required")));
    }
    if !starts_with_text(link.as_str(), "https://") {
        return Err(AppError::BadRequest(String::from_str("hf_link must be an HTTPS URL")));
    }
    if kl_divergence_negative {
        return Err(AppError::BadRequest(String::from_str("kl_divergence must be non-negative")));
    }
    if refused < 0 || total_prompts <= 0 {
        return Err(
            AppError::BadRequest(
                String::from_str("refused must be >= 0 and total_prompts must be > 0"),
            ),
        );
    }
    if refused > total_prompts {
        return Err(AppError::BadRequest(String::from_str("refused cannot exceed total_prompts")));
    }
    Ok((id, link))
}

/// The answer to a delivery for a model that is not on the board.
pub fn delivery_model_missing() -> (r: AppError)
    ensures
        r matches AppError::NotFound(msg) && msg@ == "Model not found"@,
{
    AppError::NotFound(String::from_str("Model not found"))
}

/// The answer to an admin deletion of a model: `NotFound` when no model was
/// deleted.
pub fn model_deletion_outcome(deleted: bool) -> (r: Result<(), AppError>)
    ensures
        deleted ==> r is Ok,
        !deleted ==> (r matches Err(AppError::NotFound(msg)) && msg@ == "Model not found"@),
{
    if deleted {
        Ok(())
    } else {
        Err(AppError::NotFound(String::from_str("Model not found")))
    }
}

/// The answer to an admin deletion of a delivery: `NotFound` when no
/// delivery was deleted.
pub fn delivery_deletion_outcome(deleted: bool) -> (r: Result<(), AppError>)
    ensures
        deleted ==> r is Ok,
        !deleted ==> (r matches Err(AppError::NotFound(msg)) && msg@ == "Delivery not found"@),
{
    if deleted {
        Ok(())
    } else {
        Err(AppError::NotFound(String::from_str("Delivery not found")))
    }
}

/// The message that answers a prune of the zero-vote models.
pub fn prune_message(deleted: i64) -> (r: String)
    ensures
        r@ == signed_decimal(deleted as int) + " model(s) pruned"@,
{
    let mut r = signed_decimal_text(deleted);
    r.append(" model(s) pruned");
    r
}

} // verus!
