//! The HTML pages: what the HTMX forms check, and the messages of the
//! result fragment that answers them.

use vstd::prelude::*;

use crate::constants::{DELIVERIES_PER_PAGE, MAX_MODEL_ID_LEN};
use crate::extractors::{is_valid_model_id, model_id_well_formed, utf8, MAX_CLIENT_UUID_LEN};
use crate::models::VoteRequest;
use crate::routes::api::{model_id_check, total_pages, vote_refusal_answer, vote_refusal_text};
use crate::submission::SubmitRefusal;
use crate::text::{law_trim_drops_only_outer_space, trim, trimmed, utf8_len};
use crate::voting::VoteRefusal;

verus! {

/// What the vote form is checked for: both fields given, the client UUID
/// at most 64 bytes long, and the model ID, once trimmed of white space, at
/// most 100 bytes long and well formed. Gives the trimmed model ID, which is
/// the one the vote is recorded for, or the message of the failed result.
pub open spec fn vote_form_check(client_uuid: Seq<char>, model_id: Seq<char>) -> Result<
    Seq<char>,
    Seq<char>,
> {
    let id = trim(model_id);
    if client_uuid.len() == 0 || model_id.len() == 0 {
        Err("client_uuid and model_id are required"@)
    } else if utf8(client_uuid).len() > MAX_CLIENT_UUID_LEN {
        Err("Invalid client_uuid"@)
    } else if utf8(id).len() > MAX_MODEL_ID_LEN {
        Err("Model name must be 100 characters or less"@)
    } else if !model_id_well_formed(id) {
        Err("Model name contains invalid characters"@)
    } else {
        Ok(id)
    }
}

/// Checks a vote form; gives the trimmed model ID to vote for, or the
/// message of the failed result.
pub fn check_vote_form(req: &VoteRequest) -> (r: Result<String, String>)
    ensures
        match vote_form_check(req.client_uuid@, req.model_id@) {
            Ok(id) => r matches Ok(s) && s@ == id,
            Err(m) => r matches Err(s) && s@ == m,
        },
{
    if req.client_uuid.as_str().unicode_len() == 0 || req.model_id.as_str().unicode_len() == 0 {
        return Err(String::from_str("client_uuid and model_id are required"));
    }
    if utf8_len(req.client_uuid.as_str()) > MAX_CLIENT_UUID_LEN as u128 {
        return Err(String::from_str("Invalid client_uuid"));
    }
    let id = trimmed(req.model_id.as_str());
    if utf8_len(id.as_str()) > MAX_MODEL_ID_LEN as u128 {
        return Err(String::from_str("Model name must be 100 characters or less"));
    }
    if !is_valid_model_id(id.as_str()) {
        return Err(String::from_str("Model name contains invalid characters"));
    }
    Ok(id)
}

/// The model ID that the vote form hands on is one that the JSON API's
/// validation accepts unchanged, and the one it makes of the form's field:
/// both paths store only well-formed, trimmed IDs of at most 100 bytes.
pub proof fn law_vote_form_id_passes_validation(client_uuid: Seq<char>, model_id: Seq<char>)
    ensures
        vote_form_check(client_uuid, model_id) matches Ok(id) ==> {
            &&& model_id_check(model_id) == Ok::<Seq<char>, Seq<char>>(id)
            &&& model_id_check(id) == Ok::<Seq<char>, Seq<char>>(id)
        },
{
    if let Ok(id) = vote_form_check(client_uuid, model_id) {
        crate::routes::api::law_validated_model_id_is_stable(model_id);
    }
}

/// The vote form accepts a vote exactly when the client UUID is given and
/// takes at most 64 bytes and the JSON API accepts the model ID; it then
/// votes for the ID that the JSON API would.
pub proof fn law_vote_form_accepted_iff_valid(client_uuid: Seq<char>, model_id: Seq<char>)
    ensures
        vote_form_check(client_uuid, model_id) is Ok <==> (client_uuid.len() > 0 && utf8(
            client_uuid,
        ).len() <= 64 && model_id_check(model_id) is Ok),
        vote_form_check(client_uuid, model_id) is Ok ==> vote_form_check(client_uuid, model_id)
            == model_id_check(model_id),
{
    law_trim_drops_only_outer_space(model_id);
}

/// The message of the failed result that answers a refused vote: the same
/// text as the JSON API's error.
pub fn vote_refusal_message(r: &VoteRefusal, size_gb_text: &str) -> (m: String)
    ensures
        m@ == vote_refusal_answer(*r, size_gb_text@).1,
{
    vote_refusal_text(r, size_gb_text)
}

/// What the model form is checked for, after trimming the model ID: it
/// must be given, at most 100 bytes long, and well formed. Gives the
/// trimmed ID, or the message of the failed result.
pub open spec fn model_form_check(input: Seq<char>) -> Result<Seq<char>, Seq<char>> {
    let id = trim(input);
    if id.len() == 0 {
        Err("Model name is required"@)
    } else if utf8(id).len() > MAX_MODEL_ID_LEN {
        Err("Model name must be 100 characters or less"@)
    } else if !model_id_well_formed(id) {
        Err("Model name contains invalid characters (allowed: alphanumeric, - _ . /)"@)
    } else {
        Ok(id)
    }
}

/// The model form accepts exactly the model IDs that the JSON API accepts,
/// and hands on the same trimmed ID.
pub proof fn law_model_form_agrees_with_api(input: Seq<char>)
    ensures
        model_form_check(input) is Ok <==> model_id_check(input) is Ok,
        model_form_check(input) is Ok ==> model_form_check(input) == model_id_check(input),
{
}

/// Checks the model form's model ID; gives the trimmed ID.
pub fn check_model_form(model_id: &str) -> (r: Result<String, String>)
    ensures
        match model_form_check(model_id@) {
            Ok(id) => r matches Ok(s) && s@ == id,
            Err(m) => r matches Err(s) && s@ == m,
        },
{
    let id = trimmed(model_id);
    if id.as_str().unicode_len() == 0 {
        return Err(String::from_str("Model name is required"));
    }
    if utf8_len(id.as_str()) > MAX_MODEL_ID_LEN as u128 {
        return Err(String::from_str("Model name must be 100 characters or less"));
    }
    if !is_valid_model_id(id.as_str()) {
        return Err(
            String::from_str(
                "Model name contains invalid characters (allowed: alphanumeric, - _ . /)",
            ),
        );
    }
    Ok(id)
}

/// The message of the failed result that answers a refused submission.
pub open spec fn submit_refusal_text(r: SubmitRefusal, size_gb: Seq<char>) -> Seq<char> {
    match r {
        SubmitRefusal::BoardFull => "Maximum 50 models allowed in the leaderboard"@,
        SubmitRefusal::AlreadyExists => "Model already exists"@,
        SubmitRefusal::AlreadyDelivered => "This model has already been abliterated"@,
        SubmitRefusal::DailyLimitReached => "Rate limit: You can only add 1 model per day"@,
        SubmitRefusal::NotOnHf(e) => e.text(size_gb),
        SubmitRefusal::BadHfLink(e) => e.text(size_gb),
    }
}

/// The message of the failed result that answers a refused submission.
pub fn submit_refusal_message(r: &SubmitRefusal, size_gb_text: &str) -> (m: String)
    ensures
        m@ == submit_refusal_text(*r, size_gb_text@),
{
    match r {
        SubmitRefusal::BoardFull => String::from_str("Maximum 50 models allowed in the leaderboard"),
        SubmitRefusal::AlreadyExists => String::from_str("Model already exists"),
        SubmitRefusal::AlreadyDelivered => String::from_str(
            "This model has already been abliterated",
        ),
        SubmitRefusal::DailyLimitReached => String::from_str(
            "Rate limit: You can only add 1 model per day",
        ),
        SubmitRefusal::NotOnHf(e) => e.message(size_gb_text),
        SubmitRefusal::BadHfLink(e) => e.message(size_gb_text),
    }
}

/// The message of the result that answers a submitted model.
pub fn submitted_message(model_id: &str) -> (m: String)
    ensures
        m@ == "Model '"@ + model_id@ + "' submitted for voting"@,
{
    let mut m = String::from_str("Model '");
    m.append(model_id);
    m.append("' submitted for voting");
    m
}

/// The number of pages of deliveries that the main page offers: at least
/// one, even when there is no delivery; `None` when the count is too large
/// to page.
pub fn index_page_count(total_deliveries: i64) -> (r: Option<i64>)
    requires
        total_deliveries >= 0,
    ensures
        r matches Some(n) ==> n == if (total_deliveries + DELIVERIES_PER_PAGE - 1) / (
        DELIVERIES_PER_PAGE as int) < 1 {
            1
        } else {
            (total_deliveries + DELIVERIES_PER_PAGE - 1) / (DELIVERIES_PER_PAGE as int)
        },
        r is None <==> total_deliveries + DELIVERIES_PER_PAGE - 1 > i64::MAX,
{
    match total_pages(total_deliveries, DELIVERIES_PER_PAGE) {
        Some(n) => if n < 1 {
            Some(1)
        } else {
            Some(n)
        },
        None => None,
    }
}

} // verus!
