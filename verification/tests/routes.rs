use votablit::constants::MAX_MODELS;
use votablit::delivery::{DeliveryOutcome, DeliveryProgress, DeliveryStep, DeliveryTask};
use votablit::error::AppError;
use votablit::hf::HfError;
use votablit::models::{
    total_votes, CreateModelResponse, LeaderboardEntry, ModelRow, VoteRequest, VoteResponse,
};
use votablit::queries::DeliverySort;
use votablit::routes::api::{
    admin_update_link, delivery_deletion_outcome, delivery_model_missing, model_deletion_outcome,
    page_offset, prune_message, submit_refusal_error, total_pages, validate_delivery,
    validate_model_id, validate_vote_request, vote_refusal_error, PaginationParams,
};
use votablit::routes::pages::{
    check_model_form, check_vote_form, index_page_count, submit_refusal_message,
    submitted_message, vote_refusal_message,
};
use votablit::submission::{SubmitOutcome, SubmitProgress, SubmitRefusal, SubmitStep, SubmitTask};
use votablit::voting::{VoteOutcome, VoteProgress, VoteRefusal, VoteStep, VoteTask};

// ---------------------------------------------------------------------------
// Model IDs
// ---------------------------------------------------------------------------

fn bad_request_text(r: Result<String, AppError>) -> String {
    match r {
        Err(AppError::BadRequest(m)) => m,
        other => panic!("expected a bad request, got {:?}", other),
    }
}

#[test]
fn validate_model_id_trims() {
    assert_eq!(validate_model_id("  org/model \n").unwrap(), "org/model");
}

#[test]
fn validate_model_id_empty_is_required() {
    assert_eq!(bad_request_text(validate_model_id("   ")), "model_id is required");
}

#[test]
fn validate_model_id_too_long() {
    let id = "a".repeat(101);
    assert_eq!(
        bad_request_text(validate_model_id(&id)),
        "model_id must be 100 characters or less"
    );
    assert!(validate_model_id(&"a".repeat(100)).is_ok());
}

#[test]
fn validate_model_id_length_counts_bytes() {
    // 51 two-byte characters: 102 bytes, refused for length before charset.
    let id = "é".repeat(51);
    assert_eq!(
        bad_request_text(validate_model_id(&id)),
        "model_id must be 100 characters or less"
    );
}

#[test]
fn validate_model_id_bad_characters() {
    assert_eq!(
        bad_request_text(validate_model_id("<b>")),
        "model_id contains invalid characters (allowed: alphanumeric, - _ . /)"
    );
}

#[test]
fn validated_model_id_validates_again() {
    let once = validate_model_id("\t Qwen/Qwen2.5-7B ").unwrap();
    assert_eq!(validate_model_id(&once).unwrap(), once);
}

#[test]
fn vote_request_checks() {
    let req = |u: &str, m: &str| VoteRequest { client_uuid: u.to_string(), model_id: m.to_string() };
    assert_eq!(bad_request_text(validate_vote_request(&req("", ""))), "client_uuid is required");
    assert_eq!(
        bad_request_text(validate_vote_request(&req(&"u".repeat(65), "m"))),
        "client_uuid must be 64 characters or less"
    );
    assert_eq!(validate_vote_request(&req(&"u".repeat(64), " m ")).unwrap(), "m");
    assert_eq!(bad_request_text(validate_vote_request(&req("u", ""))), "model_id is required");
}

// ---------------------------------------------------------------------------
// Votes
// ---------------------------------------------------------------------------

struct VoteWorldValues {
    already_voted: bool,
    ip_voted_for_model: bool,
    ip_votes_last_hour: i64,
    model_exists: bool,
    delivered: bool,
    model_count: i64,
    hf_ok: bool,
}

fn fresh_world() -> VoteWorldValues {
    VoteWorldValues {
        already_voted: false,
        ip_voted_for_model: false,
        ip_votes_last_hour: 0,
        model_exists: false,
        delivered: false,
        model_count: 0,
        hf_ok: true,
    }
}

fn run_vote(validate_hf: bool, w: &VoteWorldValues) -> (VoteStep, Vec<VoteTask>) {
    let mut p = VoteProgress::start(validate_hf);
    let mut tasks = Vec::new();
    loop {
        match p.next_step() {
            VoteStep::Run(t) => {
                tasks.push(t);
                p.record(match t {
                    VoteTask::CheckVoted => VoteOutcome::Voted(w.already_voted),
                    VoteTask::CheckIpVotedForModel => VoteOutcome::IpVotedForModel(w.ip_voted_for_model),
                    VoteTask::CountIpVotes => VoteOutcome::IpVotes(w.ip_votes_last_hour),
                    VoteTask::CheckModelExists => VoteOutcome::ModelExists(w.model_exists),
                    VoteTask::CheckDelivered => VoteOutcome::Delivered(w.delivered),
                    VoteTask::CountModels => VoteOutcome::ModelCount(w.model_count),
                    VoteTask::ValidateOnHf => VoteOutcome::HfChecked(if w.hf_ok {
                        Ok(())
                    } else {
                        Err(HfError::ModelNotFound)
                    }),
                    VoteTask::CreateModel => VoteOutcome::ModelCreated,
                    VoteTask::RecordVote => VoteOutcome::VoteRecorded,
                    VoteTask::Commit => VoteOutcome::Committed,
                });
            }
            step => return (step, tasks),
        }
        assert!(tasks.len() <= 10, "a vote needs at most ten tasks");
    }
}

#[test]
fn vote_creates_model_and_records_vote() {
    let (step, tasks) = run_vote(false, &fresh_world());
    assert!(matches!(step, VoteStep::Done));
    assert_eq!(
        tasks,
        vec![
            VoteTask::CheckVoted,
            VoteTask::CheckIpVotedForModel,
            VoteTask::CountIpVotes,
            VoteTask::CheckModelExists,
            VoteTask::CheckDelivered,
            VoteTask::CountModels,
            VoteTask::CreateModel,
            VoteTask::RecordVote,
            VoteTask::Commit,
        ]
    );
    assert_eq!(VoteResponse::recorded().message, "Vote recorded successfully");
}

#[test]
fn vote_for_existing_model_skips_creation() {
    let w = VoteWorldValues { model_exists: true, ip_votes_last_hour: 2, ..fresh_world() };
    let (step, tasks) = run_vote(true, &w);
    assert!(matches!(step, VoteStep::Done));
    assert!(!tasks.contains(&VoteTask::CreateModel));
    assert!(!tasks.contains(&VoteTask::ValidateOnHf));
    assert_eq!(tasks[tasks.len() - 2..], [VoteTask::RecordVote, VoteTask::Commit]);
}

#[test]
fn vote_duplicate_rejected() {
    let w = VoteWorldValues { already_voted: true, ..fresh_world() };
    let (step, tasks) = run_vote(false, &w);
    match step {
        VoteStep::Refuse(r) => {
            let e = vote_refusal_error(&r, "");
            assert_eq!(e.status_code(), 409);
            assert_eq!(e.message(), "You have already voted for this model");
            assert!(vote_refusal_message(&r, "").contains("already voted"));
        }
        _ => panic!("duplicate vote accepted"),
    }
    assert_eq!(tasks, vec![VoteTask::CheckVoted]);
}

#[test]
fn vote_same_ip_same_model_rejected() {
    let w = VoteWorldValues { ip_voted_for_model: true, ..fresh_world() };
    match run_vote(false, &w).0 {
        VoteStep::Refuse(r) => assert_eq!(vote_refusal_error(&r, "").status_code(), 429),
        _ => panic!("vote accepted"),
    }
}

#[test]
fn vote_rate_limit_max_3_per_ip_per_hour() {
    for n in 0..3 {
        let w = VoteWorldValues { ip_votes_last_hour: n, ..fresh_world() };
        assert!(matches!(run_vote(false, &w).0, VoteStep::Done), "vote {n} should succeed");
    }
    let w = VoteWorldValues { ip_votes_last_hour: 3, ..fresh_world() };
    match run_vote(false, &w).0 {
        VoteStep::Refuse(r) => {
            assert!(matches!(r, VoteRefusal::HourlyLimitReached));
            let e = vote_refusal_error(&r, "");
            assert_eq!(e.status_code(), 429);
            assert_eq!(e.message(), "Rate limit: Maximum 3 votes per hour per IP");
        }
        _ => panic!("fourth vote accepted"),
    }
}

#[test]
fn vote_for_new_model_on_full_board_rejected() {
    let w = VoteWorldValues { model_count: MAX_MODELS, ..fresh_world() };
    let (step, tasks) = run_vote(false, &w);
    match step {
        VoteStep::Refuse(r) => {
            assert!(matches!(r, VoteRefusal::BoardFull));
            let e = vote_refusal_error(&r, "");
            assert_eq!(e.status_code(), 403);
            assert_eq!(e.message(), "Maximum 50 models allowed on the board");
        }
        _ => panic!("a 51st model was put on the board by a vote"),
    }
    assert!(!tasks.contains(&VoteTask::CreateModel));
    // A vote for a model already on the board is not limited by the cap.
    let w = VoteWorldValues { model_count: MAX_MODELS, model_exists: true, ..fresh_world() };
    assert!(matches!(run_vote(false, &w).0, VoteStep::Done));
}

#[test]
fn vote_for_delivered_model_rejected() {
    let w = VoteWorldValues { delivered: true, ..fresh_world() };
    match run_vote(true, &w).0 {
        VoteStep::Refuse(r) => {
            let e = vote_refusal_error(&r, "");
            assert_eq!(e.status_code(), 409);
            assert_eq!(e.message(), "This model has already been abliterated");
        }
        _ => panic!("vote accepted"),
    }
}

#[test]
fn vote_for_nonexistent_hf_model_rejected() {
    let w = VoteWorldValues { hf_ok: false, ..fresh_world() };
    let (step, tasks) = run_vote(true, &w);
    match step {
        VoteStep::Refuse(r) => {
            let e = vote_refusal_error(&r, "");
            assert_eq!(e.status_code(), 400);
            assert!(e.message().contains("not found"));
        }
        _ => panic!("vote accepted"),
    }
    assert!(!tasks.contains(&VoteTask::CreateModel));
    assert!(!tasks.contains(&VoteTask::RecordVote));
}

#[test]
fn vote_form_checks() {
    let req = |u: &str, m: &str| VoteRequest { client_uuid: u.to_string(), model_id: m.to_string() };
    assert_eq!(check_vote_form(&req("", "m")).unwrap_err(), "client_uuid and model_id are required");
    assert_eq!(check_vote_form(&req("u", "")).unwrap_err(), "client_uuid and model_id are required");
    assert_eq!(check_vote_form(&req(&"u".repeat(65), "m")).unwrap_err(), "Invalid client_uuid");
    assert_eq!(
        check_vote_form(&req("u", "a b")).unwrap_err(),
        "Model name contains invalid characters"
    );
    assert_eq!(
        check_vote_form(&req("u", "   ")).unwrap_err(),
        "Model name contains invalid characters"
    );
    assert_eq!(
        check_vote_form(&req("u", &"m".repeat(101))).unwrap_err(),
        "Model name must be 100 characters or less"
    );
    assert_eq!(check_vote_form(&req("user-1", " page-model ")).unwrap(), "page-model");
    assert_eq!(check_vote_form(&req("u1", " m1")).unwrap(), "m1");
}

// ---------------------------------------------------------------------------
// Model submissions
// ---------------------------------------------------------------------------

struct SubmitWorldValues {
    model_count: i64,
    model_exists: bool,
    delivered: bool,
    recent_creation: bool,
    hf_ok: bool,
    link_ok: bool,
}

fn empty_board() -> SubmitWorldValues {
    SubmitWorldValues {
        model_count: 0,
        model_exists: false,
        delivered: false,
        recent_creation: false,
        hf_ok: true,
        link_ok: true,
    }
}

fn run_submit(mut p: SubmitProgress, w: &SubmitWorldValues) -> (SubmitStep, Vec<SubmitTask>) {
    let mut tasks = Vec::new();
    loop {
        match p.next_step() {
            SubmitStep::Run(t) => {
                tasks.push(t);
                p.record(match t {
                    SubmitTask::CountModels => SubmitOutcome::ModelCount(w.model_count),
                    SubmitTask::CheckModelExists => SubmitOutcome::ModelExists(w.model_exists),
                    SubmitTask::CheckDelivered => SubmitOutcome::Delivered(w.delivered),
                    SubmitTask::CheckRecentCreation => SubmitOutcome::RecentCreation(w.recent_creation),
                    SubmitTask::ValidateOnHf => SubmitOutcome::HfChecked(if w.hf_ok {
                        Ok(())
                    } else {
                        Err(HfError::ModelNotFound)
                    }),
                    SubmitTask::ValidateHfLink => SubmitOutcome::LinkChecked(if w.link_ok {
                        Ok(())
                    } else {
                        Err(HfError::InvalidUrl)
                    }),
                    SubmitTask::CreateModel => SubmitOutcome::ModelCreated,
                });
            }
            step => return (step, tasks),
        }
        assert!(tasks.len() <= 7);
    }
}

#[test]
fn create_model_via_json_api() {
    let (step, tasks) = run_submit(SubmitProgress::for_user(false), &empty_board());
    assert!(matches!(step, SubmitStep::Done));
    assert_eq!(
        tasks,
        vec![
            SubmitTask::CountModels,
            SubmitTask::CheckModelExists,
            SubmitTask::CheckDelivered,
            SubmitTask::CheckRecentCreation,
            SubmitTask::CreateModel,
        ]
    );
    let resp = CreateModelResponse::submitted("json/model-1".to_string());
    assert_eq!(resp.model_id, "json/model-1");
    assert_eq!(resp.message, "Model submitted for voting");
}

#[test]
fn create_model_user_max_models() {
    let w = SubmitWorldValues { model_count: MAX_MODELS, ..empty_board() };
    match run_submit(SubmitProgress::for_user(true), &w).0 {
        SubmitStep::Refuse(r) => {
            let e = submit_refusal_error(&r, "");
            assert_eq!(e.status_code(), 403);
            assert_eq!(e.message(), "Maximum 50 models allowed on the board");
            assert_eq!(submit_refusal_message(&r, ""), "Maximum 50 models allowed in the leaderboard");
        }
        _ => panic!("51st model accepted"),
    }
}

#[test]
fn create_model_json_api_duplicate() {
    let w = SubmitWorldValues { model_count: 1, model_exists: true, ..empty_board() };
    match run_submit(SubmitProgress::for_user(false), &w).0 {
        SubmitStep::Refuse(r) => {
            let e = submit_refusal_error(&r, "");
            assert_eq!(e.status_code(), 409);
            assert_eq!(e.message(), "Model already exists");
        }
        _ => panic!("duplicate accepted"),
    }
}

#[test]
fn create_model_one_per_ip_per_day() {
    let w = SubmitWorldValues { recent_creation: true, ..empty_board() };
    match run_submit(SubmitProgress::for_user(false), &w).0 {
        SubmitStep::Refuse(r) => {
            let e = submit_refusal_error(&r, "");
            assert_eq!(e.status_code(), 429);
            assert_eq!(e.message(), "Rate limit: You can only add 1 model per day");
        }
        _ => panic!("second model of the day accepted"),
    }
    // The admin is not limited per IP.
    let (step, tasks) = run_submit(SubmitProgress::for_admin(false, &None), &w);
    assert!(matches!(step, SubmitStep::Done));
    assert!(!tasks.contains(&SubmitTask::CheckRecentCreation));
}

#[test]
fn submit_nonexistent_hf_model_rejected() {
    let w = SubmitWorldValues { hf_ok: false, ..empty_board() };
    match run_submit(SubmitProgress::for_user(true), &w).0 {
        SubmitStep::Refuse(r) => {
            let e = submit_refusal_error(&r, "");
            assert_eq!(e.status_code(), 400);
            assert!(e.message().contains("not found"));
        }
        _ => panic!("model accepted"),
    }
}

#[test]
fn admin_link_checked_only_when_given() {
    let w = SubmitWorldValues { link_ok: false, ..empty_board() };
    let (step, tasks) = run_submit(SubmitProgress::for_admin(true, &Some("".to_string())), &w);
    assert!(matches!(step, SubmitStep::Done));
    assert!(!tasks.contains(&SubmitTask::ValidateHfLink));
    let (step, _) = run_submit(SubmitProgress::for_admin(true, &Some(" x ".to_string())), &w);
    match step {
        SubmitStep::Refuse(r) => assert!(matches!(r, SubmitRefusal::BadHfLink(HfError::InvalidUrl))),
        _ => panic!("bad link accepted"),
    }
}

#[test]
fn model_form_checks() {
    assert_eq!(check_model_form("user/model-1 ").unwrap(), "user/model-1");
    assert_eq!(check_model_form(" ").unwrap_err(), "Model name is required");
    assert_eq!(
        check_model_form(&"x".repeat(101)).unwrap_err(),
        "Model name must be 100 characters or less"
    );
    assert_eq!(
        check_model_form("a;b").unwrap_err(),
        "Model name contains invalid characters (allowed: alphanumeric, - _ . /)"
    );
    assert_eq!(submitted_message("user/model-1"), "Model 'user/model-1' submitted for voting");
}

// ---------------------------------------------------------------------------
// Deliveries
// ---------------------------------------------------------------------------

#[test]
fn pagination_defaults_and_clamping() {
    let p = PaginationParams { page: None, per_page: None, sort: None };
    assert_eq!(p.page_number(), 1);
    assert_eq!(p.page_size(), 20);
    assert_eq!(p.delivery_sort(), DeliverySort::Date);
    assert_eq!(p.sort_label(), "date");
    let p = PaginationParams { page: Some(-4), per_page: Some(1000), sort: Some("kl".to_string()) };
    assert_eq!(p.page_number(), 1);
    assert_eq!(p.page_size(), 100);
    assert_eq!(p.delivery_sort(), DeliverySort::KlDivergence);
    let p = PaginationParams { page: Some(3), per_page: Some(0), sort: Some("refusal".to_string()) };
    assert_eq!(p.page_number(), 3);
    assert_eq!(p.page_size(), 1);
    assert_eq!(p.delivery_sort(), DeliverySort::Refusal);
    let p = PaginationParams { page: None, per_page: None, sort: Some("KL".to_string()) };
    assert_eq!(p.delivery_sort(), DeliverySort::Date);
    assert_eq!(p.sort_label(), "KL");
}

#[test]
fn page_arithmetic() {
    assert_eq!(page_offset(1, 20), Some(0));
    assert_eq!(page_offset(3, 10), Some(20));
    assert_eq!(page_offset(i64::MAX, 100), None);
    assert_eq!(total_pages(57, 20), Some(3));
    assert_eq!(total_pages(60, 20), Some(3));
    assert_eq!(total_pages(0, 20), Some(0));
    assert_eq!(total_pages(i64::MAX, 2), None);
    assert_eq!(index_page_count(0), Some(1));
    assert_eq!(index_page_count(57), Some(3));
}

#[test]
fn delivery_checks() {
    let ok = validate_delivery(" deliver-me ", " https://hf.co/test ", false, 1, 128).unwrap();
    assert_eq!(ok, ("deliver-me".to_string(), "https://hf.co/test".to_string()));
    let text = |r: Result<(String, String), AppError>| match r {
        Err(AppError::BadRequest(m)) => m,
        other => panic!("unexpected {:?}", other),
    };
    assert_eq!(text(validate_delivery("", "https://x", false, 0, 1)), "model_id is required");
    assert_eq!(text(validate_delivery("m", "  ", false, 0, 1)), "hf_link is required");
    assert_eq!(text(validate_delivery("m", "http://x", false, 0, 1)), "hf_link must be an HTTPS URL");
    assert_eq!(text(validate_delivery("m", "https://x", true, 0, 1)), "kl_divergence must be non-negative");
    assert_eq!(
        text(validate_delivery("m", "https://x", false, -1, 1)),
        "refused must be >= 0 and total_prompts must be > 0"
    );
    assert_eq!(
        text(validate_delivery("m", "https://x", false, 0, 0)),
        "refused must be >= 0 and total_prompts must be > 0"
    );
    assert_eq!(text(validate_delivery("m", "https://x", false, 2, 1)), "refused cannot exceed total_prompts");
}

/// Drives a delivery; gives its last step and the tasks performed, as
/// `(name, model_id, vote_count)`.
fn run_delivery(on_board: Option<(String, i64)>) -> (DeliveryStep, Vec<(&'static str, String, i64)>) {
    let mut p = DeliveryProgress::start();
    let mut tasks = Vec::new();
    loop {
        match p.next_step() {
            DeliveryStep::Run(DeliveryTask::FindModel) => {
                tasks.push(("find", String::new(), 0));
                p.record(DeliveryOutcome::Found(on_board.clone()));
            }
            DeliveryStep::Run(DeliveryTask::InsertDelivery { model_id, vote_count }) => {
                tasks.push(("insert", model_id, vote_count));
                p.record(DeliveryOutcome::Inserted);
            }
            DeliveryStep::Run(DeliveryTask::RemoveModel { model_id }) => {
                tasks.push(("remove", model_id, 0));
                p.record(DeliveryOutcome::Removed);
            }
            step => return (step, tasks),
        }
        assert!(tasks.len() <= 3);
    }
}

#[test]
fn admin_deliver_nonexistent_model() {
    let (step, tasks) = run_delivery(None);
    assert!(matches!(step, DeliveryStep::ModelNotFound));
    assert_eq!(tasks, vec![("find", String::new(), 0)]);
    let e = delivery_model_missing();
    assert_eq!(e.status_code(), 404);
    assert!(e.message().to_lowercase().contains("not found"));
}

#[test]
fn delivered_model_leaves_the_board() {
    let (step, tasks) = run_delivery(Some(("Deliver-Me".to_string(), 5)));
    assert!(matches!(step, DeliveryStep::Done));
    assert_eq!(
        tasks,
        vec![
            ("find", String::new(), 0),
            ("insert", "Deliver-Me".to_string(), 5),
            ("remove", "Deliver-Me".to_string(), 0),
        ]
    );
}

// ---------------------------------------------------------------------------
// Board
// ---------------------------------------------------------------------------

#[test]
fn leaderboard_entry_from_row() {
    let row = ModelRow { model_id: "m1".to_string(), vote_count: 2, hf_link: Some("https://hf.co/test".to_string()) };
    let entry = LeaderboardEntry::from(row);
    assert_eq!(entry.model_id, "m1");
    assert_eq!(entry.vote_count, 2);
    assert_eq!(entry.hf_link.as_deref(), Some("https://hf.co/test"));
}

#[test]
fn total_votes_sums_the_board() {
    let e = |v: i64| LeaderboardEntry { model_id: "m".to_string(), vote_count: v, hf_link: None };
    assert_eq!(total_votes(&vec![]), Some(0));
    assert_eq!(total_votes(&vec![e(2), e(1), e(0)]), Some(3));
    assert_eq!(total_votes(&vec![e(i64::MAX), e(1)]), None);
}

#[test]
fn error_status_codes() {
    let s = |e: AppError| e.status_code();
    assert_eq!(s(AppError::NotFound(String::new())), 404);
    assert_eq!(s(AppError::Unauthorized(String::new())), 401);
    assert_eq!(s(AppError::BadRequest(String::new())), 400);
    assert_eq!(s(AppError::TooManyRequests(String::new())), 429);
    assert_eq!(s(AppError::Conflict(String::new())), 409);
    assert_eq!(s(AppError::Forbidden(String::new())), 403);
    assert_eq!(s(AppError::Internal(String::new())), 500);
    assert_eq!(AppError::from_database_error().message(), "Database error");
    assert_eq!(AppError::Conflict("x".to_string()).message(), "x");
}

#[test]
fn delivery_sort_orders() {
    assert_eq!(DeliverySort::Date.order_by(), "delivered_at DESC");
    assert_eq!(DeliverySort::KlDivergence.order_by(), "kl_divergence ASC");
    assert_eq!(
        DeliverySort::Refusal.order_by(),
        "(CAST(refused AS REAL) / MAX(total_prompts, 1)) ASC"
    );
    assert_eq!(DeliverySort::default(), DeliverySort::Date);
}
