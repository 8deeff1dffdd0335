//! Rows read from the database, request payloads and response bodies.

use vstd::prelude::*;

verus! {

/// Row type for the `models` table.
#[derive(Debug, Clone)]
pub struct ModelRow {
    pub model_id: String,
    pub vote_count: i64,
    pub hf_link: Option<String>,
}

/// Payload for casting a vote.
#[derive(Debug, Clone)]
pub struct VoteRequest {
    pub client_uuid: String,
    pub model_id: String,
}

/// Payload for creating a model (user or admin).
#[derive(Debug, Clone)]
pub struct CreateModelRequest {
    pub model_id: String,
    pub hf_link: Option<String>,
}

/// Payload for updating a model (admin only).
#[derive(Debug, Clone)]
pub struct UpdateModelRequest {
    pub hf_link: Option<String>,
}

/// A single entry in the leaderboard JSON response.
#[derive(Debug, Clone)]
pub struct LeaderboardEntry {
    pub model_id: String,
    pub vote_count: i64,
    pub hf_link: Option<String>,
}

/// Successful vote response.
#[derive(Debug, Clone)]
pub struct VoteResponse {
    pub message: String,
}

/// Successful model creation response.
#[derive(Debug, Clone)]
pub struct CreateModelResponse {
    pub message: String,
    pub model_id: String,
}

impl From<ModelRow> for LeaderboardEntry {
    fn from(row: ModelRow) -> (r: Self) {
        LeaderboardEntry { model_id: row.model_id, vote_count: row.vote_count, hf_link: row.hf_link }
    }
}

impl vstd::std_specs::convert::FromSpecImpl<ModelRow> for LeaderboardEntry {
    open spec fn obeys_from_spec() -> bool {
        true
    }

    open spec fn from_spec(row: ModelRow) -> LeaderboardEntry {
        LeaderboardEntry { model_id: row.model_id, vote_count: row.vote_count, hf_link: row.hf_link }
    }
}

impl VoteResponse {
    /// The answer to a recorded vote.
    pub fn recorded() -> (r: VoteResponse)
        ensures
            r.message@ == "Vote recorded successfully"@,
    {
        VoteResponse { message: String::from_str("Vote recorded successfully") }
    }
}

impl CreateModelResponse {
    /// The answer to a model that a user submitted.
    pub fn submitted(model_id: String) -> (r: CreateModelResponse)
        ensures
            r.message@ == "Model submitted for voting"@,
            r.model_id == model_id,
    {
        CreateModelResponse { message: String::from_str("Model submitted for voting"), model_id }
    }

    /// The answer to a model that the admin created.
    pub fn created_by_admin(model_id: String) -> (r: CreateModelResponse)
        ensures
            r.message@ == "Model created successfully"@,
            r.model_id == model_id,
    {
        CreateModelResponse { message: String::from_str("Model created successfully"), model_id }
    }
}

/// The sum of the vote counts of the entries.
pub open spec fn votes_sum(entries: Seq<LeaderboardEntry>) -> int
    decreases entries.len(),
{
    if entries.len() == 0 {
        0
    } else {
        votes_sum(entries.drop_last()) + entries.last().vote_count
    }
}

/// The votes of a board are the votes of its parts added up, so the order
/// in which the entries are listed does not change the total.
pub proof fn law_votes_sum_add(a: Seq<LeaderboardEntry>, b: Seq<LeaderboardEntry>)
    ensures
        votes_sum(a + b) == votes_sum(a) + votes_sum(b),
        votes_sum(a + b) == votes_sum(b + a),
{
    lemma_votes_sum_add(a, b);
    lemma_votes_sum_add(b, a);
}

/// The sum over two parts is the sum of the sums.
proof fn lemma_votes_sum_add(a: Seq<LeaderboardEntry>, b: Seq<LeaderboardEntry>)
    ensures
        votes_sum(a + b) == votes_sum(a) + votes_sum(b),
    decreases b.len(),
{
    if b.len() == 0 {
        assert(a + b =~= a);
    } else {
        assert((a + b).drop_last() =~= a + b.drop_last());
        assert((a + b).last() == b.last());
        lemma_votes_sum_add(a, b.drop_last());
    }
}

/// The total number of votes on the board, or `None` when the sum leaves
/// the range of `i64` at some point while it is added up in order.
pub fn total_votes(entries: &Vec<LeaderboardEntry>) -> (r: Option<i64>)
    ensures
        r matches Some(t) ==> t == votes_sum(entries@),
        r is None <==> exists|k: int|
            0 < k <= entries@.len() && !(i64::MIN <= #[trigger] votes_sum(entries@.take(k))
                <= i64::MAX),
{
    let n = entries.len();
    let mut total: i64 = 0;
    let mut i: usize = 0;
    while i < n
        invariant
            i <= n,
            n == entries@.len(),
            total == votes_sum(entries@.take(i as int)),
            forall|k: int|
                0 < k <= i ==> i64::MIN <= #[trigger] votes_sum(entries@.take(k)) <= i64::MAX,
        decreases n - i,
    {
        assert(entries@.take(i + 1).drop_last() =~= entries@.take(i as int));
        match total.checked_add(entries[i].vote_count) {
            Some(t) => {
                total = t;
            },
            None => {
                assert(!(i64::MIN <= votes_sum(entries@.take(i + 1)) <= i64::MAX));
                return None;
            },
        }
        i = i + 1;
    }
    assert(entries@.take(n as int) =~= entries@);
    Some(total)
}

} // verus!
