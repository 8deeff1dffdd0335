//! Limits of the leaderboard.

use vstd::prelude::*;

verus! {

/// Maximum number of models allowed in the leaderboard.
pub const MAX_MODELS: i64 = 50;

/// Maximum length of a model ID, in bytes of its UTF-8 encoding.
pub const MAX_MODEL_ID_LEN: usize = 100;

/// Maximum number of votes per IP address per hour.
pub const MAX_VOTES_PER_HOUR: i64 = 3;

/// Maximum allowed model size in bytes (70 GB).
pub const MAX_MODEL_SIZE_BYTES: u64 = 75161927680;

/// Timeout for HuggingFace API requests in seconds.
pub const HF_REQUEST_TIMEOUT_SECS: u64 = 15;

/// Default number of deliveries per page.
pub const DELIVERIES_PER_PAGE: i64 = 20;

} // verus!
