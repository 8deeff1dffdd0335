//! Checks of models against the HuggingFace Hub: reading the `org/model` ID
//! out of a link, and judging the answer of the Hub's file-tree API.

use vstd::prelude::*;

use crate::constants::MAX_MODEL_SIZE_BYTES;
use crate::error::AppError;
use crate::text::{char_vec, ends_with_text, finishes_with, same_text};

verus! {

/// Error type specific to HuggingFace validation.
#[derive(Debug)]
pub enum HfError {
    /// The URL is not a valid HuggingFace link.
    InvalidUrl,
    /// The model does not exist on HuggingFace.
    ModelNotFound,
    /// Could not reach the HuggingFace API.
    ReachabilityError(String),
    /// The model exceeds the maximum allowed size; `total_bytes` is the sum
    /// of the sizes of its files.
    TooLarge { total_bytes: u64 },
    /// The model is missing config.json (likely GGUF or non-standard format).
    MissingConfigJson,
}

impl HfError {
    /// The text of the error; `size_gb` is the size in GB, written with one
    /// decimal, that a `TooLarge` error reports.
    pub open spec fn text(&self, size_gb: Seq<char>) -> Seq<char> {
        match self {
            HfError::InvalidUrl => "Invalid HuggingFace URL"@,
            HfError::ModelNotFound => "Model not found on HuggingFace"@,
            HfError::ReachabilityError(e) => "Could not reach HuggingFace: "@ + e@,
            HfError::TooLarge { .. } => "Model is "@ + size_gb + " GB which exceeds the 70 GB limit"@,
            HfError::MissingConfigJson => "Model is missing config.json — only full model architectures are allowed (no GGUF or quantized-only formats)"@,
        }
    }

    /// The text of the error, as the service shows it to clients.
    /// `size_gb_text` is the model size in GB written with one decimal
    /// (`{:.1}`); only a `TooLarge` error uses it.
    pub fn message(&self, size_gb_text: &str) -> (r: String)
        ensures
            r@ == self.text(size_gb_text@),
    {
        match self {
            HfError::InvalidUrl => String::from_str("Invalid HuggingFace URL"),
            HfError::ModelNotFound => String::from_str("Model not found on HuggingFace"),
            HfError::ReachabilityError(e) => {
                let mut r = String::from_str("Could not reach HuggingFace: ");
                r.append(e.as_str());
                r
            },
            HfError::TooLarge { .. } => {
                let mut r = String::from_str("Model is ");
                r.append(size_gb_text);
                r.append(" GB which exceeds the 70 GB limit");
                r
            },
            HfError::MissingConfigJson => String::from_str(
                "Model is missing config.json — only full model architectures are allowed (no GGUF or quantized-only formats)",
            ),
        }
    }

    /// A copy of the error.
    pub fn duplicate(&self) -> (r: HfError)
        ensures
            r == *self,
    {
        match self {
            HfError::InvalidUrl => HfError::InvalidUrl,
            HfError::ModelNotFound => HfError::ModelNotFound,
            HfError::ReachabilityError(e) => HfError::ReachabilityError(e.clone()),
            HfError::TooLarge { total_bytes } => HfError::TooLarge { total_bytes: *total_bytes },
            HfError::MissingConfigJson => HfError::MissingConfigJson,
        }
    }
}

impl AppError {
    /// Every HuggingFace validation failure is the client's to fix: a
    /// `BadRequest` that carries the text of the HuggingFace error.
    pub fn from_hf_error(err: &HfError, size_gb_text: &str) -> (r: AppError)
        ensures
            r.is_bad_request(err.text(size_gb_text@)),
    {
        AppError::BadRequest(err.message(size_gb_text))
    }
}

// ---------------------------------------------------------------------------
// Reading the model ID out of a HuggingFace link
// ---------------------------------------------------------------------------

/// The scheme, the host (when the URL has one) and the path of a parsed
/// URL.
#[derive(Debug)]
pub struct ParsedUrl {
    pub scheme: String,
    pub host: Option<String>,
    pub path: String,
}

impl DeepView for ParsedUrl {
    type V = (Seq<char>, Option<Seq<char>>, Seq<char>);

    open spec fn deep_view(&self) -> (Seq<char>, Option<Seq<char>>, Seq<char>) {
        (self.scheme@, self.host.deep_view(), self.path@)
    }
}

/// What `url::Url::parse` makes of `input`: `None` when it refuses it, else
/// the parsed URL's `scheme()`, `host_str()` and `path()`.
pub uninterp spec fn url_parts(input: Seq<char>) -> Option<
    (Seq<char>, Option<Seq<char>>, Seq<char>),
>;

/// Parses `input` with `url::Url::parse` and reads the scheme
/// (`Url::scheme`), host (`Url::host_str`) and path (`Url::path`) of the
/// result. The contract claims only that the outcome is the one that the
/// `url` crate computes for `input`, named `url_parts`; the WHATWG parsing
/// rules themselves are not restated.
#[verifier::external_body]
fn parse_url(input: &str) -> (r: Option<ParsedUrl>)
    ensures
        r.deep_view() == url_parts(input@),
{
    match url::Url::parse(input) {
        Ok(u) => Some(
            ParsedUrl {
                scheme: String::from(u.scheme()),
                host: u.host_str().map(String::from),
                path: String::from(u.path()),
            },
        ),
        Err(_) => None,
    }
}

/// Splits `rest` at `/`, continuing a piece `cur` that has begun; empty
/// pieces are left out.
pub open spec fn segments_from(rest: Seq<char>, cur: Seq<char>) -> Seq<Seq<char>>
    decreases rest.len(),
{
    if rest.len() == 0 {
        if cur.len() > 0 {
            seq![cur]
        } else {
            Seq::empty()
        }
    } else if rest[0] == '/' {
        (if cur.len() > 0 {
            seq![cur]
        } else {
            Seq::empty()
        }) + segments_from(rest.drop_first(), Seq::empty())
    } else {
        segments_from(rest.drop_first(), cur.push(rest[0]))
    }
}

/// The non-empty `/`-separated segments of a URL path, in order.
pub open spec fn path_segments(path: Seq<char>) -> Seq<Seq<char>> {
    segments_from(path, Seq::empty())
}

/// Whether `host` is a HuggingFace Hub domain: `huggingface.co` or
/// `hf.co`, or a subdomain of one of them.
pub open spec fn is_hf_host(host: Seq<char>) -> bool {
    ||| host == "huggingface.co"@
    ||| host == "hf.co"@
    ||| finishes_with(host, ".huggingface.co"@)
    ||| finishes_with(host, ".hf.co"@)
}

/// The `org/model` ID that a parsed link names, if it names one: the link
/// must be an `https` URL on a HuggingFace Hub domain, and the ID is made
/// of the first two segments of the path.
pub open spec fn model_id_of(parts: Option<(Seq<char>, Option<Seq<char>>, Seq<char>)>) -> Option<
    Seq<char>,
> {
    match parts {
        None => None,
        Some((scheme, host, path)) => {
            let h = match host {
                Some(h) => h,
                None => Seq::empty(),
            };
            let segs = path_segments(path);
            if scheme == "https"@ && is_hf_host(h) && segs.len() >= 2 {
                Some(segs[0] + "/"@ + segs[1])
            } else {
                None
            }
        },
    }
}

/// The non-empty `/`-separated segments of `path`.
pub fn path_segment_texts(path: &str) -> (r: Vec<String>)
    ensures
        r@.len() == path_segments(path@).len(),
        forall|k: int| 0 <= k < r@.len() ==> #[trigger] r@[k]@ == path_segments(path@)[k],
{
    let chars = char_vec(path);
    let n = chars.len();
    let mut out: Vec<String> = Vec::new();
    let ghost mut found: Seq<Seq<char>> = Seq::empty();
    let mut start: usize = 0;
    let mut i: usize = 0;
    assert(path@.skip(0) =~= path@);
    assert(path@.subrange(0, 0) =~= Seq::<char>::empty());
    while i < n
        invariant
            start <= i <= n,
            n == path@.len(),
            chars@ == path@,
            out@.len() == found.len(),
            forall|k: int| 0 <= k < out@.len() ==> #[trigger] out@[k]@ == found[k],
            path_segments(path@) == found + segments_from(
                path@.skip(i as int),
                path@.subrange(start as int, i as int),
            ),
        decreases n - i,
    {
        let ghost rest = path@.skip(i as int);
        let ghost cur = path@.subrange(start as int, i as int);
        assert(rest.drop_first() =~= path@.skip(i + 1));
        if chars[i] == '/' {
            if start < i {
                let piece = String::from_str(path.substring_char(start, i));
                out.push(piece);
                proof {
                    found = found.push(cur);
                    assert(found =~= found.drop_last() + seq![cur]);
                }
            }
            assert(path@.subrange(i + 1, i + 1) =~= Seq::<char>::empty());
            proof {
                assert(path_segments(path@) =~= found + segments_from(
                    path@.skip(i + 1),
                    path@.subrange(i + 1, i + 1),
                ));
            }
            start = i + 1;
        } else {
            assert(cur.push(rest[0]) =~= path@.subrange(start as int, i + 1));
        }
        i = i + 1;
    }
    let ghost cur = path@.subrange(start as int, n as int);
    if start < n {
        let piece = String::from_str(path.substring_char(start, n));
        out.push(piece);
        proof {
            found = found.push(cur);
        }
    }
    proof {
        assert(path_segments(path@) =~= found);
    }
    out
}

/// A piece of text without `/` continues the segment that has begun.
proof fn lemma_segments_through_word(w: Seq<char>, rest: Seq<char>, cur: Seq<char>)
    requires
        !w.contains('/'),
    ensures
        segments_from(w + rest, cur) == segments_from(rest, cur + w),
    decreases w.len(),
{
    if w.len() == 0 {
        assert(w + rest =~= rest);
        assert(cur + w =~= cur);
    } else {
        assert(w[0] != '/');
        assert((w + rest)[0] == w[0]);
        assert((w + rest).drop_first() =~= w.drop_first() + rest);
        assert(!w.drop_first().contains('/')) by {
            assert forall|i: int| 0 <= i < w.drop_first().len() implies w.drop_first()[i] != '/' by {
                assert(w.drop_first()[i] == w[i + 1]);
            }
        }
        lemma_segments_through_word(w.drop_first(), rest, cur.push(w[0]));
        assert(cur.push(w[0]) + w.drop_first() =~= cur + w);
    }
}

/// The path `/org/model` followed by nothing or by further `/`-led parts
/// begins with the segments `org` and `model`.
proof fn lemma_org_model_segments(org: Seq<char>, model: Seq<char>, rest: Seq<char>)
    requires
        org.len() > 0,
        model.len() > 0,
        !org.contains('/'),
        !model.contains('/'),
        rest.len() == 0 || rest[0] == '/',
    ensures
        path_segments("/"@ + org + "/"@ + model + rest).len() >= 2,
        path_segments("/"@ + org + "/"@ + model + rest)[0] == org,
        path_segments("/"@ + org + "/"@ + model + rest)[1] == model,
{
    reveal_strlit("/");
    let e = Seq::<char>::empty();
    let p = "/"@ + org + "/"@ + model + rest;
    let after_slash = org + ("/"@ + model + rest);
    assert(p[0] == '/');
    assert(p.drop_first() =~= after_slash);
    lemma_segments_through_word(org, "/"@ + model + rest, e);
    assert(e + org =~= org);
    let r2 = "/"@ + model + rest;
    assert(r2[0] == '/');
    assert(r2.drop_first() =~= model + rest);
    lemma_segments_through_word(model, rest, e);
    assert(e + model =~= model);
    let tail = if rest.len() == 0 {
        Seq::<Seq<char>>::empty()
    } else {
        segments_from(rest.drop_first(), e)
    };
    assert(segments_from(rest, model) =~= seq![model] + tail);
    assert(path_segments(p) =~= seq![org] + (seq![model] + tail));
}

/// An `https` link to `huggingface.co`, `hf.co` or a subdomain of either,
/// whose path is `/org/model` (perhaps followed by more, such as
/// `/tree/main`), names the model `org/model`; a link with any other scheme
/// names none.
pub proof fn law_hf_link_names_org_and_model(
    host: Seq<char>,
    org: Seq<char>,
    model: Seq<char>,
    rest: Seq<char>,
    sub: Seq<char>,
)
    requires
        host == "huggingface.co"@ || host == "hf.co"@ || host == sub + ".huggingface.co"@ || host
            == sub + ".hf.co"@,
        org.len() > 0,
        model.len() > 0,
        !org.contains('/'),
        !model.contains('/'),
        rest.len() == 0 || rest[0] == '/',
    ensures
        model_id_of(Some(("https"@, Some(host), "/"@ + org + "/"@ + model + rest))) == Some(
            org + "/"@ + model,
        ),
        forall|scheme: Seq<char>|
            scheme != "https"@ ==> #[trigger] model_id_of(Some((scheme, Some(host), "/"@ + org + "/"@ + model + rest)))
                is None,
{
    lemma_org_model_segments(org, model, rest);
    if host == sub + ".huggingface.co"@ {
        assert(host.skip(host.len() - ".huggingface.co"@.len()) =~= ".huggingface.co"@);
    }
    if host == sub + ".hf.co"@ {
        assert(host.skip(host.len() - ".hf.co"@.len()) =~= ".hf.co"@);
    }
}

/// The `org/model` ID named by a parsed link (`None` when the link did not
/// parse as a URL).
pub fn model_id_from_parsed(parts: &Option<ParsedUrl>) -> (r: Result<String, HfError>)
    ensures
        match model_id_of(parts.deep_view()) {
            Some(id) => r matches Ok(s) && s@ == id,
            None => r matches Err(HfError::InvalidUrl),
        },
{
    match parts {
        None => Err(HfError::InvalidUrl),
        Some(p) => {
            let host_text = match &p.host {
                Some(h) => h.clone(),
                None => String::new(),
            };
            let h = host_text.as_str();
            let hf = same_text(h, "huggingface.co") || same_text(h, "hf.co") || ends_with_text(
                h,
                ".huggingface.co",
            ) || ends_with_text(h, ".hf.co");
            if !same_text(p.scheme.as_str(), "https") || !hf {
                return Err(HfError::InvalidUrl);
            }
            let segs = path_segment_texts(p.path.as_str());
            if segs.len() < 2 {
                return Err(HfError::InvalidUrl);
            }
            let mut id = segs[0].clone();
            id.append("/");
            id.append(segs[1].as_str());
            Ok(id)
        },
    }
}

/// Extract the `org/model` ID from a HuggingFace URL.
///
/// Supports both `huggingface.co` and `hf.co` domains (and their
/// subdomains), over HTTPS.
pub fn extract_model_id(url: &str) -> (r: Result<String, HfError>)
    ensures
        match model_id_of(url_parts(url@)) {
            Some(id) => r matches Ok(s) && s@ == id,
            None => r matches Err(HfError::InvalidUrl),
        },
{
    let parts = parse_url(url);
    model_id_from_parsed(&parts)
}

// ---------------------------------------------------------------------------
// Judging the answer of the Hub's file-tree API
// ---------------------------------------------------------------------------

/// The file-tree API address of the model `model_id`.
pub open spec fn tree_api_url(model_id: Seq<char>) -> Seq<char> {
    "https://huggingface.co/api/models/"@ + model_id + "/tree/main"@
}

/// The file-tree API address of the model `model_id`.
pub fn hf_tree_api_url(model_id: &str) -> (r: String)
    ensures
        r@ == tree_api_url(model_id@),
{
    let mut r = String::from_str("https://huggingface.co/api/models/");
    r.append(model_id);
    r.append("/tree/main");
    r
}

/// Judges the HTTP status of the file-tree API's answer: 404 and 401 mean
/// that the model does not exist (or is private), any other status outside
/// 200–299 that the Hub could not be asked. `status_text` is the status as
/// `http::StatusCode` displays it (code and reason).
pub fn check_hf_status(code: u16, status_text: &str) -> (r: Result<(), HfError>)
    ensures
        code == 404 || code == 401 ==> r matches Err(HfError::ModelNotFound),
        code != 404 && code != 401 && !(200 <= code < 300) ==> (r matches Err(
            HfError::ReachabilityError(m),
        ) && m@ == "HTTP "@ + status_text@),
        code != 404 && code != 401 && 200 <= code < 300 ==> r is Ok,
{
    if code == 404 || code == 401 {
        return Err(HfError::ModelNotFound);
    }
    if !(200 <= code && code < 300) {
        let mut m = String::from_str("HTTP ");
        m.append(status_text);
        return Err(HfError::ReachabilityError(m));
    }
    Ok(())
}

/// A single entry returned by the HuggingFace `/tree/main` API.
#[derive(Debug)]
pub struct TreeEntry {
    pub path: String,
    pub size: Option<u64>,
}

/// The bytes that an entry counts for; an entry without a size counts 0.
pub open spec fn entry_bytes(e: TreeEntry) -> nat {
    match e.size {
        Some(s) => s as nat,
        None => 0,
    }
}

/// The sum of the sizes of the entries.
pub open spec fn tree_bytes(entries: Seq<TreeEntry>) -> nat
    decreases entries.len(),
{
    if entries.len() == 0 {
        0
    } else {
        tree_bytes(entries.drop_last()) + entry_bytes(entries.last())
    }
}

/// Whether the tree holds a `config.json` at its root.
pub open spec fn has_config_json(entries: Seq<TreeEntry>) -> bool {
    exists|i: int| 0 <= i < entries.len() && (#[trigger] entries[i]).path@ == "config.json"@
}

/// An entry named `config.json` counts wherever it stands in the tree: a
/// tree that holds one, after any entries and before any others, has its
/// `config.json`.
pub proof fn law_config_json_found_at_any_position(
    before: Seq<TreeEntry>,
    e: TreeEntry,
    after: Seq<TreeEntry>,
)
    requires
        e.path@ == "config.json"@,
    ensures
        has_config_json(before + seq![e] + after),
{
    let t = before + seq![e] + after;
    assert(t[before.len() as int] == e);
}

/// A tree none of whose entries is named `config.json` lacks it.
pub proof fn law_config_json_needs_such_an_entry(entries: Seq<TreeEntry>)
    requires
        forall|i: int| 0 <= i < entries.len() ==> (#[trigger] entries[i]).path@ != "config.json"@,
    ensures
        !has_config_json(entries),
{
}

/// The order in which the Hub lists the entries does not change the
/// verdict on a tree: swapping two parts of it keeps both whether it holds
/// `config.json` and its total size.
pub proof fn law_tree_verdict_ignores_order(a: Seq<TreeEntry>, b: Seq<TreeEntry>)
    ensures
        has_config_json(a + b) == has_config_json(b + a),
        tree_bytes(a + b) == tree_bytes(b + a),
{
    if has_config_json(a + b) {
        let i = choose|i: int| 0 <= i < (a + b).len() && (#[trigger] (a + b)[i]).path@
            == "config.json"@;
        if i < a.len() {
            assert((b + a)[b.len() + i] == (a + b)[i]);
        } else {
            assert((b + a)[i - a.len()] == (a + b)[i]);
        }
    }
    if has_config_json(b + a) {
        let i = choose|i: int| 0 <= i < (b + a).len() && (#[trigger] (b + a)[i]).path@
            == "config.json"@;
        if i < b.len() {
            assert((a + b)[a.len() + i] == (b + a)[i]);
        } else {
            assert((a + b)[i - b.len()] == (b + a)[i]);
        }
    }
    law_tree_bytes_add(a, b);
    law_tree_bytes_add(b, a);
}

/// The size of a tree is the sum of the sizes of its parts.
pub proof fn law_tree_bytes_add(a: Seq<TreeEntry>, b: Seq<TreeEntry>)
    ensures
        tree_bytes(a + b) == tree_bytes(a) + tree_bytes(b),
    decreases b.len(),
{
    if b.len() == 0 {
        assert(a + b =~= a);
    } else {
        assert((a + b).drop_last() =~= a + b.drop_last());
        assert((a + b).last() == b.last());
        law_tree_bytes_add(a, b.drop_last());
    }
}

/// The sum of the sizes of the entries, or `None` when it does not fit in
/// a `u64`.
pub fn tree_total_bytes(entries: &Vec<TreeEntry>) -> (r: Option<u64>)
    ensures
        r matches Some(t) ==> t == tree_bytes(entries@),
        r is None <==> tree_bytes(entries@) > u64::MAX,
{
    let n = entries.len();
    let mut total: u64 = 0;
    let mut i: usize = 0;
    while i < n
        invariant
            i <= n,
            n == entries@.len(),
            total == tree_bytes(entries@.take(i as int)),
        decreases n - i,
    {
        assert(entries@.take(i + 1).drop_last() =~= entries@.take(i as int));
        let add: u64 = match entries[i].size {
            Some(s) => s,
            None => 0,
        };
        if add > u64::MAX - total {
            proof {
                lemma_tree_bytes_prefix_monotone(entries@, i + 1);
            }
            return None;
        }
        total = total + add;
        i = i + 1;
    }
    assert(entries@.take(n as int) =~= entries@);
    Some(total)
}

/// The sizes of a prefix of the tree sum to no more than the whole tree.
proof fn lemma_tree_bytes_prefix_monotone(entries: Seq<TreeEntry>, k: int)
    requires
        0 <= k <= entries.len(),
    ensures
        tree_bytes(entries.take(k)) <= tree_bytes(entries),
    decreases entries.len() - k,
{
    if k < entries.len() {
        lemma_tree_bytes_prefix_monotone(entries, k + 1);
        assert(entries.take(k + 1).drop_last() =~= entries.take(k));
    } else {
        assert(entries.take(k) =~= entries);
    }
}

/// The size limit that the file tree is judged by is 70 GB of 1024³ bytes
/// each.
pub proof fn law_size_limit_is_70_gb()
    ensures
        MAX_MODEL_SIZE_BYTES == 70 * 1024 * 1024 * 1024,
{
}

/// Judges the file tree of a model: over 70 GB in all is too large, and a
/// model without `config.json` is not a full model architecture. Gives the
/// total size on success.
pub fn check_model_tree(entries: &Vec<TreeEntry>) -> (r: Result<u64, HfError>)
    requires
        tree_bytes(entries@) <= u64::MAX,
    ensures
        tree_bytes(entries@) > MAX_MODEL_SIZE_BYTES ==> (r matches Err(
            HfError::TooLarge { total_bytes },
        ) && total_bytes == tree_bytes(entries@)),
        tree_bytes(entries@) <= MAX_MODEL_SIZE_BYTES && !has_config_json(entries@) ==> r matches Err(
            HfError::MissingConfigJson,
        ),
        tree_bytes(entries@) <= MAX_MODEL_SIZE_BYTES && has_config_json(entries@) ==> (r matches Ok(t)
            && t == tree_bytes(entries@)),
{
    let total = match tree_total_bytes(entries) {
        Some(t) => t,
        None => 0,
    };
    if total > MAX_MODEL_SIZE_BYTES {
        return Err(HfError::TooLarge { total_bytes: total });
    }
    let n = entries.len();
    let mut i: usize = 0;
    while i < n
        invariant
            i <= n,
            n == entries@.len(),
            total == tree_bytes(entries@),
            total <= MAX_MODEL_SIZE_BYTES,
            forall|j: int| 0 <= j < i ==> (#[trigger] entries@[j]).path@ != "config.json"@,
        decreases n - i,
    {
        if same_text(entries[i].path.as_str(), "config.json") {
            return Ok(total);
        }
        i = i + 1;
    }
    Err(HfError::MissingConfigJson)
}

} // verus!
