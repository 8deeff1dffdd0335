use votablit::error::AppError;
use votablit::hf::{
    check_hf_status, check_model_tree, extract_model_id, hf_tree_api_url, model_id_from_parsed,
    path_segment_texts, tree_total_bytes, HfError, ParsedUrl, TreeEntry,
};

#[test]
fn extract_model_id_valid() {
    assert_eq!(
        extract_model_id("https://huggingface.co/Qwen/Qwen2.5-7B").unwrap(),
        "Qwen/Qwen2.5-7B"
    );
}

#[test]
fn extract_model_id_hf_co() {
    assert_eq!(
        extract_model_id("https://hf.co/google/gemma-2-27b").unwrap(),
        "google/gemma-2-27b"
    );
}

#[test]
fn extract_model_id_with_trailing_slash() {
    assert_eq!(
        extract_model_id("https://huggingface.co/meta-llama/Llama-3-8B/").unwrap(),
        "meta-llama/Llama-3-8B"
    );
}

#[test]
fn extract_model_id_non_hf_domain() {
    assert!(extract_model_id("https://google.com/search").is_err());
}

#[test]
fn extract_model_id_too_few_parts() {
    assert!(extract_model_id("https://huggingface.co/single").is_err());
}

#[test]
fn extract_model_id_not_a_url() {
    assert!(extract_model_id("not-a-url").is_err());
}

#[test]
fn extract_model_id_refuses_lookalike_hosts_and_http() {
    assert!(extract_model_id("https://evilhf.com/a/b").is_err());
    assert!(extract_model_id("https://nothuggingface.co/a/b").is_err());
    assert!(extract_model_id("http://huggingface.co/a/b").is_err());
    assert_eq!(extract_model_id("https://www.huggingface.co/a/b").unwrap(), "a/b");
}

#[test]
fn extract_model_id_keeps_first_two_segments() {
    assert_eq!(
        extract_model_id("https://huggingface.co//org//model/tree/main").unwrap(),
        "org/model"
    );
}

#[test]
fn model_id_from_parsed_parts() {
    let parsed = |scheme: &str, host: Option<&str>, path: &str| {
        Some(ParsedUrl {
            scheme: scheme.to_string(),
            host: host.map(|h| h.to_string()),
            path: path.to_string(),
        })
    };
    assert_eq!(model_id_from_parsed(&parsed("https", Some("hf.co"), "/a/b/c")).unwrap(), "a/b");
    assert_eq!(
        model_id_from_parsed(&parsed("https", Some("www.huggingface.co"), "/a/b")).unwrap(),
        "a/b"
    );
    assert!(matches!(
        model_id_from_parsed(&parsed("https", Some("evilhf.com"), "/a/b")),
        Err(HfError::InvalidUrl)
    ));
    assert!(matches!(
        model_id_from_parsed(&parsed("https", Some("hf.co.evil.com"), "/a/b")),
        Err(HfError::InvalidUrl)
    ));
    assert!(matches!(
        model_id_from_parsed(&parsed("https", Some("evilhf.co"), "/a/b")),
        Err(HfError::InvalidUrl)
    ));
    assert!(matches!(
        model_id_from_parsed(&parsed("http", Some("hf.co"), "/a/b")),
        Err(HfError::InvalidUrl)
    ));
    let no_host = parsed("https", None, "/a/b");
    assert!(matches!(model_id_from_parsed(&no_host), Err(HfError::InvalidUrl)));
    assert!(matches!(model_id_from_parsed(&None), Err(HfError::InvalidUrl)));
}

#[test]
fn path_segments_skip_empty_pieces() {
    let segs = path_segment_texts("//x///y/z//");
    assert_eq!(segs, vec!["x".to_string(), "y".to_string(), "z".to_string()]);
    assert!(path_segment_texts("///").is_empty());
}

#[test]
fn tree_api_url_names_the_model() {
    assert_eq!(
        hf_tree_api_url("Qwen/Qwen2.5-7B"),
        "https://huggingface.co/api/models/Qwen/Qwen2.5-7B/tree/main"
    );
}

#[test]
fn hf_status_judgement() {
    assert!(matches!(check_hf_status(404, "404 Not Found"), Err(HfError::ModelNotFound)));
    assert!(matches!(check_hf_status(401, "401 Unauthorized"), Err(HfError::ModelNotFound)));
    match check_hf_status(500, "500 Internal Server Error") {
        Err(HfError::ReachabilityError(m)) => assert_eq!(m, "HTTP 500 Internal Server Error"),
        _ => panic!("expected a reachability error"),
    }
    assert!(check_hf_status(200, "200 OK").is_ok());
}

fn entry(path: &str, size: Option<u64>) -> TreeEntry {
    TreeEntry { path: path.to_string(), size }
}

#[test]
fn tree_within_limit_with_config() {
    let entries = vec![entry("config.json", Some(1000)), entry("model.safetensors", Some(5_000_000_000)), entry("dir", None)];
    assert_eq!(tree_total_bytes(&entries), Some(5_000_001_000));
    assert_eq!(check_model_tree(&entries).unwrap(), 5_000_001_000);
}

#[test]
fn tree_too_large() {
    let entries = vec![entry("config.json", Some(10)), entry("a", Some(75_161_927_680))];
    match check_model_tree(&entries) {
        Err(HfError::TooLarge { total_bytes }) => assert_eq!(total_bytes, 75_161_927_690),
        _ => panic!("expected too large"),
    }
}

#[test]
fn tree_exactly_at_limit_is_accepted() {
    let entries = vec![entry("config.json", Some(75_161_927_680))];
    assert!(check_model_tree(&entries).is_ok());
}

#[test]
fn tree_without_config_json() {
    let entries = vec![entry("model.gguf", Some(10)), entry("sub/config.json", Some(1))];
    assert!(matches!(check_model_tree(&entries), Err(HfError::MissingConfigJson)));
}

#[test]
fn tree_size_overflow_is_reported() {
    let entries = vec![entry("a", Some(u64::MAX)), entry("b", Some(1))];
    assert_eq!(tree_total_bytes(&entries), None);
}

#[test]
fn hf_error_texts() {
    assert_eq!(HfError::ModelNotFound.message(""), "Model not found on HuggingFace");
    assert_eq!(HfError::InvalidUrl.message(""), "Invalid HuggingFace URL");
    assert_eq!(
        HfError::ReachabilityError("timeout".to_string()).message(""),
        "Could not reach HuggingFace: timeout"
    );
    assert_eq!(
        HfError::TooLarge { total_bytes: 80_000_000_000 }.message("74.5"),
        "Model is 74.5 GB which exceeds the 70 GB limit"
    );
    match AppError::from_hf_error(&HfError::ModelNotFound, "") {
        AppError::BadRequest(m) => assert!(m.contains("not found")),
        other => panic!("unexpected {:?}", other),
    }
}
