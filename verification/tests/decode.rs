use ollama_applet::chunk::{decode_generate_chunk, decode_generate_response, decode_pull_chunk};

#[test]
fn generate_chunk_partial() {
    let b = decode_generate_chunk(
        "{\"model\":\"llama3\",\"created_at\":\"2024-01-01T00:00:00Z\",\"response\":\"Hi\",\"done\":false}",
    )
    .unwrap();
    assert_eq!(b.model, "llama3");
    assert_eq!(b.created_at, "2024-01-01T00:00:00Z");
    assert_eq!(b.response, "Hi");
    assert!(!b.done);
    assert!(b.context.is_none());
    assert!(b.total_duration.is_none());
}

#[test]
fn generate_chunk_final_with_context() {
    let b = decode_generate_chunk(
        "{\"model\":\"m\",\"created_at\":\"t\",\"response\":\" there!\",\"done\":true,\"context\":[7,8]}",
    )
    .unwrap();
    assert_eq!(b.response, " there!");
    assert!(b.done);
    assert_eq!(b.context, Some(vec![7, 8]));
}

#[test]
fn generate_chunk_with_counters() {
    let b = decode_generate_chunk(
        "{\"model\":\"m\",\"created_at\":\"t\",\"response\":\"x\",\"done\":true,\"total_duration\":5043500667,\"load_duration\":5025959,\"prompt_eval_count\":26,\"prompt_eval_duration\":325953000,\"eval_count\":290,\"eval_duration\":4709213000}",
    )
    .unwrap();
    assert_eq!(b.total_duration, Some(5043500667));
    assert_eq!(b.load_duration, Some(5025959));
    assert_eq!(b.prompt_eval_count, Some(26));
    assert_eq!(b.prompt_eval_duration, Some(325953000));
    assert_eq!(b.eval_count, Some(290));
    assert_eq!(b.eval_duration, Some(4709213000));
}

#[test]
fn generate_chunk_tolerates_whitespace() {
    let b = decode_generate_chunk(
        "  { \"model\" : \"m\" , \"created_at\" : \"t\" , \"response\" : \"x\" , \"done\" : false }\n",
    )
    .unwrap();
    assert_eq!(b.response, "x");
}

#[test]
fn generate_chunk_decodes_escapes() {
    let b = decode_generate_chunk(
        "{\"model\":\"m\",\"created_at\":\"t\",\"response\":\"a\\n\\t\\\"b\\\\c\\/\\u0041\\u00e9\",\"done\":false}",
    )
    .unwrap();
    assert_eq!(b.response, "a\n\t\"b\\c/A\u{e9}");
}

#[test]
fn generate_chunk_skips_unknown_members() {
    let b = decode_generate_chunk(
        "{\"model\":\"m\",\"thinking\":\"hmm\",\"created_at\":\"t\",\"response\":\"x\",\"done\":true,\"extra\":null,\"n\":17,\"flag\":false,\"arr\":[1,2]}",
    )
    .unwrap();
    assert_eq!(b.response, "x");
}

#[test]
fn generate_chunk_missing_required_member() {
    assert!(decode_generate_chunk("{\"model\":\"m\",\"created_at\":\"t\",\"done\":true}").is_none());
}

#[test]
fn generate_chunk_duplicate_member() {
    assert!(decode_generate_chunk(
        "{\"model\":\"m\",\"model\":\"m\",\"created_at\":\"t\",\"response\":\"x\",\"done\":true}"
    )
    .is_none());
}

#[test]
fn generate_chunk_wrong_member_type() {
    assert!(decode_generate_chunk(
        "{\"model\":3,\"created_at\":\"t\",\"response\":\"x\",\"done\":true}"
    )
    .is_none());
}

#[test]
fn generate_chunk_malformed_text() {
    assert!(decode_generate_chunk("not json at all").is_none());
    assert!(decode_generate_chunk("").is_none());
    assert!(decode_generate_chunk("{\"model\":\"m\"").is_none());
    assert!(decode_generate_chunk("[1,2,3]").is_none());
}

#[test]
fn generate_chunk_trailing_text_refused() {
    assert!(decode_generate_chunk(
        "{\"model\":\"m\",\"created_at\":\"t\",\"response\":\"x\",\"done\":true}garbage"
    )
    .is_none());
}

#[test]
fn generate_chunk_number_rules() {
    // a leading zero admits no further digits
    assert!(decode_generate_chunk(
        "{\"model\":\"m\",\"created_at\":\"t\",\"response\":\"x\",\"done\":true,\"eval_count\":007}"
    )
    .is_none());
    // a value past u64::MAX is refused
    assert!(decode_generate_chunk(
        "{\"model\":\"m\",\"created_at\":\"t\",\"response\":\"x\",\"done\":true,\"eval_count\":18446744073709551616}"
    )
    .is_none());
    // u64::MAX itself is fine
    let b = decode_generate_chunk(
        "{\"model\":\"m\",\"created_at\":\"t\",\"response\":\"x\",\"done\":true,\"eval_count\":18446744073709551615}",
    )
    .unwrap();
    assert_eq!(b.eval_count, Some(u64::MAX));
}

#[test]
fn generate_chunk_null_optionals() {
    let b = decode_generate_chunk(
        "{\"model\":\"m\",\"created_at\":\"t\",\"response\":\"x\",\"done\":true,\"context\":null,\"total_duration\":null}",
    )
    .unwrap();
    assert!(b.context.is_none());
    assert!(b.total_duration.is_none());
}

#[test]
fn generate_chunk_empty_context_array() {
    let b = decode_generate_chunk(
        "{\"model\":\"m\",\"created_at\":\"t\",\"response\":\"x\",\"done\":true,\"context\":[]}",
    )
    .unwrap();
    assert_eq!(b.context, Some(vec![]));
}

#[test]
fn generate_response_same_shape() {
    let r = decode_generate_response(
        "{\"model\":\"m\",\"created_at\":\"t\",\"response\":\"whole answer\",\"done\":true}",
    )
    .unwrap();
    assert_eq!(r.response, "whole answer");
    assert!(r.done);
}

#[test]
fn pull_chunk_status_only() {
    let p = decode_pull_chunk("{\"status\":\"pulling manifest\"}").unwrap();
    assert_eq!(p.status, "pulling manifest");
    assert!(p.digest.is_none());
    assert!(p.total.is_none());
    assert!(p.completed.is_none());
}

#[test]
fn pull_chunk_with_progress() {
    let p = decode_pull_chunk(
        "{\"status\":\"downloading\",\"digest\":\"sha256:abc\",\"total\":1000,\"completed\":250}",
    )
    .unwrap();
    assert_eq!(p.status, "downloading");
    assert_eq!(p.digest.as_deref(), Some("sha256:abc"));
    assert_eq!(p.total, Some(1000));
    assert_eq!(p.completed, Some(250));
}

#[test]
fn pull_chunk_null_digest() {
    let p = decode_pull_chunk("{\"status\":\"ok\",\"digest\":null}").unwrap();
    assert!(p.digest.is_none());
}

#[test]
fn pull_chunk_missing_status() {
    assert!(decode_pull_chunk("{\"digest\":\"sha256:abc\"}").is_none());
    assert!(decode_pull_chunk("{{").is_none());
}

#[test]
fn generate_chunk_truncated_escape() {
    assert!(decode_generate_chunk(
        "{\"model\":\"m\",\"created_at\":\"t\",\"response\":\"x\\",
    )
    .is_none());
    assert!(decode_generate_chunk(
        "{\"model\":\"m\",\"created_at\":\"t\",\"response\":\"x\\u00\",\"done\":true}"
    )
    .is_none());
}

#[test]
fn generate_chunk_surrogate_escape_refused() {
    assert!(decode_generate_chunk(
        "{\"model\":\"m\",\"created_at\":\"t\",\"response\":\"\\ud800\",\"done\":true}"
    )
    .is_none());
}

#[test]
fn generate_chunk_unknown_escape_refused() {
    assert!(decode_generate_chunk(
        "{\"model\":\"m\",\"created_at\":\"t\",\"response\":\"\\q\",\"done\":true}"
    )
    .is_none());
}

#[test]
fn generate_chunk_raw_control_char_refused() {
    let line = format!(
        "{{\"model\":\"m\",\"created_at\":\"t\",\"response\":\"a{}b\",\"done\":true}}",
        '\u{1}'
    );
    assert!(decode_generate_chunk(&line).is_none());
}

#[test]
fn generate_chunk_unicode_text_passes_through() {
    let b = decode_generate_chunk(
        "{\"model\":\"m\",\"created_at\":\"t\",\"response\":\"héllo 世界 🦀\",\"done\":true}",
    )
    .unwrap();
    assert_eq!(b.response, "héllo 世界 🦀");
}

#[test]
fn whitespace_only_line_refused() {
    assert!(decode_generate_chunk("   \r\n").is_none());
    assert!(decode_pull_chunk("\t").is_none());
}

#[test]
fn context_with_spaces_accepted() {
    let b = decode_generate_chunk(
        "{\"model\":\"m\",\"created_at\":\"t\",\"response\":\"x\",\"done\":true,\"context\":[ 1 , 2 , 3 ]}",
    )
    .unwrap();
    assert_eq!(b.context, Some(vec![1, 2, 3]));
}

#[test]
fn context_wrong_element_refused() {
    assert!(decode_generate_chunk(
        "{\"model\":\"m\",\"created_at\":\"t\",\"response\":\"x\",\"done\":true,\"context\":[1,-2]}"
    )
    .is_none());
    assert!(decode_generate_chunk(
        "{\"model\":\"m\",\"created_at\":\"t\",\"response\":\"x\",\"done\":true,\"context\":[1,]}"
    )
    .is_none());
}
