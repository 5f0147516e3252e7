use ollama_applet::wire::{build_generate_body, build_name_body};

#[test]
fn generate_body_without_context() {
    let body = build_generate_body("llama3", "Why is the sky blue?", &vec![], &None);
    assert_eq!(
        body,
        "{\"model\":\"llama3\",\"prompt\":\"Why is the sky blue?\",\"images\":[],\"stream\":true}"
    );
}

#[test]
fn generate_body_with_context() {
    let body = build_generate_body("m", "p", &vec![], &Some(vec![7, 8]));
    assert_eq!(
        body,
        "{\"model\":\"m\",\"prompt\":\"p\",\"images\":[],\"context\":[7,8],\"stream\":true}"
    );
}

#[test]
fn generate_body_with_empty_context() {
    let body = build_generate_body("m", "p", &vec![], &Some(vec![]));
    assert_eq!(
        body,
        "{\"model\":\"m\",\"prompt\":\"p\",\"images\":[],\"context\":[],\"stream\":true}"
    );
}

#[test]
fn generate_body_with_images() {
    let body = build_generate_body(
        "m",
        "what is this?",
        &vec!["QUJD".to_string(), "REVG".to_string()],
        &None,
    );
    assert_eq!(
        body,
        "{\"model\":\"m\",\"prompt\":\"what is this?\",\"images\":[\"QUJD\",\"REVG\"],\"stream\":true}"
    );
}

#[test]
fn generate_body_escapes_prompt() {
    let body = build_generate_body("m", "a\"b\\c\nd\te\u{8}\u{c}\r", &vec![], &None);
    assert_eq!(
        body,
        "{\"model\":\"m\",\"prompt\":\"a\\\"b\\\\c\\nd\\te\\b\\f\\r\",\"images\":[],\"stream\":true}"
    );
}

#[test]
fn generate_body_escapes_control_chars() {
    let body = build_generate_body("m", "x\u{1}y\u{1f}z", &vec![], &None);
    assert_eq!(
        body,
        "{\"model\":\"m\",\"prompt\":\"x\\u0001y\\u001fz\",\"images\":[],\"stream\":true}"
    );
}

#[test]
fn generate_body_keeps_unicode_raw() {
    let body = build_generate_body("m", "héllo 世界", &vec![], &None);
    assert_eq!(
        body,
        "{\"model\":\"m\",\"prompt\":\"héllo 世界\",\"images\":[],\"stream\":true}"
    );
}

#[test]
fn generate_body_large_context_values() {
    let body = build_generate_body("m", "p", &vec![], &Some(vec![0, 1, 18446744073709551615]));
    assert_eq!(
        body,
        "{\"model\":\"m\",\"prompt\":\"p\",\"images\":[],\"context\":[0,1,18446744073709551615],\"stream\":true}"
    );
}

#[test]
fn name_body() {
    assert_eq!(build_name_body("llama3"), "{\"name\":\"llama3\"}");
    assert_eq!(build_name_body("a\"b"), "{\"name\":\"a\\\"b\"}");
}

#[test]
fn context_round_trip_through_decoder() {
    // what the encoder writes into a body, the chunk decoder reads back
    // unchanged when the server echoes it
    let ctx = vec![3, 1, 4, 1, 5, 92, 65, 35000, 0];
    let body = build_generate_body("m", "p", &vec![], &Some(ctx.clone()));
    let start = body.find("\"context\":").unwrap() + "\"context\":".len();
    let end = body[start..].find(']').unwrap() + start + 1;
    let echoed = format!(
        "{{\"model\":\"m\",\"created_at\":\"t\",\"response\":\"x\",\"done\":true,\"context\":{}}}",
        &body[start..end]
    );
    let chunk = ollama_applet::chunk::decode_generate_chunk(&echoed).unwrap();
    assert_eq!(chunk.context, Some(ctx));
}
