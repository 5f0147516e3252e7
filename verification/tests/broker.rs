use ollama_applet::broker::{
    listener_events_generate, listener_events_pull, remove_events, DispatchAction, Dispatcher,
    Event, Request,
};

#[test]
fn fresh_dispatcher_emits_ready_first() {
    let (d, ev) = Dispatcher::new();
    assert!(matches!(ev, Event::Ready));
    assert!(!d.generate_busy);
    assert!(!d.pull_busy);
}

#[test]
fn ask_on_free_slot_starts_generate() {
    let (mut d, _ready) = Dispatcher::new();
    let a = d.step(&Request::Ask((
        "llama3".to_string(),
        "hello".to_string(),
        vec![],
        "5m".to_string(),
    )));
    match a {
        DispatchAction::StartGenerate(body) => assert_eq!(
            body,
            "{\"model\":\"llama3\",\"prompt\":\"hello\",\"images\":[],\"stream\":true}"
        ),
        _ => panic!("expected a generate start"),
    }
}

#[test]
fn ask_with_context_passes_tokens_through() {
    let (mut d, _ready) = Dispatcher::new();
    let a = d.step(&Request::AskWithContext((
        "m".to_string(),
        "next".to_string(),
        vec![],
        Some(vec![7, 8]),
        "5m".to_string(),
    )));
    match a {
        DispatchAction::StartGenerate(body) => assert_eq!(
            body,
            "{\"model\":\"m\",\"prompt\":\"next\",\"images\":[],\"context\":[7,8],\"stream\":true}"
        ),
        _ => panic!("expected a generate start"),
    }
}

#[test]
fn ask_with_context_none_matches_plain_ask() {
    let (mut d, _ready) = Dispatcher::new();
    let a = d.step(&Request::AskWithContext((
        "m".to_string(),
        "p".to_string(),
        vec![],
        None,
        "5m".to_string(),
    )));
    match a {
        DispatchAction::StartGenerate(body) => assert_eq!(
            body,
            "{\"model\":\"m\",\"prompt\":\"p\",\"images\":[],\"stream\":true}"
        ),
        _ => panic!("expected a generate start"),
    }
}

#[test]
fn second_ask_while_busy_is_ignored() {
    let (mut d, _ready) = Dispatcher::new();
    let first = d.step(&Request::Ask((
        "m".to_string(),
        "one".to_string(),
        vec![],
        "5m".to_string(),
    )));
    assert!(matches!(first, DispatchAction::StartGenerate(_)));
    d.note_generate_started();
    let second = d.step(&Request::Ask((
        "m".to_string(),
        "two".to_string(),
        vec![],
        "5m".to_string(),
    )));
    assert!(matches!(second, DispatchAction::Ignore));
    let with_context = d.step(&Request::AskWithContext((
        "m".to_string(),
        "three".to_string(),
        vec![],
        Some(vec![1]),
        "5m".to_string(),
    )));
    assert!(matches!(with_context, DispatchAction::Ignore));
    // the generate slot does not gate pulls
    let pull = d.step(&Request::PullModel("other".to_string()));
    assert!(matches!(pull, DispatchAction::StartPull(_)));
}

#[test]
fn failed_connection_leaves_slot_free() {
    let (mut d, _ready) = Dispatcher::new();
    let first = d.step(&Request::Ask((
        "m".to_string(),
        "one".to_string(),
        vec![],
        "5m".to_string(),
    )));
    assert!(matches!(first, DispatchAction::StartGenerate(_)));
    // no note_generate_started: the wire call never opened
    let retry = d.step(&Request::Ask((
        "m".to_string(),
        "one again".to_string(),
        vec![],
        "5m".to_string(),
    )));
    assert!(matches!(retry, DispatchAction::StartGenerate(_)));
}

#[test]
fn pull_slot_gates_pulls() {
    let (mut d, _ready) = Dispatcher::new();
    let first = d.step(&Request::PullModel("llava".to_string()));
    match first {
        DispatchAction::StartPull(body) => assert_eq!(body, "{\"name\":\"llava\"}"),
        _ => panic!("expected a pull start"),
    }
    d.note_pull_started();
    let second = d.step(&Request::PullModel("llava".to_string()));
    assert!(matches!(second, DispatchAction::Ignore));
}

#[test]
fn remove_always_acts() {
    let (mut d, _ready) = Dispatcher::new();
    d.note_generate_started();
    d.note_pull_started();
    let a = d.step(&Request::RemoveModel("old-model".to_string()));
    match a {
        DispatchAction::DoRemove(body) => assert_eq!(body, "{\"name\":\"old-model\"}"),
        _ => panic!("expected a remove"),
    }
}

#[test]
fn remove_double_emits_on_success() {
    let evs = remove_events(true);
    assert_eq!(evs.len(), 2);
    match &evs[0] {
        Event::RemoveStatus(m) => assert_eq!(m, "Removed successfully"),
        _ => panic!("expected a status first"),
    }
    assert!(matches!(evs[1], Event::RemovedModel));
}

#[test]
fn remove_double_emits_on_failure() {
    let evs = remove_events(false);
    assert_eq!(evs.len(), 2);
    match &evs[0] {
        Event::RemoveStatus(m) => assert_eq!(m, "Can't remove model"),
        _ => panic!("expected a status first"),
    }
    assert!(matches!(evs[1], Event::RemovedModel));
}

#[test]
fn generate_stream_example_scenario() {
    let chunks = vec![
        "{\"response\":\"Hi\",\"done\":false,\"model\":\"m\",\"created_at\":\"t\"}".to_string(),
        "{\"response\":\" there!\",\"done\":true,\"context\":[7,8],\"model\":\"m\",\"created_at\":\"t\"}"
            .to_string(),
    ];
    let evs = listener_events_generate(&chunks);
    assert_eq!(evs.len(), 3);
    let mut answer = String::new();
    let mut context = None;
    match &evs[0] {
        Event::Response(b) => {
            assert_eq!(b.response, "Hi");
            answer.push_str(&b.response);
        }
        _ => panic!("expected a response"),
    }
    match &evs[1] {
        Event::Response(b) => {
            assert_eq!(b.response, " there!");
            answer.push_str(&b.response);
            context = b.context.clone();
        }
        _ => panic!("expected a response"),
    }
    assert!(matches!(evs[2], Event::Done));
    assert_eq!(answer, "Hi there!");
    assert_eq!(context, Some(vec![7, 8]));
}

#[test]
fn malformed_line_between_valid_ones() {
    let chunks = vec![
        "{\"response\":\"a\",\"done\":false,\"model\":\"m\",\"created_at\":\"t\"}".to_string(),
        "{\"response\": oops".to_string(),
        "{\"response\":\"b\",\"done\":true,\"model\":\"m\",\"created_at\":\"t\"}".to_string(),
    ];
    let evs = listener_events_generate(&chunks);
    assert_eq!(evs.len(), 3);
    assert!(matches!(&evs[0], Event::Response(b) if b.response == "a"));
    assert!(matches!(&evs[1], Event::Response(b) if b.response == "b"));
    assert!(matches!(evs[2], Event::Done));
}

#[test]
fn empty_generate_stream_still_ends() {
    let evs = listener_events_generate(&vec![]);
    assert_eq!(evs.len(), 1);
    assert!(matches!(evs[0], Event::Done));
}

#[test]
fn pull_stream_events() {
    let chunks = vec![
        "{\"status\":\"pulling manifest\"}".to_string(),
        "bad line".to_string(),
        "{\"status\":\"success\",\"total\":10,\"completed\":10}".to_string(),
    ];
    let evs = listener_events_pull(&chunks);
    assert_eq!(evs.len(), 3);
    assert!(matches!(&evs[0], Event::PullResponse(p) if p.status == "pulling manifest"));
    assert!(matches!(&evs[1], Event::PullResponse(p) if p.status == "success"));
    assert!(matches!(evs[2], Event::PullDone));
}
