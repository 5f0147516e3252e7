use ollama_applet::broker::{listener_events_generate, remove_events, Event};
use ollama_applet::chat::{
    conversation_filename, Conversation, Image, MessageContent, Text,
};
use ollama_applet::models::{installed_models, model_index, Model, Tags};
use ollama_applet::window::{ChatState, StreamingRequest};
use ollama_applet::Settings;

#[test]
fn settings_defaults() {
    let s = Settings::new();
    assert_eq!(s.avatar, "");
    assert!(s.keep_context);
    assert_eq!(s.model, "");
    assert_eq!(s.ollama_address, "localhost:11434");
    assert_eq!(s.keep_alive_model, "5m");
}

#[test]
fn settings_setters() {
    let mut s = Settings::new();
    s.set_avatar("/home/me/avatar.png".to_string());
    s.change_context(false);
    s.set_model("llama3".to_string());
    s.set_ollama_address("10.0.0.2:11434".to_string());
    s.set_keep_alive_model("10m".to_string());
    assert_eq!(s.avatar, "/home/me/avatar.png");
    assert!(!s.keep_context);
    assert_eq!(s.model, "llama3");
    assert_eq!(s.ollama_address, "10.0.0.2:11434");
    assert_eq!(s.keep_alive_model, "10m");
}

fn model_named(name: &str) -> Model {
    Model {
        name: name.to_string(),
        model: name.to_string(),
        modified_at: None,
        size: None,
        digest: None,
        details: None,
    }
}

#[test]
fn installed_models_lists_names() {
    let tags = Tags {
        models: vec![model_named("llama3:latest"), model_named("llava:latest")],
    };
    assert_eq!(
        installed_models(&tags),
        vec!["llama3:latest".to_string(), "llava:latest".to_string()]
    );
    assert!(installed_models(&Tags { models: vec![] }).is_empty());
}

#[test]
fn conversation_collects_messages() {
    let mut c = Conversation::new();
    assert!(c.messages.is_empty());
    c.push(Text::User(MessageContent::Text("hi".to_string())));
    c.push(Text::Bot(MessageContent::Text("hello".to_string())));
    assert_eq!(c.messages.len(), 2);
    assert!(matches!(&c.messages[0], Text::User(MessageContent::Text(t)) if t == "hi"));
    assert!(matches!(&c.messages[1], Text::Bot(MessageContent::Text(t)) if t == "hello"));
}

#[test]
fn image_encodes_base64() {
    let img = Image::new(b"hi".to_vec());
    assert_eq!(img.base64, "aGk=");
    assert_eq!(img.data, b"hi".to_vec());
    let empty = Image::new(Vec::new());
    assert_eq!(empty.base64, "");
    let png_sig = Image::new(vec![0x89, 0x50, 0x4e, 0x47]);
    assert_eq!(png_sig.base64, "iVBORw==");
}

#[test]
fn filename_is_zero_padded() {
    assert_eq!(
        conversation_filename(2024, 3, 7, 9, 5, 0),
        "2024-03-07 09:05:00.ron"
    );
    assert_eq!(
        conversation_filename(987, 12, 31, 23, 59, 59),
        "0987-12-31 23:59:59.ron"
    );
}

#[test]
fn chat_state_accumulates_answer() {
    let chunks = vec![
        "{\"response\":\"Hi\",\"done\":false,\"model\":\"m\",\"created_at\":\"t\"}".to_string(),
        "{\"response\":\" there!\",\"done\":true,\"context\":[7,8],\"model\":\"m\",\"created_at\":\"t\"}"
            .to_string(),
    ];
    let mut state = ChatState::new();
    state.send_prompt("Say hi".to_string(), false);
    assert!(matches!(state.request, StreamingRequest::Ask));
    for ev in listener_events_generate(&chunks) {
        state.apply_event(&ev);
    }
    assert_eq!(state.bot_response, "");
    assert_eq!(state.context, Some(vec![7, 8]));
    assert!(matches!(state.request, StreamingRequest::Idle));
    assert_eq!(state.conversation.messages.len(), 2);
    assert!(matches!(
        &state.conversation.messages[0],
        Text::User(MessageContent::Text(t)) if t == "Say hi"
    ));
    assert!(matches!(
        &state.conversation.messages[1],
        Text::Bot(MessageContent::Text(t)) if t == "Hi there!"
    ));
}

#[test]
fn send_prompt_with_context_kept() {
    let mut state = ChatState::new();
    state.send_prompt("again".to_string(), true);
    assert!(matches!(state.request, StreamingRequest::AskWithContext));
}

#[test]
fn model_index_finds_first_match() {
    let models = vec![
        "llama3:latest".to_string(),
        "llava:latest".to_string(),
        "llama3:latest".to_string(),
    ];
    assert_eq!(model_index(&models, "llava:latest"), Some(1));
    assert_eq!(model_index(&models, "llama3:latest"), Some(0));
    assert_eq!(model_index(&models, "absent"), None);
    assert_eq!(model_index(&vec![], "x"), None);
}

#[test]
fn chat_state_tracks_remove_status() {
    let mut state = ChatState::new();
    for ev in remove_events(false) {
        match &ev {
            Event::RemoveStatus(_) => {
                state.apply_event(&ev);
                assert_eq!(state.status_area_status, "Can't remove model");
            }
            _ => state.apply_event(&ev),
        }
    }
    assert_eq!(state.status_area_status, "");
}

#[test]
fn chat_state_tracks_pull_status() {
    let mut state = ChatState::new();
    let evs = ollama_applet::broker::listener_events_pull(&vec![
        "{\"status\":\"downloading\"}".to_string(),
    ]);
    state.apply_event(&evs[0]);
    assert_eq!(state.status_area_status, "downloading");
    state.apply_event(&evs[1]);
    assert_eq!(state.status_area_status, "");
}

#[test]
fn ready_event_leaves_state_alone() {
    let mut state = ChatState::new();
    state.request = StreamingRequest::PullModel;
    state.apply_event(&Event::Ready);
    assert!(matches!(state.request, StreamingRequest::PullModel));
    assert_eq!(state.bot_response, "");
}
