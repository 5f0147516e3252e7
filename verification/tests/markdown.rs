use ollama_applet::markdown::language_to_extension;

#[test]
fn known_languages_map_to_extensions() {
    assert_eq!(language_to_extension("python"), "py");
    assert_eq!(language_to_extension("rust"), "rs");
    assert_eq!(language_to_extension("c++"), "cpp");
    assert_eq!(language_to_extension("c#"), "cs");
    assert_eq!(language_to_extension("bash"), "sh");
    assert_eq!(language_to_extension("shell"), "sh");
    assert_eq!(language_to_extension("objective-c++"), "mm");
    assert_eq!(language_to_extension("f#"), "fs");
    assert_eq!(language_to_extension("markdown"), "md");
}

#[test]
fn unknown_language_falls_back_to_txt() {
    assert_eq!(language_to_extension("brainstorm"), "txt");
    assert_eq!(language_to_extension(""), "txt");
    assert_eq!(language_to_extension("Python"), "txt");
}
