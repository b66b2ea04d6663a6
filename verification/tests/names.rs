use ambient_fd::names::split_on;

#[test]
fn split_on_follows_str_split() {
    for text in ["", ":", "a", "a:b", "::", "config:database:", "ä:ß"] {
        let ours = split_on(text, ':');
        let theirs: Vec<String> = text.split(':').map(|s| s.to_string()).collect();
        assert_eq!(ours, theirs, "for {text:?}");
    }
}

#[test]
fn split_then_join_gives_the_text_back() {
    let text = "a::bc:";
    assert_eq!(split_on(text, ':').join(":"), text);
}

#[test]
fn join_then_split_gives_the_names_back() {
    let names = vec!["config".to_string(), "".to_string(), "database".to_string()];
    assert_eq!(split_on(&names.join(":"), ':'), names);
}

#[test]
fn pieces_never_hold_the_separator() {
    for piece in split_on("x:y::z", ':') {
        assert!(!piece.contains(':'));
    }
}
