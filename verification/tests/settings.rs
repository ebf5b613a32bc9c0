use mutui::settings::Settings;

fn settings(server: &str, token: &str) -> Settings {
    Settings { server_url: server.to_string(), auth_token: token.to_string() }
}

#[test]
fn the_command_line_goes_over_the_file() {
    let mut s = settings("http://file", "old");
    s.override_with(Some("http://line".to_string()), Some("new".to_string()));
    assert!(s.same(&settings("http://line", "new")));
    let mut s = settings("http://file", "old");
    s.override_with(None, None);
    assert!(s.same(&settings("http://file", "old")));
}

#[test]
fn without_a_server_the_local_one_is_used() {
    let mut s = settings("", "");
    s.override_with(None, None);
    assert_eq!(s.server_url, "http://127.0.0.1:7700");
    let mut s = settings("http://file", "");
    s.override_with(Some(String::new()), None);
    assert_eq!(s.server_url, "http://127.0.0.1:7700");
}

#[test]
fn an_empty_token_is_none() {
    let s = settings("http://h/", "");
    assert_eq!(s.token(), None);
    assert!(s.headers().is_empty());
    assert!(s.client().token.is_none());
    assert_eq!(s.client().base, "http://h");
    let s = settings("http://h", "abc");
    assert_eq!(s.token().as_deref(), Some("abc"));
    assert_eq!(s.headers(), vec!["Authorization: Bearer abc"]);
    assert_eq!(s.client().token.as_deref(), Some("abc"));
}

#[test]
fn settings_differ_by_one_field() {
    assert!(!settings("a", "b").same(&settings("a", "c")));
    assert!(!settings("a", "b").same(&settings("x", "b")));
    assert!(settings("a", "b").same(&settings("a", "b").clone()));
}
