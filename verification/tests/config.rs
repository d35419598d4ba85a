use desktop_notes_display::{config, example_config};

#[test]
fn note_path_under_home() {
    assert_eq!(config::file_path("/home/me"), "/home/me/obsidian/fuz-vault/General/TODO.md");
    assert_eq!(example_config::file_path("/h"), "/h/obsidian/vault/path/TODO.md");
    assert_eq!(config::file_path(""), "/obsidian/fuz-vault/General/TODO.md");
}

#[test]
fn server_address() {
    assert_eq!(config::SERVER_URL, "0.0.0.0:7272");
    assert_eq!(example_config::SERVER_URL, "0.0.0.0:7272");
}
