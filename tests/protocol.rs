use mpv_player::{escape_path, load_command_text, loadlist_command_text, LoadMode};

/// Reads a double-quoted argument from just after its opening quote, as the
/// engine does: a backslash takes the next character literally.
fn unquote(s: &str) -> Option<(String, usize)> {
    let chars: Vec<char> = s.chars().collect();
    let mut out = String::new();
    let mut i = 0;
    while i < chars.len() {
        match chars[i] {
            '"' => return Some((out, i + 1)),
            '\\' => {
                if i + 1 >= chars.len() {
                    return None;
                }
                out.push(chars[i + 1]);
                i += 2;
            }
            c => {
                out.push(c);
                i += 1;
            }
        }
    }
    None
}

#[test]
fn insert_at_command_for_windows_path() {
    let cmd = load_command_text("C:\\media\\a.mkv", LoadMode::InsertAt(2));
    assert_eq!(cmd, "loadfile \"C:\\\\media\\\\a.mkv\" insert-at 2");
}

#[test]
fn escape_path_escapes_backslash_and_quotes() {
    assert_eq!(escape_path("a\\b'c\"d"), "a\\\\b\\'c\\\"d");
    assert_eq!(escape_path(""), "");
    assert_eq!(escape_path("plain/path.mp4"), "plain/path.mp4");
}

#[test]
fn escaped_path_reads_back_as_one_argument() {
    for path in ["C:\\x\\\"y\".mkv", "it's \"quoted\"", "\\\\server\\share\\", "\"", "'\\'"] {
        let cmd = load_command_text(path, LoadMode::Append);
        let rest = cmd.strip_prefix("loadfile \"").unwrap();
        let (lit, used) = unquote(rest).unwrap();
        assert_eq!(lit, path);
        assert_eq!(&rest[used..], " append");
    }
}

#[test]
fn each_load_mode_spells_its_words() {
    let p = "/m/a.mkv";
    assert_eq!(load_command_text(p, LoadMode::Replace), "loadfile \"/m/a.mkv\"");
    assert_eq!(load_command_text(p, LoadMode::Append), "loadfile \"/m/a.mkv\" append");
    assert_eq!(load_command_text(p, LoadMode::AppendPlay), "loadfile \"/m/a.mkv\" append-play");
    assert_eq!(load_command_text(p, LoadMode::InsertNext), "loadfile \"/m/a.mkv\" insert-next");
    assert_eq!(load_command_text(p, LoadMode::InsertNextPlay), "loadfile \"/m/a.mkv\" insert-next-play");
    assert_eq!(load_command_text(p, LoadMode::InsertAt(0)), "loadfile \"/m/a.mkv\" insert-at 0");
    assert_eq!(load_command_text(p, LoadMode::InsertAtPlay(105)), "loadfile \"/m/a.mkv\" insert-at-play 105");
}

#[test]
fn insert_at_largest_index() {
    let cmd = load_command_text("a", LoadMode::InsertAt(usize::MAX));
    assert_eq!(cmd, format!("loadfile \"a\" insert-at {}", usize::MAX));
}

#[test]
fn loadlist_command_quotes_path() {
    assert_eq!(loadlist_command_text("C:\\lists\\x.m3u"), "loadlist \"C:\\\\lists\\\\x.m3u\"");
}

#[test]
fn default_load_mode_is_replace() {
    assert_eq!(LoadMode::default(), LoadMode::Replace);
}
