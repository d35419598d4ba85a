use desktop_notes_display::todo::handler;
use regex::Regex;

/// The four line patterns of the note format.
struct Patterns {
    link: Regex,
    task: Regex,
    header: Regex,
    bullet: Regex,
}

fn patterns() -> Patterns {
    Patterns {
        link: Regex::new(r"\[([^\]]*)\]\([^\)]*\)").unwrap(),
        task: Regex::new(r#"\s*(?:[-\+] (?<checkbox>\[(?<checked>.)])?)\s?(?<message>.*)"#)
            .unwrap(),
        header: Regex::new(r#"(?<todo_header>^# TODO)\s*$|(^# [A-Za-z0-9\s]*$)"#).unwrap(),
        bullet: Regex::new(r"(?<indent>\s*)[-\+] (?<checkbox>\[.\] )?").unwrap(),
    }
}

/// The page as the four line patterns of the note format compute it.
fn regex_page(pats: &Patterns, text: &str) -> String {
    let (link, task, header, bullet) = (&pats.link, &pats.task, &pats.header, &pats.bullet);

    #[derive(PartialEq)]
    enum Under {
        No,
        Yes,
        Past,
    }
    let mut under = Under::No;
    let mut items_before_todo = false;

    text.replace("\x09", "  ")
        .lines()
        .filter(|l| !l.trim().is_empty())
        .map(|l| link.replace_all(l, "$1").to_string())
        .filter(|l| {
            if under == Under::Past {
                return false;
            }
            if header.is_match(l) {
                if under == Under::Yes {
                    under = Under::Past;
                    false
                } else if header.captures(l).unwrap().name("todo_header").is_some() {
                    under = Under::Yes;
                    items_before_todo
                } else {
                    true
                }
            } else if let Some(caps) = task.captures(l) {
                let t = caps
                    .name("checked")
                    .is_some_and(|c| c.as_str().trim().is_empty())
                    || caps.name("checked").is_none();
                if !items_before_todo {
                    items_before_todo = t;
                }
                t
            } else {
                if !items_before_todo && under == Under::No {
                    items_before_todo = true
                }
                true
            }
        })
        .map(|line| {
            let caps = match bullet.captures(&line) {
                Some(v) => v,
                None => return line,
            };
            let spaces = match caps.name("indent") {
                Some(v) => v.len() / 2,
                None => 0,
            };
            let mark = match caps.name("checkbox") {
                Some(_) => "[]",
                None => "-",
            };
            bullet
                .replace(&line, format!("{}{mark}", (0..spaces).map(|_| ' ').collect::<String>()))
                .to_string()
        })
        .collect::<Vec<_>>()
        .join("\n")
}

#[test]
fn page_of_typical_note() {
    let note = "# Notes\n\nsome text\n# TODO\n- [ ] buy [milk](http://shop)\n- [x] done thing\n\t- [ ] nested\n  + plain item\n# Later\n- [ ] hidden\n";
    let expected = "# Notes\nsome text\n# TODO\n[]buy milk\n []nested\n -plain item";
    assert_eq!(handler(note), expected);
    assert_eq!(regex_page(&patterns(), note), expected);
}

#[test]
fn todo_header_hidden_without_items_before() {
    let note = "# TODO\n- [ ] a\n- b\n";
    assert_eq!(handler(note), "[]a\n-b");
}

#[test]
fn todo_header_hidden_after_only_headers() {
    let note = "# Intro\n# TODO\n- [ ] a\n";
    assert_eq!(handler(note), "# Intro\n[]a");
}

#[test]
fn todo_header_shown_after_open_task() {
    let note = "- [ ] first\n# TODO\n- [ ] a\n";
    assert_eq!(handler(note), "[]first\n# TODO\n[]a");
}

#[test]
fn todo_header_hidden_after_done_task_only() {
    let note = "- [x] first\n# TODO\n- [ ] a\n";
    assert_eq!(handler(note), "[]a");
}

#[test]
fn section_closed_by_next_header() {
    let note = "# TODO\n- a\n## Sub\n# Other\nmore\n- b\n";
    assert_eq!(handler(note), "-a\n## Sub");
}

#[test]
fn blank_and_done_lines_change_nothing() {
    let base = "intro\n# TODO\n- [ ] a\n# End\nrest";
    let with_more = "intro\n   \n- [x] old\n# TODO\n- [ ] a\n\t\n- [X] b\n# End\nrest";
    assert_eq!(handler(with_more), handler(base));
    assert_eq!(handler(base), "intro\n# TODO\n[]a");
}

#[test]
fn done_tasks_dropped() {
    assert_eq!(handler("- [x] done\n- [X] also\n- [ ] open\n"), "[]open");
}

#[test]
fn blank_checkbox_mark_is_open() {
    // a no-break space counts as blank
    assert_eq!(handler("- [\u{a0}] open\n"), "[]open");
}

#[test]
fn empty_note_gives_empty_page() {
    assert_eq!(handler(""), "");
    assert_eq!(handler("\n\n  \n\t\n"), "");
}

#[test]
fn crlf_line_endings() {
    assert_eq!(handler("text\r\n- [ ] x\r\n"), "text\n[]x");
}

#[test]
fn last_line_keeps_carriage_return() {
    assert_eq!(handler("text\r"), "text\r");
}

#[test]
fn links_replaced_by_text() {
    assert_eq!(handler("see [a](b) and [c](d)"), "see a and c");
    assert_eq!(handler("[[a](b)](c)"), "[a](c)");
    assert_eq!(handler("[a] (b)"), "[a] (b)");
    assert_eq!(handler("[a](b"), "[a](b");
}

#[test]
fn link_that_leaves_blank_line_is_kept() {
    assert_eq!(handler("x\n[ ](y)\n"), "x\n ");
}

#[test]
fn indent_counts_bytes() {
    // four spaces make two, one tab makes one, a no-break space is two bytes
    assert_eq!(handler("    - a"), "  -a");
    assert_eq!(handler("\t- a"), " -a");
    assert_eq!(handler("\u{a0}- a"), " -a");
    assert_eq!(handler("\u{3000}- a"), " -a");
}

#[test]
fn checkbox_without_trailing_space() {
    assert_eq!(handler("- [ ]"), "-[ ]");
}

#[test]
fn marker_inside_text() {
    assert_eq!(handler("word - item"), "word-item");
    assert_eq!(handler("a-b"), "a-b");
}

#[test]
fn header_with_punctuation_is_text() {
    assert_eq!(handler("# Notes!\n# TODO\n- a"), "# Notes!\n# TODO\n-a");
}

/// Notes drawn at random from `alphabet` and a few whole pieces of markup.
fn random_notes(alphabet: &[char], mut seed: u64, count: usize) -> Vec<String> {
    let mut notes = Vec::new();
    for _ in 0..count {
        seed = seed.wrapping_mul(6364136223846793005).wrapping_add(1442695040888963407);
        let len = (seed >> 33) % 40;
        let mut text = String::new();
        for _ in 0..len {
            seed = seed.wrapping_mul(6364136223846793005).wrapping_add(1442695040888963407);
            let pick = ((seed >> 33) as usize) % (alphabet.len() + 4);
            match pick.checked_sub(alphabet.len()) {
                None => text.push(alphabet[pick]),
                Some(0) => text.push_str("# TODO"),
                Some(1) => text.push_str("- [ ] "),
                Some(2) => text.push_str("- [x] "),
                _ => text.push_str("[l](u)"),
            }
        }
        notes.push(text);
    }
    notes
}

#[test]
fn same_page_as_the_patterns() {
    let alphabet = [
        '#', ' ', ' ', 'T', 'O', 'D', '-', '+', '[', ']', '(', ')', 'x', 'a', '\t', '\r', '\n',
        '\n', '\u{a0}', '!', '\u{3000}',
    ];
    let pats = patterns();
    for text in random_notes(&alphabet, 0x2545_f491_4f6c_dd1d, 3000) {
        assert_eq!(handler(&text), regex_page(&pats, &text), "note {:?}", text);
    }
}

#[test]
fn same_page_as_the_patterns_unicode_blanks() {
    let alphabet = [
        '#', ' ', '-', '+', '[', ']', '(', ')', '\n', '\u{85}', '\u{1680}', '\u{2000}',
        '\u{200a}', '\u{2028}', '\u{2029}', '\u{202f}', '\u{205f}', '\u{b}', '\u{c}', '\u{200b}',
        'T', 'O', 'D', '\u{e9}', '\u{1f600}',
    ];
    let pats = patterns();
    for text in random_notes(&alphabet, 0x9e37_79b9_7f4a_7c15, 3000) {
        assert_eq!(handler(&text), regex_page(&pats, &text), "note {:?}", text);
    }
}
