use lsedr::features::filesystem::collector::{
    normalize_path, FileSystemCollector, MonitorConfig, MonitorSettings,
};
use lsedr::shared::scan::{
    lines, parse_u16, parse_u32, rsplit_once, second_field, split_whitespace, trim,
    trim_end_matches,
};
use lsedr::shared::text::{contains, decode, replace_all, same_text};

struct Generator {
    state: u64,
}

impl Generator {
    fn new(seed: u64) -> Self {
        Generator { state: seed }
    }

    fn next(&mut self) -> u64 {
        self.state = self.state.wrapping_mul(6364136223846793005).wrapping_add(1442695040888963407);
        self.state >> 33
    }

    fn text(&mut self, alphabet: &[char], max_len: u64) -> String {
        let len = self.next() % (max_len + 1);
        let mut out = String::new();
        for _ in 0..len {
            let pick = (self.next() as usize) % alphabet.len();
            out.push(alphabet[pick]);
        }
        out
    }

    fn bytes(&mut self, max_len: u64) -> Vec<u8> {
        let len = self.next() % (max_len + 1);
        let choices: [u8; 10] = [b'a', b'z', 0x00, 0x7f, 0x80, 0xc3, 0xa9, 0xe2, 0xf0, 0xff];
        let mut out = Vec::new();
        for _ in 0..len {
            out.push(choices[(self.next() as usize) % choices.len()]);
        }
        out
    }
}

const LAYOUT: [char; 12] =
    ['a', 'b', ' ', '\t', '\n', '\r', ':', '.', '\u{a0}', '\u{3000}', 'é', '\u{85}'];
const SMALL: [char; 3] = ['a', 'b', 'c'];
const NUMERIC: [char; 6] = ['0', '1', '9', '+', '-', '6'];
const PATHS: [char; 5] = ['a', '\\', '/', '.', '\\'];

#[test]
fn words_lines_and_trim_agree_with_std_on_generated_texts() {
    let mut generator = Generator::new(1);
    for _ in 0..3000 {
        let text = generator.text(&LAYOUT, 12);
        let words: Vec<String> = text.split_whitespace().map(|w| w.to_string()).collect();
        assert_eq!(split_whitespace(&text), words, "words of {:?}", text);
        let expected_lines: Vec<String> = text.lines().map(|l| l.to_string()).collect();
        assert_eq!(lines(&text), expected_lines, "lines of {:?}", text);
        assert_eq!(trim(&text), text.trim(), "trim of {:?}", text);
    }
}

#[test]
fn splitting_agrees_with_std_on_generated_texts() {
    let mut generator = Generator::new(2);
    for _ in 0..3000 {
        let text = generator.text(&LAYOUT, 10);
        let expected = text.rsplit_once(':').map(|(a, b)| (a.to_string(), b.to_string()));
        assert_eq!(rsplit_once(&text, ':'), expected, "rsplit_once of {:?}", text);
        let field = text.split(':').nth(1).map(|f| f.to_string());
        assert_eq!(second_field(&text, ':'), field, "second field of {:?}", text);
    }
}

#[test]
fn search_and_replace_agree_with_std_on_generated_texts() {
    let mut generator = Generator::new(3);
    for _ in 0..3000 {
        let text = generator.text(&SMALL, 10);
        let pattern = generator.text(&SMALL, 3);
        let replacement = generator.text(&SMALL, 3);
        assert_eq!(contains(&text, &pattern), text.contains(&pattern));
        assert_eq!(same_text(&text, &pattern), text == pattern);
        if !pattern.is_empty() {
            assert_eq!(
                replace_all(&text, &pattern, &replacement),
                text.replace(&pattern, &replacement),
                "replace {:?} in {:?}",
                pattern,
                text
            );
            assert_eq!(
                trim_end_matches(&text, &pattern),
                text.trim_end_matches(pattern.as_str()),
                "trim {:?} off {:?}",
                pattern,
                text
            );
        }
    }
}

#[test]
fn numbers_agree_with_std_on_generated_texts() {
    let mut generator = Generator::new(4);
    for _ in 0..5000 {
        let text = generator.text(&NUMERIC, 11);
        assert_eq!(parse_u16(&text), text.parse::<u16>().ok(), "u16 of {:?}", text);
        assert_eq!(parse_u32(&text), text.parse::<u32>().ok(), "u32 of {:?}", text);
    }
}

#[test]
fn numbers_agree_with_std_around_the_limits() {
    for value in [0u64, 1, 65534, 65535, 65536, 4294967294, 4294967295, 4294967296, 99999999999] {
        let text = value.to_string();
        assert_eq!(parse_u16(&text), text.parse::<u16>().ok());
        assert_eq!(parse_u32(&text), text.parse::<u32>().ok());
        let padded = format!("+000{}", value);
        assert_eq!(parse_u16(&padded), padded.parse::<u16>().ok());
        assert_eq!(parse_u32(&padded), padded.parse::<u32>().ok());
    }
}

#[test]
fn normalize_agrees_with_std_on_generated_paths() {
    let mut generator = Generator::new(5);
    for _ in 0..2000 {
        let path = generator.text(&PATHS, 12);
        assert_eq!(normalize_path(&path), path.replace('\\', "/"));
    }
}

#[test]
fn decode_agrees_with_std_on_generated_bytes() {
    let mut generator = Generator::new(6);
    for _ in 0..3000 {
        let bytes = generator.bytes(6);
        assert_eq!(decode(&bytes), String::from_utf8(bytes.clone()).ok());
    }
}

fn in_white_space_list(c: char) -> bool {
    matches!(
        c,
        '\u{9}'..='\u{d}'
            | ' '
            | '\u{85}'
            | '\u{a0}'
            | '\u{1680}'
            | '\u{2000}'..='\u{200a}'
            | '\u{2028}'
            | '\u{2029}'
            | '\u{202f}'
            | '\u{205f}'
            | '\u{3000}'
    )
}

#[test]
fn white_space_is_the_listed_characters() {
    for code in 0u32..=0x10ffff {
        if let Some(c) = char::from_u32(code) {
            assert_eq!(c.is_whitespace(), in_white_space_list(c), "U+{:04X}", code);
        }
    }
}

#[test]
fn words_split_at_every_listed_character() {
    for code in 0u32..=0x3100 {
        if let Some(c) = char::from_u32(code) {
            let text = format!("a{}b", c);
            let expected = if in_white_space_list(c) { 2 } else { 1 };
            assert_eq!(split_whitespace(&text).len(), expected, "U+{:04X}", code);
        }
    }
}

fn filter_for(extensions: Vec<String>) -> FileSystemCollector {
    let config = MonitorConfig {
        paths: Vec::new(),
        settings: MonitorSettings { recursive: false, extensions },
    };
    FileSystemCollector::new(config, None, "host".to_string()).unwrap().0
}

fn extension_of_plain_name(name: &str) -> Option<String> {
    match name.rfind('.') {
        Some(at) if at > 0 && name != ".." => Some(name[at + 1..].to_string()),
        _ => None,
    }
}

#[test]
fn plain_names_have_the_extension_behind_their_last_dot() {
    let mut generator = Generator::new(7);
    let alphabet = ['a', 'b', '.', '.', ' ', 'é'];
    for _ in 0..3000 {
        let name = generator.text(&alphabet, 7);
        let every_suffix: Vec<String> =
            name.char_indices().map(|(at, _)| format!(".{}", &name[at..])).collect();
        match extension_of_plain_name(&name) {
            Some(extension) => {
                let only = filter_for(vec![format!(".{}", extension)]);
                assert!(only.should_monitor_file(&name), "extension of {:?}", name);
                let others: Vec<String> = every_suffix
                    .into_iter()
                    .filter(|dotted| dotted[1..] != extension)
                    .collect();
                assert!(!filter_for(others).should_monitor_file(&name), "others for {:?}", name);
            }
            None => {
                let mut all = every_suffix;
                all.push(".".to_string());
                assert!(!filter_for(all).should_monitor_file(&name), "no extension in {:?}", name);
            }
        }
    }
}

#[test]
fn plain_names_at_the_edges() {
    let dotted_empty = filter_for(vec![".".to_string()]);
    assert!(dotted_empty.should_monitor_file("a."));
    assert!(dotted_empty.should_monitor_file("..."));
    assert!(!dotted_empty.should_monitor_file(".."));
    assert!(!dotted_empty.should_monitor_file("."));
    assert!(!dotted_empty.should_monitor_file(""));
    let hidden = filter_for(vec![".bashrc".to_string(), ".gz".to_string()]);
    assert!(!hidden.should_monitor_file(".bashrc"));
    assert!(hidden.should_monitor_file(".bashrc.gz"));
    assert!(hidden.should_monitor_file("a.tar.gz"));
}
