use lsedr::shared::ident::generate_id;
use lsedr::shared::text::{
    chars_of, contains, contains_ignore_case, decode, joined, list_contains, replace_all, same_text,
};

#[test]
fn chars_of_keeps_order() {
    assert_eq!(chars_of("aé/"), vec!['a', 'é', '/']);
    assert_eq!(chars_of(""), Vec::<char>::new());
}

#[test]
fn joined_concatenates() {
    assert_eq!(joined("IO error: ", "disk"), "IO error: disk");
    assert_eq!(joined("", ""), "");
}

#[test]
fn same_text_compares_characters() {
    assert!(same_text("abc", "abc"));
    assert!(!same_text("abc", "abd"));
    assert!(!same_text("abc", "ab"));
    assert!(same_text("", ""));
}

#[test]
fn contains_finds_substring() {
    assert!(contains("powershell -enc AAAA", "-enc"));
    assert!(contains("abc", "abc"));
    assert!(contains("abc", "c"));
    assert!(!contains("abc", "abcd"));
    assert!(!contains("abc", "ca"));
}

#[test]
fn contains_empty_needle_always_matches() {
    assert!(contains("abc", ""));
    assert!(contains("", ""));
    assert!(!contains("", "a"));
}

#[test]
fn contains_ignore_case_folds_both_sides() {
    assert!(contains_ignore_case("C:\\Temp\\PowerShell.EXE -Enc", "powershell"));
    assert!(contains_ignore_case("cmd /c start", "CMD"));
    assert!(!contains_ignore_case("notepad.exe", "powershell"));
}

#[test]
fn replace_all_replaces_every_occurrence() {
    assert_eq!(replace_all("a-b-c", "-", "+"), "a+b+c");
    assert_eq!(replace_all("aaaa", "aa", "b"), "bb");
    assert_eq!(replace_all("aaa", "aa", "b"), "ba");
    assert_eq!(replace_all("abc", "x", "y"), "abc");
    assert_eq!(replace_all("abc", "abc", ""), "");
    assert_eq!(replace_all("ab", "abc", "z"), "ab");
}

#[test]
fn replace_all_agrees_with_std_on_nonempty_patterns() {
    let cases = [
        ("${USERPROFILE}/Documents", "${USERPROFILE}", "C:/Users/me"),
        ("x${USERPROFILE}y${USERPROFILE}", "${USERPROFILE}", "h"),
        ("abababa", "aba", "X"),
        ("", "a", "b"),
    ];
    for (s, from, to) in cases {
        assert_eq!(replace_all(s, from, to), s.replace(from, to));
    }
}

#[test]
fn replace_all_leaves_text_alone_for_empty_pattern() {
    assert_eq!(replace_all("abc", "", "-"), "abc");
}

#[test]
fn list_contains_searches_by_text() {
    let list = vec![".txt".to_string(), ".log".to_string()];
    assert!(list_contains(&list, ".log"));
    assert!(!list_contains(&list, "log"));
    assert!(!list_contains(&Vec::new(), ".txt"));
}

#[test]
fn decode_accepts_only_utf8() {
    assert_eq!(decode(&"héllo".as_bytes().to_vec()), Some("héllo".to_string()));
    assert_eq!(decode(&Vec::new()), Some(String::new()));
    assert_eq!(decode(&vec![0xff, 0xfe]), None);
    assert_eq!(decode(&vec![0xc3]), None);
}

#[test]
fn generated_ids_are_hyphenated_uuids() {
    let id = generate_id();
    assert_eq!(id.chars().count(), 36);
    let hyphens: Vec<usize> = id.char_indices().filter(|(_, c)| *c == '-').map(|(i, _)| i).collect();
    assert_eq!(hyphens, vec![8, 13, 18, 23]);
    assert!(id.chars().all(|c| c == '-' || c.is_ascii_hexdigit()));
    assert_eq!(id.chars().nth(14), Some('4'));
}

#[test]
fn generated_ids_differ() {
    assert_ne!(generate_id(), generate_id());
}
