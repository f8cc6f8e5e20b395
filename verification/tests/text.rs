use soroban_cli::text::{chars_of, str_contains, str_eq};

#[test]
fn chars_of_lists_the_characters() {
    assert_eq!(chars_of(""), Vec::<char>::new());
    assert_eq!(chars_of("abc"), vec!['a', 'b', 'c']);
    assert_eq!(chars_of("h\u{e9}llo"), vec!['h', '\u{e9}', 'l', 'l', 'o']);
}

#[test]
fn str_eq_compares_characters() {
    assert!(str_eq("", ""));
    assert!(str_eq("http", "http"));
    assert!(!str_eq("http", "https"));
    assert!(!str_eq("https", "http"));
    assert!(!str_eq("HTTP", "http"));
}

#[test]
fn str_contains_finds_a_run_anywhere() {
    assert!(str_contains("createAccountAlreadyExist", "createAccountAlreadyExist"));
    assert!(str_contains("op: createAccountAlreadyExist (400)", "createAccountAlreadyExist"));
    assert!(str_contains("xcreateAccountAlreadyExist", "createAccountAlreadyExist"));
    assert!(str_contains("createAccountAlreadyExistx", "createAccountAlreadyExist"));
    assert!(str_contains("abcabd", "abd"));
    assert!(str_contains("aaab", "aab"));
}

#[test]
fn str_contains_rejects_what_is_not_there() {
    assert!(!str_contains("", "a"));
    assert!(!str_contains("createAccountAlreadyExis", "createAccountAlreadyExist"));
    assert!(!str_contains("createAccount AlreadyExist", "createAccountAlreadyExist"));
    assert!(!str_contains("createaccountalreadyexist", "createAccountAlreadyExist"));
    assert!(!str_contains("ab", "abc"));
    assert!(!str_contains("abab", "ba b"));
}

#[test]
fn str_contains_the_empty_run() {
    assert!(str_contains("", ""));
    assert!(str_contains("abc", ""));
}

#[test]
fn str_contains_agrees_with_std() {
    let hays = ["", "a", "ab", "aba", "abab", "h\u{e9}llo w\u{f6}rld", "xxabxx"];
    let needles = ["", "a", "b", "ab", "ba", "aba", "\u{e9}l", "o w", "xx", "xxx"];
    for hay in hays {
        for needle in needles {
            assert_eq!(str_contains(hay, needle), hay.contains(needle));
        }
    }
}
