use docgen::strutil::{split_pipe, str_eq, u64_to_dec};
use docgen::registry::Registry;
use docgen::args::{ArgValue, Args};

#[test]
fn split_pipe_three_options() {
    let parts = split_pipe("a|b|c");
    assert_eq!(parts, vec!["a".to_string(), "b".to_string(), "c".to_string()]);
}

#[test]
fn split_pipe_empty_string_is_one_empty_segment() {
    let parts = split_pipe("");
    assert_eq!(parts, vec!["".to_string()]);
}

#[test]
fn split_pipe_trailing_and_lone_separator() {
    assert_eq!(split_pipe("a|"), vec!["a".to_string(), "".to_string()]);
    assert_eq!(split_pipe("|"), vec!["".to_string(), "".to_string()]);
}

#[test]
fn split_pipe_no_separator() {
    assert_eq!(split_pipe("alone"), vec!["alone".to_string()]);
}

#[test]
fn u64_to_dec_exact_values() {
    assert_eq!(u64_to_dec(0), "0");
    assert_eq!(u64_to_dec(7), "7");
    assert_eq!(u64_to_dec(10), "10");
    assert_eq!(u64_to_dec(12345), "12345");
    assert_eq!(u64_to_dec(u64::MAX), "18446744073709551615");
}

#[test]
fn str_eq_decides_equality() {
    assert!(str_eq("", ""));
    assert!(str_eq("abc", "abc"));
    assert!(!str_eq("abc", "abd"));
    assert!(!str_eq("abc", "abcd"));
}

#[test]
fn registry_snapshot_holds_registered_pairs() {
    let mut reg = Registry::new();
    reg.register("a".to_string(), "first".to_string());
    reg.register("b".to_string(), "second".to_string());
    let all = reg.get_all();
    assert!(all.contains(&("a".to_string(), "first".to_string())));
    assert!(all.contains(&("b".to_string(), "second".to_string())));
    assert_eq!(all.len(), 2);
}

#[test]
fn args_get_returns_latest_binding() {
    let mut args = Args::new();
    args.insert("range".to_string(), ArgValue::Int(3));
    args.insert("range".to_string(), ArgValue::Int(5));
    match args.get("range") {
        Some(ArgValue::Int(n)) => assert_eq!(*n, 5),
        _ => panic!("expected the later integer binding"),
    }
    assert!(args.get("options").is_none());
}
