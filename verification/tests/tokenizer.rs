use opter::parse;
use opter::parse_all;
use opter::Opt;

#[test]
fn full() {
    let args = vec![
        "a".to_string(),
        "-bc".to_string(),
        "-d".to_string(),
        "e".to_string(),
        "--f".to_string(),
        "g".to_string(),
        "-".to_string(),
        "h".to_string(),
        "--".to_string(),
        "i".to_string(),
        "-j".to_string(),
        "--k".to_string(),
    ];
    let actual = parse_all(args);
    let expected = vec![
        Opt::Ordinal("a".to_string()),
        Opt::Flag("b".to_string()),
        Opt::Flag("c".to_string()),
        Opt::Named("d".to_string(), "e".to_string()),
        Opt::Named("f".to_string(), "g".to_string()),
        Opt::Ordinal("-".to_string()),
        Opt::Ordinal("h".to_string()),
        Opt::Raw("i".to_string()),
        Opt::Raw("-j".to_string()),
        Opt::Raw("--k".to_string()),
    ];
    assert_eq!(actual, expected);
}

#[test]
fn trailing_flag() {
    let args = vec!["a".to_string(), "b".to_string(), "-c".to_string()];
    let actual = parse_all(args);
    let expected = vec![
        Opt::Ordinal("a".to_string()),
        Opt::Ordinal("b".to_string()),
        Opt::Flag("c".to_string()),
    ];
    assert_eq!(actual, expected);
}

#[test]
fn empty_input() {
    let actual = parse_all(Vec::new());
    assert_eq!(actual, Vec::new());
}

#[test]
fn single_ordinal() {
    let actual = parse_all(vec!["a".to_string()]);
    assert_eq!(actual, vec![Opt::Ordinal("a".to_string())]);
}

#[test]
fn trailing_short_flag() {
    let actual = parse_all(vec!["-a".to_string()]);
    assert_eq!(actual, vec![Opt::Flag("a".to_string())]);
}

#[test]
fn stacked_flags_in_order() {
    let actual = parse_all(vec!["-abc".to_string()]);
    let expected = vec![
        Opt::Flag("a".to_string()),
        Opt::Flag("b".to_string()),
        Opt::Flag("c".to_string()),
    ];
    assert_eq!(actual, expected);
}

#[test]
fn short_named() {
    let actual = parse_all(vec!["-d".to_string(), "e".to_string()]);
    assert_eq!(actual, vec![Opt::Named("d".to_string(), "e".to_string())]);
}

#[test]
fn long_named() {
    let actual = parse_all(vec!["--f".to_string(), "g".to_string()]);
    assert_eq!(actual, vec![Opt::Named("f".to_string(), "g".to_string())]);
}

#[test]
fn lone_dash_is_ordinal() {
    let actual = parse_all(vec!["-".to_string()]);
    assert_eq!(actual, vec![Opt::Ordinal("-".to_string())]);
}

#[test]
fn terminator_alone() {
    let actual = parse_all(vec!["--".to_string()]);
    assert_eq!(actual, Vec::new());
}

#[test]
fn terminator_passes_tokens_through() {
    let actual = parse_all(vec!["--".to_string(), "-j".to_string()]);
    assert_eq!(actual, vec![Opt::Raw("-j".to_string())]);
}

#[test]
fn exhaustion_is_idempotent() {
    let mut it = parse(vec!["a".to_string()]);
    assert_eq!(it.next_opt(), Some(Opt::Ordinal("a".to_string())));
    assert_eq!(it.next_opt(), None);
    assert_eq!(it.next_opt(), None);
    assert_eq!(it.next_opt(), None);
}

#[test]
fn exhaustion_is_idempotent_on_empty_input() {
    let mut it = parse(Vec::new());
    assert_eq!(it.next_opt(), None);
    assert_eq!(it.next_opt(), None);
}

#[test]
fn stacked_flags_drain_before_next_token() {
    let mut it = parse(vec!["-ab".to_string(), "x".to_string()]);
    assert_eq!(it.next_opt(), Some(Opt::Flag("a".to_string())));
    assert_eq!(it.next_opt(), Some(Opt::Flag("b".to_string())));
    assert_eq!(it.next_opt(), Some(Opt::Ordinal("x".to_string())));
    assert_eq!(it.next_opt(), None);
}

#[test]
fn pending_name_survives_drain_mode() {
    let actual = parse_all(vec!["-d".to_string(), "--".to_string(), "x".to_string()]);
    let expected = vec![Opt::Raw("x".to_string()), Opt::Flag("d".to_string())];
    assert_eq!(actual, expected);
}

#[test]
fn dash_value_resolves_pending_name() {
    let actual = parse_all(vec!["-d".to_string(), "-".to_string()]);
    assert_eq!(actual, vec![Opt::Named("d".to_string(), "-".to_string())]);
}

#[test]
fn stacked_flags_resolve_pending_name() {
    let actual = parse_all(vec!["--x".to_string(), "-yz".to_string()]);
    let expected = vec![
        Opt::Flag("x".to_string()),
        Opt::Flag("y".to_string()),
        Opt::Flag("z".to_string()),
    ];
    assert_eq!(actual, expected);
}

#[test]
fn two_names_in_a_row() {
    let actual = parse_all(vec!["-a".to_string(), "--b".to_string(), "c".to_string()]);
    let expected = vec![
        Opt::Flag("a".to_string()),
        Opt::Named("b".to_string(), "c".to_string()),
    ];
    assert_eq!(actual, expected);
}

#[test]
fn long_name_may_start_with_dash() {
    let actual = parse_all(vec!["---a".to_string()]);
    assert_eq!(actual, vec![Opt::Flag("-a".to_string())]);
}

#[test]
fn empty_token_is_ordinal() {
    let actual = parse_all(vec!["".to_string()]);
    assert_eq!(actual, vec![Opt::Ordinal("".to_string())]);
}

#[test]
fn empty_token_resolves_pending_name() {
    let actual = parse_all(vec!["-d".to_string(), "".to_string()]);
    assert_eq!(actual, vec![Opt::Named("d".to_string(), "".to_string())]);
}

#[test]
fn streaming_matches_eager() {
    let args = vec![
        "a".to_string(),
        "-bc".to_string(),
        "--".to_string(),
        "x".to_string(),
    ];
    let eager = parse_all(args.clone());
    let mut it = parse(args);
    let mut streamed = Vec::new();
    while let Some(o) = it.next_opt() {
        streamed.push(o);
    }
    assert_eq!(streamed, eager);
}
