use vector_app::search_bar::{
    compile_regex,
    smart_case_fallback, smart_case_pattern, smart_case_regex, smart_case_regex_checked, Match,
    GridText, MatchCache, MatchOverflow, MatchSource, SearchBar, SelectionRange, MAX_CACHED_MATCHES,
};

#[test]
fn smart_case_lower() {
    let re = smart_case_regex("hello");
    assert!(re.regex().is_match("Hello"), "all-lowercase query is case-insensitive");
    assert!(re.regex().is_match("HELLO"));
    assert!(re.regex().is_match("hello"));
}

#[test]
fn smart_case_upper() {
    let re = smart_case_regex("Hello");
    assert!(re.regex().is_match("Hello"));
    assert!(!re.regex().is_match("hello"), "any uppercase makes it case-sensitive");
    assert!(!re.regex().is_match("HELLO"));
}

#[test]
fn smart_case_patterns_exact() {
    assert_eq!(smart_case_pattern("abc"), "(?i)abc");
    assert_eq!(smart_case_pattern("aBc"), "aBc");
    assert_eq!(smart_case_fallback("a(b"), "(?i)a\\(b");
    assert_eq!(smart_case_fallback("A(b"), "A\\(b");
}

#[test]
fn invalid_regex_falls_back_to_literal() {
    let re = smart_case_regex_checked("a(b").expect("escaped fallback compiles");
    assert!(re.regex().is_match("xA(By"));
    assert!(!re.regex().is_match("ab"));
}

#[test]
fn cache_1000_lazy() {
    let dummy = Match { start_row: 0, start_col: 0, end_row: 0, end_col: 1 };
    let v = vec![dummy; 1500];
    let cache = MatchCache::from_matches(v);
    assert_eq!(cache.overflow, MatchOverflow::OverThousand, "overflow flag set beyond 1000");
    assert_eq!(cache.matches().len(), MAX_CACHED_MATCHES, "cache truncates to 1000");
    let (idx, of) = cache.counter();
    assert_eq!(idx, 1);
    assert_eq!(of, MatchOverflow::OverThousand);
}

#[test]
fn cache_bounded_counts_and_wraps() {
    let m = |r: usize| Match { start_row: r, start_col: 0, end_row: r, end_col: 1 };
    let mut cache = MatchCache::from_matches(vec![m(0), m(1), m(2)]);
    assert_eq!(cache.counter(), (1, MatchOverflow::Bounded(3)));
    cache.prev();
    assert_eq!(cache.counter(), (3, MatchOverflow::Bounded(3)));
    cache.next();
    assert_eq!(cache.counter(), (1, MatchOverflow::Bounded(3)));
    cache.next();
    cache.next();
    cache.next();
    assert_eq!(cache.counter(), (1, MatchOverflow::Bounded(3)));
    let empty = MatchCache::from_matches(Vec::new());
    assert_eq!(empty.counter(), (0, MatchOverflow::Bounded(0)));
}

#[test]
fn esc_restores_selection() {
    let mut bar = SearchBar::default();
    let prior = SelectionRange { anchor: (0, 0), cursor: (1, 0) };
    bar.open_with(Some(prior));
    assert!(bar.open);
    let returned = bar.close().expect("Esc must return the prior selection");
    assert_eq!(returned, prior);
    assert!(!bar.open);
}

#[test]
fn set_query_searches_and_empty_query_clears() {
    let grid = GridText { rows: vec!["foo bar".to_owned(), "FOO".to_owned()] };
    let mut bar = SearchBar::default();
    bar.open_with(None);
    assert!(bar.try_set_query("foo", &grid));
    assert_eq!(bar.query, "foo");
    assert_eq!(bar.cache.as_ref().unwrap().matches().len(), 2);
    assert!(bar.try_set_query("FOO", &grid));
    assert_eq!(bar.cache.as_ref().unwrap().matches().len(), 1);
    assert!(bar.try_set_query("", &grid));
    assert!(bar.cache.is_none());
    assert!(bar.open);
}

#[test]
fn grid_search_reports_rows_and_byte_columns() {
    let grid = GridText { rows: vec!["ab ab".to_owned(), "".to_owned(), "xab".to_owned()] };
    let re = smart_case_regex("ab");
    let hits = grid.search(&re);
    assert_eq!(
        hits,
        vec![
            Match { start_row: 0, start_col: 0, end_row: 0, end_col: 2 },
            Match { start_row: 0, start_col: 3, end_row: 0, end_col: 5 },
            Match { start_row: 2, start_col: 1, end_row: 2, end_col: 3 },
        ]
    );
    assert_eq!(re.as_str(), "(?i)ab");
    assert_eq!(smart_case_regex("a(b").as_str(), "(?i)a\\(b");
}

#[test]
fn compile_regex_keeps_its_pattern() {
    assert!(compile_regex("a(").is_none());
    let re = compile_regex("a+b").expect("valid pattern");
    assert_eq!(re.as_str(), "a+b");
    assert_eq!(re.regex().as_str(), "a+b");
    assert!(re.regex().is_match("xaab"));
}
