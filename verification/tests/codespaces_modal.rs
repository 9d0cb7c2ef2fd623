//! Codespaces picker: row template, filter, footer, selection.

use vector_app::codespaces_modal::{
    codespace_footer, codespace_row, codespace_rows, pad_right_exec, CodespaceView, CodespacesPicker,
    FETCH_FAILED, LOADING_CODESPACES, NO_CODESPACES, ZERO_CODESPACES,
};

fn cs(name: &str, repo: &str, branch: &str, display: Option<&str>, state: &str, age: i64) -> CodespaceView {
    CodespaceView {
        name: name.to_string(),
        repo: repo.to_string(),
        branch: branch.to_string(),
        display_name: display.map(|d| d.to_string()),
        state: state.to_string(),
        last_used_secs_ago: age,
    }
}

fn sample() -> Vec<CodespaceView> {
    vec![
        cs("cs-1", "octo/app", "main", None, "Available", 120),
        cs("cs-2", "octo/Web", "feature", Some("Frontend box"), "Shutdown", 7200),
        cs("cs-3", "acme/api", "main", Some("api"), "Starting", -5),
    ]
}

#[test]
fn pad_right_pads_and_never_cuts() {
    assert_eq!(pad_right_exec("ab", 5), "ab   ");
    assert_eq!(pad_right_exec("abcdef", 3), "abcdef");
    assert_eq!(pad_right_exec("é", 3), "é  ");
}

#[test]
fn row_template_is_padded_columns() {
    let row = codespace_row(&cs("n", "octo/app", "main", None, "Available", 120));
    assert_eq!(row, "  ● Available   octo/app                          main              2 minutes ago");
    let long = codespace_row(&cs(
        "n",
        "octo/really-long-repository-name-here",
        "feature/branch-name-long",
        None,
        "Shutdown",
        -30,
    ));
    assert_eq!(long, "  ● Shutdown    octo/really-long-repository-name-here  feature/branch-name-long  just now");
}

#[test]
fn footer_pluralises() {
    assert_eq!(codespace_footer(0), "0 codespaces · last refreshed just now");
    assert_eq!(codespace_footer(1), "1 codespace · last refreshed just now");
    assert_eq!(codespace_footer(12), "12 codespaces · last refreshed just now");
}

#[test]
fn filter_matches_repo_branch_and_display_name_case_insensitively() {
    let views = sample();
    let all = codespace_rows(&views, "", Some(1));
    assert_eq!(all.len(), 3);
    assert_eq!(all.iter().map(|r| r.1).collect::<Vec<_>>(), vec![false, true, false]);

    let web = codespace_rows(&views, "WEB", None);
    assert_eq!(web.len(), 1);
    assert!(web[0].0.contains("octo/Web"));

    let frontend = codespace_rows(&views, "frontend", Some(1));
    assert_eq!(frontend.len(), 1);
    assert!(frontend[0].1, "highlight follows the index in the whole list");

    let main = codespace_rows(&views, "main", Some(1));
    assert_eq!(main.len(), 2);
    assert!(!main[0].1 && !main[1].1);
    assert!(codespace_rows(&views, "zzz", None).is_empty());
}

#[test]
fn picker_placeholders_and_footer() {
    let mut p = CodespacesPicker::new();
    let (rows, footer) = p.render();
    assert_eq!(rows, vec![(LOADING_CODESPACES.to_string(), false)]);
    assert!(footer.is_none());

    p.handle_load_failed("timeout".to_string());
    let (rows, footer) = p.render();
    assert_eq!(rows, vec![(FETCH_FAILED.to_string(), false)]);
    assert_eq!(FETCH_FAILED, "could not fetch codespaces — check your connection");
    assert!(footer.is_none());

    p.handle_loaded(Vec::new());
    let (rows, footer) = p.render();
    assert_eq!(rows, vec![(NO_CODESPACES.to_string(), false)]);
    assert_eq!(footer.as_deref(), Some(ZERO_CODESPACES));
    assert!(p.selected().is_none());

    p.handle_loaded(sample());
    let (rows, footer) = p.render();
    assert_eq!(rows.len(), 3);
    assert!(rows[0].1);
    assert_eq!(footer.as_deref(), Some("3 codespaces · last refreshed just now"));
}

#[test]
fn picker_selection_wraps_over_whole_list() {
    let mut p = CodespacesPicker::new();
    p.select_next();
    assert!(p.selected().is_none(), "nothing to select while loading");
    p.handle_loaded(sample());
    assert_eq!(p.selected().unwrap().name, "cs-1");
    p.select_prev();
    assert_eq!(p.selected().unwrap().name, "cs-3");
    p.select_next();
    assert_eq!(p.selected().unwrap().name, "cs-1");
    p.select_next();
    assert_eq!(p.selected().unwrap().name, "cs-2");
    p.set_filter("acme".to_string());
    assert_eq!(p.selected().unwrap().name, "cs-2", "filter leaves the selection");
    let (rows, _) = p.render();
    assert_eq!(rows.len(), 1);
    assert!(!rows[0].1);
}

#[test]
fn state_change_updates_first_named_row() {
    let mut p = CodespacesPicker::new();
    let footer = p.handle_state_change("cs-2", "Available".to_string());
    assert_eq!(footer, "polling cs-2 (Available)…");
    p.handle_loaded(sample());
    let footer = p.handle_state_change("cs-2", "Starting".to_string());
    assert_eq!(footer, "polling cs-2 (Starting)…");
    p.select_next();
    assert_eq!(p.selected().unwrap().state, "Starting");
    let _ = p.handle_state_change("missing", "Available".to_string());
    assert_eq!(p.render().0.len(), 3);
}
