use bulk_rename::check::{check_renames, Access, CheckResult};
use bulk_rename::confirm::{commit_plan, Action, Answer, Confirmation, Warning};
use bulk_rename::item::{RenameColumn, RenameItem};
use bulk_rename::pattern::Pattern;
use bulk_rename::session::{last_line, Session};

fn item(path: &str) -> RenameItem {
    RenameItem::new(path.to_string()).unwrap()
}

fn session(paths: &[&str]) -> Session {
    Session::new(paths.iter().map(|p| item(p)).collect())
}

fn renamed(s: &Session) -> Vec<String> {
    s.items().iter().map(|it| it.renamed().clone()).collect()
}

fn writable(n: usize) -> Vec<Access> {
    vec![Access::Writable; n]
}

#[test]
fn new_item_takes_final_component() {
    let it = item("/tmp/dir/foo.txt");
    assert_eq!(it.original(), "foo.txt");
    assert_eq!(it.renamed(), "foo.txt");
    assert_eq!(it.location(), "/tmp/dir/foo.txt");
}

#[test]
fn new_item_without_final_component() {
    assert!(RenameItem::new("/tmp/..".to_string()).is_none());
    assert!(RenameItem::new("/".to_string()).is_none());
}

#[test]
fn columns_show_both_names() {
    let mut it = item("/d/foo.txt");
    let pat = Pattern::new("foo").unwrap();
    it.set_pattern(&pat, "bar");
    assert_eq!(it.to_column(RenameColumn::Original), "foo.txt");
    assert_eq!(it.to_column(RenameColumn::Renamed), "bar.txt");
}

#[test]
fn set_pattern_replaces_every_match() {
    let mut it = item("/d/a-b-c.tar.gz");
    let pat = Pattern::new("-").unwrap();
    it.set_pattern(&pat, "_");
    assert_eq!(it.renamed(), "a_b_c.tar.gz");
    assert_eq!(it.original(), "a-b-c.tar.gz");
}

#[test]
fn set_pattern_covers_the_extension() {
    let mut it = item("/d/report.txt");
    let pat = Pattern::new("txt").unwrap();
    it.set_pattern(&pat, "md");
    assert_eq!(it.renamed(), "report.md");
}

#[test]
fn template_expands_capture_groups() {
    let mut it = item("/d/photo12.jpg");
    let pat = Pattern::new(r"([a-z]+)(\d+)").unwrap();
    it.set_pattern(&pat, "${2}_$1");
    assert_eq!(it.renamed(), "12_photo.jpg");
}

#[test]
fn template_missing_group_is_empty() {
    let mut it = item("/d/photo.jpg");
    let pat = Pattern::new("photo").unwrap();
    it.set_pattern(&pat, "x${7}y");
    assert_eq!(it.renamed(), "xy.jpg");
}

#[test]
fn rename_moves_within_directory() {
    let mut it = item("/tmp/x/foo.txt");
    let pat = Pattern::new("foo").unwrap();
    it.set_pattern(&pat, "baz");
    let m = it.rename();
    assert_eq!(m.from, "/tmp/x/foo.txt");
    assert_eq!(m.to, "/tmp/x/baz.txt");
}

#[test]
fn initial_session_keeps_names() {
    let s = session(&["/d/one.txt", "/d/two.txt"]);
    assert_eq!(renamed(&s), vec!["one.txt", "two.txt"]);
    assert_eq!(s.search_text(), "");
    assert_eq!(s.compiled_pattern(), "");
    assert_eq!(s.replace_template(), "");
}

#[test]
fn edit_find_pattern_recomputes_all() {
    let mut s = session(&["/d/foo1.txt", "/d/foo2.txt", "/d/bar.txt"]);
    assert_eq!(s.on_edit_replace_pattern("qux"), ());
    assert_eq!(s.on_edit_find_pattern("foo"), None);
    assert_eq!(renamed(&s), vec!["qux1.txt", "qux2.txt", "bar.txt"]);
    assert_eq!(s.compiled_pattern(), "foo");
}

#[test]
fn applying_same_pattern_twice_is_idempotent() {
    let mut s = session(&["/d/aaa.txt", "/d/ab.txt"]);
    s.on_edit_replace_pattern("b");
    s.on_edit_find_pattern("a");
    let once = renamed(&s);
    s.on_edit_find_pattern("a");
    assert_eq!(renamed(&s), once);
    s.update_renames();
    assert_eq!(renamed(&s), vec!["bbb.txt", "bb.txt"]);
}

#[test]
fn invalid_find_pattern_keeps_last_good() {
    let mut s = session(&["/d/foo.txt"]);
    s.on_edit_replace_pattern("bar");
    assert_eq!(s.on_edit_find_pattern("fo"), None);
    assert_eq!(renamed(&s), vec!["baro.txt"]);
    let msg = s.on_edit_find_pattern("fo(");
    let msg = msg.unwrap();
    assert!(!msg.is_empty());
    assert!(!msg.contains('\n'));
    assert_eq!(s.search_text(), "fo(");
    assert_eq!(s.compiled_pattern(), "fo");
    assert_eq!(renamed(&s), vec!["baro.txt"]);
    // the replacement still applies with the stale pattern
    s.on_edit_replace_pattern("x");
    assert_eq!(renamed(&s), vec!["xo.txt"]);
}

#[test]
fn submit_invalid_pattern_gives_full_diagnostic() {
    let mut s = session(&["/d/foo.txt"]);
    let err = s.on_submit_find_pattern("(").unwrap_err();
    assert!(err.contains('\n'));
    assert_eq!(s.compiled_pattern(), "");
    assert_eq!(renamed(&s), vec!["foo.txt"]);
    assert_eq!(s.on_submit_find_pattern("o"), Ok(()));
    assert_eq!(renamed(&s), vec!["f.txt"]);
}

#[test]
fn last_line_of_diagnostic() {
    assert_eq!(last_line("regex parse error:\n    (\n    ^\nerror: unclosed group"), "error: unclosed group");
    assert_eq!(last_line("one\ntwo\n"), "two");
    assert_eq!(last_line("one\r\ntwo\r\n"), "two");
    assert_eq!(last_line("single"), "single");
    assert_eq!(last_line(""), "");
}

#[test]
fn clean_set_has_no_problems() {
    let s = session(&["/d/a", "/d/b", "/d/c"]);
    let r = check_renames(s.items(), &writable(3));
    assert!(r.conflicting_names.is_empty());
    assert!(r.permission_problems.is_empty());
}

#[test]
fn repeated_names_flag_extra_occurrences() {
    let mut s = session(&["/d/a1", "/d/b", "/d/a2", "/d/a3"]);
    s.on_edit_find_pattern("[0-9]");
    assert_eq!(renamed(&s), vec!["a", "b", "a", "a"]);
    let r = check_renames(s.items(), &writable(4));
    assert_eq!(r.conflicting_names, vec!["a", "a"]);
    assert!(r.permission_problems.is_empty());
}

#[test]
fn permission_problems_list_locations() {
    let s = session(&["/d/a", "/d/b", "/d/c"]);
    let access = vec![Access::ReadOnly, Access::Writable, Access::Unreadable];
    let r = check_renames(s.items(), &access);
    assert!(r.conflicting_names.is_empty());
    assert_eq!(r.permission_problems, vec!["/d/a", "/d/c"]);
}

fn both() -> CheckResult {
    CheckResult {
        conflicting_names: vec!["a".to_string()],
        permission_problems: vec!["/d/a".to_string()],
    }
}

#[test]
fn no_warnings_commit_at_once() {
    let check = CheckResult { conflicting_names: vec![], permission_problems: vec![] };
    let (state, actions) = Confirmation::start(&check);
    assert_eq!(state, Confirmation::Committed);
    assert_eq!(actions, vec![Action::Commit]);
}

#[test]
fn both_warnings_are_shown() {
    let (state, actions) = Confirmation::start(&both());
    assert_eq!(state, Confirmation::Pending { names_open: true, perms_open: true });
    assert_eq!(actions, vec![Action::Show(Warning::Names), Action::Show(Warning::Permissions)]);
}

#[test]
fn single_warning_continue_commits() {
    let check = CheckResult { conflicting_names: vec![], permission_problems: vec!["/d/a".to_string()] };
    let (mut state, actions) = Confirmation::start(&check);
    assert_eq!(actions, vec![Action::Show(Warning::Permissions)]);
    assert_eq!(state.answer(Warning::Names, Answer::Continue), Action::Nothing);
    assert_eq!(state.answer(Warning::Permissions, Answer::Continue), Action::Commit);
    assert_eq!(state, Confirmation::Committed);
    assert_eq!(state.answer(Warning::Permissions, Answer::Continue), Action::Nothing);
}

#[test]
fn single_warning_cancel_aborts() {
    let check = CheckResult { conflicting_names: vec!["x".to_string()], permission_problems: vec![] };
    let (mut state, _) = Confirmation::start(&check);
    assert_eq!(state.answer(Warning::Names, Answer::Cancel), Action::Nothing);
    assert_eq!(state, Confirmation::Aborted { names_open: false, perms_open: false });
}

#[test]
fn cancel_one_then_continue_other_aborts() {
    for (first, second) in [(Warning::Names, Warning::Permissions), (Warning::Permissions, Warning::Names)] {
        let (mut state, _) = Confirmation::start(&both());
        let mut commits = 0;
        assert_eq!(state.answer(first, Answer::Cancel), Action::DisableContinue(second));
        if state.answer(second, Answer::Continue) == Action::Commit {
            commits += 1;
        }
        assert_eq!(commits, 0);
        assert!(state.is_open(second));
        assert_eq!(state.answer(second, Answer::Cancel), Action::Nothing);
        assert_eq!(state, Confirmation::Aborted { names_open: false, perms_open: false });
    }
}

#[test]
fn continue_both_commits_once() {
    for (first, second) in [(Warning::Names, Warning::Permissions), (Warning::Permissions, Warning::Names)] {
        let (mut state, _) = Confirmation::start(&both());
        let mut commits = 0;
        for w in [first, second, first, second] {
            if state.answer(w, Answer::Continue) == Action::Commit {
                commits += 1;
            }
        }
        assert_eq!(commits, 1);
        assert_eq!(state, Confirmation::Committed);
    }
}

#[test]
fn commit_plan_covers_all_items() {
    let mut s = session(&["/d/a.txt", "/d/b.txt"]);
    s.on_edit_replace_pattern("c");
    s.on_edit_find_pattern("a");
    let items = s.items();
    let check = check_renames(items, &[Access::Writable, Access::ReadOnly]);
    let plan = commit_plan(items, &check);
    assert_eq!(plan.moves.len(), 2);
    assert_eq!(plan.moves[0].from, "/d/a.txt");
    assert_eq!(plan.moves[0].to, "/d/c.txt");
    assert_eq!(plan.moves[1].to, "/d/b.txt");
    assert_eq!(plan.reported, 1);
}

#[test]
fn end_to_end_anchored_pattern_needs_whole_name() {
    let mut s = session(&["/tmp/x/foo.txt", "/tmp/x/bar.txt"]);
    s.on_edit_find_pattern("^foo$");
    s.on_edit_replace_pattern("baz");
    assert_eq!(renamed(&s), vec!["foo.txt", "bar.txt"]);
}

#[test]
fn end_to_end_single_rename() {
    let mut s = session(&["/tmp/x/foo.txt", "/tmp/x/bar.txt"]);
    s.on_edit_find_pattern("^foo");
    s.on_edit_replace_pattern("baz");
    assert_eq!(renamed(&s), vec!["baz.txt", "bar.txt"]);
    let check = check_renames(s.items(), &writable(2));
    let (state, actions) = Confirmation::start(&check);
    assert_eq!(state, Confirmation::Committed);
    assert_eq!(actions, vec![Action::Commit]);
    let plan = commit_plan(s.items(), &check);
    assert_eq!(plan.moves[0].to, "/tmp/x/baz.txt");
    assert_eq!(plan.moves[1].to, "/tmp/x/bar.txt");
    assert_eq!(plan.reported, 2);
}

#[test]
fn end_to_end_collision_cancelled() {
    let mut s = session(&["/tmp/x/a.txt", "/tmp/x/b.txt"]);
    s.on_edit_find_pattern(".*");
    s.on_edit_replace_pattern("same.txt");
    assert_eq!(renamed(&s), vec!["same.txt", "same.txt"]);
    let check = check_renames(s.items(), &writable(2));
    assert_eq!(check.conflicting_names, vec!["same.txt"]);
    let (mut state, actions) = Confirmation::start(&check);
    assert_eq!(actions, vec![Action::Show(Warning::Names)]);
    assert_eq!(state.answer(Warning::Names, Answer::Cancel), Action::Nothing);
    assert!(matches!(state, Confirmation::Aborted { .. }));
}
