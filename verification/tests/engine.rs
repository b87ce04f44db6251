use asset_checkout::manifest::Manifest;
use asset_checkout::manifest::ManifestEntry;
use asset_checkout::materialize::EntryState;
use asset_checkout::materialize::Outcome;
use asset_checkout::materialize::join_path;
use asset_checkout::materialize::on_dir_made;
use asset_checkout::materialize::on_probed;
use asset_checkout::materialize::on_transferred;
use asset_checkout::materialize::parent_of;
use asset_checkout::materialize::start_entry;
use asset_checkout::resolve::ResolveError;
use asset_checkout::resolve::finish_resolve;
use asset_checkout::resolve::get_hash_path;
use asset_checkout::selector::is_selected;
use asset_checkout::selector::selected_indices;

fn manifest(paths: &[&str]) -> Manifest {
    Manifest {
        entries: paths
            .iter()
            .map(|p| ManifestEntry { path: p.to_string(), hash: Some("ab12cd".to_string()) })
            .collect(),
    }
}

fn outcome_of(st: &EntryState) -> Option<Outcome> {
    match st {
        EntryState::Done { outcome } => Some(*outcome),
        _ => None,
    }
}

#[test]
fn join_path_inserts_one_slash() {
    assert_eq!(join_path("out", "a/b.txt"), "out/a/b.txt");
}

#[test]
fn parent_of_cuts_at_last_slash() {
    assert_eq!(parent_of("out/a/b.txt"), "out/a");
    assert_eq!(parent_of("out/file"), "out");
    assert_eq!(parent_of("plain"), "");
}

#[test]
fn hash_path_uses_two_level_fanout() {
    assert_eq!(get_hash_path("root", "ab12cd").unwrap(), "root/ab/ab12cd");
}

#[test]
fn one_char_hash_is_malformed() {
    assert!(matches!(
        get_hash_path("root", "a"),
        Err(ResolveError::MalformedHash)
    ));
}

#[test]
fn empty_hash_is_malformed() {
    assert!(matches!(
        get_hash_path("root", ""),
        Err(ResolveError::MalformedHash)
    ));
}

#[test]
fn present_object_resolves_to_its_path() {
    assert_eq!(
        finish_resolve("root/ab/ab12cd".to_string(), true).unwrap(),
        "root/ab/ab12cd"
    );
}

#[test]
fn absent_object_reports_attempted_path() {
    match finish_resolve("root/ab/ab12cd".to_string(), false) {
        Err(ResolveError::ObjectNotFound(p)) => assert_eq!(p, "root/ab/ab12cd"),
        other => panic!("unexpected: {:?}", other),
    }
}

#[test]
fn successful_entry_is_materialized() {
    let st = start_entry("out", "root", "a/b.txt", &Some("ab12cd".to_string()), false);
    match &st {
        EntryState::NeedDir { dir, object, dest, link } => {
            assert_eq!(dir, "out/a");
            assert_eq!(object.as_deref(), Some("root/ab/ab12cd"));
            assert_eq!(dest, "out/a/b.txt");
            assert!(!link);
        },
        other => panic!("unexpected: {:?}", outcome_of(other)),
    }
    let st = on_dir_made(st, true);
    match &st {
        EntryState::NeedProbe { object, dest, .. } => {
            assert_eq!(object, "root/ab/ab12cd");
            assert_eq!(dest, "out/a/b.txt");
        },
        other => panic!("unexpected: {:?}", outcome_of(other)),
    }
    let st = on_probed(st, true);
    match &st {
        EntryState::NeedTransfer { object, dest, .. } => {
            assert_eq!(object, "root/ab/ab12cd");
            assert_eq!(dest, "out/a/b.txt");
        },
        other => panic!("unexpected: {:?}", outcome_of(other)),
    }
    let st = on_transferred(st, true);
    assert_eq!(outcome_of(&st), Some(Outcome::Materialized));
}

#[test]
fn entry_without_hash_is_skipped_before_any_step() {
    let st = start_entry("out", "root", "a/b.txt", &None, false);
    assert_eq!(outcome_of(&st), Some(Outcome::SkippedNoHash));
}

#[test]
fn directory_failure_skips_the_entry() {
    let st = start_entry("out", "root", "a/b.txt", &Some("ab12cd".to_string()), false);
    let st = on_dir_made(st, false);
    assert_eq!(outcome_of(&st), Some(Outcome::SkippedDirectoryError));
}

#[test]
fn short_hash_is_skipped_as_unresolved() {
    let st = start_entry("out", "root", "a/b.txt", &Some("a".to_string()), false);
    let st = on_dir_made(st, true);
    assert_eq!(outcome_of(&st), Some(Outcome::SkippedUnresolvedHash));
}

#[test]
fn absent_object_skips_without_transfer() {
    let st = start_entry("out", "root", "a/b.txt", &Some("ab12cd".to_string()), false);
    let st = on_dir_made(st, true);
    let st = on_probed(st, false);
    assert_eq!(outcome_of(&st), Some(Outcome::SkippedUnresolvedHash));
}

#[test]
fn transfer_failure_skips_the_entry() {
    let st = start_entry("out", "root", "a/b.txt", &Some("ab12cd".to_string()), true);
    let st = on_dir_made(st, true);
    let st = on_probed(st, true);
    let st = on_transferred(st, false);
    assert_eq!(outcome_of(&st), Some(Outcome::SkippedCopyOrLinkError));
}

#[test]
fn rerunning_the_same_entry_plans_identical_paths() {
    let run = || {
        let st = start_entry("out", "root", "a/b.txt", &Some("ab12cd".to_string()), false);
        let st = on_dir_made(st, true);
        let st = on_probed(st, true);
        match &st {
            EntryState::NeedTransfer { object, dest, .. } => (object.clone(), dest.clone()),
            _ => panic!("transfer step not reached"),
        }
    };
    assert_eq!(run(), run());
}

#[test]
fn parsed_manifest_with_present_object_materializes_to_out() {
    let m = asset_checkout::manifest::parse_manifest(
        r#"{"objects": {"a/b.txt": {"hash": "ab12cd"}}}"#,
    )
    .unwrap();
    let p = asset_checkout::params::read_from_args(&vec![
        "prog".to_string(),
        "-i".to_string(),
        "index.json".to_string(),
        "-o".to_string(),
        "root".to_string(),
    ])
    .unwrap();
    let selected = selected_indices(&m, &p.match_pattern);
    assert_eq!(selected, vec![0]);
    let e = &m.entries[0];
    let st = start_entry(&p.output_folder, &p.objects_folder, &e.path, &e.hash, p.symlink);
    let st = on_dir_made(st, true);
    let st = on_probed(st, true);
    match &st {
        EntryState::NeedTransfer { object, dest, link } => {
            assert_eq!(object, "root/ab/ab12cd");
            assert_eq!(dest, "out/a/b.txt");
            assert!(!link);
        },
        _ => panic!("transfer step not reached"),
    }
    let st = on_transferred(st, true);
    assert_eq!(outcome_of(&st), Some(Outcome::Materialized));
}

#[test]
fn parsed_manifest_with_absent_object_skips_and_writes_nothing() {
    let m = asset_checkout::manifest::parse_manifest(
        r#"{"objects": {"a/b.txt": {"hash": "ab12cd"}}}"#,
    )
    .unwrap();
    let e = &m.entries[0];
    let st = start_entry("out", "root", &e.path, &e.hash, false);
    let st = on_dir_made(st, true);
    let st = on_probed(st, false);
    assert_eq!(outcome_of(&st), Some(Outcome::SkippedUnresolvedHash));
}

#[test]
fn match_all_pattern_selects_every_path() {
    let m = manifest(&["a/b.txt", "c.bin", "d/e/f"]);
    let re = regex::Regex::new(".*").unwrap();
    assert_eq!(selected_indices(&m, &re), vec![0, 1, 2]);
}

#[test]
fn pattern_matching_nothing_selects_no_path() {
    let m = manifest(&["a/b.txt", "c.bin"]);
    let re = regex::Regex::new("zzz").unwrap();
    assert_eq!(selected_indices(&m, &re), Vec::<usize>::new());
}

#[test]
fn pattern_selects_matching_subset_in_order() {
    let m = manifest(&["a/b.txt", "c.bin", "a/c.txt"]);
    let re = regex::Regex::new("txt$").unwrap();
    assert_eq!(selected_indices(&m, &re), vec![0, 2]);
}

#[test]
fn selection_matches_anywhere_in_the_path() {
    let re = regex::Regex::new("b[.]").unwrap();
    assert!(is_selected(&re, "a/b.txt"));
    assert!(!is_selected(&re, "a/c.txt"));
}
