use patchtree::commands::{build, update, Effect};
use patchtree::error::AppError;
use patchtree::file_trio::{get_file_trios, replace_item, FindFileTriosError, TrioInitError};
use patchtree::tree::{EntryKind, MirrorState, TreeEntry};

fn s(x: &str) -> String {
    x.to_string()
}

fn path(xs: &[&str]) -> Vec<String> {
    xs.iter().map(|x| x.to_string()).collect()
}

fn file_entry(name: &str, content: &str, patch: MirrorState, output: MirrorState) -> TreeEntry {
    TreeEntry {
        name: s(name),
        kind: EntryKind::File,
        content: s(content),
        patch,
        output,
        children: Vec::new(),
    }
}

fn dir_entry(
    name: &str,
    patch: MirrorState,
    output: MirrorState,
    children: Vec<TreeEntry>,
) -> TreeEntry {
    TreeEntry {
        name: s(name),
        kind: EntryKind::Directory,
        content: String::new(),
        patch,
        output,
        children,
    }
}

fn pretty(text: &str) -> String {
    let v: serde_json::Value = serde_json::from_str(text).unwrap();
    serde_json::to_string_pretty(&v).unwrap()
}

#[test]
fn replace_item_substitutes_component() {
    let p = path(&[".", "original", "sub", "a.json"]);
    let got = replace_item(&p, 1, &s("changes")).unwrap();
    assert_eq!(got, path(&[".", "changes", "sub", "a.json"]));
}

#[test]
fn replace_item_out_of_bounds() {
    let p = path(&["only"]);
    assert!(replace_item(&p, 1, &s("changes")).is_err());
}

#[test]
fn walker_yields_preorder_trios() {
    let tree = dir_entry(
        "original",
        MirrorState::Dir,
        MirrorState::Dir,
        vec![
            dir_entry(
                "sub",
                MirrorState::Dir,
                MirrorState::Dir,
                vec![file_entry("b.json", "{}", MirrorState::Missing, MirrorState::Missing)],
            ),
            file_entry("a.json", "{}", MirrorState::Missing, MirrorState::Missing),
        ],
    );
    let trios = get_file_trios(path(&["."]), s("original"), s("changes"), s("revise"), &tree)
        .unwrap();
    let originals: Vec<Vec<String>> = trios.iter().map(|t| t.original.clone()).collect();
    assert_eq!(
        originals,
        vec![
            path(&[".", "original"]),
            path(&[".", "original", "sub"]),
            path(&[".", "original", "sub", "b.json"]),
            path(&[".", "original", "a.json"]),
        ]
    );
    assert_eq!(trios[2].changes, path(&[".", "changes", "sub", "b.json"]));
    assert_eq!(trios[2].changed, path(&[".", "revise", "sub", "b.json"]));
    assert_eq!(trios[0].file_type, EntryKind::Directory);
    assert_eq!(trios[3].file_type, EntryKind::File);
}

#[test]
fn walker_reports_first_type_mismatch() {
    // the patch mirror of `sub` is a file where the baseline is a directory
    let tree = dir_entry(
        "original",
        MirrorState::Dir,
        MirrorState::Dir,
        vec![dir_entry(
            "sub",
            MirrorState::File(s("[]")),
            MirrorState::Dir,
            vec![],
        )],
    );
    let err = get_file_trios(path(&["."]), s("original"), s("changes"), s("revise"), &tree)
        .unwrap_err();
    match err {
        FindFileTriosError::TrioInitError(TrioInitError::InconsistentFileTypes(e)) => {
            assert_eq!(e.file_type_a, EntryKind::Directory);
            assert_eq!(e.path_a, path(&[".", "original", "sub"]));
            assert_eq!(e.file_type_b, EntryKind::File);
            assert_eq!(e.path_b, path(&[".", "changes", "sub"]));
        }
        other => panic!("unexpected error {:?}", other),
    }
}

#[test]
fn build_type_mismatch_fails_fast_without_effects() {
    // later entries would write, but the mismatch aborts the whole command
    let tree = dir_entry(
        "original",
        MirrorState::Dir,
        MirrorState::Dir,
        vec![
            file_entry("bad.json", "{}", MirrorState::Dir, MirrorState::Missing),
            file_entry("late.json", "{}", MirrorState::Missing, MirrorState::Missing),
        ],
    );
    let report = build(s("original"), s("changes"), s("revise"), &tree);
    assert!(report.effects.is_empty());
    assert_eq!(report.count, 0);
    match report.error {
        Some(AppError::InconsistentFileTypes(e)) => {
            assert_eq!(e.path_a, path(&[".", "original", "bad.json"]));
        }
        other => panic!("unexpected error {:?}", other),
    }
}

#[test]
fn build_missing_file_auto_creates_empty_patch() {
    let tree = dir_entry(
        "original",
        MirrorState::Dir,
        MirrorState::Dir,
        vec![file_entry("a.json", "{\"x\":1}", MirrorState::Missing, MirrorState::Missing)],
    );
    let report = build(s("original"), s("changes"), s("revise"), &tree);
    assert!(report.error.is_none());
    assert_eq!(report.count, 0);
    assert_eq!(
        report.effects,
        vec![
            Effect::WarnMissingFile { path: path(&[".", "original", "a.json"]) },
            Effect::WriteFile { path: path(&[".", "changes", "a.json"]), content: s("[]") },
        ]
    );
    // in particular: no write at the output path in this pass
    for e in &report.effects {
        if let Effect::WriteFile { path: p, .. } = e {
            assert_eq!(p[1], "changes");
        }
    }
}

#[test]
fn build_missing_dir_auto_creates_and_still_descends() {
    let tree = dir_entry(
        "original",
        MirrorState::Dir,
        MirrorState::Dir,
        vec![dir_entry(
            "sub",
            MirrorState::Missing,
            MirrorState::Missing,
            vec![file_entry("a.json", "{}", MirrorState::Missing, MirrorState::Missing)],
        )],
    );
    let report = build(s("original"), s("changes"), s("revise"), &tree);
    assert!(report.error.is_none());
    let create_dirs: Vec<&Vec<String>> = report
        .effects
        .iter()
        .filter_map(|e| match e {
            Effect::CreateDir { path } => Some(path),
            _ => None,
        })
        .collect();
    // exactly one directory created, at the mirrored patch path
    assert_eq!(create_dirs, vec![&path(&[".", "changes", "sub"])]);
    // and the walk still visited the child file afterwards
    assert!(report.effects.contains(&Effect::WriteFile {
        path: path(&[".", "changes", "sub", "a.json"]),
        content: s("[]"),
    }));
}

#[test]
fn build_applies_patch_and_writes_output() {
    let tree = dir_entry(
        "original",
        MirrorState::Dir,
        MirrorState::Dir,
        vec![file_entry(
            "a.json",
            "{\"x\":1}",
            MirrorState::File(s("[{\"op\":\"replace\",\"path\":\"/x\",\"value\":2}]")),
            MirrorState::Missing,
        )],
    );
    let report = build(s("original"), s("changes"), s("revise"), &tree);
    assert!(report.error.is_none());
    assert_eq!(report.count, 1);
    assert_eq!(
        report.effects,
        vec![Effect::WriteFile {
            path: path(&[".", "revise", "a.json"]),
            content: pretty("{\"x\":2}"),
        }]
    );
}

#[test]
fn build_explicit_empty_patch_reproduces_canonical_baseline() {
    let canonical = pretty("{\"x\":1}");
    let tree = dir_entry(
        "original",
        MirrorState::Dir,
        MirrorState::Dir,
        vec![file_entry(
            "a.json",
            &canonical,
            MirrorState::File(s("[]")),
            MirrorState::Missing,
        )],
    );
    let report = build(s("original"), s("changes"), s("revise"), &tree);
    assert!(report.error.is_none());
    assert_eq!(
        report.effects,
        vec![Effect::WriteFile { path: path(&[".", "revise", "a.json"]), content: canonical }]
    );
}

#[test]
fn build_rejects_patch_that_is_not_an_operation_list() {
    let tree = dir_entry(
        "original",
        MirrorState::Dir,
        MirrorState::Dir,
        vec![file_entry(
            "a.json",
            "{\"x\":1}",
            MirrorState::File(s("{\"not\":\"operations\"}")),
            MirrorState::Missing,
        )],
    );
    let report = build(s("original"), s("changes"), s("revise"), &tree);
    assert!(report.effects.is_empty());
    match report.error {
        Some(AppError::InvalidFileFormat { file_path, expected }) => {
            assert_eq!(file_path, path(&[".", "changes", "a.json"]));
            assert_eq!(expected, "JSON patch file");
        }
        other => panic!("unexpected error {:?}", other),
    }
}

#[test]
fn build_rejects_baseline_that_is_not_json() {
    let tree = dir_entry(
        "original",
        MirrorState::Dir,
        MirrorState::Dir,
        vec![file_entry("a.json", "not json", MirrorState::File(s("[]")), MirrorState::Missing)],
    );
    let report = build(s("original"), s("changes"), s("revise"), &tree);
    match report.error {
        Some(AppError::InvalidFileFormat { file_path, expected }) => {
            assert_eq!(file_path, path(&[".", "original", "a.json"]));
            assert_eq!(expected, "JSON file");
        }
        other => panic!("unexpected error {:?}", other),
    }
}

#[test]
fn build_reports_failed_operation_as_patch_error() {
    let tree = dir_entry(
        "original",
        MirrorState::Dir,
        MirrorState::Dir,
        vec![file_entry(
            "a.json",
            "{\"x\":1}",
            MirrorState::File(s("[{\"op\":\"test\",\"path\":\"/x\",\"value\":99}]")),
            MirrorState::Missing,
        )],
    );
    let report = build(s("original"), s("changes"), s("revise"), &tree);
    assert!(report.effects.is_empty());
    assert_eq!(report.count, 0);
    match report.error {
        Some(AppError::PatchError { target_file, patch_file }) => {
            assert_eq!(target_file, path(&[".", "original", "a.json"]));
            assert_eq!(patch_file, path(&[".", "changes", "a.json"]));
        }
        other => panic!("unexpected error {:?}", other),
    }
}

#[test]
fn build_stops_at_first_failing_trio_but_keeps_earlier_effects() {
    let tree = dir_entry(
        "original",
        MirrorState::Dir,
        MirrorState::Dir,
        vec![
            file_entry("a.json", "{}", MirrorState::Missing, MirrorState::Missing),
            file_entry("bad.json", "not json", MirrorState::File(s("[]")), MirrorState::Missing),
            file_entry("late.json", "{}", MirrorState::Missing, MirrorState::Missing),
        ],
    );
    let report = build(s("original"), s("changes"), s("revise"), &tree);
    assert!(report.error.is_some());
    // the first trio's auto-create effects stand; nothing from the third
    assert_eq!(
        report.effects,
        vec![
            Effect::WarnMissingFile { path: path(&[".", "original", "a.json"]) },
            Effect::WriteFile { path: path(&[".", "changes", "a.json"]), content: s("[]") },
        ]
    );
}

#[test]
fn update_writes_single_replace_and_build_reproduces_it() {
    let baseline = "{\"x\":1}";
    let edited = "{\"x\":2}";
    let tree = dir_entry(
        "original",
        MirrorState::Dir,
        MirrorState::Dir,
        vec![dir_entry(
            "dir",
            MirrorState::Dir,
            MirrorState::Dir,
            vec![file_entry(
                "a.json",
                baseline,
                MirrorState::Missing,
                MirrorState::File(s(edited)),
            )],
        )],
    );
    let report = update(s("original"), s("changes"), s("revise"), &tree);
    assert!(report.error.is_none());
    assert_eq!(report.count, 1);
    let written = match &report.effects[0] {
        Effect::WriteFile { path: p, content } => {
            assert_eq!(p, &path(&[".", "changes", "dir", "a.json"]));
            content.clone()
        }
        other => panic!("unexpected effect {:?}", other),
    };
    // the patch encodes a single replace of /x with 2
    let got: json_patch::Patch = serde_json::from_str(&written).unwrap();
    let expected: json_patch::Patch =
        serde_json::from_str("[{\"op\":\"replace\",\"path\":\"/x\",\"value\":2}]").unwrap();
    assert_eq!(got, expected);

    // a subsequent build from that patch reproduces the edited document
    let tree2 = dir_entry(
        "original",
        MirrorState::Dir,
        MirrorState::Dir,
        vec![dir_entry(
            "dir",
            MirrorState::Dir,
            MirrorState::Dir,
            vec![file_entry("a.json", baseline, MirrorState::File(written), MirrorState::Missing)],
        )],
    );
    let report2 = build(s("original"), s("changes"), s("revise"), &tree2);
    assert!(report2.error.is_none());
    match &report2.effects[0] {
        Effect::WriteFile { path: p, content } => {
            assert_eq!(p, &path(&[".", "revise", "dir", "a.json"]));
            assert_eq!(content, &pretty(edited));
        }
        other => panic!("unexpected effect {:?}", other),
    }
}

#[test]
fn update_skips_file_without_output() {
    let tree = dir_entry(
        "original",
        MirrorState::Dir,
        MirrorState::Dir,
        vec![file_entry("a.json", "{\"x\":1}", MirrorState::Missing, MirrorState::Missing)],
    );
    let report = update(s("original"), s("changes"), s("revise"), &tree);
    assert!(report.error.is_none());
    assert!(report.effects.is_empty());
    assert_eq!(report.count, 0);
}

#[test]
fn update_overwrites_existing_patch_file() {
    let tree = dir_entry(
        "original",
        MirrorState::Dir,
        MirrorState::Dir,
        vec![file_entry(
            "a.json",
            "{\"x\":1}",
            MirrorState::File(s("[{\"op\":\"replace\",\"path\":\"/x\",\"value\":7}]")),
            MirrorState::File(s("{\"x\":1}")),
        )],
    );
    let report = update(s("original"), s("changes"), s("revise"), &tree);
    assert!(report.error.is_none());
    assert_eq!(report.count, 1);
    // regeneration is destructive: the old patch is replaced by the new diff,
    // here the empty one since baseline and output agree
    assert_eq!(
        report.effects,
        vec![Effect::WriteFile { path: path(&[".", "changes", "a.json"]), content: s("[]") }]
    );
}

#[test]
fn update_missing_dir_auto_creates_patch_dir() {
    let tree = dir_entry(
        "original",
        MirrorState::Dir,
        MirrorState::Dir,
        vec![dir_entry("sub", MirrorState::Missing, MirrorState::Missing, vec![])],
    );
    let report = update(s("original"), s("changes"), s("revise"), &tree);
    assert!(report.error.is_none());
    assert_eq!(
        report.effects,
        vec![
            Effect::WarnMissingDir { path: path(&[".", "original", "sub"]) },
            Effect::CreateDir { path: path(&[".", "changes", "sub"]) },
        ]
    );
}

#[test]
fn update_rejects_output_that_is_not_json() {
    let tree = dir_entry(
        "original",
        MirrorState::Dir,
        MirrorState::Dir,
        vec![file_entry(
            "a.json",
            "{\"x\":1}",
            MirrorState::Missing,
            MirrorState::File(s("not json")),
        )],
    );
    let report = update(s("original"), s("changes"), s("revise"), &tree);
    match report.error {
        Some(AppError::InvalidFileFormat { file_path, expected }) => {
            assert_eq!(file_path, path(&[".", "revise", "a.json"]));
            assert_eq!(expected, "JSON file");
        }
        other => panic!("unexpected error {:?}", other),
    }
}

fn determinism_tree() -> TreeEntry {
    dir_entry(
        "original",
        MirrorState::Dir,
        MirrorState::Dir,
        vec![
            dir_entry(
                "sub",
                MirrorState::Missing,
                MirrorState::Missing,
                vec![file_entry("b.json", "{\"b\":[1,2]}", MirrorState::Missing, MirrorState::Missing)],
            ),
            file_entry(
                "a.json",
                "{\"x\":1}",
                MirrorState::File(s("[{\"op\":\"replace\",\"path\":\"/x\",\"value\":2}]")),
                MirrorState::Missing,
            ),
        ],
    )
}

#[test]
fn build_is_deterministic_over_reruns() {
    let first = build(s("original"), s("changes"), s("revise"), &determinism_tree());
    let second = build(s("original"), s("changes"), s("revise"), &determinism_tree());
    assert_eq!(first.effects, second.effects);
    assert_eq!(first.count, second.count);
    assert!(first.error.is_none() && second.error.is_none());
}

#[test]
fn build_rejects_patch_text_that_is_not_json() {
    let tree = dir_entry(
        "original",
        MirrorState::Dir,
        MirrorState::Dir,
        vec![file_entry("a.json", "{\"x\":1}", MirrorState::File(s("[oops")), MirrorState::Missing)],
    );
    let report = build(s("original"), s("changes"), s("revise"), &tree);
    match report.error {
        Some(AppError::InvalidFileFormat { file_path, expected }) => {
            assert_eq!(file_path, path(&[".", "changes", "a.json"]));
            assert_eq!(expected, "JSON file");
        }
        other => panic!("unexpected error {:?}", other),
    }
}

#[test]
fn update_rejects_baseline_that_is_not_json() {
    let tree = dir_entry(
        "original",
        MirrorState::Dir,
        MirrorState::Dir,
        vec![file_entry(
            "a.json",
            "not json",
            MirrorState::Missing,
            MirrorState::File(s("{\"x\":2}")),
        )],
    );
    let report = update(s("original"), s("changes"), s("revise"), &tree);
    match report.error {
        Some(AppError::InvalidFileFormat { file_path, expected }) => {
            assert_eq!(file_path, path(&[".", "original", "a.json"]));
            assert_eq!(expected, "JSON file");
        }
        other => panic!("unexpected error {:?}", other),
    }
}
