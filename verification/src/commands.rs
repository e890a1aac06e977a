//! The two orchestrators.  Each drives the walk of the baseline snapshot,
//! applies the reconciliation policy to every trio in sequence, and stops at
//! the first fatal error.  Neither touches the filesystem: the decisions come
//! back as an ordered list of [`Effect`]s for the caller to perform, together
//! with the running count for the final summary and the error, if any, that
//! ended the run.

use vstd::prelude::*;
use crate::document::{
    apply_patch_text, canonical_document, diff_text, empty_patch_document, spec_apply_text,
    spec_diff_text, spec_empty_patch_text, spec_parse_json, spec_render, ApplyTextError,
    DiffTextError,
};
use crate::error::{AppError, AppErrorModel};
use crate::file_trio::{
    clone_path, get_file_trios, mirror_consistent, spec_trio, spec_trio_error, spec_walk,
    spec_walk_children, FilePath, FilePathTrio, FindFileTriosError, TrioInitError, TrioModel,
};
use crate::tree::{tree_model, MirrorModel, MirrorState, EntryKind, TreeEntry, TreeModel};

verus! {

/// One write or notice the engine decides on, in the order it would happen.
#[derive(Debug, PartialEq)]
pub enum Effect {
    /// Create an empty directory at this path.
    CreateDir { path: FilePath },
    /// Write this content at this path, replacing any previous content.
    WriteFile { path: FilePath, content: String },
    /// Non-fatal notice: this baseline directory has no patch mirror.
    WarnMissingDir { path: FilePath },
    /// Non-fatal notice: this baseline file has no patch mirror.
    WarnMissingFile { path: FilePath },
}

/// Mathematical value of an [`Effect`].
pub enum EffectModel {
    CreateDir { path: Seq<Seq<char>> },
    WriteFile { path: Seq<Seq<char>>, content: Seq<char> },
    WarnMissingDir { path: Seq<Seq<char>> },
    WarnMissingFile { path: Seq<Seq<char>> },
}

impl View for Effect {
    type V = EffectModel;

    open spec fn view(&self) -> EffectModel {
        match self {
            Effect::CreateDir { path } => EffectModel::CreateDir { path: path.deep_view() },
            Effect::WriteFile { path, content } => EffectModel::WriteFile {
                path: path.deep_view(),
                content: content@,
            },
            Effect::WarnMissingDir { path } => EffectModel::WarnMissingDir {
                path: path.deep_view(),
            },
            Effect::WarnMissingFile { path } => EffectModel::WarnMissingFile {
                path: path.deep_view(),
            },
        }
    }
}

impl DeepView for Effect {
    type V = EffectModel;

    open spec fn deep_view(&self) -> EffectModel {
        self.view()
    }
}

/// What one command run decides: the effects in order, the number of files
/// the summary reports, and the error that ended the run, if any.  On an
/// error the effects are those decided before it — nothing is rolled back.
#[derive(Debug)]
pub struct CommandReport {
    pub effects: Vec<Effect>,
    pub count: u64,
    pub error: Option<AppError>,
}

/// Mathematical value of a [`CommandReport`].
pub struct ReportModel {
    pub effects: Seq<EffectModel>,
    pub count: int,
    pub error: Option<AppErrorModel>,
}

impl View for CommandReport {
    type V = ReportModel;

    open spec fn view(&self) -> ReportModel {
        ReportModel {
            effects: self.effects.deep_view(),
            count: self.count as int,
            error: match &self.error {
                Some(e) => Some(e@),
                None => None,
            },
        }
    }
}

/// What the policy decides for one trio: its effects, whether it counts into
/// the summary, and the fatal error it raises, if any.
pub struct TrioOutcome {
    pub effects: Seq<EffectModel>,
    pub counted: bool,
    pub error: Option<AppErrorModel>,
}

/// The build policy for one trio.
///
/// A missing patch mirror is auto-created — an empty directory for a
/// directory, the canonical empty patch document for a file, which is then
/// fully handled: no output is written for it in this pass.  A directory with
/// its patch mirror present only has its output directory ensured.  A file
/// with its patch mirror present has the patch applied to the baseline and
/// the result written at the output path.
pub open spec fn spec_build_trio(t: TrioModel) -> TrioOutcome {
    if t.changes_state is Missing {
        if t.file_type is Directory {
            TrioOutcome {
                effects: seq![
                    EffectModel::WarnMissingDir { path: t.original },
                    EffectModel::CreateDir { path: t.changes },
                ],
                counted: false,
                error: None,
            }
        } else {
            TrioOutcome {
                effects: seq![
                    EffectModel::WarnMissingFile { path: t.original },
                    EffectModel::WriteFile { path: t.changes, content: spec_empty_patch_text() },
                ],
                counted: false,
                error: None,
            }
        }
    } else if t.file_type is Directory {
        if t.changed_state is Missing {
            TrioOutcome {
                effects: seq![EffectModel::CreateDir { path: t.changed }],
                counted: false,
                error: None,
            }
        } else {
            TrioOutcome { effects: Seq::empty(), counted: false, error: None }
        }
    } else {
        match spec_apply_text(t.content, t.changes_state->File_0) {
            Ok(out) => TrioOutcome {
                effects: seq![EffectModel::WriteFile { path: t.changed, content: out }],
                counted: true,
                error: None,
            },
            Err(e) => TrioOutcome {
                effects: Seq::empty(),
                counted: false,
                error: Some(spec_build_trio_error(t, e)),
            },
        }
    }
}

/// The fatal error a failed patch application reports for one trio.
pub open spec fn spec_build_trio_error(t: TrioModel, e: ApplyTextError) -> AppErrorModel {
    match e {
        ApplyTextError::DocumentNotJson => AppErrorModel::InvalidFileFormat {
            file_path: t.original,
            expected: "JSON file"@,
        },
        ApplyTextError::PatchNotJson => AppErrorModel::InvalidFileFormat {
            file_path: t.changes,
            expected: "JSON file"@,
        },
        ApplyTextError::PatchNotOperations => AppErrorModel::InvalidFileFormat {
            file_path: t.changes,
            expected: "JSON patch file"@,
        },
        ApplyTextError::PatchFailed => AppErrorModel::PatchError {
            target_file: t.original,
            patch_file: t.changes,
        },
    }
}

/// The build run over a trio sequence: trios in order, stopping at the first
/// fatal error, which keeps the effects decided before it.
pub open spec fn spec_build_trios(ts: Seq<TrioModel>) -> ReportModel
    decreases ts.len(),
{
    if ts.len() == 0 {
        ReportModel { effects: Seq::empty(), count: 0, error: None }
    } else {
        let step = spec_build_trio(ts[0]);
        if step.error is Some {
            ReportModel { effects: step.effects, count: 0, error: step.error }
        } else {
            let rest = spec_build_trios(ts.drop_first());
            ReportModel {
                effects: step.effects + rest.effects,
                count: (if step.counted {
                    1int
                } else {
                    0int
                }) + rest.count,
                error: rest.error,
            }
        }
    }
}

/// The whole build command: walk, then policy; a walk error aborts before
/// any effect.
pub open spec fn spec_build(
    root: Seq<Seq<char>>,
    original: Seq<char>,
    matches: Seq<char>,
    results: Seq<char>,
    m: TreeModel,
) -> ReportModel {
    match spec_walk(root.push(original), matches, results, m) {
        Err(e) => ReportModel {
            effects: Seq::empty(),
            count: 0,
            error: Some(AppErrorModel::InconsistentFileTypes(e)),
        },
        Ok(ts) => spec_build_trios(ts),
    }
}

/// The update policy for one trio.
///
/// A directory only has a missing patch mirror auto-created; directories are
/// never diffed.  A file without an output entry is skipped — nothing to
/// derive a difference from.  Otherwise the difference between baseline and
/// output is derived and unconditionally written at the patch path.
pub open spec fn spec_update_trio(t: TrioModel) -> TrioOutcome {
    if t.file_type is Directory {
        if t.changes_state is Missing {
            TrioOutcome {
                effects: seq![
                    EffectModel::WarnMissingDir { path: t.original },
                    EffectModel::CreateDir { path: t.changes },
                ],
                counted: false,
                error: None,
            }
        } else {
            TrioOutcome { effects: Seq::empty(), counted: false, error: None }
        }
    } else if t.changed_state is Missing {
        TrioOutcome { effects: Seq::empty(), counted: false, error: None }
    } else {
        match spec_diff_text(t.content, t.changed_state->File_0) {
            Ok(ptext) => TrioOutcome {
                effects: seq![EffectModel::WriteFile { path: t.changes, content: ptext }],
                counted: true,
                error: None,
            },
            Err(e) => TrioOutcome {
                effects: Seq::empty(),
                counted: false,
                error: Some(spec_update_trio_error(t, e)),
            },
        }
    }
}

/// The fatal error a failed diff reports for one trio.
pub open spec fn spec_update_trio_error(t: TrioModel, e: DiffTextError) -> AppErrorModel {
    match e {
        DiffTextError::DocumentNotJson => AppErrorModel::InvalidFileFormat {
            file_path: t.original,
            expected: "JSON file"@,
        },
        DiffTextError::EditedNotJson => AppErrorModel::InvalidFileFormat {
            file_path: t.changed,
            expected: "JSON file"@,
        },
    }
}

/// The update run over a trio sequence, with the same fail-fast shape as the
/// build run.
pub open spec fn spec_update_trios(ts: Seq<TrioModel>) -> ReportModel
    decreases ts.len(),
{
    if ts.len() == 0 {
        ReportModel { effects: Seq::empty(), count: 0, error: None }
    } else {
        let step = spec_update_trio(ts[0]);
        if step.error is Some {
            ReportModel { effects: step.effects, count: 0, error: step.error }
        } else {
            let rest = spec_update_trios(ts.drop_first());
            ReportModel {
                effects: step.effects + rest.effects,
                count: (if step.counted {
                    1int
                } else {
                    0int
                }) + rest.count,
                error: rest.error,
            }
        }
    }
}

/// The whole update command: walk, then policy; a walk error aborts before
/// any effect.
pub open spec fn spec_update(
    root: Seq<Seq<char>>,
    original: Seq<char>,
    matches: Seq<char>,
    results: Seq<char>,
    m: TreeModel,
) -> ReportModel {
    match spec_walk(root.push(original), matches, results, m) {
        Err(e) => ReportModel {
            effects: Seq::empty(),
            count: 0,
            error: Some(AppErrorModel::InconsistentFileTypes(e)),
        },
        Ok(ts) => spec_update_trios(ts),
    }
}

/// A trio is type-consistent when each existing mirror entry has the
/// baseline entry's kind.
pub open spec fn trio_consistent(t: TrioModel) -> bool {
    mirror_consistent(t.file_type, t.changes_state) && mirror_consistent(
        t.file_type,
        t.changed_state,
    )
}

/// Every trio a successful walk yields is type-consistent: the walk validates
/// each entry before yielding it.
pub proof fn lemma_walk_consistent(
    path: Seq<Seq<char>>,
    matches: Seq<char>,
    results: Seq<char>,
    m: TreeModel,
)
    requires
        spec_walk(path, matches, results, m) is Ok,
    ensures
        forall|i: int|
            0 <= i < spec_walk(path, matches, results, m)->Ok_0.len()
                ==> trio_consistent(#[trigger] spec_walk(path, matches, results, m)->Ok_0[i]),
    decreases m,
{
    let ts = spec_walk(path, matches, results, m)->Ok_0;
    assert(spec_trio_error(path, matches, results, m) is None);
    assert(trio_consistent(spec_trio(path, matches, results, m)));
    if m.kind is Directory {
        lemma_walk_children_consistent(path, matches, results, m.children);
    }
}

/// The children's half of [`lemma_walk_consistent`].
pub proof fn lemma_walk_children_consistent(
    path: Seq<Seq<char>>,
    matches: Seq<char>,
    results: Seq<char>,
    cs: Seq<TreeModel>,
)
    requires
        spec_walk_children(path, matches, results, cs) is Ok,
    ensures
        forall|i: int|
            0 <= i < spec_walk_children(path, matches, results, cs)->Ok_0.len()
                ==> trio_consistent(
                #[trigger] spec_walk_children(path, matches, results, cs)->Ok_0[i],
            ),
    decreases cs,
{
    if cs.len() > 0 {
        lemma_walk_consistent(path.push(cs[0].name), matches, results, cs[0]);
        lemma_walk_children_consistent(path, matches, results, cs.drop_first());
    }
}

/// A snapshot is type-consistent when every entry's existing mirror entries
/// have the entry's kind, down the whole tree.
pub open spec fn subtree_consistent(m: TreeModel) -> bool
    decreases m,
{
    &&& mirror_consistent(m.kind, m.patch)
    &&& mirror_consistent(m.kind, m.output)
    &&& (m.kind is Directory ==> subtrees_consistent(m.children))
}

/// The children's half of [`subtree_consistent`].
pub open spec fn subtrees_consistent(cs: Seq<TreeModel>) -> bool
    decreases cs,
{
    cs.len() == 0 || (subtree_consistent(cs[0]) && subtrees_consistent(cs.drop_first()))
}

/// The walk succeeds exactly on type-consistent snapshots.
pub proof fn lemma_walk_ok_iff_consistent(
    path: Seq<Seq<char>>,
    matches: Seq<char>,
    results: Seq<char>,
    m: TreeModel,
)
    ensures
        spec_walk(path, matches, results, m) is Ok <==> subtree_consistent(m),
    decreases m,
{
    if spec_trio_error(path, matches, results, m) is None && m.kind is Directory {
        lemma_walk_children_ok_iff_consistent(path, matches, results, m.children);
    }
}

/// The children's half of [`lemma_walk_ok_iff_consistent`].
pub proof fn lemma_walk_children_ok_iff_consistent(
    path: Seq<Seq<char>>,
    matches: Seq<char>,
    results: Seq<char>,
    cs: Seq<TreeModel>,
)
    ensures
        spec_walk_children(path, matches, results, cs) is Ok <==> subtrees_consistent(cs),
    decreases cs,
{
    if cs.len() > 0 {
        lemma_walk_ok_iff_consistent(path.push(cs[0].name), matches, results, cs[0]);
        lemma_walk_children_ok_iff_consistent(path, matches, results, cs.drop_first());
    }
}

/// How many entries a snapshot holds: the entry itself and, for a directory,
/// everything below it.
pub open spec fn tree_entry_count(m: TreeModel) -> nat
    decreases m,
{
    1 + (if m.kind is Directory {
        trees_entry_count(m.children)
    } else {
        0nat
    })
}

/// The children's half of [`tree_entry_count`].
pub open spec fn trees_entry_count(cs: Seq<TreeModel>) -> nat
    decreases cs,
{
    if cs.len() == 0 {
        0nat
    } else {
        tree_entry_count(cs[0]) + trees_entry_count(cs.drop_first())
    }
}

/// A successful walk yields one trio per baseline entry: every entry is
/// visited, none twice.
pub proof fn lemma_walk_visits_every_entry_once(
    path: Seq<Seq<char>>,
    matches: Seq<char>,
    results: Seq<char>,
    m: TreeModel,
)
    requires
        spec_walk(path, matches, results, m) is Ok,
    ensures
        spec_walk(path, matches, results, m)->Ok_0.len() == tree_entry_count(m),
    decreases m,
{
    if m.kind is Directory {
        lemma_walk_children_visit_every_entry_once(path, matches, results, m.children);
    }
}

/// The children's half of [`lemma_walk_visits_every_entry_once`].
pub proof fn lemma_walk_children_visit_every_entry_once(
    path: Seq<Seq<char>>,
    matches: Seq<char>,
    results: Seq<char>,
    cs: Seq<TreeModel>,
)
    requires
        spec_walk_children(path, matches, results, cs) is Ok,
    ensures
        spec_walk_children(path, matches, results, cs)->Ok_0.len() == trees_entry_count(cs),
    decreases cs,
{
    if cs.len() > 0 {
        lemma_walk_visits_every_entry_once(path.push(cs[0].name), matches, results, cs[0]);
        lemma_walk_children_visit_every_entry_once(path, matches, results, cs.drop_first());
    }
}

/// Every trio a successful walk yields carries the derived mirror paths: the
/// tree-root component of its baseline path substituted, all other
/// components preserved.
pub proof fn lemma_walk_paths(
    path: Seq<Seq<char>>,
    matches: Seq<char>,
    results: Seq<char>,
    m: TreeModel,
)
    requires
        spec_walk(path, matches, results, m) is Ok,
    ensures
        forall|i: int|
            0 <= i < spec_walk(path, matches, results, m)->Ok_0.len() ==> {
                let t = #[trigger] spec_walk(path, matches, results, m)->Ok_0[i];
                t.changes == t.original.update(1, matches) && t.changed == t.original.update(
                    1,
                    results,
                )
            },
    decreases m,
{
    if m.kind is Directory {
        lemma_walk_children_paths(path, matches, results, m.children);
    }
}

/// The children's half of [`lemma_walk_paths`].
pub proof fn lemma_walk_children_paths(
    path: Seq<Seq<char>>,
    matches: Seq<char>,
    results: Seq<char>,
    cs: Seq<TreeModel>,
)
    requires
        spec_walk_children(path, matches, results, cs) is Ok,
    ensures
        forall|i: int|
            0 <= i < spec_walk_children(path, matches, results, cs)->Ok_0.len() ==> {
                let t = #[trigger] spec_walk_children(path, matches, results, cs)->Ok_0[i];
                t.changes == t.original.update(1, matches) && t.changed == t.original.update(
                    1,
                    results,
                )
            },
    decreases cs,
{
    if cs.len() > 0 {
        lemma_walk_paths(path.push(cs[0].name), matches, results, cs[0]);
        lemma_walk_children_paths(path, matches, results, cs.drop_first());
    }
}

/// Type-mismatch fail-fast: when the walk meets an inconsistent entry, both
/// commands abort with that disagreement before deciding a single write.
pub proof fn lemma_type_mismatch_fail_fast(
    root: Seq<Seq<char>>,
    original: Seq<char>,
    matches: Seq<char>,
    results: Seq<char>,
    m: TreeModel,
)
    requires
        spec_walk(root.push(original), matches, results, m) is Err,
    ensures
        spec_build(root, original, matches, results, m).effects == Seq::<EffectModel>::empty(),
        spec_build(root, original, matches, results, m).error == Some(
            AppErrorModel::InconsistentFileTypes(
                spec_walk(root.push(original), matches, results, m)->Err_0,
            ),
        ),
        spec_update(root, original, matches, results, m).effects == Seq::<EffectModel>::empty(),
        spec_update(root, original, matches, results, m).error == Some(
            AppErrorModel::InconsistentFileTypes(
                spec_walk(root.push(original), matches, results, m)->Err_0,
            ),
        ),
{
}

/// Missing-file auto-create: for a baseline file with no patch mirror, build
/// decides exactly the notice and the write of the canonical empty patch
/// document at the patch path — the trio is fully handled, no output write
/// and no count.
pub proof fn lemma_missing_file_auto_create(t: TrioModel)
    requires
        t.file_type is File,
        t.changes_state is Missing,
    ensures
        spec_build_trio(t).effects =~= seq![
            EffectModel::WarnMissingFile { path: t.original },
            EffectModel::WriteFile { path: t.changes, content: spec_empty_patch_text() },
        ],
        spec_build_trio(t).counted == false,
        spec_build_trio(t).error is None,
{
}

/// Missing-directory auto-create: for a baseline directory with no patch
/// mirror, build decides exactly the notice and one directory creation at the
/// mirrored path, and the walk still yields every one of the directory's
/// descendants afterwards.
pub proof fn lemma_missing_dir_auto_create(
    path: Seq<Seq<char>>,
    matches: Seq<char>,
    results: Seq<char>,
    m: TreeModel,
)
    requires
        m.kind is Directory,
        m.patch is Missing,
        spec_walk(path, matches, results, m) is Ok,
    ensures
        spec_build_trio(spec_trio(path, matches, results, m)).effects =~= seq![
            EffectModel::WarnMissingDir { path: path },
            EffectModel::CreateDir { path: path.update(1, matches) },
        ],
        spec_build_trio(spec_trio(path, matches, results, m)).error is None,
        spec_walk_children(path, matches, results, m.children) is Ok,
        spec_walk(path, matches, results, m)->Ok_0 == seq![spec_trio(path, matches, results, m)]
            + spec_walk_children(path, matches, results, m.children)->Ok_0,
{
}

/// Determinism: what a run decides is a function of the snapshot alone — two
/// snapshots with one model give identical effects, counts and errors, for
/// build and for update alike.
pub proof fn lemma_determinism(
    t1: TreeEntry,
    t2: TreeEntry,
    root: Seq<Seq<char>>,
    original: Seq<char>,
    matches: Seq<char>,
    results: Seq<char>,
)
    requires
        tree_model(t1) == tree_model(t2),
    ensures
        spec_build(root, original, matches, results, tree_model(t1)) == spec_build(
            root,
            original,
            matches,
            results,
            tree_model(t2),
        ),
        spec_update(root, original, matches, results, tree_model(t1)) == spec_update(
            root,
            original,
            matches,
            results,
            tree_model(t2),
        ),
{
}

/// The empty patch document leaves a file's content alone: whenever the
/// patch mirror of a baseline file holds the canonical empty patch document,
/// a successful application renders the baseline document again — byte for
/// byte when the baseline text is canonical.
pub open spec fn spec_build_noop_identity(t: TrioModel) -> bool {
    (t.file_type is File && t.changes_state == MirrorModel::File(spec_empty_patch_text())) ==> {
        &&& spec_apply_text(t.content, spec_empty_patch_text()) is Ok
        &&& (canonical_document(t.content) ==> spec_apply_text(t.content, spec_empty_patch_text())
            == Ok::<Seq<char>, ApplyTextError>(t.content))
    }
}

/// The patch that update writes for a file round-trips: applying it to the
/// same baseline yields the edited output document again — byte for byte
/// when the edited text is canonical.
pub open spec fn spec_update_writes_roundtrip(t: TrioModel) -> bool {
    match t.changed_state {
        MirrorModel::File(oc) => t.file_type is File ==> {
            &&& spec_diff_text(t.content, oc) is Ok
            &&& spec_apply_text(t.content, spec_diff_text(t.content, oc)->Ok_0) == Ok::<
                Seq<char>,
                ApplyTextError,
            >(spec_render(spec_parse_json(oc)->0))
            &&& (canonical_document(oc) ==> spec_apply_text(
                t.content,
                spec_diff_text(t.content, oc)->Ok_0,
            ) == Ok::<Seq<char>, ApplyTextError>(oc))
        },
        _ => true,
    }
}

/// The build policy applied to one trio.
fn build_trio(t: &FilePathTrio) -> (r: (Vec<Effect>, bool, Option<AppError>))
    requires
        trio_consistent(t@),
    ensures
        ({
            let step = spec_build_trio(t@);
            &&& r.0.deep_view() == step.effects
            &&& r.1 == step.counted
            &&& (match r.2 {
                Some(e) => step.error == Some(e@),
                None => step.error is None,
            })
            &&& (r.2 is None ==> spec_build_noop_identity(t@))
        }),
{
    let mut effects: Vec<Effect> = Vec::new();
    match &t.changes_state {
        MirrorState::Missing => {
            match t.file_type {
                EntryKind::Directory => {
                    effects.push(Effect::WarnMissingDir { path: clone_path(&t.original) });
                    effects.push(Effect::CreateDir { path: clone_path(&t.changes) });
                },
                EntryKind::File => {
                    effects.push(Effect::WarnMissingFile { path: clone_path(&t.original) });
                    effects.push(Effect::WriteFile {
                        path: clone_path(&t.changes),
                        content: empty_patch_document(),
                    });
                },
            }
            assert(effects.deep_view() =~= spec_build_trio(t@).effects);
            (effects, false, None)
        },
        _ => {
            match t.file_type {
                EntryKind::Directory => {
                    match &t.changed_state {
                        MirrorState::Missing => {
                            effects.push(Effect::CreateDir { path: clone_path(&t.changed) });
                        },
                        _ => {},
                    }
                    assert(effects.deep_view() =~= spec_build_trio(t@).effects);
                    (effects, false, None)
                },
                EntryKind::File => {
                    let patch_text = match &t.changes_state {
                        MirrorState::File(s) => s,
                        _ => unreached(),
                    };
                    match apply_patch_text(t.content.as_str(), patch_text.as_str()) {
                        Ok(out) => {
                            effects.push(Effect::WriteFile {
                                path: clone_path(&t.changed),
                                content: out,
                            });
                            assert(effects.deep_view() =~= spec_build_trio(t@).effects);
                            (effects, true, None)
                        },
                        Err(e) => {
                            let err = match e {
                                ApplyTextError::DocumentNotJson => AppError::InvalidFileFormat {
                                    file_path: clone_path(&t.original),
                                    expected: String::from_str("JSON file"),
                                },
                                ApplyTextError::PatchNotJson => AppError::InvalidFileFormat {
                                    file_path: clone_path(&t.changes),
                                    expected: String::from_str("JSON file"),
                                },
                                ApplyTextError::PatchNotOperations => AppError::InvalidFileFormat {
                                    file_path: clone_path(&t.changes),
                                    expected: String::from_str("JSON patch file"),
                                },
                                ApplyTextError::PatchFailed => AppError::PatchError {
                                    target_file: clone_path(&t.original),
                                    patch_file: clone_path(&t.changes),
                                },
                            };
                            assert(effects.deep_view() =~= spec_build_trio(t@).effects);
                            (effects, false, Some(err))
                        },
                    }
                },
            }
        },
    }
}

/// Builds the output tree from the baseline snapshot: every baseline entry is
/// resolved, validated and reconciled in walk order, fail-fast.  The report
/// is exactly `spec_build` of the snapshot; on a full pass the write decided
/// for a file whose patch mirror holds the canonical empty patch document
/// renders the baseline document again.
pub fn build(original_path: String, matches: String, result: String, tree: &TreeEntry) -> (r:
    CommandReport)
    ensures
        r@ == spec_build(seq!["."@], original_path@, matches@, result@, tree_model(*tree)),
        ({
            let w = spec_walk(
                seq!["."@].push(original_path@),
                matches@,
                result@,
                tree_model(*tree),
            );
            r@.error is None ==> w is Ok && forall|i: int|
                0 <= i < w->Ok_0.len() ==> spec_build_noop_identity(#[trigger] w->Ok_0[i])
        }),
{
    let mut root: FilePath = Vec::new();
    root.push(String::from_str("."));
    assert(root.deep_view() =~= seq!["."@]);
    let ghost pathv = seq!["."@].push(original_path@);
    let trios = match get_file_trios(root, original_path.clone(), matches.clone(), result.clone(), tree) {
        Ok(ts) => ts,
        Err(err) => {
            let e = match err {
                FindFileTriosError::TrioInitError(e2) => match e2 {
                    TrioInitError::InconsistentFileTypes(x) => AppError::InconsistentFileTypes(x),
                    TrioInitError::IoError(x) => AppError::IoErrorPath(x),
                },
                FindFileTriosError::IoErrorWithPath(x) => AppError::IoErrorPath(x),
                FindFileTriosError::IoError(x) => AppError::IoError(x),
            };
            let out = CommandReport { effects: Vec::new(), count: 0, error: Some(e) };
            assert(out.effects.deep_view() =~= Seq::<EffectModel>::empty());
            return out;
        },
    };
    let ghost ts = trios.deep_view();
    proof {
        lemma_walk_consistent(pathv, matches@, result@, tree_model(*tree));
        assert(ts.skip(0) =~= ts);
    }
    let mut effects: Vec<Effect> = Vec::new();
    let mut count: u64 = 0;
    let mut idx: usize = 0;
    while idx < trios.len()
        invariant
            idx <= ts.len(),
            pathv == seq!["."@].push(original_path@),
            ts == trios.deep_view(),
            ts == spec_walk(pathv, matches@, result@, tree_model(*tree))->Ok_0,
            spec_walk(pathv, matches@, result@, tree_model(*tree)) is Ok,
            forall|i: int| 0 <= i < ts.len() ==> trio_consistent(#[trigger] ts[i]),
            forall|j: int| 0 <= j < idx ==> spec_build_noop_identity(#[trigger] ts[j]),
            count <= idx,
            spec_build_trios(ts).effects == effects.deep_view() + spec_build_trios(
                ts.skip(idx as int),
            ).effects,
            spec_build_trios(ts).count == count + spec_build_trios(ts.skip(idx as int)).count,
            spec_build_trios(ts).error == spec_build_trios(ts.skip(idx as int)).error,
        decreases ts.len() - idx,
    {
        proof {
            assert(ts.skip(idx as int)[0] == ts[idx as int]);
            assert(ts.skip(idx as int).drop_first() =~= ts.skip(idx as int + 1));
        }
        let (mut step_effects, counted, step_err) = build_trio(&trios[idx]);
        let ghost effv = effects.deep_view();
        let ghost stepv = step_effects.deep_view();
        effects.append(&mut step_effects);
        assert(effects.deep_view() =~= effv + stepv);
        proof {
            let stepm = spec_build_trio(ts[idx as int]);
            let rest = spec_build_trios(ts.skip(idx as int + 1));
            if stepm.error is None {
                assert(effv + (stepv + rest.effects) =~= (effv + stepv) + rest.effects);
            }
        }
        match step_err {
            Some(e) => {
                proof {
                    let stepm = spec_build_trio(ts[idx as int]);
                    assert(stepm.error == Some(e@));
                    assert(spec_build_trios(ts.skip(idx as int)).error == stepm.error);
                    assert(spec_build_trios(ts.skip(idx as int)).effects == stepm.effects);
                    assert(spec_build_trios(ts).effects == effv + stepv);
                    assert(spec_build_trios(ts).count == count as int);
                }
                let out = CommandReport { effects, count, error: Some(e) };
                return out;
            },
            None => {},
        }
        if counted {
            count = count + 1;
        }
        idx = idx + 1;
    }
    assert(ts.skip(ts.len() as int) =~= Seq::<TrioModel>::empty());
    CommandReport { effects, count, error: None }
}

/// The update policy applied to one trio.
fn update_trio(t: &FilePathTrio) -> (r: (Vec<Effect>, bool, Option<AppError>))
    requires
        trio_consistent(t@),
    ensures
        ({
            let step = spec_update_trio(t@);
            &&& r.0.deep_view() == step.effects
            &&& r.1 == step.counted
            &&& (match r.2 {
                Some(e) => step.error == Some(e@),
                None => step.error is None,
            })
            &&& (r.2 is None ==> spec_update_writes_roundtrip(t@))
        }),
{
    let mut effects: Vec<Effect> = Vec::new();
    match t.file_type {
        EntryKind::Directory => {
            match &t.changes_state {
                MirrorState::Missing => {
                    effects.push(Effect::WarnMissingDir { path: clone_path(&t.original) });
                    effects.push(Effect::CreateDir { path: clone_path(&t.changes) });
                },
                _ => {},
            }
            assert(effects.deep_view() =~= spec_update_trio(t@).effects);
            (effects, false, None)
        },
        EntryKind::File => {
            match &t.changed_state {
                MirrorState::Missing => {
                    assert(effects.deep_view() =~= spec_update_trio(t@).effects);
                    (effects, false, None)
                },
                MirrorState::File(out_text) => {
                    match diff_text(t.content.as_str(), out_text.as_str()) {
                        Ok(ptext) => {
                            effects.push(Effect::WriteFile {
                                path: clone_path(&t.changes),
                                content: ptext,
                            });
                            assert(effects.deep_view() =~= spec_update_trio(t@).effects);
                            (effects, true, None)
                        },
                        Err(e) => {
                            let err = match e {
                                DiffTextError::DocumentNotJson => AppError::InvalidFileFormat {
                                    file_path: clone_path(&t.original),
                                    expected: String::from_str("JSON file"),
                                },
                                DiffTextError::EditedNotJson => AppError::InvalidFileFormat {
                                    file_path: clone_path(&t.changed),
                                    expected: String::from_str("JSON file"),
                                },
                            };
                            assert(effects.deep_view() =~= spec_update_trio(t@).effects);
                            (effects, false, Some(err))
                        },
                    }
                },
                MirrorState::Dir => unreached(),
            }
        },
    }
}

/// Regenerates the patch tree from the baseline snapshot and the output tree:
/// every baseline entry is resolved, validated and reconciled in walk order,
/// fail-fast.  The report is exactly `spec_update` of the snapshot; on a full
/// pass every patch written round-trips — applying it to the baseline yields
/// the output document it was derived from.
pub fn update(original_path: String, matches: String, result: String, tree: &TreeEntry) -> (r:
    CommandReport)
    ensures
        r@ == spec_update(seq!["."@], original_path@, matches@, result@, tree_model(*tree)),
        ({
            let w = spec_walk(
                seq!["."@].push(original_path@),
                matches@,
                result@,
                tree_model(*tree),
            );
            r@.error is None ==> w is Ok && forall|i: int|
                0 <= i < w->Ok_0.len() ==> spec_update_writes_roundtrip(#[trigger] w->Ok_0[i])
        }),
{
    let mut root: FilePath = Vec::new();
    root.push(String::from_str("."));
    assert(root.deep_view() =~= seq!["."@]);
    let ghost pathv = seq!["."@].push(original_path@);
    let trios = match get_file_trios(root, original_path.clone(), matches.clone(), result.clone(), tree) {
        Ok(ts) => ts,
        Err(err) => {
            let e = match err {
                FindFileTriosError::TrioInitError(e2) => match e2 {
                    TrioInitError::InconsistentFileTypes(x) => AppError::InconsistentFileTypes(x),
                    TrioInitError::IoError(x) => AppError::IoErrorPath(x),
                },
                FindFileTriosError::IoErrorWithPath(x) => AppError::IoErrorPath(x),
                FindFileTriosError::IoError(x) => AppError::IoError(x),
            };
            let out = CommandReport { effects: Vec::new(), count: 0, error: Some(e) };
            assert(out.effects.deep_view() =~= Seq::<EffectModel>::empty());
            return out;
        },
    };
    let ghost ts = trios.deep_view();
    proof {
        lemma_walk_consistent(pathv, matches@, result@, tree_model(*tree));
        assert(ts.skip(0) =~= ts);
    }
    let mut effects: Vec<Effect> = Vec::new();
    let mut count: u64 = 0;
    let mut idx: usize = 0;
    while idx < trios.len()
        invariant
            idx <= ts.len(),
            pathv == seq!["."@].push(original_path@),
            ts == trios.deep_view(),
            ts == spec_walk(pathv, matches@, result@, tree_model(*tree))->Ok_0,
            spec_walk(pathv, matches@, result@, tree_model(*tree)) is Ok,
            forall|i: int| 0 <= i < ts.len() ==> trio_consistent(#[trigger] ts[i]),
            forall|j: int| 0 <= j < idx ==> spec_update_writes_roundtrip(#[trigger] ts[j]),
            count <= idx,
            spec_update_trios(ts).effects == effects.deep_view() + spec_update_trios(
                ts.skip(idx as int),
            ).effects,
            spec_update_trios(ts).count == count + spec_update_trios(ts.skip(idx as int)).count,
            spec_update_trios(ts).error == spec_update_trios(ts.skip(idx as int)).error,
        decreases ts.len() - idx,
    {
        proof {
            assert(ts.skip(idx as int)[0] == ts[idx as int]);
            assert(ts.skip(idx as int).drop_first() =~= ts.skip(idx as int + 1));
        }
        let (mut step_effects, counted, step_err) = update_trio(&trios[idx]);
        let ghost effv = effects.deep_view();
        let ghost stepv = step_effects.deep_view();
        effects.append(&mut step_effects);
        assert(effects.deep_view() =~= effv + stepv);
        proof {
            let stepm = spec_update_trio(ts[idx as int]);
            let rest = spec_update_trios(ts.skip(idx as int + 1));
            if stepm.error is None {
                assert(effv + (stepv + rest.effects) =~= (effv + stepv) + rest.effects);
            }
        }
        match step_err {
            Some(e) => {
                proof {
                    let stepm = spec_update_trio(ts[idx as int]);
                    assert(stepm.error == Some(e@));
                    assert(spec_update_trios(ts.skip(idx as int)).error == stepm.error);
                    assert(spec_update_trios(ts.skip(idx as int)).effects == stepm.effects);
                    assert(spec_update_trios(ts).effects == effv + stepv);
                    assert(spec_update_trios(ts).count == count as int);
                }
                let out = CommandReport { effects, count, error: Some(e) };
                return out;
            },
            None => {},
        }
        if counted {
            count = count + 1;
        }
        idx = idx + 1;
    }
    assert(ts.skip(ts.len() as int) =~= Seq::<TrioModel>::empty());
    CommandReport { effects, count, error: None }
}

} // verus!
