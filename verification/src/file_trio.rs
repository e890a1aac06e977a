//! Trio resolution: a single pre-order walk of the baseline tree that, for
//! every entry, derives the two mirrored paths, checks that any existing
//! mirror entry has the same kind as the baseline entry, and yields one
//! [`FilePathTrio`] per entry — the baseline entry before its children.

use vstd::prelude::*;
use crate::error::{ErrorPath, IoErrorWithPath, OsError};
use crate::tree::{
    children_model, lemma_children_model, tree_model, EntryKind, MirrorModel, MirrorState,
    TreeEntry, TreeModel,
};

verus! {

/// A path as a sequence of components.
pub type FilePath = Vec<String>;

/// Replaces the path component at `index`, preserving every other component.
/// Fails when the path has no component at that position.
pub fn replace_item(path: &FilePath, index: usize, value: &String) -> (r: Result<
    FilePath,
    IndexOutOfBoundsError,
>)
    ensures
        index < path@.len() ==> r is Ok,
        index >= path@.len() ==> r is Err,
        r is Ok ==> r->Ok_0.deep_view() == path.deep_view().update(index as int, value@),
{
    if index >= path.len() {
        return Err(IndexOutOfBoundsError);
    }
    let ghost target = path.deep_view().update(index as int, value@);
    let mut out: FilePath = Vec::new();
    let mut i: usize = 0;
    while i < path.len()
        invariant
            i <= path@.len(),
            index < path@.len(),
            target == path.deep_view().update(index as int, value@),
            out@.len() == i,
            forall|j: int| 0 <= j < i ==> #[trigger] out@[j]@ == target[j],
        decreases path@.len() - i,
    {
        if i == index {
            out.push(value.clone());
        } else {
            out.push(path[i].clone());
        }
        i = i + 1;
    }
    assert(out.deep_view() =~= target);
    Ok(out)
}

/// Raised when a path is too short for the component position it is asked for.
#[derive(Debug, PartialEq, Eq, Structural)]
pub struct IndexOutOfBoundsError;

/// A copy of a path whose components read the same.
pub fn clone_path(path: &FilePath) -> (r: FilePath)
    ensures
        r@.len() == path@.len(),
        r.deep_view() == path.deep_view(),
{
    let mut out: FilePath = Vec::new();
    let mut i: usize = 0;
    while i < path.len()
        invariant
            i <= path@.len(),
            out@.len() == i,
            forall|j: int| 0 <= j < i ==> #[trigger] out@[j]@ == path.deep_view()[j],
        decreases path@.len() - i,
    {
        out.push(path[i].clone());
        i = i + 1;
    }
    assert(out.deep_view() =~= path.deep_view());
    out
}

/// A copy of a mirror state whose content reads the same.
pub fn clone_mirror(m: &MirrorState) -> (r: MirrorState)
    ensures
        r@ == m@,
{
    match m {
        MirrorState::Missing => MirrorState::Missing,
        MirrorState::Dir => MirrorState::Dir,
        MirrorState::File(s) => MirrorState::File(s.clone()),
    }
}

/// The unit of work: one baseline entry, its kind, the three mirrored paths,
/// the baseline content and the states of the two mirror entries.
#[derive(Debug)]
pub struct FilePathTrio {
    pub file_type: EntryKind,
    pub original: FilePath,
    pub changes: FilePath,
    pub changed: FilePath,
    pub content: String,
    pub changes_state: MirrorState,
    pub changed_state: MirrorState,
}

/// Mathematical value of a [`FilePathTrio`].
pub struct TrioModel {
    pub file_type: EntryKind,
    pub original: Seq<Seq<char>>,
    pub changes: Seq<Seq<char>>,
    pub changed: Seq<Seq<char>>,
    pub content: Seq<char>,
    pub changes_state: MirrorModel,
    pub changed_state: MirrorModel,
}

impl View for FilePathTrio {
    type V = TrioModel;

    open spec fn view(&self) -> TrioModel {
        TrioModel {
            file_type: self.file_type,
            original: self.original.deep_view(),
            changes: self.changes.deep_view(),
            changed: self.changed.deep_view(),
            content: self.content@,
            changes_state: self.changes_state@,
            changed_state: self.changed_state@,
        }
    }
}

impl DeepView for FilePathTrio {
    type V = TrioModel;

    open spec fn deep_view(&self) -> TrioModel {
        self.view()
    }
}

/// The kind of the entry a mirror state records, if one exists there.
pub open spec fn kind_of_mirror(m: MirrorModel) -> Option<EntryKind> {
    match m {
        MirrorModel::Missing => None,
        MirrorModel::Dir => Some(EntryKind::Directory),
        MirrorModel::File(_) => Some(EntryKind::File),
    }
}

/// A mirror entry is consistent when it is absent or of the baseline's kind.
pub open spec fn mirror_consistent(kind: EntryKind, m: MirrorModel) -> bool {
    match kind_of_mirror(m) {
        None => true,
        Some(k) => k == kind,
    }
}

/// Entry-kind disagreement between the baseline entry and a mirror entry.
#[derive(Debug)]
pub struct InconsistentFileTypes {
    pub file_type_a: EntryKind,
    pub path_a: ErrorPath,
    pub file_type_b: EntryKind,
    pub path_b: ErrorPath,
}

/// Mathematical value of an [`InconsistentFileTypes`].
pub struct InconsistentModel {
    pub file_type_a: EntryKind,
    pub path_a: Seq<Seq<char>>,
    pub file_type_b: EntryKind,
    pub path_b: Seq<Seq<char>>,
}

impl View for InconsistentFileTypes {
    type V = InconsistentModel;

    open spec fn view(&self) -> InconsistentModel {
        InconsistentModel {
            file_type_a: self.file_type_a,
            path_a: self.path_a.deep_view(),
            file_type_b: self.file_type_b,
            path_b: self.path_b.deep_view(),
        }
    }
}

/// Failure to form one trio.
#[derive(Debug)]
pub enum TrioInitError {
    InconsistentFileTypes(InconsistentFileTypes),
    IoError(IoErrorWithPath),
}

/// Failure of the whole walk.
#[derive(Debug)]
pub enum FindFileTriosError {
    TrioInitError(TrioInitError),
    IoErrorWithPath(IoErrorWithPath),
    IoError(OsError),
}

impl FilePathTrio {
    /// Forms the trio for one baseline entry after checking both mirror
    /// entries against the baseline kind; the first disagreement — the patch
    /// mirror is checked before the output mirror — is the trio's error.
    fn new(
        original: FilePath,
        matching: FilePath,
        result: FilePath,
        file_type: EntryKind,
        content: String,
        changes_state: MirrorState,
        changed_state: MirrorState,
    ) -> (r: Result<Self, TrioInitError>)
        ensures
            r is Ok <==> mirror_consistent(file_type, changes_state@) && mirror_consistent(
                file_type,
                changed_state@,
            ),
            r is Ok ==> r->Ok_0@ == (TrioModel {
                file_type: file_type,
                original: original.deep_view(),
                changes: matching.deep_view(),
                changed: result.deep_view(),
                content: content@,
                changes_state: changes_state@,
                changed_state: changed_state@,
            }),
            !mirror_consistent(file_type, changes_state@) ==> (r matches Err(
                TrioInitError::InconsistentFileTypes(e),
            ) && e@ == (InconsistentModel {
                file_type_a: file_type,
                path_a: original.deep_view(),
                file_type_b: kind_of_mirror(changes_state@)->0,
                path_b: matching.deep_view(),
            })),
            mirror_consistent(file_type, changes_state@) && !mirror_consistent(
                file_type,
                changed_state@,
            ) ==> (r matches Err(TrioInitError::InconsistentFileTypes(e)) && e@ == (
            InconsistentModel {
                file_type_a: file_type,
                path_a: original.deep_view(),
                file_type_b: kind_of_mirror(changed_state@)->0,
                path_b: result.deep_view(),
            })),
    {
        let matching_kind = match &changes_state {
            MirrorState::Missing => None,
            MirrorState::Dir => Some(EntryKind::Directory),
            MirrorState::File(_) => Some(EntryKind::File),
        };
        if let Some(k) = matching_kind {
            if k != file_type {
                return Err(TrioInitError::InconsistentFileTypes(InconsistentFileTypes {
                    file_type_a: file_type,
                    path_a: original,
                    file_type_b: k,
                    path_b: matching,
                }));
            }
        }
        let result_kind = match &changed_state {
            MirrorState::Missing => None,
            MirrorState::Dir => Some(EntryKind::Directory),
            MirrorState::File(_) => Some(EntryKind::File),
        };
        if let Some(k) = result_kind {
            if k != file_type {
                return Err(TrioInitError::InconsistentFileTypes(InconsistentFileTypes {
                    file_type_a: file_type,
                    path_a: original,
                    file_type_b: k,
                    path_b: result,
                }));
            }
        }
        Ok(Self {
            file_type,
            original,
            changes: matching,
            changed: result,
            content,
            changes_state,
            changed_state,
        })
    }
}

/// The trio an entry resolves to: the two mirrored paths substitute the
/// tree-root component while preserving the remaining suffix.
pub open spec fn spec_trio(
    path: Seq<Seq<char>>,
    matches: Seq<char>,
    results: Seq<char>,
    m: TreeModel,
) -> TrioModel {
    TrioModel {
        file_type: m.kind,
        original: path,
        changes: path.update(1, matches),
        changed: path.update(1, results),
        content: m.content,
        changes_state: m.patch,
        changed_state: m.output,
    }
}

/// The consistency error an entry raises, if any: the patch mirror is
/// checked before the output mirror.
pub open spec fn spec_trio_error(
    path: Seq<Seq<char>>,
    matches: Seq<char>,
    results: Seq<char>,
    m: TreeModel,
) -> Option<InconsistentModel> {
    if !mirror_consistent(m.kind, m.patch) {
        Some(
            InconsistentModel {
                file_type_a: m.kind,
                path_a: path,
                file_type_b: kind_of_mirror(m.patch)->0,
                path_b: path.update(1, matches),
            },
        )
    } else if !mirror_consistent(m.kind, m.output) {
        Some(
            InconsistentModel {
                file_type_a: m.kind,
                path_a: path,
                file_type_b: kind_of_mirror(m.output)->0,
                path_b: path.update(1, results),
            },
        )
    } else {
        None
    }
}

/// The full walk of one entry: its own trio before its children's, children
/// in order, stopping at the first inconsistent entry.
pub open spec fn spec_walk(
    path: Seq<Seq<char>>,
    matches: Seq<char>,
    results: Seq<char>,
    m: TreeModel,
) -> Result<Seq<TrioModel>, InconsistentModel>
    decreases m,
{
    match spec_trio_error(path, matches, results, m) {
        Some(e) => Err(e),
        None => match m.kind {
            EntryKind::Directory => match spec_walk_children(path, matches, results, m.children) {
                Ok(ts) => Ok(seq![spec_trio(path, matches, results, m)] + ts),
                Err(e) => Err(e),
            },
            EntryKind::File => Ok(seq![spec_trio(path, matches, results, m)]),
        },
    }
}

/// The walk of a directory's children, each under its own extended path.
pub open spec fn spec_walk_children(
    path: Seq<Seq<char>>,
    matches: Seq<char>,
    results: Seq<char>,
    cs: Seq<TreeModel>,
) -> Result<Seq<TrioModel>, InconsistentModel>
    decreases cs,
{
    if cs.len() == 0 {
        Ok(Seq::empty())
    } else {
        match spec_walk(path.push(cs[0].name), matches, results, cs[0]) {
            Ok(first) => match spec_walk_children(path, matches, results, cs.drop_first()) {
                Ok(rest) => Ok(first + rest),
                Err(e) => Err(e),
            },
            Err(e) => Err(e),
        }
    }
}

/// Resolves every baseline entry of `tree` to its trio, pre-order, after
/// pushing the baseline root name onto `root`.  The result is exactly
/// `spec_walk` of the snapshot: all trios when every mirror entry agrees in
/// kind with its baseline entry, else the first disagreement in walk order.
pub fn get_file_trios(
    root: FilePath,
    original: String,
    matches: String,
    result: String,
    tree: &TreeEntry,
) -> (r: Result<Vec<FilePathTrio>, FindFileTriosError>)
    requires
        root@.len() >= 1,
    ensures
        ({
            let w = spec_walk(
                root.deep_view().push(original@),
                matches@,
                result@,
                tree_model(*tree),
            );
            match r {
                Ok(v) => w is Ok && v.deep_view() == w->Ok_0,
                Err(e) => w is Err && (e matches FindFileTriosError::TrioInitError(
                    TrioInitError::InconsistentFileTypes(x),
                ) && x@ == w->Err_0),
            }
        }),
{
    let ghost rootv = root.deep_view();
    let mut path = root;
    path.push(original);
    assert(path.deep_view() =~= rootv.push(original@));
    walk_entry(path, &matches, &result, tree)
}

/// One step of the walk: the entry's own trio, then its children.
fn walk_entry(path: FilePath, matches: &String, results: &String, tree: &TreeEntry) -> (r: Result<
    Vec<FilePathTrio>,
    FindFileTriosError,
>)
    requires
        path@.len() >= 2,
    ensures
        ({
            let w = spec_walk(path.deep_view(), matches@, results@, tree_model(*tree));
            match r {
                Ok(v) => w is Ok && v.deep_view() == w->Ok_0,
                Err(e) => w is Err && (e matches FindFileTriosError::TrioInitError(
                    TrioInitError::InconsistentFileTypes(x),
                ) && x@ == w->Err_0),
            }
        }),
    decreases *tree, 0int,
{
    let matching_path = match replace_item(&path, 1, matches) {
        Ok(p) => p,
        Err(_) => unreached(),
    };
    let result_path = match replace_item(&path, 1, results) {
        Ok(p) => p,
        Err(_) => unreached(),
    };
    let trio = match FilePathTrio::new(
        clone_path(&path),
        matching_path,
        result_path,
        tree.kind,
        tree.content.clone(),
        clone_mirror(&tree.patch),
        clone_mirror(&tree.output),
    ) {
        Ok(t) => t,
        Err(e) => {
            return Err(FindFileTriosError::TrioInitError(e));
        },
    };
    match tree.kind {
        EntryKind::Directory => {
            proof {
                lemma_children_model(tree.children@);
                assert(children_model(tree.children@).skip(0) =~= children_model(tree.children@));
            }
            match walk_children(&path, matches, results, &tree.children, 0) {
                Ok(mut rest) => {
                    let ghost restv = rest.deep_view();
                    let mut res: Vec<FilePathTrio> = Vec::new();
                    res.push(trio);
                    res.append(&mut rest);
                    assert(res.deep_view() =~= seq![res@[0]@] + restv);
                    Ok(res)
                },
                Err(e) => Err(e),
            }
        },
        EntryKind::File => {
            let mut res: Vec<FilePathTrio> = Vec::new();
            res.push(trio);
            assert(res.deep_view() =~= seq![res@[0]@]);
            Ok(res)
        },
    }
}

/// The children of one directory from position `i` on, each walked under the
/// directory's path extended with the child's name.
fn walk_children(
    path: &FilePath,
    matches: &String,
    results: &String,
    children: &Vec<TreeEntry>,
    i: usize,
) -> (r: Result<Vec<FilePathTrio>, FindFileTriosError>)
    requires
        path@.len() >= 2,
        i <= children@.len(),
    ensures
        ({
            let w = spec_walk_children(
                path.deep_view(),
                matches@,
                results@,
                children_model(children@).skip(i as int),
            );
            match r {
                Ok(v) => w is Ok && v.deep_view() == w->Ok_0,
                Err(e) => w is Err && (e matches FindFileTriosError::TrioInitError(
                    TrioInitError::InconsistentFileTypes(x),
                ) && x@ == w->Err_0),
            }
        }),
    decreases *children, children@.len() - i,
{
    proof {
        lemma_children_model(children@);
    }
    let ghost cs = children_model(children@);
    if i == children.len() {
        let out: Vec<FilePathTrio> = Vec::new();
        assert(cs.skip(i as int) =~= Seq::<TreeModel>::empty());
        assert(out.deep_view() =~= Seq::<TrioModel>::empty());
        Ok(out)
    } else {
        let child = &children[i];
        let mut child_path = clone_path(path);
        child_path.push(child.name.clone());
        assert(child_path.deep_view() =~= path.deep_view().push(child.name@));
        proof {
            assert(cs.skip(i as int)[0] == cs[i as int]);
            assert(cs.skip(i as int).drop_first() =~= cs.skip(i as int + 1));
        }
        match walk_entry(child_path, matches, results, child) {
            Err(e) => Err(e),
            Ok(mut first) => match walk_children(path, matches, results, children, i + 1) {
                Err(e) => Err(e),
                Ok(mut rest) => {
                    let ghost firstv = first.deep_view();
                    let ghost restv = rest.deep_view();
                    first.append(&mut rest);
                    assert(first.deep_view() =~= firstv + restv);
                    Ok(first)
                },
            },
        }
    }
}

} // verus!
