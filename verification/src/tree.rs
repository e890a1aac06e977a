//! In-memory snapshot of the three directory trees.
//!
//! The engine never touches the filesystem itself.  A caller reads the
//! baseline tree from disk into a [`TreeEntry`], recording for every baseline
//! entry the state of the two mirrored entries (patch tree and output tree),
//! and hands the snapshot to the engine.

use vstd::prelude::*;

verus! {

/// The kind of a baseline entry: a regular file or a directory.
#[derive(Clone, Copy, PartialEq, Eq, Structural, Debug)]
pub enum EntryKind {
    File,
    Directory,
}

/// What exists at a mirrored path (patch tree or output tree): nothing, a
/// directory, or a file together with its text content.
#[derive(PartialEq, Debug)]
pub enum MirrorState {
    Missing,
    Dir,
    File(String),
}

/// Mathematical value of a [`MirrorState`].
pub enum MirrorModel {
    Missing,
    Dir,
    File(Seq<char>),
}

impl View for MirrorState {
    type V = MirrorModel;

    open spec fn view(&self) -> MirrorModel {
        match self {
            MirrorState::Missing => MirrorModel::Missing,
            MirrorState::Dir => MirrorModel::Dir,
            MirrorState::File(s) => MirrorModel::File(s@),
        }
    }
}

/// One baseline entry with the states of its two mirror entries and, for a
/// directory, its children.  For a file, `content` is the baseline text and
/// `children` is empty; for a directory, `content` is unused.
#[derive(Debug)]
pub struct TreeEntry {
    pub name: String,
    pub kind: EntryKind,
    pub content: String,
    pub patch: MirrorState,
    pub output: MirrorState,
    pub children: Vec<TreeEntry>,
}

/// Mathematical value of a [`TreeEntry`].
pub struct TreeModel {
    pub name: Seq<char>,
    pub kind: EntryKind,
    pub content: Seq<char>,
    pub patch: MirrorModel,
    pub output: MirrorModel,
    pub children: Seq<TreeModel>,
}

pub open spec fn tree_model(t: TreeEntry) -> TreeModel
    decreases t,
{
    TreeModel {
        name: t.name@,
        kind: t.kind,
        content: t.content@,
        patch: t.patch@,
        output: t.output@,
        children: children_model(t.children@),
    }
}

pub open spec fn children_model(cs: Seq<TreeEntry>) -> Seq<TreeModel>
    decreases cs,
{
    if cs.len() == 0 {
        Seq::empty()
    } else {
        seq![tree_model(cs[0])] + children_model(cs.drop_first())
    }
}

/// `children_model` maps `tree_model` over the sequence, element by element.
pub proof fn lemma_children_model(cs: Seq<TreeEntry>)
    ensures
        children_model(cs).len() == cs.len(),
        forall|i: int| 0 <= i < cs.len() ==> children_model(cs)[i] == tree_model(cs[i]),
    decreases cs.len(),
{
    if cs.len() > 0 {
        lemma_children_model(cs.drop_first());
    }
}

impl View for TreeEntry {
    type V = TreeModel;

    open spec fn view(&self) -> TreeModel {
        tree_model(*self)
    }
}

} // verus!
