//! The decoded shape of a deep directory query: one directory's entries, each
//! with the kinds of its own children (one nested level, never deeper).
use vstd::prelude::*;
use vstd::string::StringExecFns;

verus! {

/// A directory node: its immediate entries.
pub struct Tree {
    pub entries: Vec<TreeEntry>,
}

/// One entry of a directory, with the object it points to, if any.
pub struct TreeEntry {
    pub name: String,
    pub object: Option<DeepGitObjectNested>,
}

/// The answer to a deep directory query.
pub struct GetDeepDirectoryContent {
    pub repository: Option<Repository>,
}

/// The repository part of a deep directory query's answer.
pub struct Repository {
    pub object: Option<DeepGitObject>,
}

/// The object found at the queried path: a directory, or anything else.
pub enum DeepGitObject {
    Tree(Tree),
    Unknown,
}

/// A directory one level down: only the kinds of its entries are known.
pub struct TreeNested {
    pub entries: Vec<TreeEntryNested>,
}

/// An entry one level down; `type_` is the remote node type (`blob`, `tree`, ...).
pub struct TreeEntryNested {
    pub type_: String,
}

/// The object an entry points to: a directory, or anything else.
pub enum DeepGitObjectNested {
    TreeNested(TreeNested),
    Unknown,
}

/// What kind of node a remote tree entry is.
#[derive(PartialEq, Eq, Structural, Clone, Copy, Debug)]
pub enum NodeKind {
    File,
    Tree,
    Other,
}

/// The kind that a remote node type name stands for.
pub open spec fn kind_of_type(t: Seq<char>) -> NodeKind {
    if t == "tree"@ {
        NodeKind::Tree
    } else if t == "blob"@ {
        NodeKind::File
    } else {
        NodeKind::Other
    }
}

impl DeepGitObject {
    /// The entries of the object if it is a directory.
    pub open spec fn spec_entries(self) -> Option<Vec<TreeEntry>> {
        match self {
            DeepGitObject::Tree(tree) => Some(tree.entries),
            DeepGitObject::Unknown => None,
        }
    }

    /// The entries of the object if it is a directory, `None` otherwise.
    pub fn into_entries(self) -> (r: Option<Vec<TreeEntry>>)
        ensures
            r == self.spec_entries(),
    {
        match self {
            DeepGitObject::Tree(tree) => Some(tree.entries),
            DeepGitObject::Unknown => None,
        }
    }
}

impl DeepGitObjectNested {
    /// The nested entries of the object if it is a directory.
    pub open spec fn spec_entries(self) -> Option<Vec<TreeEntryNested>> {
        match self {
            DeepGitObjectNested::TreeNested(tree) => Some(tree.entries),
            DeepGitObjectNested::Unknown => None,
        }
    }

    /// The nested entries of the object if it is a directory, `None` otherwise.
    pub fn into_entries(self) -> (r: Option<Vec<TreeEntryNested>>)
        ensures
            r == self.spec_entries(),
    {
        match self {
            DeepGitObjectNested::TreeNested(tree) => Some(tree.entries),
            DeepGitObjectNested::Unknown => None,
        }
    }
}

impl TreeEntryNested {
    /// The kind of node this nested entry is.
    pub fn kind(&self) -> (r: NodeKind)
        ensures
            r == kind_of_type(self.type_@),
    {
        let tree = String::from_str("tree");
        let blob = String::from_str("blob");
        proof {
            reveal_strlit("tree");
            reveal_strlit("blob");
        }
        if self.type_ == tree {
            NodeKind::Tree
        } else if self.type_ == blob {
            NodeKind::File
        } else {
            NodeKind::Other
        }
    }
}

impl GetDeepDirectoryContent {
    /// The object found at the queried path, if the repository and the path exist.
    pub open spec fn found(self) -> Option<DeepGitObject> {
        match self.repository {
            Some(repo) => repo.object,
            None => None,
        }
    }

    /// The deep listing of the queried path: `None` when the path does not
    /// exist or is not a directory, the directory's entries (possibly none)
    /// otherwise.
    pub fn resolve_deep(self) -> (r: Option<Vec<TreeEntry>>)
        ensures
            self.found() is None ==> r is None,
            self.found() == Some(DeepGitObject::Unknown) ==> r is None,
            forall|t: Tree| self.found() == Some(DeepGitObject::Tree(t)) ==> r == Some(t.entries),
    {
        match self.repository {
            Some(repo) => match repo.object {
                Some(object) => object.into_entries(),
                None => None,
            },
            None => None,
        }
    }
}

impl TreeEntry {
    /// Whether the entry is a directory.
    pub fn is_tree(&self) -> (r: bool)
        ensures
            r == (self.object matches Some(DeepGitObjectNested::TreeNested(_))),
    {
        match &self.object {
            Some(DeepGitObjectNested::TreeNested(_)) => true,
            _ => false,
        }
    }

    /// The kinds of the entry's children, in order, if the entry is a directory.
    pub fn child_kinds(&self) -> (r: Option<Vec<NodeKind>>)
        ensures
            !(self.object matches Some(DeepGitObjectNested::TreeNested(_))) ==> r is None,
            forall|t: TreeNested|
                self.object == Some(DeepGitObjectNested::TreeNested(t)) ==> {
                    &&& r is Some
                    &&& r->0@.len() == t.entries@.len()
                    &&& forall|i: int|
                        0 <= i < t.entries@.len() ==> r->0@[i] == kind_of_type(
                            #[trigger] t.entries@[i].type_@,
                        )
                },
    {
        match &self.object {
            Some(DeepGitObjectNested::TreeNested(tree)) => {
                let mut kinds: Vec<NodeKind> = Vec::new();
                let mut i: usize = 0;
                while i < tree.entries.len()
                    invariant
                        i <= tree.entries@.len(),
                        kinds@.len() == i,
                        forall|j: int|
                            0 <= j < i ==> kinds@[j] == kind_of_type(
                                #[trigger] tree.entries@[j].type_@,
                            ),
                    decreases tree.entries@.len() - i,
                {
                    kinds.push(tree.entries[i].kind());
                    i = i + 1;
                }
                Some(kinds)
            },
            _ => None,
        }
    }

    /// Whether the entry is a directory that holds further directories.
    pub fn has_subtrees(&self) -> (r: bool)
        ensures
            r == exists|t: TreeNested, i: int|
                self.object == Some(DeepGitObjectNested::TreeNested(t)) && 0 <= i
                    < t.entries@.len() && kind_of_type(#[trigger] t.entries@[i].type_@)
                    == NodeKind::Tree,
    {
        match &self.object {
            Some(DeepGitObjectNested::TreeNested(tree)) => {
                let mut i: usize = 0;
                while i < tree.entries.len()
                    invariant
                        i <= tree.entries@.len(),
                        self.object == Some(DeepGitObjectNested::TreeNested(*tree)),
                        forall|j: int|
                            0 <= j < i ==> kind_of_type(#[trigger] tree.entries@[j].type_@)
                                != NodeKind::Tree,
                    decreases tree.entries@.len() - i,
                {
                    if tree.entries[i].kind() == NodeKind::Tree {
                        assert(kind_of_type(tree.entries@[i as int].type_@) == NodeKind::Tree);
                        return true;
                    }
                    i = i + 1;
                }
                false
            },
            _ => false,
        }
    }
}

} // verus!
