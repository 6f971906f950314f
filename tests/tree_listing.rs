use komac_core::tree::{
    DeepGitObject, DeepGitObjectNested, GetDeepDirectoryContent, NodeKind, Repository, Tree,
    TreeEntry, TreeEntryNested, TreeNested,
};

fn nested(types: &[&str]) -> Option<DeepGitObjectNested> {
    Some(DeepGitObjectNested::TreeNested(TreeNested {
        entries: types.iter().map(|t| TreeEntryNested { type_: t.to_string() }).collect(),
    }))
}

fn response(object: Option<DeepGitObject>) -> GetDeepDirectoryContent {
    GetDeepDirectoryContent { repository: Some(Repository { object }) }
}

#[test]
fn missing_repository_resolves_to_none() {
    let r = GetDeepDirectoryContent { repository: None };
    assert!(r.resolve_deep().is_none());
}

#[test]
fn missing_path_resolves_to_none() {
    assert!(response(None).resolve_deep().is_none());
}

#[test]
fn non_directory_resolves_to_none() {
    assert!(response(Some(DeepGitObject::Unknown)).resolve_deep().is_none());
}

#[test]
fn empty_directory_resolves_to_empty_listing() {
    let r = response(Some(DeepGitObject::Tree(Tree { entries: vec![] }))).resolve_deep();
    assert!(matches!(r, Some(ref v) if v.is_empty()));
}

#[test]
fn directory_resolves_to_its_entries_in_order() {
    let entries = vec![
        TreeEntry { name: "1.0.0".to_string(), object: nested(&["blob", "blob"]) },
        TreeEntry { name: "README.md".to_string(), object: Some(DeepGitObjectNested::Unknown) },
    ];
    let r = response(Some(DeepGitObject::Tree(Tree { entries }))).resolve_deep().unwrap();
    assert_eq!(r.len(), 2);
    assert_eq!(r[0].name, "1.0.0");
    assert_eq!(r[1].name, "README.md");
}

#[test]
fn into_entries_of_unknown_is_none() {
    assert!(DeepGitObject::Unknown.into_entries().is_none());
    assert!(DeepGitObjectNested::Unknown.into_entries().is_none());
}

#[test]
fn into_entries_of_tree_keeps_entries() {
    let t = DeepGitObjectNested::TreeNested(TreeNested {
        entries: vec![TreeEntryNested { type_: "tree".to_string() }],
    });
    let e = t.into_entries().unwrap();
    assert_eq!(e.len(), 1);
    assert_eq!(e[0].type_, "tree");
}

#[test]
fn nested_entry_kinds() {
    assert_eq!(TreeEntryNested { type_: "tree".to_string() }.kind(), NodeKind::Tree);
    assert_eq!(TreeEntryNested { type_: "blob".to_string() }.kind(), NodeKind::File);
    assert_eq!(TreeEntryNested { type_: "commit".to_string() }.kind(), NodeKind::Other);
    assert_eq!(TreeEntryNested { type_: "Tree".to_string() }.kind(), NodeKind::Other);
}

#[test]
fn child_kinds_of_directory_entry() {
    let e = TreeEntry { name: "Foo".to_string(), object: nested(&["blob", "tree", "commit"]) };
    assert!(e.is_tree());
    assert_eq!(e.child_kinds(), Some(vec![NodeKind::File, NodeKind::Tree, NodeKind::Other]));
    assert!(e.has_subtrees());
}

#[test]
fn directory_of_files_has_no_subtrees() {
    let e = TreeEntry { name: "1.0.0".to_string(), object: nested(&["blob", "blob"]) };
    assert!(!e.has_subtrees());
    let empty = TreeEntry { name: "x".to_string(), object: nested(&[]) };
    assert_eq!(empty.child_kinds(), Some(vec![]));
    assert!(!empty.has_subtrees());
}

#[test]
fn file_entry_has_no_child_kinds() {
    let e = TreeEntry { name: "a.yaml".to_string(), object: Some(DeepGitObjectNested::Unknown) };
    assert!(!e.is_tree());
    assert_eq!(e.child_kinds(), None);
    assert!(!e.has_subtrees());
    let none = TreeEntry { name: "sub".to_string(), object: None };
    assert!(!none.is_tree());
    assert_eq!(none.child_kinds(), None);
}
