use komac_core::workflow::Artifact;
use komac_core::writer::{manifest_path, plan_writes, plan_writes_with_names};

fn artifact(path: &str, content: &str) -> Artifact {
    Artifact { path: path.to_string(), content: content.to_string() }
}

#[test]
fn same_file_name_collides_under_output() {
    let plan = plan_writes(&vec![artifact("a/x.yaml", "C1"), artifact("b/x.yaml", "C2")]);
    assert_eq!(plan.len(), 2);
    assert_eq!(plan[0].file_name, "x.yaml");
    assert_eq!(plan[1].file_name, "x.yaml");
    assert!(plan.iter().all(|w| w.content == "C1" || w.content == "C2"));
}

#[test]
fn only_the_last_segment_is_kept() {
    let plan = plan_writes(&vec![
        artifact("manifests/f/Foo/Bar/1.0.0/Foo.Bar.installer.yaml", "I"),
        artifact("Foo.Bar.yaml", "V"),
        artifact("dir/sub/", "D"),
    ]);
    assert_eq!(plan.len(), 3);
    assert_eq!(plan[0].file_name, "Foo.Bar.installer.yaml");
    assert_eq!(plan[0].content, "I");
    assert_eq!(plan[1].file_name, "Foo.Bar.yaml");
    assert_eq!(plan[1].content, "V");
    assert_eq!(plan[2].file_name, "sub");
}

#[test]
fn paths_without_file_name_are_skipped() {
    let plan = plan_writes(&vec![artifact("foo/..", "A"), artifact("/", "B"), artifact("c.yaml", "C")]);
    assert_eq!(plan.len(), 1);
    assert_eq!(plan[0].file_name, "c.yaml");
    assert_eq!(plan[0].content, "C");
}

#[test]
fn empty_artifact_list_plans_nothing() {
    assert!(plan_writes(&vec![]).is_empty());
}

#[test]
fn plan_with_given_names() {
    let arts = vec![artifact("a/x.yaml", "C1"), artifact("b/..", "C2"), artifact("c/z.yaml", "C3")];
    let names = vec![Some("x.yaml".to_string()), None, Some("z.yaml".to_string())];
    let plan = plan_writes_with_names(&arts, &names);
    assert_eq!(plan.len(), 2);
    assert_eq!(plan[0].file_name, "x.yaml");
    assert_eq!(plan[0].content, "C1");
    assert_eq!(plan[1].file_name, "z.yaml");
    assert_eq!(plan[1].content, "C3");
}

#[test]
fn manifest_path_layout() {
    assert_eq!(
        manifest_path("out", "f", "Foo", "Bar", "1.0.0"),
        "out/manifests/f/Foo/Bar/1.0.0.yaml"
    );
}
