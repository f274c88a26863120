use cio::repos::{holds_name, refresh_db_github_repos, MirrorOp};

fn names(list: &[&str]) -> Vec<String> {
    list.iter().map(|s| s.to_string()).collect()
}

#[test]
fn refresh_upserts_the_report_and_deletes_the_rest() {
    let remote = names(&["b", "c", "d"]);
    let mirrored = names(&["a", "b", "c"]);
    let plan = refresh_db_github_repos(&remote, &mirrored);
    assert_eq!(
        plan,
        vec![
            MirrorOp::Upsert { remote: 0 },
            MirrorOp::Upsert { remote: 1 },
            MirrorOp::Upsert { remote: 2 },
            MirrorOp::Delete { name: "a".to_string() },
        ]
    );
}

#[test]
fn refresh_of_empty_mirror_only_upserts() {
    let plan = refresh_db_github_repos(&names(&["x", "y"]), &names(&[]));
    assert_eq!(plan, vec![MirrorOp::Upsert { remote: 0 }, MirrorOp::Upsert { remote: 1 }]);
}

#[test]
fn refresh_of_empty_report_deletes_everything() {
    let plan = refresh_db_github_repos(&names(&[]), &names(&["x", "y"]));
    assert_eq!(
        plan,
        vec![MirrorOp::Delete { name: "x".to_string() }, MirrorOp::Delete { name: "y".to_string() }]
    );
}

#[test]
fn refresh_deletes_a_repeated_name_once() {
    let plan = refresh_db_github_repos(&names(&["k"]), &names(&["z", "k", "z"]));
    assert_eq!(
        plan,
        vec![MirrorOp::Upsert { remote: 0 }, MirrorOp::Delete { name: "z".to_string() }]
    );
}

#[test]
fn refresh_leaves_the_mirror_with_the_reported_names() {
    let remote = names(&["b", "c", "d", "b"]);
    let mirrored = names(&["a", "b", "c", "e", "a"]);
    let plan = refresh_db_github_repos(&remote, &mirrored);
    let mut mirror: std::collections::BTreeSet<String> = mirrored.iter().cloned().collect();
    for op in plan {
        match op {
            MirrorOp::Upsert { remote: at } => {
                mirror.insert(remote[at].clone());
            }
            MirrorOp::Delete { name } => {
                assert!(mirror.remove(&name));
            }
        }
    }
    let reported: std::collections::BTreeSet<String> = remote.iter().cloned().collect();
    assert_eq!(mirror, reported);
}

#[test]
fn holds_name_looks_a_name_up() {
    let list = names(&["a", "b"]);
    assert!(holds_name(&list, &"b".to_string()));
    assert!(!holds_name(&list, &"c".to_string()));
    assert!(!holds_name(&names(&[]), &"a".to_string()));
}
