use cio::gateway::{Action, DirectoryItem, Event, Failure, ReadFailure};
use cio::reconcile::{
    compare_blob, create_or_update_file_in_github_repo, find_sha, Comparison, Phase, Reconciler,
    Step,
};

const UPDATE_MESSAGE: &str = "Updating file content /README.md programatically\n\nThis is done from the cio repo utils::create_or_update_file function.";
const CREATE_MESSAGE: &str = "Creating file content /README.md programatically\n\nThis is done from the cio repo utils::create_or_update_file function.";
const UNCHANGED: &str =
    "[github content] File contents at /README.md are the same, no update needed";

fn readme() -> Reconciler {
    let (reconciler, first) =
        create_or_update_file_in_github_repo("main", "/README.md", b"hello\n".to_vec());
    assert_eq!(
        first,
        Action::ReadFile { path: "/README.md".to_string(), branch: "main".to_string() }
    );
    reconciler
}

fn run(reconciler: &mut Reconciler, events: Vec<Event>) -> Vec<Step> {
    events.iter().map(|event| reconciler.step(event)).collect()
}

fn writes(steps: &[Step]) -> Vec<Action> {
    steps.iter().filter(|s| s.action.is_write()).map(|s| s.action.clone()).collect()
}

fn too_large() -> Event {
    Event::ReadFailed {
        failure: ReadFailure::Fault {
            code: 403,
            message: "blob is too_large for this API".to_string(),
            detail: "403 Forbidden: blob is too_large for this API".to_string(),
        },
    }
}

fn root_listing() -> Event {
    Event::Listed {
        items: vec![
            DirectoryItem { path: "LICENSE".to_string(), sha: "h0".to_string() },
            DirectoryItem { path: "README.md".to_string(), sha: "h3".to_string() },
            DirectoryItem { path: "README.md".to_string(), sha: "h9".to_string() },
        ],
    }
}

#[test]
fn start_trims_the_wanted_content() {
    let (reconciler, first) = Reconciler::start("dev", "docs/a.txt", b" \thello \n\t ");
    assert_eq!(reconciler.target(), &b"hello \n".to_vec());
    assert_eq!(reconciler.branch(), "dev");
    assert_eq!(reconciler.path(), "docs/a.txt");
    assert_eq!(reconciler.phase(), &Phase::Reading);
    assert!(!reconciler.is_done());
    assert_eq!(
        first,
        Action::ReadFile { path: "docs/a.txt".to_string(), branch: "dev".to_string() }
    );
}

#[test]
fn matching_file_is_left_alone() {
    let mut r = readme();
    let steps = run(
        &mut r,
        vec![Event::FileRead { content: b"  hello\n  ".to_vec(), sha: "h1".to_string() }],
    );
    assert_eq!(steps, vec![Step { notice: Some(UNCHANGED.to_string()), action: Action::Stop }]);
    assert!(r.is_done());
    assert!(writes(&steps).is_empty());
}

#[test]
fn identical_file_is_left_alone() {
    let mut r = readme();
    let steps =
        run(&mut r, vec![Event::FileRead { content: b"hello\n".to_vec(), sha: "h1".to_string() }]);
    assert_eq!(steps, vec![Step { notice: Some(UNCHANGED.to_string()), action: Action::Stop }]);
}

#[test]
fn blanks_before_a_final_line_feed_are_content() {
    let mut r = readme();
    let step = r.step(&Event::FileRead { content: b"  hello  \n".to_vec(), sha: "h1".to_string() });
    assert_eq!(
        step.action,
        Action::Update {
            path: "/README.md".to_string(),
            content: b"hello\n".to_vec(),
            message: UPDATE_MESSAGE.to_string(),
            sha: "h1".to_string(),
            branch: "main".to_string(),
        }
    );
}

#[test]
fn differing_file_is_updated_once() {
    let mut r = readme();
    let steps = run(
        &mut r,
        vec![
            Event::FileRead { content: b"goodbye".to_vec(), sha: "h2".to_string() },
            Event::Settled,
            Event::Settled,
            Event::FileRead { content: b"goodbye".to_vec(), sha: "h2".to_string() },
        ],
    );
    let update = Action::Update {
        path: "/README.md".to_string(),
        content: b"hello\n".to_vec(),
        message: UPDATE_MESSAGE.to_string(),
        sha: "h2".to_string(),
        branch: "main".to_string(),
    };
    assert_eq!(
        steps,
        vec![
            Step { notice: None, action: update.clone() },
            Step {
                notice: Some("[github content] Updated file at /README.md".to_string()),
                action: Action::Stop
            },
            Step { notice: None, action: Action::Wait },
            Step { notice: None, action: Action::Wait },
        ]
    );
    assert_eq!(writes(&steps), vec![update]);
    assert!(r.is_done());
}

#[test]
fn regenerated_document_is_left_alone() {
    let lines = |stamp: &str| -> Vec<u8> {
        format!(
            "%PDF-1.4\n1 0 obj\n<<\n/Title (T)\n/Author (A)\n/Producer (P)\n/Creator (C)\n/CreationDate ({})\n/ModDate ({})\n>>\nendobj\n2 0 obj\n<< >>\nendobj\nxref\n%%EOF\n",
            stamp, stamp
        )
        .into_bytes()
    };
    let (mut r, _) = Reconciler::start("main", "/doc.pdf", &lines("D:2"));
    let step = r.step(&Event::FileRead { content: lines("D:1"), sha: "p1".to_string() });
    assert_eq!(
        step,
        Step {
            notice: Some(
                "[github content] File contents at /doc.pdf are the same, no update needed"
                    .to_string()
            ),
            action: Action::Stop
        }
    );
}

#[test]
fn unreadable_file_is_created_once() {
    let mut r = readme();
    let steps = run(
        &mut r,
        vec![
            Event::ReadFailed { failure: ReadFailure::Other { detail: "NotFound".to_string() } },
            Event::Settled,
            Event::Settled,
        ],
    );
    let create = Action::Create {
        path: "/README.md".to_string(),
        content: b"hello\n".to_vec(),
        message: CREATE_MESSAGE.to_string(),
        branch: "main".to_string(),
    };
    assert_eq!(
        steps,
        vec![
            Step {
                notice: Some(
                    "[github content] Getting the file at /README.md failed: NotFound".to_string()
                ),
                action: create.clone()
            },
            Step {
                notice: Some("[github content] Created file at /README.md".to_string()),
                action: Action::Stop
            },
            Step { notice: None, action: Action::Wait },
        ]
    );
    assert_eq!(writes(&steps), vec![create]);
}

#[test]
fn fault_for_another_reason_is_created() {
    let mut r = readme();
    let step = r.step(&Event::ReadFailed {
        failure: ReadFailure::Fault {
            code: 404,
            message: "Not Found".to_string(),
            detail: "404 Not Found: Not Found".to_string(),
        },
    });
    assert_eq!(
        step,
        Step {
            notice: Some(
                "[github content] Getting the file at /README.md failed: 404 Not Found: Not Found"
                    .to_string()
            ),
            action: Action::Create {
                path: "/README.md".to_string(),
                content: b"hello\n".to_vec(),
                message: CREATE_MESSAGE.to_string(),
                branch: "main".to_string(),
            }
        }
    );
}

#[test]
fn rate_limit_pauses_for_reset_and_margin() {
    let mut r = readme();
    let steps = run(
        &mut r,
        vec![
            Event::ReadFailed { failure: ReadFailure::RateLimit { reset_secs: 7, reset_nanos: 0 } },
            Event::Settled,
            Event::Settled,
        ],
    );
    assert_eq!(
        steps,
        vec![
            Step {
                notice: Some("got rate limited, sleeping for 7s".to_string()),
                action: Action::Pause { secs: 12, nanos: 0 }
            },
            Step { notice: None, action: Action::Stop },
            Step { notice: None, action: Action::Wait },
        ]
    );
    assert!(writes(&steps).is_empty());
}

#[test]
fn rate_limit_of_three_seconds_pauses_eight() {
    let mut r = readme();
    let step = r.step(&Event::ReadFailed {
        failure: ReadFailure::RateLimit { reset_secs: 3, reset_nanos: 250 },
    });
    assert_eq!(
        step,
        Step {
            notice: Some("got rate limited, sleeping for 3s".to_string()),
            action: Action::Pause { secs: 8, nanos: 250 }
        }
    );
    assert_eq!(r.phase(), &Phase::Pausing);
}

#[test]
fn rate_limit_beyond_reach_fails() {
    let mut r = readme();
    let step = r.step(&Event::ReadFailed {
        failure: ReadFailure::RateLimit { reset_secs: u64::MAX - 4, reset_nanos: 0 },
    });
    assert_eq!(
        step,
        Step {
            notice: Some("got rate limited, sleeping for 18446744073709551611s".to_string()),
            action: Action::Fail { failure: Failure::PauseTooLong }
        }
    );
    assert!(r.is_done());
    let mut r = readme();
    let step = r.step(&Event::ReadFailed {
        failure: ReadFailure::RateLimit { reset_secs: u64::MAX - 5, reset_nanos: 0 },
    });
    assert_eq!(step.action, Action::Pause { secs: u64::MAX, nanos: 0 });
}

#[test]
fn size_fallback_with_matching_blob_writes_nothing() {
    let mut r = readme();
    let steps = run(
        &mut r,
        vec![too_large(), root_listing(), Event::BlobRead { text: "aGVs\nbG8K\n".to_string() }],
    );
    assert_eq!(
        steps,
        vec![
            Step {
                notice: None,
                action: Action::List { path: "/".to_string(), branch: "main".to_string() }
            },
            Step { notice: None, action: Action::ReadBlob { sha: "h3".to_string() } },
            Step { notice: Some(UNCHANGED.to_string()), action: Action::Stop },
        ]
    );
    assert!(writes(&steps).is_empty());
}

#[test]
fn size_fallback_with_stale_blob_updates_once() {
    let mut r = readme();
    let steps = run(
        &mut r,
        vec![
            too_large(),
            root_listing(),
            Event::BlobRead { text: "c3RhbGUK".to_string() },
            Event::Settled,
        ],
    );
    let update = Action::Update {
        path: "/README.md".to_string(),
        content: b"hello\n".to_vec(),
        message: UPDATE_MESSAGE.to_string(),
        sha: "h3".to_string(),
        branch: "main".to_string(),
    };
    assert_eq!(writes(&steps), vec![update]);
    assert_eq!(
        steps[3],
        Step {
            notice: Some("[github content] Updated file at /README.md".to_string()),
            action: Action::Stop
        }
    );
}

#[test]
fn size_fallback_without_entry_stops_silently() {
    let mut r = readme();
    let steps = run(
        &mut r,
        vec![
            too_large(),
            Event::Listed {
                items: vec![DirectoryItem { path: "/README.md".to_string(), sha: "h3".to_string() }],
            },
            Event::BlobRead { text: "c3RhbGUK".to_string() },
        ],
    );
    assert_eq!(steps[1], Step { notice: None, action: Action::Stop });
    assert_eq!(steps[2], Step { notice: None, action: Action::Wait });
    assert!(writes(&steps).is_empty());
}

#[test]
fn size_fallback_strips_one_leading_slash_only() {
    let (mut r, _) = Reconciler::start("main", "//README.md", b"hello\n");
    r.step(&too_large());
    let step = r.step(&Event::Listed {
        items: vec![
            DirectoryItem { path: "README.md".to_string(), sha: "a".to_string() },
            DirectoryItem { path: "/README.md".to_string(), sha: "b".to_string() },
        ],
    });
    assert_eq!(step.action, Action::ReadBlob { sha: "b".to_string() });
}

#[test]
fn size_fallback_lists_the_parent_directory() {
    let (mut r, _) = Reconciler::start("main", "/docs/big/report.pdf", b"x");
    let step = r.step(&too_large());
    assert_eq!(
        step.action,
        Action::List { path: "/docs/big".to_string(), branch: "main".to_string() }
    );
    assert_eq!(r.phase(), &Phase::Listing);
}

#[test]
fn blob_that_is_not_base64_fails() {
    let mut r = readme();
    let steps =
        run(&mut r, vec![too_large(), root_listing(), Event::BlobRead { text: "@@".to_string() }]);
    assert_eq!(
        steps[2],
        Step { notice: None, action: Action::Fail { failure: Failure::BlobNotBase64 } }
    );
    assert!(r.is_done());
}

#[test]
fn compare_blob_decides_on_the_bytes() {
    assert_eq!(compare_blob(b"hello\n", &Some(b" hello\n\t".to_vec())), Comparison::Same);
    assert_eq!(compare_blob(b"hello\n", &Some(b"stale\n".to_vec())), Comparison::Different);
    assert_eq!(compare_blob(b"hello\n", &Some(b"hello \n".to_vec())), Comparison::Different);
    assert_eq!(compare_blob(b"", &Some(b" \t".to_vec())), Comparison::Same);
    assert_eq!(compare_blob(b"hello\n", &None), Comparison::Unreadable);
}

#[test]
fn events_out_of_turn_are_ignored() {
    let mut r = readme();
    let steps = run(
        &mut r,
        vec![
            Event::Settled,
            Event::BlobRead { text: "aGVsbG8K".to_string() },
            Event::Listed { items: Vec::new() },
        ],
    );
    for step in &steps {
        assert_eq!(step, &Step { notice: None, action: Action::Wait });
    }
    assert_eq!(r.phase(), &Phase::Reading);
}

#[test]
fn no_run_writes_twice() {
    let events = vec![
        Event::ReadFailed { failure: ReadFailure::Other { detail: "x".to_string() } },
        Event::FileRead { content: b"goodbye".to_vec(), sha: "h2".to_string() },
        too_large(),
        root_listing(),
        Event::BlobRead { text: "c3RhbGUK".to_string() },
        Event::Settled,
        Event::FileRead { content: b"goodbye".to_vec(), sha: "h2".to_string() },
        Event::Settled,
    ];
    for skip in 0..events.len() {
        let mut r = readme();
        let steps = run(&mut r, events[skip..].to_vec());
        assert!(writes(&steps).len() <= 1);
    }
}

#[test]
fn find_sha_takes_the_first_entry_of_that_name() {
    let items = vec![
        DirectoryItem { path: "a".to_string(), sha: "1".to_string() },
        DirectoryItem { path: "b".to_string(), sha: "2".to_string() },
        DirectoryItem { path: "b".to_string(), sha: "3".to_string() },
    ];
    assert_eq!(find_sha(&items, &"b".to_string()), Some("2".to_string()));
    assert_eq!(find_sha(&items, &"c".to_string()), None);
    assert_eq!(find_sha(&Vec::new(), &"a".to_string()), None);
}
