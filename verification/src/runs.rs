//! What a whole reconciliation does to the repository, whatever the service
//! answers and in whatever order the answers arrive.

use vstd::prelude::*;
use vstd::utf8::encode_utf8;
use crate::bytes::{trimmed, without_line_feeds};
use crate::codec::base64_decoding;
use crate::diff::spurious_diff;
use crate::gateway::{ActionView, DirectoryItemView, EventView, ReadFailureView, is_write};
use crate::messages::{create_message, update_message};
use crate::paths::without_leading_slash;
use crate::reconcile::{
    PhaseView, ReconcilerView, PAUSE_MARGIN_SECS, says_too_large, sha_of_first_named, started,
    transition,
};

verus! {

/// The writes asked for, in order, as `events` arrive one after another
/// starting in `state`.
pub open spec fn writes_asked(state: ReconcilerView, events: Seq<EventView>) -> Seq<ActionView>
    decreases events.len(),
{
    if events.len() == 0 {
        Seq::empty()
    } else {
        let step = transition(state, events.first());
        let later = writes_asked(step.state, events.drop_first());
        if is_write(step.action) {
            seq![step.action] + later
        } else {
            later
        }
    }
}

/// No write has been asked for yet, and one may still be.
pub open spec fn undecided(phase: PhaseView) -> bool {
    phase is Reading || phase is Listing || phase is Decoding
}

/// The writes of a run are those of its first event, then those of the rest.
pub proof fn lemma_writes_asked_unfolds(
    state: ReconcilerView,
    first: EventView,
    later: Seq<EventView>,
)
    ensures
        writes_asked(state, seq![first] + later) == if is_write(transition(state, first).action) {
            seq![transition(state, first).action] + writes_asked(
                transition(state, first).state,
                later,
            )
        } else {
            writes_asked(transition(state, first).state, later)
        },
{
    let events = seq![first] + later;
    assert(events.first() == first);
    assert(events.drop_first() =~= later);
}

/// Once a write or a pause has been asked for, or the end is reached, no
/// write is asked for any more.
pub proof fn lemma_decided_asks_no_write(state: ReconcilerView, events: Seq<EventView>)
    requires
        !undecided(state.phase),
    ensures
        writes_asked(state, events) == Seq::<ActionView>::empty(),
    decreases events.len(),
{
    if events.len() > 0 {
        lemma_decided_asks_no_write(transition(state, events.first()).state, events.drop_first());
    }
}

/// A step that asks for a write leaves the reconciliation decided.
pub proof fn lemma_write_decides(state: ReconcilerView, event: EventView)
    ensures
        is_write(transition(state, event).action) ==> !undecided(
            transition(state, event).state.phase,
        ),
{
}

/// No reconciliation asks for more than one write, in any state and for any
/// sequence of events.
pub proof fn law_at_most_one_write(state: ReconcilerView, events: Seq<EventView>)
    ensures
        writes_asked(state, events).len() <= 1,
    decreases events.len(),
{
    if events.len() > 0 {
        let step = transition(state, events.first());
        if is_write(step.action) {
            lemma_write_decides(state, events.first());
            lemma_decided_asks_no_write(step.state, events.drop_first());
        } else {
            law_at_most_one_write(step.state, events.drop_first());
        }
    }
}

/// Idempotence: where the remote file, trimmed, holds the wanted bytes, no
/// write is asked for, now or later.
pub proof fn law_matching_file_is_left_alone(
    branch: Seq<char>,
    path: Seq<char>,
    desired: Seq<u8>,
    content: Seq<u8>,
    sha: Seq<char>,
    later: Seq<EventView>,
)
    requires
        trimmed(content) == trimmed(desired),
    ensures
        writes_asked(
            started(branch, path, desired),
            seq![EventView::FileRead { content, sha }] + later,
        ) == Seq::<ActionView>::empty(),
{
    let state = started(branch, path, desired);
    let first = EventView::FileRead { content, sha };
    lemma_writes_asked_unfolds(state, first, later);
    lemma_decided_asks_no_write(transition(state, first).state, later);
}

/// Churn tolerance: where the remote file differs from the wanted bytes by
/// timestamp churn only, no write is asked for, now or later.
pub proof fn law_churned_file_is_left_alone(
    branch: Seq<char>,
    path: Seq<char>,
    desired: Seq<u8>,
    content: Seq<u8>,
    sha: Seq<char>,
    later: Seq<EventView>,
)
    ensures
        spurious_diff(trimmed(content), trimmed(desired)) ==> writes_asked(
            started(branch, path, desired),
            seq![EventView::FileRead { content, sha }] + later,
        ) == Seq::<ActionView>::empty(),
{
    let state = started(branch, path, desired);
    let first = EventView::FileRead { content, sha };
    lemma_writes_asked_unfolds(state, first, later);
    lemma_decided_asks_no_write(transition(state, first).state, later);
}

/// Convergence: where the remote file differs from the wanted bytes by more
/// than timestamp churn, exactly one write is asked for: an update to the
/// wanted bytes, trimmed, against the content hash that was read.
pub proof fn law_differing_file_is_updated_once(
    branch: Seq<char>,
    path: Seq<char>,
    desired: Seq<u8>,
    content: Seq<u8>,
    sha: Seq<char>,
    later: Seq<EventView>,
)
    requires
        trimmed(content) != trimmed(desired),
    ensures
        !spurious_diff(trimmed(content), trimmed(desired)) ==> writes_asked(
            started(branch, path, desired),
            seq![EventView::FileRead { content, sha }] + later,
        ) == seq![
            ActionView::Update {
                path,
                content: trimmed(desired),
                message: update_message(path),
                sha,
                branch,
            },
        ],
{
    let state = started(branch, path, desired);
    let first = EventView::FileRead { content, sha };
    lemma_writes_asked_unfolds(state, first, later);
    lemma_decided_asks_no_write(transition(state, first).state, later);
    if !spurious_diff(trimmed(content), trimmed(desired)) {
        let update = transition(state, first).action;
        assert(seq![update] + Seq::<ActionView>::empty() =~= seq![update]);
    }
}

/// A read failure that is neither a rate limit nor a refusal for size.
pub open spec fn reads_as_missing(failure: ReadFailureView) -> bool {
    match failure {
        ReadFailureView::RateLimit { .. } => false,
        ReadFailureView::Fault { message, .. } => !says_too_large(message),
        ReadFailureView::Other { .. } => true,
    }
}

/// Creation on miss: where the read fails for any reason but a rate limit or
/// the file's size, exactly one write is asked for: the creation of the
/// file with the wanted bytes, trimmed.
pub proof fn law_unreadable_file_is_created_once(
    branch: Seq<char>,
    path: Seq<char>,
    desired: Seq<u8>,
    failure: ReadFailureView,
    later: Seq<EventView>,
)
    requires
        reads_as_missing(failure),
    ensures
        writes_asked(
            started(branch, path, desired),
            seq![EventView::ReadFailed { failure }] + later,
        ) == seq![
            ActionView::Create {
                path,
                content: trimmed(desired),
                message: create_message(path),
                branch,
            },
        ],
{
    let state = started(branch, path, desired);
    let first = EventView::ReadFailed { failure };
    lemma_writes_asked_unfolds(state, first, later);
    lemma_decided_asks_no_write(transition(state, first).state, later);
    let create = transition(state, first).action;
    assert(seq![create] + Seq::<ActionView>::empty() =~= seq![create]);
}

/// Rate-limit pause: where the read is rate limited, the pause asked for is
/// the reset time and five seconds more, and no write is asked for, now or
/// later.
pub proof fn law_rate_limit_pauses_without_writing(
    branch: Seq<char>,
    path: Seq<char>,
    desired: Seq<u8>,
    reset_secs: u64,
    reset_nanos: u32,
    later: Seq<EventView>,
)
    requires
        reset_secs + 5 <= u64::MAX,
    ensures
        transition(
            started(branch, path, desired),
            EventView::ReadFailed {
                failure: ReadFailureView::RateLimit { reset_secs, reset_nanos },
            },
        ).action == (ActionView::Pause { secs: (reset_secs + 5) as u64, nanos: reset_nanos }),
        writes_asked(
            started(branch, path, desired),
            seq![
                EventView::ReadFailed {
                    failure: ReadFailureView::RateLimit { reset_secs, reset_nanos },
                },
            ] + later,
        ) == Seq::<ActionView>::empty(),
{
    let state = started(branch, path, desired);
    let first = EventView::ReadFailed {
        failure: ReadFailureView::RateLimit { reset_secs, reset_nanos },
    };
    lemma_writes_asked_unfolds(state, first, later);
    lemma_decided_asks_no_write(transition(state, first).state, later);
}

/// The first entry named `name` exists exactly where some entry is named
/// so, and it is the earliest such entry.
pub proof fn lemma_first_named(items: Seq<DirectoryItemView>, name: Seq<char>)
    ensures
        sha_of_first_named(items, name) is Some <==> exists|i: int|
            0 <= i < items.len() && (#[trigger] items[i]).path == name,
        sha_of_first_named(items, name) matches Some(sha) ==> exists|i: int|
            {
                &&& 0 <= i < items.len()
                &&& (#[trigger] items[i]).path == name
                &&& items[i].sha == sha
                &&& forall|j: int| 0 <= j < i ==> (#[trigger] items[j]).path != name
            },
    decreases items.len(),
{
    if items.len() > 0 {
        let rest = items.drop_first();
        if items.first().path == name {
            assert(items[0].path == name);
        } else {
            lemma_first_named(rest, name);
            if exists|i: int| 0 <= i < items.len() && (#[trigger] items[i]).path == name {
                let i = choose|i: int| 0 <= i < items.len() && (#[trigger] items[i]).path == name;
                assert(rest[i - 1].path == name);
            }
            if let Some(sha) = sha_of_first_named(rest, name) {
                let i = choose|i: int|
                    {
                        &&& 0 <= i < rest.len()
                        &&& (#[trigger] rest[i]).path == name
                        &&& rest[i].sha == sha
                        &&& forall|j: int| 0 <= j < i ==> (#[trigger] rest[j]).path != name
                    };
                assert(items[i + 1] == rest[i]);
                assert forall|j: int| 0 <= j < i + 1 implies (#[trigger] items[j]).path
                    != name by {
                    if j > 0 {
                        assert(items[j] == rest[j - 1]);
                    }
                }
            }
        }
    }
}

/// The events of a size fallback: the read is refused for size, the parent
/// directory is listed, the blob is fetched.
pub open spec fn fallback_events(
    code: u16,
    message: Seq<char>,
    detail: Seq<char>,
    items: Seq<DirectoryItemView>,
    blob: Seq<char>,
) -> Seq<EventView> {
    seq![
        EventView::ReadFailed { failure: ReadFailureView::Fault { code, message, detail } },
        EventView::Listed { items },
        EventView::BlobRead { text: blob },
    ]
}

/// What the text of a fetched blob decodes to once its line feeds are out.
pub open spec fn blob_bytes(blob: Seq<char>) -> Option<Seq<u8>> {
    base64_decoding(without_line_feeds(encode_utf8(blob)))
}

/// Size fallback: where the read is refused for size and the listing of the
/// parent directory holds an entry for the file, the blob fetched under that
/// entry's content hash decides.  Where it decodes to the wanted bytes, up
/// to trimming, no write is asked for; where it decodes to other bytes,
/// exactly one write is asked for: an update against the content hash of
/// the first such entry.
pub proof fn law_size_fallback(
    branch: Seq<char>,
    path: Seq<char>,
    desired: Seq<u8>,
    code: u16,
    message: Seq<char>,
    detail: Seq<char>,
    items: Seq<DirectoryItemView>,
    blob: Seq<char>,
    later: Seq<EventView>,
)
    requires
        says_too_large(message),
        exists|i: int|
            0 <= i < items.len() && (#[trigger] items[i]).path == without_leading_slash(path),
    ensures
        sha_of_first_named(items, without_leading_slash(path)) is Some,
        blob_bytes(blob) matches Some(decoded) ==> writes_asked(
            started(branch, path, desired),
            fallback_events(code, message, detail, items, blob) + later,
        ) == if trimmed(decoded) == trimmed(desired) {
            Seq::<ActionView>::empty()
        } else {
            seq![
                ActionView::Update {
                    path,
                    content: trimmed(desired),
                    message: update_message(path),
                    sha: sha_of_first_named(items, without_leading_slash(path))->0,
                    branch,
                },
            ]
        },
{
    lemma_first_named(items, without_leading_slash(path));
    let refused = EventView::ReadFailed {
        failure: ReadFailureView::Fault { code, message, detail },
    };
    let listed = EventView::Listed { items };
    let fetched = EventView::BlobRead { text: blob };
    let events = fallback_events(code, message, detail, items, blob) + later;
    assert(events =~= seq![refused] + (seq![listed] + (seq![fetched] + later)));
    let s0 = started(branch, path, desired);
    let s1 = transition(s0, refused).state;
    let s2 = transition(s1, listed).state;
    let s3 = transition(s2, fetched).state;
    lemma_writes_asked_unfolds(s0, refused, seq![listed] + (seq![fetched] + later));
    lemma_writes_asked_unfolds(s1, listed, seq![fetched] + later);
    lemma_writes_asked_unfolds(s2, fetched, later);
    lemma_decided_asks_no_write(s3, later);
    let last = transition(s2, fetched).action;
    assert(seq![last] + Seq::<ActionView>::empty() =~= seq![last]);
}

/// Size fallback without an entry: where the read is refused for size and
/// the listing holds no entry for the file, no write is asked for.
pub proof fn law_size_fallback_without_entry(
    branch: Seq<char>,
    path: Seq<char>,
    desired: Seq<u8>,
    code: u16,
    message: Seq<char>,
    detail: Seq<char>,
    items: Seq<DirectoryItemView>,
    later: Seq<EventView>,
)
    requires
        says_too_large(message),
        forall|i: int|
            0 <= i < items.len() ==> (#[trigger] items[i]).path != without_leading_slash(path),
    ensures
        writes_asked(
            started(branch, path, desired),
            seq![
                EventView::ReadFailed { failure: ReadFailureView::Fault { code, message, detail } },
                EventView::Listed { items },
            ] + later,
        ) == Seq::<ActionView>::empty(),
{
    lemma_first_named(items, without_leading_slash(path));
    let refused = EventView::ReadFailed {
        failure: ReadFailureView::Fault { code, message, detail },
    };
    let listed = EventView::Listed { items };
    let events = seq![refused, listed] + later;
    assert(events =~= seq![refused] + (seq![listed] + later));
    let s0 = started(branch, path, desired);
    let s1 = transition(s0, refused).state;
    let s2 = transition(s1, listed).state;
    lemma_writes_asked_unfolds(s0, refused, seq![listed] + later);
    lemma_writes_asked_unfolds(s1, listed, later);
    lemma_decided_asks_no_write(s2, later);
}

} // verus!
