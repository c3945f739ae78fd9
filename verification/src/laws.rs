use vstd::prelude::*;

use crate::model::{Task, TaskType};
use crate::state::{
    corr_added, enqueue_effect, has_device, has_user, lemma_resolves_prefix, poll_effect,
    poll_post, poll_rejected, resolves, AppState,
};

verus! {

/// The companion-task law: one enqueue appends the requested task and — for
/// any kind but `CaptureImage` — exactly one `CaptureImage` companion right
/// after it in the same session, and everything appended resolves in the
/// correlation table afterwards; a `CaptureImage` enqueue appends exactly
/// one task.
pub proof fn lemma_companion_task(
    pre: AppState,
    post: AppState,
    di: int,
    ui: int,
    kind: TaskType,
    t: Task,
)
    requires
        enqueue_effect(pre, post, di, ui, kind, t),
    ensures
        ({
            let pre_tasks = pre.devices_seq()[di].users@[ui].tasks@;
            let post_tasks = post.devices_seq()[di].users@[ui].tasks@;
            &&& post_tasks.len() == pre_tasks.len() + (if kind == TaskType::CaptureImage {
                1int
            } else {
                2int
            })
            &&& post_tasks.subrange(0, pre_tasks.len() as int) =~= pre_tasks
            &&& post_tasks[pre_tasks.len() as int] == t
            &&& t.task_type == kind
            &&& resolves(post.corr(), t.id@, kind)
            &&& (kind != TaskType::CaptureImage ==> post_tasks[pre_tasks.len() as int
                + 1].task_type == TaskType::CaptureImage && resolves(
                post.corr(),
                post_tasks[pre_tasks.len() as int + 1].id@,
                TaskType::CaptureImage,
            ))
        }),
{
    let added = corr_added(pre, post);
    let pre_tasks = pre.devices_seq()[di].users@[ui].tasks@;
    let post_tasks = post.devices_seq()[di].users@[ui].tasks@;
    assert(post_tasks == pre_tasks + added);
    assert(post_tasks.subrange(0, pre_tasks.len() as int) =~= pre_tasks);
    assert(post.corr()[pre.corr().len() as int] == added[0]);
    assert(resolves(post.corr(), t.id@, kind));
    if kind != TaskType::CaptureImage {
        assert(post.corr()[pre.corr().len() as int + 1] == added[1]);
        assert(resolves(post.corr(), added[1].id@, TaskType::CaptureImage));
    }
}

/// Correlation completeness across one enqueue: every resolution that held
/// before still holds afterwards, and the new task resolves to its kind.
pub proof fn lemma_enqueue_preserves_resolution(
    pre: AppState,
    post: AppState,
    di: int,
    ui: int,
    kind: TaskType,
    t: Task,
    id: Seq<char>,
    k: TaskType,
)
    requires
        enqueue_effect(pre, post, di, ui, kind, t),
        resolves(pre.corr(), id, k),
    ensures
        resolves(post.corr(), id, k),
        resolves(post.corr(), t.id@, kind),
{
    let added = corr_added(pre, post);
    assert(pre.corr().is_prefix_of(post.corr())) by {
        assert(post.corr().subrange(0, pre.corr().len() as int) =~= pre.corr());
    }
    lemma_resolves_prefix(pre.corr(), post.corr(), id, k);
    assert(post.corr()[pre.corr().len() as int] == added[0]);
}

/// Correlation completeness across one poll: a poll never touches the
/// correlation table, so every resolution survives it — a stale report after
/// arbitrarily many polls still resolves.
pub proof fn lemma_poll_preserves_resolution(
    pre: AppState,
    post: AppState,
    device: Seq<char>,
    user: Seq<char>,
    resp: Seq<Task>,
    id: Seq<char>,
    k: TaskType,
)
    requires
        poll_post(pre, post, device, user, resp),
        resolves(pre.corr(), id, k),
    ensures
        resolves(post.corr(), id, k),
{
    if !poll_rejected(pre, device) {
        let (di, ui) = choose|di: int, ui: int|
            #[trigger] poll_effect(pre, post, device, user, resp, di, ui);
    }
}

/// Drain idempotence: polling the same device and session twice with no
/// intervening enqueue yields the pending tasks once; the second poll is
/// always answered with an empty list.
pub proof fn lemma_drain_idempotent(
    s0: AppState,
    s1: AppState,
    s2: AppState,
    device: Seq<char>,
    user: Seq<char>,
    r1: Seq<Task>,
    r2: Seq<Task>,
)
    requires
        s0.wf(),
        s1.wf(),
        poll_post(s0, s1, device, user, r1),
        poll_post(s1, s2, device, user, r2),
    ensures
        r2 =~= Seq::<Task>::empty(),
{
    if poll_rejected(s0, device) {
        assert(poll_rejected(s1, device));
    } else {
        let (di, ui) = choose|di: int, ui: int|
            #[trigger] poll_effect(s0, s1, device, user, r1, di, ui);
        assert(s1.devices_seq()[di].id@ == device);
        assert(has_device(s1.devices_seq(), device));
        assert(!poll_rejected(s1, device));
        let (dj, uj) = choose|dj: int, uj: int|
            #[trigger] poll_effect(s1, s2, device, user, r2, dj, uj);
        assert(dj == di) by {
            if dj != di {
                assert(s1.devices_seq()[dj].id@ == device);
                assert(s1.devices_seq()[di].id@ != s1.devices_seq()[dj].id@);
            }
        }
        assert(has_user(s1.devices_seq()[di].users@, user)) by {
            assert(s1.devices_seq()[di].users@[ui].id@ == user);
        }
        assert(uj == ui) by {
            if uj != ui {
                assert(s1.devices_seq()[di].users@[uj].id@ == user);
                assert(s1.devices_seq()[di].users@[ui].id@ != s1.devices_seq()[di].users@[uj].id@);
            }
        }
        assert(r2 =~= s1.devices_seq()[di].users@[ui].tasks@);
    }
}

/// The wire mapping is two-way: every kind's wire string parses back to
/// exactly that kind, so presenting a kind and parsing the operator's echo
/// of it can never confuse two kinds.
pub proof fn lemma_wire_round_trip(kind: TaskType)
    ensures
        TaskType::parse_wire(kind.wire_str()) == Some(kind),
{
    reveal_strlit("CaptureImage");
    reveal_strlit("CaptureImageNow");
    reveal_strlit("LinkStart-Base");
    reveal_strlit("LinkStart-WakeUp");
    reveal_strlit("LinkStart-Combat");
    reveal_strlit("LinkStart-Recruiting");
    reveal_strlit("LinkStart-Mall");
    reveal_strlit("LinkStart-Mission");
    reveal_strlit("LinkStart-AutoRoguelike");
    reveal_strlit("LinkStart-ReclamationAlgorithm");
    reveal_strlit("HeartBeat");
    assert("CaptureImage"@.len() == 12);
    assert("CaptureImageNow"@.len() == 15);
    assert("LinkStart-Base"@.len() == 14);
    assert("LinkStart-WakeUp"@.len() == 16);
    assert("LinkStart-Combat"@.len() == 16);
    assert("LinkStart-Recruiting"@.len() == 20);
    assert("LinkStart-Mall"@.len() == 14);
    assert("LinkStart-Mission"@.len() == 17);
    assert("LinkStart-AutoRoguelike"@.len() == 23);
    assert("LinkStart-ReclamationAlgorithm"@.len() == 30);
    assert("HeartBeat"@.len() == 9);
    assert("LinkStart-Base"@[10] == 'B');
    assert("LinkStart-WakeUp"@[10] == 'W');
    assert("LinkStart-Combat"@[10] == 'C');
    assert("LinkStart-Mall"@[10] == 'M');
    match kind {
        TaskType::CaptureImage => {
            assert(TaskType::parse_wire(kind.wire_str()) == Some(kind));
        },
        TaskType::CaptureImageNow => {
            assert(TaskType::parse_wire(kind.wire_str()) == Some(kind));
        },
        TaskType::LinkStartBase => {
            assert(TaskType::parse_wire(kind.wire_str()) == Some(kind));
        },
        TaskType::LinkStartWakeUp => {
            assert(TaskType::parse_wire(kind.wire_str()) == Some(kind));
        },
        TaskType::LinkStartCombat => {
            assert(TaskType::parse_wire(kind.wire_str()) == Some(kind));
        },
        TaskType::LinkStartRecruiting => {
            assert(TaskType::parse_wire(kind.wire_str()) == Some(kind));
        },
        TaskType::LinkStartMall => {
            assert(TaskType::parse_wire(kind.wire_str()) == Some(kind));
        },
        TaskType::LinkStartMission => {
            assert(TaskType::parse_wire(kind.wire_str()) == Some(kind));
        },
        TaskType::LinkStartAutoRoguelike => {
            assert(TaskType::parse_wire(kind.wire_str()) == Some(kind));
        },
        TaskType::LinkStartReclamationAlgorithm => {
            assert(TaskType::parse_wire(kind.wire_str()) == Some(kind));
        },
        TaskType::HeartBeat => {
            assert(TaskType::parse_wire(kind.wire_str()) == Some(kind));
        },
    }
}

} // verus!
