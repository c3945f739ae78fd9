use vstd::prelude::*;

use crate::config::DeviceInfo;
use crate::error::AppError;
use crate::model::{str_eq, new_task_id, Device, GetTaskResponse, Task, TaskType, User};

verus! {

// ---------------------------------------------------------------------------
// Spec-level views of the registry's contents.
// ---------------------------------------------------------------------------

/// Whether some task in the correlation sequence carries the identifier `id`.
pub open spec fn has_task_id(s: Seq<Task>, id: Seq<char>) -> bool {
    exists|i: int| 0 <= i < s.len() && s[i].id@ == id
}

/// Whether the correlation sequence maps the identifier `id` to the kind `k`.
pub open spec fn resolves(s: Seq<Task>, id: Seq<char>, k: TaskType) -> bool {
    exists|i: int| 0 <= i < s.len() && s[i].id@ == id && s[i].task_type == k
}

/// Every task identifier occurs at most once.
pub open spec fn unique_task_ids(s: Seq<Task>) -> bool {
    forall|i: int, j: int| 0 <= i < j < s.len() ==> s[i].id@ != s[j].id@
}

/// Whether some registered device carries the identifier `id`.
pub open spec fn has_device(devs: Seq<Device>, id: Seq<char>) -> bool {
    exists|i: int| 0 <= i < devs.len() && devs[i].id@ == id
}

/// Every device identifier occurs at most once.
pub open spec fn unique_device_ids(devs: Seq<Device>) -> bool {
    forall|i: int, j: int| 0 <= i < j < devs.len() ==> devs[i].id@ != devs[j].id@
}

/// Whether some session in `users` carries the identifier `id`.
pub open spec fn has_user(users: Seq<User>, id: Seq<char>) -> bool {
    exists|i: int| 0 <= i < users.len() && users[i].id@ == id
}

/// Every session identifier occurs at most once within one device.
pub open spec fn unique_user_ids(users: Seq<User>) -> bool {
    forall|i: int, j: int| 0 <= i < j < users.len() ==> users[i].id@ != users[j].id@
}

/// The display name the allow-list assigns to `id`: the first entry's name,
/// or `None` when no entry declares the device.
pub open spec fn allowed_lookup(list: Seq<DeviceInfo>, id: Seq<char>) -> Option<Seq<char>>
    decreases list.len(),
{
    if list.len() == 0 {
        None
    } else if list[0].id@ == id {
        Some(list[0].name@)
    } else {
        allowed_lookup(list.drop_first(), id)
    }
}

// ---------------------------------------------------------------------------
// The registry.
// ---------------------------------------------------------------------------

/// The process-wide orchestration state: the device registry with its user
/// sessions and pending task queues, the task-id correlation table, the
/// single permitted operator identity, the cached single-session flag, and
/// the optional device allow-list.
pub struct AppState {
    devices: Vec<Device>,
    all_tasks: Vec<Task>,
    tg_user_id: i64,
    is_single_user: bool,
    allowed_devices: Option<Vec<DeviceInfo>>,
}

impl AppState {
    /// The registered devices, in order of first poll.
    pub closed spec fn devices_seq(&self) -> Seq<Device> {
        self.devices@
    }

    /// The correlation table: every task ever enqueued, in order of creation.
    pub closed spec fn corr(&self) -> Seq<Task> {
        self.all_tasks@
    }

    /// The single permitted operator identity.
    pub closed spec fn permitted(&self) -> i64 {
        self.tg_user_id
    }

    /// The cached single-session flag.
    pub closed spec fn single_user_flag(&self) -> bool {
        self.is_single_user
    }

    /// Whether an allow-list is configured.
    pub closed spec fn has_allow_list(&self) -> bool {
        self.allowed_devices is Some
    }

    /// The allow-list entries; empty when none is configured.
    pub closed spec fn allow_entries(&self) -> Seq<DeviceInfo> {
        match self.allowed_devices {
            Some(v) => v@,
            None => Seq::empty(),
        }
    }

    /// Well-formedness: identifiers are unique at every level, and the
    /// single-session flag is never set unless the registry holds exactly
    /// one device with exactly one session.
    pub open spec fn wf(&self) -> bool {
        &&& unique_device_ids(self.devices_seq())
        &&& forall|i: int|
            0 <= i < self.devices_seq().len() ==> unique_user_ids(
                #[trigger] self.devices_seq()[i].users@,
            )
        &&& unique_task_ids(self.corr())
        &&& (self.single_user_flag() ==> self.devices_seq().len() == 1
            && self.devices_seq()[0].users@.len() == 1)
    }

    /// Creates an empty registry for the given operator, with the allow-list
    /// taken from the configuration.
    pub fn new(tg_user_id: i64, allowed_devices: &Option<Vec<DeviceInfo>>) -> (r: AppState)
        ensures
            r.wf(),
            r.devices_seq() =~= Seq::<Device>::empty(),
            r.corr() =~= Seq::<Task>::empty(),
            r.permitted() == tg_user_id,
            !r.single_user_flag(),
            r.has_allow_list() == (allowed_devices is Some),
            match allowed_devices {
                Some(v) => r.allow_entries() =~= v@,
                None => r.allow_entries() =~= Seq::<DeviceInfo>::empty(),
            },
    {
        let allowed: Option<Vec<DeviceInfo>> = match allowed_devices {
            Some(v) => Some(clone_device_infos(v)),
            None => None,
        };
        AppState {
            devices: Vec::new(),
            all_tasks: Vec::new(),
            tg_user_id,
            is_single_user: false,
            allowed_devices: allowed,
        }
    }

    /// The index of the device with the given identifier, if any.
    fn find_device(&self, device_id: &str) -> (r: Option<usize>)
        ensures
            match r {
                Some(i) => i < self.devices_seq().len() && self.devices_seq()[i as int].id@
                    == device_id@,
                None => !has_device(self.devices_seq(), device_id@),
            },
    {
        let mut i: usize = 0;
        while i < self.devices.len()
            invariant
                i <= self.devices@.len(),
                forall|j: int| 0 <= j < i ==> self.devices@[j].id@ != device_id@,
            decreases self.devices@.len() - i,
        {
            if str_eq(self.devices[i].id.as_str(), device_id) {
                return Some(i);
            }
            i += 1;
        }
        None
    }

    /// Resolves a reported task identifier to the kind it was enqueued with;
    /// an identifier this process never issued is a hard error.
    pub fn get_task_type(&self, task_id: &str) -> (r: Result<TaskType, AppError>)
        ensures
            match r {
                Ok(k) => resolves(self.corr(), task_id@, k),
                Err(e) => !has_task_id(self.corr(), task_id@) && (e matches AppError::TaskNotFound(
                    t,
                ) && t@ == task_id@),
            },
    {
        let mut i: usize = 0;
        while i < self.all_tasks.len()
            invariant
                i <= self.all_tasks@.len(),
                forall|j: int| 0 <= j < i ==> self.all_tasks@[j].id@ != task_id@,
            decreases self.all_tasks@.len() - i,
        {
            if str_eq(self.all_tasks[i].id.as_str(), task_id) {
                return Ok(self.all_tasks[i].task_type);
            }
            i += 1;
        }
        Err(AppError::TaskNotFound(task_id.to_owned()))
    }

    /// The operator identity permitted to drive the composition flow.
    pub fn get_permitted_user_id(&self) -> (r: i64)
        ensures
            r == self.permitted(),
    {
        self.tg_user_id
    }

    /// Reads the cached single-session flag.
    pub fn get_is_single_user(&self) -> (r: bool)
        ensures
            r == self.single_user_flag(),
    {
        self.is_single_user
    }

    /// Lists the registered devices, by display name or by identifier.
    pub fn get_devices(&self, use_name: bool) -> (r: Vec<String>)
        ensures
            r@.len() == self.devices_seq().len(),
            forall|i: int|
                0 <= i < r@.len() ==> r@[i]@ == (if use_name {
                    self.devices_seq()[i].name@
                } else {
                    self.devices_seq()[i].id@
                }),
    {
        let mut out: Vec<String> = Vec::new();
        let mut i: usize = 0;
        while i < self.devices.len()
            invariant
                i <= self.devices@.len(),
                out@.len() == i,
                forall|j: int|
                    0 <= j < i ==> out@[j]@ == (if use_name {
                        self.devices@[j].name@
                    } else {
                        self.devices@[j].id@
                    }),
            decreases self.devices@.len() - i,
        {
            if use_name {
                out.push(self.devices[i].name.clone());
            } else {
                out.push(self.devices[i].id.clone());
            }
            i += 1;
        }
        out
    }

    /// Lists the session identifiers of the given device, in order of first
    /// poll; unknown devices are reported, not created.
    pub fn get_users(&self, device_id: &str) -> (r: Result<Vec<String>, AppError>)
        ensures
            match r {
                Ok(v) => exists|di: int|
                    0 <= di < self.devices_seq().len() && #[trigger] self.devices_seq()[di].id@
                        == device_id@ && v@.len() == self.devices_seq()[di].users@.len() && (forall|
                        j: int,
                    |
                        0 <= j < v@.len() ==> #[trigger] v@[j]@
                            == self.devices_seq()[di].users@[j].id@),
                Err(e) => !has_device(self.devices_seq(), device_id@) && (e matches
                    AppError::DeviceNotFound(d) && d@ == device_id@),
            },
    {
        let di = match self.find_device(device_id) {
            Some(i) => i,
            None => {
                return Err(AppError::DeviceNotFound(device_id.to_owned()));
            },
        };
        let users = &self.devices[di].users;
        let mut out: Vec<String> = Vec::new();
        let mut i: usize = 0;
        while i < users.len()
            invariant
                i <= users@.len(),
                out@.len() == i,
                forall|j: int| 0 <= j < i ==> #[trigger] out@[j]@ == users@[j].id@,
            decreases users@.len() - i,
        {
            out.push(users[i].id.clone());
            i += 1;
        }
        Ok(out)
    }

    /// The unique device and session pair, read when the single-session
    /// heuristic holds; `None` when the registry is empty or the first
    /// device holds no session.
    pub fn get_single_device_and_user(&self) -> (r: Option<(DeviceInfo, User)>)
        ensures
            match r {
                Some(p) => self.devices_seq().len() > 0 && self.devices_seq()[0].users@.len() > 0
                    && p.0.id == self.devices_seq()[0].id && p.0.name == self.devices_seq()[0].name
                    && p.1.id == self.devices_seq()[0].users@[0].id && p.1.tasks@
                    =~= self.devices_seq()[0].users@[0].tasks@,
                None => self.devices_seq().len() == 0 || self.devices_seq()[0].users@.len() == 0,
            },
    {
        if self.devices.len() == 0 {
            return None;
        }
        let dev = &self.devices[0];
        if dev.users.len() == 0 {
            return None;
        }
        let info = DeviceInfo { id: dev.id.clone(), name: dev.name.clone() };
        let first = &dev.users[0];
        let user = User { id: first.id.clone(), tasks: clone_tasks(&first.tasks) };
        Some((info, user))
    }
}

// ---------------------------------------------------------------------------
// The effect of one enqueue, shared by the contracts of every enqueue path.
// ---------------------------------------------------------------------------

/// The tasks the correlation table gained between two states.
pub open spec fn corr_added(pre: AppState, post: AppState) -> Seq<Task> {
    post.corr().subrange(pre.corr().len() as int, post.corr().len() as int)
}

/// The static configuration is untouched.
pub open spec fn same_config(pre: AppState, post: AppState) -> bool {
    &&& post.permitted() == pre.permitted()
    &&& post.has_allow_list() == pre.has_allow_list()
    &&& post.allow_entries() == pre.allow_entries()
}

/// Exactly the session at `ui` changed, and only by appending `added` to its
/// task queue.
pub open spec fn users_updated_at(pre: Seq<User>, post: Seq<User>, ui: int, added: Seq<Task>) -> bool {
    &&& 0 <= ui < pre.len()
    &&& post.len() == pre.len()
    &&& forall|j: int| 0 <= j < pre.len() && j != ui ==> post[j] == pre[j]
    &&& post[ui].id == pre[ui].id
    &&& post[ui].tasks@ == pre[ui].tasks@ + added
}

/// Exactly the device at `di` changed, and only in the session at `ui`.
pub open spec fn devices_updated_at(
    pre: Seq<Device>,
    post: Seq<Device>,
    di: int,
    ui: int,
    added: Seq<Task>,
) -> bool {
    &&& 0 <= di < pre.len()
    &&& post.len() == pre.len()
    &&& forall|j: int| 0 <= j < pre.len() && j != di ==> post[j] == pre[j]
    &&& post[di].id == pre[di].id
    &&& post[di].name == pre[di].name
    &&& users_updated_at(pre[di].users@, post[di].users@, ui, added)
}

/// What one successful enqueue at device index `di`, session index `ui` does:
/// the primary task `t` of the requested kind is appended, followed — unless
/// the kind already is an image capture — by a fresh `CaptureImage` companion
/// in the same atomic update; the correlation table gains exactly those
/// tasks, under identifiers it never held before; nothing else changes.
pub open spec fn enqueue_effect(
    pre: AppState,
    post: AppState,
    di: int,
    ui: int,
    kind: TaskType,
    t: Task,
) -> bool {
    let added = corr_added(pre, post);
    &&& post.corr() =~= pre.corr() + added
    &&& added.len() >= 1
    &&& added[0] == t
    &&& t.task_type == kind
    &&& (if kind == TaskType::CaptureImage {
        added.len() == 1
    } else {
        added.len() == 2 && added[1].task_type == TaskType::CaptureImage && added[1].id@ != t.id@
    })
    &&& (forall|i: int| 0 <= i < added.len() ==> !has_task_id(pre.corr(), #[trigger] added[i].id@))
    &&& devices_updated_at(pre.devices_seq(), post.devices_seq(), di, ui, added)
    &&& post.single_user_flag() == pre.single_user_flag()
    &&& same_config(pre, post)
}

impl AppState {
    /// Appends a task of the given kind to the chosen session's queue and
    /// records it in the correlation table; any kind but `CaptureImage` is
    /// followed by a fresh `CaptureImage` companion in the same update.
    /// Returns the primary task.
    pub(crate) fn enqueue_at(&mut self, di: usize, ui: usize, kind: TaskType) -> (t: Task)
        requires
            old(self).wf(),
            di < old(self).devices_seq().len(),
            ui < old(self).devices_seq()[di as int].users@.len(),
        ensures
            final(self).wf(),
            enqueue_effect(*old(self), *final(self), di as int, ui as int, kind, t),
    {
        let id1 = fresh_task_id(&self.all_tasks);
        let mut dev = self.devices.remove(di);
        let mut user = dev.users.remove(ui);
        user.tasks.push(Task { id: id1.clone(), task_type: kind });
        self.all_tasks.push(Task { id: id1.clone(), task_type: kind });
        proof {
            lemma_unique_push(old(self).corr(), Task { id: id1, task_type: kind });
        }
        if !(kind == TaskType::CaptureImage) {
            let id2 = fresh_task_id(&self.all_tasks);
            proof {
                assert(has_task_id(self.all_tasks@, id1@)) by {
                    assert(self.all_tasks@[self.all_tasks@.len() - 1].id@ == id1@);
                }
                assert(!has_task_id(old(self).corr(), id2@)) by {
                    if has_task_id(old(self).corr(), id2@) {
                        let i = choose|i: int|
                            0 <= i < old(self).corr().len() && old(self).corr()[i].id@ == id2@;
                        assert(self.all_tasks@[i].id@ == id2@);
                    }
                }
                lemma_unique_push(self.all_tasks@, Task { id: id2, task_type: TaskType::CaptureImage });
            }
            user.tasks.push(Task { id: id2.clone(), task_type: TaskType::CaptureImage });
            self.all_tasks.push(Task { id: id2, task_type: TaskType::CaptureImage });
        }
        dev.users.insert(ui, user);
        self.devices.insert(di, dev);
        let t = Task { id: id1, task_type: kind };
        proof {
            lemma_remove_insert(old(self).devices_seq()[di as int].users@, ui as int, self.devices@[di as int].users@[ui as int]);
            lemma_remove_insert(old(self).devices_seq(), di as int, self.devices@[di as int]);
            let pre = *old(self);
            let post = *self;
            assert(post.corr() =~= pre.corr() + corr_added(pre, post));
            if kind == TaskType::CaptureImage {
                assert(corr_added(pre, post) =~= seq![t]);
            }
            assert(post.devices_seq()[di as int].users@[ui as int].tasks@ =~= pre.devices_seq()[
                di as int
            ].users@[ui as int].tasks@ + corr_added(pre, post));
        }
        t
    }

    /// Enqueues a task of the given kind for the named device and session,
    /// together with its `CaptureImage` companion unless the kind already is
    /// one; fails, changing nothing, when either key is absent.
    pub fn enqueue(&mut self, device_id: &str, user_id: &str, kind: TaskType) -> (r: Result<
        Task,
        AppError,
    >)
        requires
            old(self).wf(),
        ensures
            final(self).wf(),
            match r {
                Ok(t) => exists|di: int, ui: int|
                    #![auto]
                    0 <= di < old(self).devices_seq().len() && old(self).devices_seq()[di].id@
                        == device_id@ && 0 <= ui < old(self).devices_seq()[di].users@.len() && old(
                        self,
                    ).devices_seq()[di].users@[ui].id@ == user_id@ && enqueue_effect(
                        *old(self),
                        *final(self),
                        di,
                        ui,
                        kind,
                        t,
                    ),
                Err(e) => *final(self) == *old(self) && match e {
                    AppError::DeviceNotFound(d) => d@ == device_id@ && !has_device(
                        old(self).devices_seq(),
                        device_id@,
                    ),
                    AppError::UserNotFound(u) => u@ == user_id@ && has_device(
                        old(self).devices_seq(),
                        device_id@,
                    ) && (forall|di: int|
                        0 <= di < old(self).devices_seq().len() && #[trigger] old(
                            self,
                        ).devices_seq()[di].id@ == device_id@ ==> !has_user(
                            old(self).devices_seq()[di].users@,
                            user_id@,
                        )),
                    _ => false,
                },
            },
    {
        let di = match self.find_device(device_id) {
            Some(i) => i,
            None => {
                return Err(AppError::DeviceNotFound(device_id.to_owned()));
            },
        };
        let ui = match find_user(&self.devices[di].users, user_id) {
            Some(u) => u,
            None => {
                proof {
                    assert forall|dj: int|
                        0 <= dj < self.devices_seq().len() && #[trigger] self.devices_seq()[dj].id@
                            == device_id@ implies !has_user(
                        self.devices_seq()[dj].users@,
                        user_id@,
                    ) by {
                        if dj != di as int {
                            assert(self.devices_seq()[dj].id@ != self.devices_seq()[di as int].id@);
                        }
                    }
                }
                return Err(AppError::UserNotFound(user_id.to_owned()));
            },
        };
        let t = self.enqueue_at(di, ui, kind);
        Ok(t)
    }

    /// Enqueues a task whose kind is given by its wire string; an unknown
    /// kind string is a typed input error, and nothing changes.
    pub fn append_task(&mut self, device_id: &str, user_id: &str, task: &str) -> (r: Result<
        Task,
        AppError,
    >)
        requires
            old(self).wf(),
        ensures
            final(self).wf(),
            match r {
                Ok(t) => TaskType::parse_wire(task@) == Some(t.task_type) && exists|
                    di: int,
                    ui: int,
                |
                    #![auto]
                    0 <= di < old(self).devices_seq().len() && old(self).devices_seq()[di].id@
                        == device_id@ && 0 <= ui < old(self).devices_seq()[di].users@.len() && old(
                        self,
                    ).devices_seq()[di].users@[ui].id@ == user_id@ && enqueue_effect(
                        *old(self),
                        *final(self),
                        di,
                        ui,
                        t.task_type,
                        t,
                    ),
                Err(e) => *final(self) == *old(self) && match e {
                    AppError::InvalidSelection(s) => s@ == task@ && TaskType::parse_wire(task@)
                        is None,
                    AppError::DeviceNotFound(d) => TaskType::parse_wire(task@) is Some && d@
                        == device_id@ && !has_device(old(self).devices_seq(), device_id@),
                    AppError::UserNotFound(u) => TaskType::parse_wire(task@) is Some && u@
                        == user_id@ && has_device(old(self).devices_seq(), device_id@) && (forall|
                        di: int,
                    |
                        0 <= di < old(self).devices_seq().len() && #[trigger] old(
                            self,
                        ).devices_seq()[di].id@ == device_id@ ==> !has_user(
                            old(self).devices_seq()[di].users@,
                            user_id@,
                        )),
                    _ => false,
                },
            },
    {
        let kind = match TaskType::parse(task) {
            Ok(k) => k,
            Err(e) => {
                return Err(e);
            },
        };
        self.enqueue(device_id, user_id, kind)
    }
}

// ---------------------------------------------------------------------------
// The effect of one poll, shared by its contract and the laws about it.
// ---------------------------------------------------------------------------

/// A poll from a device absent from a configured allow-list: the device is
/// never materialized and the poll is answered with an empty list.
pub open spec fn poll_rejected(pre: AppState, device: Seq<char>) -> bool {
    &&& !has_device(pre.devices_seq(), device)
    &&& pre.has_allow_list()
    &&& allowed_lookup(pre.allow_entries(), device) is None
}

/// The session-level effect of a drain: the polled session exists afterwards
/// (created empty when it was absent), its queue is empty, the response
/// carries exactly what the queue held, and no other session changed.
pub open spec fn drained_users(
    pre: Seq<User>,
    post: Seq<User>,
    user: Seq<char>,
    resp: Seq<Task>,
    ui: int,
) -> bool {
    &&& 0 <= ui < post.len()
    &&& post[ui].id@ == user
    &&& post[ui].tasks@ =~= Seq::<Task>::empty()
    &&& if has_user(pre, user) {
        &&& post.len() == pre.len()
        &&& ui < pre.len()
        &&& pre[ui].id@ == user
        &&& (forall|j: int| 0 <= j < pre.len() && j != ui ==> post[j] == pre[j])
        &&& post[ui].id == pre[ui].id
        &&& resp =~= pre[ui].tasks@
    } else {
        &&& post.len() == pre.len() + 1
        &&& ui == pre.len()
        &&& (forall|j: int| 0 <= j < pre.len() ==> post[j] == pre[j])
        &&& resp =~= Seq::<Task>::empty()
    }
}

/// The device-level effect of an admitted poll, at device index `di` and
/// session index `ui`: the device exists afterwards (created when absent,
/// named by the allow-list where one is configured), exactly the polled
/// session is drained, the correlation table is untouched, and the
/// single-session flag is recomputed.
pub open spec fn poll_effect(
    pre: AppState,
    post: AppState,
    device: Seq<char>,
    user: Seq<char>,
    resp: Seq<Task>,
    di: int,
    ui: int,
) -> bool {
    &&& same_config(pre, post)
    &&& post.corr() == pre.corr()
    &&& 0 <= di < post.devices_seq().len()
    &&& post.devices_seq()[di].id@ == device
    &&& if has_device(pre.devices_seq(), device) {
        &&& post.devices_seq().len() == pre.devices_seq().len()
        &&& di < pre.devices_seq().len()
        &&& pre.devices_seq()[di].id@ == device
        &&& post.devices_seq()[di].id == pre.devices_seq()[di].id
        &&& post.devices_seq()[di].name == pre.devices_seq()[di].name
        &&& (forall|j: int|
            0 <= j < pre.devices_seq().len() && j != di ==> post.devices_seq()[j]
                == pre.devices_seq()[j])
        &&& drained_users(
            pre.devices_seq()[di].users@,
            post.devices_seq()[di].users@,
            user,
            resp,
            ui,
        )
    } else {
        &&& post.devices_seq().len() == pre.devices_seq().len() + 1
        &&& di == pre.devices_seq().len()
        &&& (forall|j: int|
            0 <= j < pre.devices_seq().len() ==> post.devices_seq()[j] == pre.devices_seq()[j])
        &&& (if pre.has_allow_list() {
            allowed_lookup(pre.allow_entries(), device) == Some(post.devices_seq()[di].name@)
        } else {
            post.devices_seq()[di].name@ == device
        })
        &&& drained_users(Seq::empty(), post.devices_seq()[di].users@, user, resp, ui)
    }
    &&& post.single_user_flag() == (post.devices_seq().len() == 1 && post.devices_seq()[di].users@.len() == 1)
}

/// Everything one poll does.
pub open spec fn poll_post(
    pre: AppState,
    post: AppState,
    device: Seq<char>,
    user: Seq<char>,
    resp: Seq<Task>,
) -> bool {
    if poll_rejected(pre, device) {
        post == pre && resp =~= Seq::<Task>::empty()
    } else {
        exists|di: int, ui: int| #[trigger] poll_effect(pre, post, device, user, resp, di, ui)
    }
}

/// What a successful rename does: exactly the name of the device at `di`,
/// which carries the renamed identifier, becomes `new_name`.
pub open spec fn rename_post(
    pre: AppState,
    post: AppState,
    di: int,
    device_id: Seq<char>,
    new_name: Seq<char>,
) -> bool {
    &&& 0 <= di < pre.devices_seq().len()
    &&& pre.devices_seq()[di].id@ == device_id
    &&& post.devices_seq().len() == pre.devices_seq().len()
    &&& (forall|j: int|
        0 <= j < pre.devices_seq().len() && j != di ==> post.devices_seq()[j]
            == pre.devices_seq()[j])
    &&& post.devices_seq()[di].id == pre.devices_seq()[di].id
    &&& post.devices_seq()[di].users == pre.devices_seq()[di].users
    &&& post.devices_seq()[di].name@ == new_name
    &&& post.corr() == pre.corr()
    &&& post.single_user_flag() == pre.single_user_flag()
    &&& same_config(pre, post)
}

impl AppState {
    /// Answers a device's poll: lazily admits the device (subject to the
    /// allow-list) and the session, drains the session's pending queue, and
    /// recomputes the single-session flag. A device refused by the allow-list
    /// is never materialized and receives an empty list.
    pub fn get_task(&mut self, device: &str, user: &str) -> (r: GetTaskResponse)
        requires
            old(self).wf(),
        ensures
            final(self).wf(),
            poll_post(*old(self), *final(self), device@, user@, r.tasks@),
    {
        let di: usize = match self.find_device(device) {
            Some(i) => i,
            None => {
                let name_opt: Option<String> = match &self.allowed_devices {
                    Some(list) => find_allowed_name(list, device),
                    None => None,
                };
                if self.allowed_devices.is_some() {
                    match name_opt {
                        Some(name) => {
                            let mut dev = Device::new_with_name(device.to_owned(), name);
                            dev.users.push(User { id: user.to_owned(), tasks: Vec::new() });
                            self.devices.push(dev);
                            let n = self.devices.len();
                            self.is_single_user = n == 1;
                            proof {
                                let pre = *old(self);
                                let post = *self;
                                assert(poll_effect(
                                    pre,
                                    post,
                                    device@,
                                    user@,
                                    Seq::<Task>::empty(),
                                    pre.devices_seq().len() as int,
                                    0,
                                ));
                            }
                            return GetTaskResponse { tasks: Vec::new() };
                        },
                        None => {
                            return GetTaskResponse { tasks: Vec::new() };
                        },
                    }
                } else {
                    let mut dev = Device::new(device);
                    dev.users.push(User { id: user.to_owned(), tasks: Vec::new() });
                    self.devices.push(dev);
                    let n = self.devices.len();
                    self.is_single_user = n == 1;
                    proof {
                        let pre = *old(self);
                        let post = *self;
                        assert(poll_effect(
                            pre,
                            post,
                            device@,
                            user@,
                            Seq::<Task>::empty(),
                            pre.devices_seq().len() as int,
                            0,
                        ));
                    }
                    return GetTaskResponse { tasks: Vec::new() };
                }
            },
        };
        let mut dev = self.devices.remove(di);
        let mut drained: Vec<Task> = Vec::new();
        let ui: usize = match find_user(&dev.users, user) {
            Some(u) => {
                let mut usr = dev.users.remove(u);
                core::mem::swap(&mut drained, &mut usr.tasks);
                dev.users.insert(u, usr);
                proof {
                    lemma_remove_insert(
                        old(self).devices_seq()[di as int].users@,
                        u as int,
                        dev.users@[u as int],
                    );
                }
                u
            },
            None => {
                let u = dev.users.len();
                dev.users.push(User { id: user.to_owned(), tasks: Vec::new() });
                u
            },
        };
        let users_count = dev.users.len();
        self.devices.insert(di, dev);
        let device_count = self.devices.len();
        self.is_single_user = device_count == 1 && users_count == 1;
        proof {
            lemma_remove_insert(old(self).devices_seq(), di as int, self.devices@[di as int]);
            let pre = *old(self);
            let post = *self;
            assert(has_device(pre.devices_seq(), device@)) by {
                assert(pre.devices_seq()[di as int].id@ == device@);
            }
            assert(poll_effect(pre, post, device@, user@, drained@, di as int, ui as int));
        }
        GetTaskResponse { tasks: drained }
    }

    /// Renames a registered device in memory; fails, changing nothing, when
    /// the device is unknown.
    pub fn rename_device(&mut self, device_id: &str, new_name: &str) -> (r: Result<(), AppError>)
        requires
            old(self).wf(),
        ensures
            final(self).wf(),
            match r {
                Ok(_) => exists|di: int| #[trigger] rename_post(
                    *old(self),
                    *final(self),
                    di,
                    device_id@,
                    new_name@,
                ),
                Err(e) => *final(self) == *old(self) && !has_device(
                    old(self).devices_seq(),
                    device_id@,
                ) && (e matches AppError::DeviceNotFound(d) && d@ == device_id@),
            },
    {
        let di = match self.find_device(device_id) {
            Some(i) => i,
            None => {
                return Err(AppError::DeviceNotFound(device_id.to_owned()));
            },
        };
        let mut dev = self.devices.remove(di);
        dev.name = new_name.to_owned();
        self.devices.insert(di, dev);
        proof {
            lemma_remove_insert(old(self).devices_seq(), di as int, self.devices@[di as int]);
            assert(rename_post(*old(self), *self, di as int, device_id@, new_name@));
        }
        Ok(())
    }
}

// ---------------------------------------------------------------------------
// The broadcast-screenshot fan-out.
// ---------------------------------------------------------------------------

/// The device kept its identity and its sessions, by identifier and order.
pub open spec fn device_shape_kept(pre: Device, post: Device) -> bool {
    &&& post.id == pre.id
    &&& post.name == pre.name
    &&& post.users@.len() == pre.users@.len()
    &&& forall|u: int| 0 <= u < pre.users@.len() ==> post.users@[u].id == pre.users@[u].id
}

/// The session's queue gained exactly a `CaptureImageNow` task and its
/// `CaptureImage` companion, both resolvable through `corr`.
pub open spec fn session_extended(pre_tasks: Seq<Task>, post_tasks: Seq<Task>, corr: Seq<Task>) -> bool {
    &&& post_tasks.len() == pre_tasks.len() + 2
    &&& post_tasks.subrange(0, pre_tasks.len() as int) =~= pre_tasks
    &&& post_tasks[pre_tasks.len() as int].task_type == TaskType::CaptureImageNow
    &&& post_tasks[pre_tasks.len() as int + 1].task_type == TaskType::CaptureImage
    &&& resolves(corr, post_tasks[pre_tasks.len() as int].id@, TaskType::CaptureImageNow)
    &&& resolves(corr, post_tasks[pre_tasks.len() as int + 1].id@, TaskType::CaptureImage)
}

/// What the broadcast screenshot does: every session of every device gains a
/// `CaptureImageNow` task with its companion; nothing else changes, and the
/// correlation table only grows.
pub open spec fn screenshot_post(pre: AppState, post: AppState) -> bool {
    &&& post.devices_seq().len() == pre.devices_seq().len()
    &&& same_config(pre, post)
    &&& post.single_user_flag() == pre.single_user_flag()
    &&& pre.corr().is_prefix_of(post.corr())
    &&& (forall|d: int|
        0 <= d < pre.devices_seq().len() ==> device_shape_kept(
            pre.devices_seq()[d],
            #[trigger] post.devices_seq()[d],
        ))
    &&& (forall|d: int, u: int|
        0 <= d < pre.devices_seq().len() && 0 <= u < pre.devices_seq()[d].users@.len()
            ==> session_extended(
            pre.devices_seq()[d].users@[u].tasks@,
            #[trigger] post.devices_seq()[d].users@[u].tasks@,
            post.corr(),
        ))
}

/// A task resolution holds in every later state of the correlation table:
/// the table is append-only, so once an identifier resolves to a kind it
/// resolves to that kind forever.
pub proof fn lemma_resolves_prefix(s: Seq<Task>, s2: Seq<Task>, id: Seq<char>, k: TaskType)
    requires
        s.is_prefix_of(s2),
        resolves(s, id, k),
    ensures
        resolves(s2, id, k),
{
    let i = choose|i: int| 0 <= i < s.len() && s[i].id@ == id && s[i].task_type == k;
    assert(s2.subrange(0, s.len() as int)[i] == s2[i]);
}

impl AppState {
    /// Enqueues a `CaptureImageNow` task (with its companion) on every
    /// session of every registered device: a fan-out, not a dialogue.
    pub fn append_screenshot_to_all(&mut self)
        requires
            old(self).wf(),
        ensures
            final(self).wf(),
            screenshot_post(*old(self), *final(self)),
    {
        let mut di: usize = 0;
        while di < self.devices.len()
            invariant
                self.wf(),
                di <= self.devices@.len(),
                self.devices@.len() == old(self).devices_seq().len(),
                old(self).corr().is_prefix_of(self.corr()),
                same_config(*old(self), *self),
                self.single_user_flag() == old(self).single_user_flag(),
                forall|d: int|
                    0 <= d < self.devices@.len() ==> device_shape_kept(
                        old(self).devices_seq()[d],
                        #[trigger] self.devices@[d],
                    ),
                forall|d: int|
                    di <= d < self.devices@.len() ==> self.devices@[d] == old(self).devices_seq()[d],
                forall|d: int, u: int|
                    0 <= d < di && 0 <= u < self.devices@[d].users@.len() ==> session_extended(
                        old(self).devices_seq()[d].users@[u].tasks@,
                        #[trigger] self.devices@[d].users@[u].tasks@,
                        self.corr(),
                    ),
            decreases self.devices@.len() - di,
        {
            let mut ui: usize = 0;
            while ui < self.devices[di].users.len()
                invariant
                    self.wf(),
                    di < self.devices@.len(),
                    ui <= self.devices@[di as int].users@.len(),
                    self.devices@.len() == old(self).devices_seq().len(),
                    old(self).corr().is_prefix_of(self.corr()),
                    same_config(*old(self), *self),
                    self.single_user_flag() == old(self).single_user_flag(),
                    forall|d: int|
                        0 <= d < self.devices@.len() ==> device_shape_kept(
                            old(self).devices_seq()[d],
                            #[trigger] self.devices@[d],
                        ),
                    forall|d: int|
                        di < d < self.devices@.len() ==> self.devices@[d] == old(
                            self,
                        ).devices_seq()[d],
                    forall|u: int|
                        ui <= u < self.devices@[di as int].users@.len() ==> self.devices@[
                            di as int
                        ].users@[u] == old(self).devices_seq()[di as int].users@[u],
                    forall|d: int, u: int|
                        0 <= d < di && 0 <= u < self.devices@[d].users@.len() ==> session_extended(
                            old(self).devices_seq()[d].users@[u].tasks@,
                            #[trigger] self.devices@[d].users@[u].tasks@,
                            self.corr(),
                        ),
                    forall|u: int|
                        0 <= u < ui ==> session_extended(
                            old(self).devices_seq()[di as int].users@[u].tasks@,
                            #[trigger] self.devices@[di as int].users@[u].tasks@,
                            self.corr(),
                        ),
                decreases self.devices@[di as int].users@.len() - ui,
            {
                let ghost mid = *self;
                let _t = self.enqueue_at(di, ui, TaskType::CaptureImageNow);
                proof {
                    let added = corr_added(mid, *self);
                    assert(mid.corr().is_prefix_of(self.corr())) by {
                        assert(self.corr() =~= mid.corr() + added);
                        assert(self.corr().subrange(0, mid.corr().len() as int) =~= mid.corr());
                    }
                    assert forall|d: int, u: int|
                        0 <= d < di && 0 <= u < self.devices@[d].users@.len() implies session_extended(
                        old(self).devices_seq()[d].users@[u].tasks@,
                        #[trigger] self.devices@[d].users@[u].tasks@,
                        self.corr(),
                    ) by {
                        assert(self.devices@[d] == mid.devices@[d]);
                        let pre_tasks = old(self).devices_seq()[d].users@[u].tasks@;
                        let post_tasks = self.devices@[d].users@[u].tasks@;
                        lemma_resolves_prefix(
                            mid.corr(),
                            self.corr(),
                            post_tasks[pre_tasks.len() as int].id@,
                            TaskType::CaptureImageNow,
                        );
                        lemma_resolves_prefix(
                            mid.corr(),
                            self.corr(),
                            post_tasks[pre_tasks.len() as int + 1].id@,
                            TaskType::CaptureImage,
                        );
                    }
                    assert forall|u: int| 0 <= u < ui implies session_extended(
                        old(self).devices_seq()[di as int].users@[u].tasks@,
                        #[trigger] self.devices@[di as int].users@[u].tasks@,
                        self.corr(),
                    ) by {
                        assert(self.devices@[di as int].users@[u] == mid.devices@[
                            di as int
                        ].users@[u]);
                        let pre_tasks = old(self).devices_seq()[di as int].users@[u].tasks@;
                        let post_tasks = self.devices@[di as int].users@[u].tasks@;
                        lemma_resolves_prefix(
                            mid.corr(),
                            self.corr(),
                            post_tasks[pre_tasks.len() as int].id@,
                            TaskType::CaptureImageNow,
                        );
                        lemma_resolves_prefix(
                            mid.corr(),
                            self.corr(),
                            post_tasks[pre_tasks.len() as int + 1].id@,
                            TaskType::CaptureImage,
                        );
                    }
                    assert(session_extended(
                        old(self).devices_seq()[di as int].users@[ui as int].tasks@,
                        self.devices@[di as int].users@[ui as int].tasks@,
                        self.corr(),
                    )) by {
                        let pre_tasks = mid.devices@[di as int].users@[ui as int].tasks@;
                        let post_tasks = self.devices@[di as int].users@[ui as int].tasks@;
                        assert(post_tasks == pre_tasks + added);
                        assert(post_tasks.subrange(0, pre_tasks.len() as int) =~= pre_tasks);
                        assert(self.corr() =~= mid.corr() + added);
                        assert(self.corr()[mid.corr().len() as int] == added[0]);
                        assert(resolves(self.corr(), added[0].id@, TaskType::CaptureImageNow));
                        assert(self.corr()[mid.corr().len() as int + 1] == added[1]);
                        assert(resolves(self.corr(), added[1].id@, TaskType::CaptureImage));
                    }
                }
                ui += 1;
            }
            di += 1;
        }
    }
}

/// The display name the allow-list assigns, if the device is declared.
fn find_allowed_name(list: &Vec<DeviceInfo>, id: &str) -> (r: Option<String>)
    ensures
        match r {
            Some(n) => allowed_lookup(list@, id@) == Some(n@),
            None => allowed_lookup(list@, id@) is None,
        },
{
    let mut i: usize = 0;
    while i < list.len()
        invariant
            i <= list@.len(),
            forall|j: int| 0 <= j < i ==> list@[j].id@ != id@,
        decreases list@.len() - i,
    {
        if str_eq(list[i].id.as_str(), id) {
            proof {
                lemma_allowed_lookup_first(list@, id@, i as int);
            }
            return Some(list[i].name.clone());
        }
        i += 1;
    }
    proof {
        lemma_allowed_lookup_none(list@, id@);
    }
    None
}

/// The allow-list lookup answers with the first matching entry's name.
proof fn lemma_allowed_lookup_first(list: Seq<DeviceInfo>, id: Seq<char>, i: int)
    requires
        0 <= i < list.len(),
        list[i].id@ == id,
        forall|j: int| 0 <= j < i ==> list[j].id@ != id,
    ensures
        allowed_lookup(list, id) == Some(list[i].name@),
    decreases i,
{
    if i > 0 {
        lemma_allowed_lookup_first(list.drop_first(), id, i - 1);
    }
}

/// The allow-list lookup finds nothing when no entry matches.
proof fn lemma_allowed_lookup_none(list: Seq<DeviceInfo>, id: Seq<char>)
    requires
        forall|j: int| 0 <= j < list.len() ==> list[j].id@ != id,
    ensures
        allowed_lookup(list, id) is None,
    decreases list.len(),
{
    if list.len() > 0 {
        lemma_allowed_lookup_none(list.drop_first(), id);
    }
}

/// The index of the session with the given identifier, if any.
fn find_user(users: &Vec<User>, user_id: &str) -> (r: Option<usize>)
    ensures
        match r {
            Some(i) => i < users@.len() && users@[i as int].id@ == user_id@,
            None => !has_user(users@, user_id@),
        },
{
    let mut i: usize = 0;
    while i < users.len()
        invariant
            i <= users@.len(),
            forall|j: int| 0 <= j < i ==> users@[j].id@ != user_id@,
        decreases users@.len() - i,
    {
        if str_eq(users[i].id.as_str(), user_id) {
            return Some(i);
        }
        i += 1;
    }
    None
}

/// Whether the correlation table already holds the identifier.
fn contains_task_id(tasks: &Vec<Task>, id: &str) -> (r: bool)
    ensures
        r == has_task_id(tasks@, id@),
{
    let mut i: usize = 0;
    while i < tasks.len()
        invariant
            i <= tasks@.len(),
            forall|j: int| 0 <= j < i ==> tasks@[j].id@ != id@,
        decreases tasks@.len() - i,
    {
        if str_eq(tasks[i].id.as_str(), id) {
            proof {
                assert(tasks@[i as int].id@ == id@);
            }
            return true;
        }
        i += 1;
    }
    false
}

/// A task identifier the correlation table has never held. The identifier is
/// a freshly generated random one; in the vanishingly unlikely event that it
/// collides with an issued identifier, one strictly longer than every issued
/// identifier is built instead.
fn fresh_task_id(tasks: &Vec<Task>) -> (id: String)
    ensures
        !has_task_id(tasks@, id@),
{
    let candidate = new_task_id();
    if !contains_task_id(tasks, candidate.as_str()) {
        return candidate;
    }
    let mut s = candidate;
    let mut i: usize = 0;
    while i < tasks.len()
        invariant
            i <= tasks@.len(),
            forall|j: int| 0 <= j < i ==> s@.len() >= tasks@[j].id@.len(),
        decreases tasks@.len() - i,
    {
        s.append(tasks[i].id.as_str());
        i += 1;
    }
    s.append("-");
    proof {
        reveal_strlit("-");
        assert forall|j: int| 0 <= j < tasks@.len() implies s@ != tasks@[j].id@ by {
            assert(s@.len() > tasks@[j].id@.len());
        }
    }
    s
}

/// Appending a task under an unused identifier keeps identifiers unique.
proof fn lemma_unique_push(s: Seq<Task>, t: Task)
    requires
        unique_task_ids(s),
        !has_task_id(s, t.id@),
    ensures
        unique_task_ids(s.push(t)),
{
    assert forall|i: int, j: int| 0 <= i < j < s.push(t).len() implies s.push(t)[i].id@ != s.push(
        t,
    )[j].id@ by {
        if j == s.len() {
            assert(s[i].id@ != t.id@);
        }
    }
}

/// Removing an element and inserting another at the same place is an update.
proof fn lemma_remove_insert<A>(s: Seq<A>, i: int, x: A)
    requires
        0 <= i < s.len(),
    ensures
        s.remove(i).insert(i, x) =~= s.update(i, x),
{
}

/// Copies an allow-list for the registry's own keeping.
fn clone_device_infos(v: &Vec<DeviceInfo>) -> (r: Vec<DeviceInfo>)
    ensures
        r@ =~= v@,
{
    let mut r: Vec<DeviceInfo> = Vec::new();
    let mut i: usize = 0;
    while i < v.len()
        invariant
            i <= v@.len(),
            r@.len() == i,
            forall|j: int| 0 <= j < i ==> r@[j] == v@[j],
        decreases v@.len() - i,
    {
        let d = &v[i];
        r.push(DeviceInfo { id: d.id.clone(), name: d.name.clone() });
        i += 1;
    }
    r
}

/// Copies a task queue for handing out without draining it.
fn clone_tasks(v: &Vec<Task>) -> (r: Vec<Task>)
    ensures
        r@ =~= v@,
{
    let mut r: Vec<Task> = Vec::new();
    let mut i: usize = 0;
    while i < v.len()
        invariant
            i <= v@.len(),
            r@.len() == i,
            forall|j: int| 0 <= j < i ==> r@[j] == v@[j],
        decreases v@.len() - i,
    {
        let t = &v[i];
        r.push(Task { id: t.id.clone(), task_type: t.task_type });
        i += 1;
    }
    r
}

} // verus!
