//! What the dashboard knows of a session.
use vstd::prelude::*;

verus! {

/// Where a session stands.
#[derive(Clone, Copy, Debug, PartialEq, Eq, Structural)]
pub enum Status {
    Running,
    Waiting,
    Idle,
    Unknown,
    Stopped,
    Hibernated,
    Error,
    Starting,
    Deleting,
    Creating,
}

impl Status {
    /// The name of the status as it is shown.
    pub open spec fn name(self) -> Seq<char> {
        match self {
            Status::Running => "Running"@,
            Status::Waiting => "Waiting"@,
            Status::Idle => "Idle"@,
            Status::Unknown => "Unknown"@,
            Status::Stopped => "Stopped"@,
            Status::Hibernated => "Hibernated"@,
            Status::Error => "Error"@,
            Status::Starting => "Starting"@,
            Status::Deleting => "Deleting"@,
            Status::Creating => "Creating"@,
        }
    }

    /// The name of the status.
    pub fn label(self) -> (res: &'static str)
        ensures
            res@ == self.name(),
    {
        match self {
            Status::Running => "Running",
            Status::Waiting => "Waiting",
            Status::Idle => "Idle",
            Status::Unknown => "Unknown",
            Status::Stopped => "Stopped",
            Status::Hibernated => "Hibernated",
            Status::Error => "Error",
            Status::Starting => "Starting",
            Status::Deleting => "Deleting",
            Status::Creating => "Creating",
        }
    }
}

/// Which shell a terminal view attaches to.
#[derive(Clone, Copy, Debug, PartialEq, Eq, Structural)]
pub enum TerminalMode {
    Host,
    Container,
}

/// The container that a session runs in.
pub struct SandboxInfo {
    pub enabled: bool,
    pub container_name: String,
    pub custom_instruction: Option<String>,
}

/// The git worktree that a session works in.
pub struct WorktreeInfo {
    pub branch: String,
    pub main_repo_path: String,
    pub base_branch: Option<String>,
}

/// One session.
pub struct Instance {
    pub id: String,
    pub title: String,
    pub project_path: String,
    pub tool: String,
    pub source_profile: String,
    pub status: Status,
    pub sandbox_info: Option<SandboxInfo>,
    pub worktree_info: Option<WorktreeInfo>,
    pub last_error: Option<String>,
    /// Per-session overrides of the server-wide notification settings.
    pub notify_on_waiting: Option<bool>,
    pub notify_on_idle: Option<bool>,
    pub notify_on_error: Option<bool>,
    /// Driven through the cockpit, not through a terminal multiplexer.
    pub cockpit_mode: bool,
    /// Started by a command of the user's in place of the tool's own.
    pub command_override: bool,
    /// The tool is itself a shell.
    pub expects_shell: bool,
}

impl Instance {
    /// A fresh session, idle, with nothing configured.
    pub fn new(id: String, title: String, project_path: String) -> (res: Instance)
        ensures
            res.id == id,
            res.title == title,
            res.project_path == project_path,
            res.tool@ == Seq::<char>::empty(),
            res.source_profile@ == Seq::<char>::empty(),
            res.status == Status::Idle,
            res.sandbox_info is None,
            res.worktree_info is None,
            res.last_error is None,
            res.notify_on_waiting is None,
            res.notify_on_idle is None,
            res.notify_on_error is None,
            !res.cockpit_mode,
            !res.command_override,
            !res.expects_shell,
    {
        Instance {
            id,
            title,
            project_path,
            tool: String::new(),
            source_profile: String::new(),
            status: Status::Idle,
            sandbox_info: None,
            worktree_info: None,
            last_error: None,
            notify_on_waiting: None,
            notify_on_idle: None,
            notify_on_error: None,
            cockpit_mode: false,
            command_override: false,
            expects_shell: false,
        }
    }

    /// Whether the session runs in a container.
    pub open spec fn sandboxed(self) -> bool {
        self.sandbox_info is Some && self.sandbox_info->0.enabled
    }

    /// Whether the session runs in a container.
    pub fn is_sandboxed(&self) -> (res: bool)
        ensures
            res == self.sandboxed(),
    {
        match &self.sandbox_info {
            Some(sandbox) => sandbox.enabled,
            None => false,
        }
    }
}

/// The first session with the given id.
pub open spec fn find_instance(instances: Seq<Instance>, id: Seq<char>) -> Option<Instance>
    decreases instances.len(),
{
    if instances.len() == 0 {
        None
    } else if instances[0].id@ == id {
        Some(instances[0])
    } else {
        find_instance(instances.skip(1), id)
    }
}

/// Looks a session up by its id.
pub fn instance_by_id<'a>(instances: &'a Vec<Instance>, id: &String) -> (res: Option<&'a Instance>)
    ensures
        match res {
            Some(i) => find_instance(instances@, id@) == Some(*i),
            None => find_instance(instances@, id@) is None,
        },
{
    let mut i: usize = 0;
    assert(instances@.skip(0) =~= instances@);
    while i < instances.len()
        invariant
            i <= instances@.len(),
            find_instance(instances@, id@) == find_instance(instances@.skip(i as int), id@),
        decreases instances@.len() - i,
    {
        assert(instances@.skip(i as int)[0] == instances@[i as int]);
        if instances[i].id == *id {
            return Some(&instances[i]);
        }
        assert(instances@.skip(i as int).skip(1) =~= instances@.skip(i + 1));
        i = i + 1;
    }
    None
}

/// Server-wide notification settings.
#[derive(Clone, Copy, Debug, PartialEq, Eq, Structural)]
pub struct WebConfig {
    pub notifications_enabled: bool,
    pub notify_on_waiting: bool,
    pub notify_on_idle: bool,
    pub notify_on_error: bool,
    pub notify_on_wake_fire: bool,
}

/// A session is found exactly if its id stands anywhere in the list, and what is
/// found is the first that has it.
pub proof fn law_first_session_with_the_id_is_found(instances: Seq<Instance>, id: Seq<char>)
    ensures
        find_instance(instances, id) is Some <==> exists|i: int|
            0 <= i < instances.len() && #[trigger] instances[i].id@ == id,
        forall|i: int|
            0 <= i < instances.len() && #[trigger] instances[i].id@ == id && (forall|j: int|
                0 <= j < i ==> #[trigger] instances[j].id@ != id) ==> find_instance(instances, id)
                == Some(instances[i]),
    decreases instances.len(),
{
    if instances.len() > 0 {
        let rest = instances.skip(1);
        law_first_session_with_the_id_is_found(rest, id);
        assert forall|i: int| 0 <= i < rest.len() implies #[trigger] rest[i] == instances[i + 1] by {}
        if exists|i: int| 0 <= i < instances.len() && #[trigger] instances[i].id@ == id {
            let i = choose|i: int| 0 <= i < instances.len() && #[trigger] instances[i].id@ == id;
            if i > 0 {
                assert(rest[i - 1].id@ == id);
            }
        }
        if find_instance(instances, id) is Some {
            if instances[0].id@ != id {
                let i = choose|i: int| 0 <= i < rest.len() && #[trigger] rest[i].id@ == id;
                assert(instances[i + 1].id@ == id);
            }
        }
        assert forall|i: int|
            0 <= i < instances.len() && #[trigger] instances[i].id@ == id && (forall|j: int|
                0 <= j < i ==> #[trigger] instances[j].id@ != id) implies find_instance(
            instances,
            id,
        ) == Some(instances[i]) by {
            if i > 0 {
                assert(instances[0].id@ != id);
                assert(rest[i - 1].id@ == id);
                assert forall|j: int| 0 <= j < i - 1 implies #[trigger] rest[j].id@ != id by {
                    assert(instances[j + 1].id@ != id);
                }
            }
        }
    }
}

/// A session runs in a container exactly if it has one that is switched on.
pub proof fn law_sandbox_must_be_switched_on(instance: Instance)
    ensures
        instance.sandbox_info is None ==> !instance.sandboxed(),
        instance.sandbox_info matches Some(sandbox) ==> instance.sandboxed() == sandbox.enabled,
{
}

/// Every status is shown by its own name.
pub proof fn law_status_is_shown_by_its_name(status: Status)
    ensures
        status == Status::Running ==> status.name() == "Running"@,
        status == Status::Waiting ==> status.name() == "Waiting"@,
        status == Status::Idle ==> status.name() == "Idle"@,
        status == Status::Unknown ==> status.name() == "Unknown"@,
        status == Status::Stopped ==> status.name() == "Stopped"@,
        status == Status::Hibernated ==> status.name() == "Hibernated"@,
        status == Status::Error ==> status.name() == "Error"@,
        status == Status::Starting ==> status.name() == "Starting"@,
        status == Status::Deleting ==> status.name() == "Deleting"@,
        status == Status::Creating ==> status.name() == "Creating"@,
{
}

/// `instance_by_id` finds the first session that has the id, wherever it stands.
pub proof fn law_instance_by_id_finds_the_first(
    instances: &Vec<Instance>,
    id: &String,
    res: Option<&Instance>,
    i: int,
)
    requires
        call_ensures(instance_by_id, (instances, id), res),
    ensures
        res is Some <==> exists|j: int|
            0 <= j < instances@.len() && #[trigger] instances@[j].id@ == id@,
        0 <= i < instances@.len() && instances@[i].id@ == id@ && (forall|j: int|
            0 <= j < i ==> #[trigger] instances@[j].id@ != id@) ==> res is Some && *res->0
            == instances@[i],
{
    law_first_session_with_the_id_is_found(instances@, id@);
}

/// `is_sandboxed` holds exactly of a session with a container that is switched on,
/// and `label` gives each status the name that it is shown by.
pub proof fn law_session_facts(
    instance: &Instance,
    boxed: bool,
    status: Status,
    label: &'static str,
)
    requires
        call_ensures(Instance::is_sandboxed, (instance,), boxed),
        call_ensures(Status::label, (status,), label),
    ensures
        boxed <==> instance.sandbox_info is Some && instance.sandbox_info->0.enabled,
        label@ == status.name(),
{
}

} // verus!
