//! What a client is shown of the domain: projects, workspaces, machines and threads.

use vstd::prelude::*;

use crate::domain::{
    by_id, find_by_id, found_by_id, Environment, EnvironmentKind, Host, HostStatus, Project,
    ProjectSource, ProviderSpec, Thread, ThreadStatus,
};
use crate::json::{member, object, opt_tree, opt_uint_tree, trees, Fields, Json, Tree};
use crate::providers::{configured_provider_id, default_provider};
use crate::reply::{ok, ok_view, Reply};
use crate::text::{opt_view, same_text};
use crate::timeline::{
    empty_array, plan_shown, switched_on, thread_has_active_plan, thread_has_goal, ThreadEntry,
};

verus! {

/// A thread with what its row in a list is made of.
pub struct ThreadRecord {
    /// The thread.
    pub thread: Thread,
    /// Its log.
    pub entries: Vec<ThreadEntry>,
    /// Whether it waits for an answer.
    pub has_pending_interaction: bool,
    /// How many messages wait in its queue.
    pub queued_messages: u64,
}

/// Everything that a list of threads is made of.
pub struct Directory {
    /// The threads, in the order of the list.
    pub records: Vec<ThreadRecord>,
    /// The workspaces.
    pub environments: Vec<Environment>,
    /// The machines.
    pub hosts: Vec<Host>,
    /// The configured agents, the default first.
    pub providers: Vec<ProviderSpec>,
}

/// What a liveness probe is answered.
#[derive(Debug, PartialEq, Eq)]
pub struct HealthResponse {
    /// Always `ok`: a server that can answer at all is alive.
    pub status: String,
    /// The version of the wire protocol.
    pub protocol_version: u32,
    /// The server's identity.
    pub node_id: String,
    /// Milliseconds since startup.
    pub uptime_ms: u64,
    /// How many shard readers there are.
    pub readers: u64,
    /// How many records are retained.
    pub retained_events: u64,
    /// What is wrong with the log's store, where anything is.
    pub backend_error: Option<String>,
}

/// What a version probe is answered.
#[derive(Debug, PartialEq, Eq)]
pub struct VersionResponse {
    /// The server's version.
    pub version: String,
    /// The version of the wire protocol.
    pub protocol_version: u32,
}

/// A directory of a project on one machine.
pub open spec fn source_tree(source: ProjectSource) -> Tree {
    object().field("id"@, Tree::Str(source.id@))
        .field("projectId"@, Tree::Str(source.project_id@))
        .field("isDefault"@, Tree::Bool(source.is_default))
        .field("createdAt"@, Tree::UInt(source.created_at_ms))
        .field("updatedAt"@, Tree::UInt(source.updated_at_ms))
        .field("type"@, Tree::Str("local_path"@))
        .field("hostId"@, Tree::Str(source.host_id@))
        .field("path"@, Tree::Str(source.path@))
}

/// A directory of a project on one machine.
pub fn project_source_value(source: &ProjectSource) -> (result: Json)
    ensures
        result@ == source_tree(*source),
{
    Fields::new().with("id", Json::text(source.id.as_str()))
        .with("projectId", Json::text(source.project_id.as_str()))
        .with("isDefault", Json::Bool(source.is_default))
        .with("createdAt", Json::UInt(source.created_at_ms))
        .with("updatedAt", Json::UInt(source.updated_at_ms))
        .with("type", Json::text("local_path"))
        .with("hostId", Json::text(source.host_id.as_str()))
        .with("path", Json::text(source.path.as_str()))
        .object()
}

/// A project.
pub open spec fn project_tree(project: Project) -> Tree {
    object().field("id"@, Tree::Str(project.id@))
        .field("kind"@, Tree::Str(project.kind@))
        .field("name"@, Tree::Str(project.name@))
        .field("gitRemoteUrl"@, opt_tree(opt_view(project.git_remote_url)))
        .field("createdAt"@, Tree::UInt(project.created_at_ms))
        .field("updatedAt"@, Tree::UInt(project.updated_at_ms))
        .field(
            "sources"@,
            Tree::Array(
                Seq::new(project.sources@.len(), |i: int| source_tree(project.sources@[i])),
            ),
        )
}

/// The members of a project's representation.
fn project_fields(project: &Project) -> (result: Fields)
    ensures
        Tree::Object(result@) == project_tree(*project),
{
    let mut sources: Vec<Json> = Vec::new();
    for i in 0..project.sources.len()
        invariant
            sources@.len() == i,
            forall|k: int|
                0 <= k < i ==> (#[trigger] sources@[k])@ == source_tree(project.sources@[k]),
    {
        sources.push(project_source_value(&project.sources[i]));
    }
    assert(trees(sources@) =~= Seq::new(
        project.sources@.len(),
        |i: int| source_tree(project.sources@[i]),
    ));
    Fields::new().with("id", Json::text(project.id.as_str()))
        .with("kind", Json::text(project.kind.as_str()))
        .with("name", Json::text(project.name.as_str()))
        .with("gitRemoteUrl", Json::opt_text(&project.git_remote_url))
        .with("createdAt", Json::UInt(project.created_at_ms))
        .with("updatedAt", Json::UInt(project.updated_at_ms))
        .with("sources", Json::array(sources))
}

/// A project.
pub fn project_value(project: &Project) -> (result: Json)
    ensures
        result@ == project_tree(*project),
{
    project_fields(project).object()
}

/// A workspace. What is not tracked is `null`, which a client reads as unknown.
pub open spec fn environment_tree(environment: Environment) -> Tree {
    object().field("id"@, Tree::Str(environment.id@))
        .field("name"@, opt_tree(opt_view(environment.name)))
        .field("projectId"@, Tree::Str(environment.project_id@))
        .field("hostId"@, Tree::Str(environment.host_id@))
        .field("path"@, opt_tree(opt_view(environment.path)))
        .field("isGitRepo"@, Tree::Bool(false))
        .field("isWorktree"@, Tree::Bool(environment.kind is Managed))
        .field("branchName"@, Tree::Null)
        .field("baseBranch"@, Tree::Null)
        .field("defaultBranch"@, Tree::Null)
        .field("mergeBaseBranch"@, opt_tree(opt_view(environment.merge_base_branch)))
        .field("status"@, Tree::Str(environment.status@))
        .field("environmentProviderId"@, Tree::Null)
        .field(
            "lifecycle"@,
            object().field(
                "phase"@,
                Tree::Str(
                    if environment.spec_is_destroyed() {
                        "destroyed"@
                    } else {
                        "active"@
                    },
                ),
            ).field("retireAt"@, Tree::Null).field("teardown"@, Tree::Null),
        )
        .field("environmentProviderSelection"@, Tree::Null)
        .field("environmentProviderInstanceKey"@, Tree::Null)
        .field("managed"@, Tree::Bool(environment.kind is Managed))
        .field(
            "workspaceProvisionType"@,
            Tree::Str(
                match environment.kind {
                    EnvironmentKind::Managed => "managed-worktree"@,
                    EnvironmentKind::Unmanaged => "unmanaged"@,
                },
            ),
        )
        .field("createdAt"@, Tree::UInt(environment.created_at_ms))
        .field("updatedAt"@, Tree::UInt(environment.updated_at_ms))
}

/// A workspace.
pub fn environment_value(environment: &Environment) -> (result: Json)
    ensures
        result@ == environment_tree(*environment),
{
    let managed: bool = matches!(environment.kind, EnvironmentKind::Managed);
    let phase: &str = if environment.is_destroyed() {
        "destroyed"
    } else {
        "active"
    };
    let lifecycle: Json = Fields::new().with("phase", Json::text(phase)).with(
        "retireAt",
        Json::Null,
    ).with("teardown", Json::Null).object();
    let provision: &str = match environment.kind {
        EnvironmentKind::Managed => "managed-worktree",
        EnvironmentKind::Unmanaged => "unmanaged",
    };
    Fields::new().with("id", Json::text(environment.id.as_str()))
        .with("name", Json::opt_text(&environment.name))
        .with("projectId", Json::text(environment.project_id.as_str()))
        .with("hostId", Json::text(environment.host_id.as_str()))
        .with("path", Json::opt_text(&environment.path))
        .with("isGitRepo", Json::Bool(false))
        .with("isWorktree", Json::Bool(managed))
        .with("branchName", Json::Null)
        .with("baseBranch", Json::Null)
        .with("defaultBranch", Json::Null)
        .with("mergeBaseBranch", Json::opt_text(&environment.merge_base_branch))
        .with("status", Json::text(environment.status.as_str()))
        .with("environmentProviderId", Json::Null)
        .with("lifecycle", lifecycle)
        .with("environmentProviderSelection", Json::Null)
        .with("environmentProviderInstanceKey", Json::Null)
        .with("managed", Json::Bool(managed))
        .with("workspaceProvisionType", Json::text(provision))
        .with("createdAt", Json::UInt(environment.created_at_ms))
        .with("updatedAt", Json::UInt(environment.updated_at_ms))
        .object()
}

/// The word for whether a machine is attached.
pub open spec fn host_status_word(status: HostStatus) -> Seq<char> {
    match status {
        HostStatus::Connected => "connected"@,
        HostStatus::Disconnected => "disconnected"@,
    }
}

/// A machine.
pub open spec fn host_tree(host: Host) -> Tree {
    object().field("id"@, Tree::Str(host.id@))
        .field("name"@, Tree::Str(host.name@))
        .field("type"@, Tree::Str("persistent"@))
        .field("status"@, Tree::Str(host_status_word(host.status)))
        .field("maxPermissionMode"@, Tree::Str(host.max_permission_mode@))
        .field("lastSeenAt"@, opt_uint_tree(host.last_seen_at_ms))
        .field("lastRejectedProtocolVersion"@, Tree::Null)
        .field("createdAt"@, Tree::UInt(host.created_at_ms))
        .field("updatedAt"@, Tree::UInt(host.updated_at_ms))
}

/// A machine.
pub fn host_value(host: &Host) -> (result: Json)
    ensures
        result@ == host_tree(*host),
{
    let status: &str = match host.status {
        HostStatus::Connected => "connected",
        HostStatus::Disconnected => "disconnected",
    };
    Fields::new().with("id", Json::text(host.id.as_str()))
        .with("name", Json::text(host.name.as_str()))
        .with("type", Json::text("persistent"))
        .with("status", Json::text(status))
        .with("maxPermissionMode", Json::text(host.max_permission_mode.as_str()))
        .with("lastSeenAt", Json::opt_uint(host.last_seen_at_ms))
        .with("lastRejectedProtocolVersion", Json::Null)
        .with("createdAt", Json::UInt(host.created_at_ms))
        .with("updatedAt", Json::UInt(host.updated_at_ms))
        .object()
}

/// The durable word for a thread's status.
pub open spec fn status_word(status: ThreadStatus) -> Seq<char> {
    match status {
        ThreadStatus::Idle => "idle"@,
        ThreadStatus::Archived => "idle"@,
        ThreadStatus::Working => "active"@,
        ThreadStatus::Waiting => "active"@,
        ThreadStatus::Error => "error"@,
    }
}

/// The durable word for a thread's status.
pub fn bb_thread_status(status: ThreadStatus) -> (result: &'static str)
    ensures
        result@ == status_word(status),
{
    match status {
        ThreadStatus::Idle => "idle",
        ThreadStatus::Archived => "idle",
        ThreadStatus::Working => "active",
        ThreadStatus::Waiting => "active",
        ThreadStatus::Error => "error",
    }
}

/// The workspace that a thread runs in, where it is known.
pub open spec fn workspace_of(thread: Thread, environments: Seq<Environment>) -> Option<Environment> {
    match thread.environment_id {
        Some(id) => by_id(environments, id@),
        None => None,
    }
}

/// The workspace that a thread runs in, where it is known.
fn find_workspace<'a>(thread: &Thread, environments: &'a Vec<Environment>) -> (result: Option<
    &'a Environment,
>)
    ensures
        match result {
            Some(environment) => workspace_of(*thread, environments@) == Some(*environment),
            None => workspace_of(*thread, environments@) is None,
        },
{
    match &thread.environment_id {
        Some(id) => find_by_id(environments, id.as_str()),
        None => None,
    }
}

/// What a thread is shown as doing: a thread that works waits for its machine where that is not
/// attached or not known.
pub open spec fn display_status(
    status: ThreadStatus,
    environment: Option<Environment>,
    hosts: Seq<Host>,
) -> Seq<char> {
    match status {
        ThreadStatus::Idle => "idle"@,
        ThreadStatus::Archived => "idle"@,
        ThreadStatus::Error => "error"@,
        ThreadStatus::Waiting => "active"@,
        ThreadStatus::Working => match environment {
            Some(environment) => match by_id(hosts, environment.host_id@) {
                Some(host) => if host.status is Connected {
                    "active"@
                } else {
                    "host-reconnecting"@
                },
                None => "waiting-for-host"@,
            },
            None => "waiting-for-host"@,
        },
    }
}

/// What a thread is shown as doing.
pub fn runtime_display_status(
    status: ThreadStatus,
    environment: Option<&Environment>,
    hosts: &Vec<Host>,
) -> (result: &'static str)
    ensures
        result@ == display_status(
            status,
            match environment {
                Some(environment) => Some(*environment),
                None => None,
            },
            hosts@,
        ),
{
    match status {
        ThreadStatus::Idle => "idle",
        ThreadStatus::Archived => "idle",
        ThreadStatus::Error => "error",
        ThreadStatus::Waiting => "active",
        ThreadStatus::Working => match environment {
            Some(environment) => match find_by_id(hosts, environment.host_id.as_str()) {
                Some(host) => if matches!(host.status, HostStatus::Connected) {
                    "active"
                } else {
                    "host-reconnecting"
                },
                None => "waiting-for-host",
            },
            None => "waiting-for-host",
        },
    }
}

/// What a thread's own representation and its row in a list share.
pub open spec fn thread_columns(thread: Thread, directory: Directory) -> Tree {
    object().field("id"@, Tree::Str(thread.id@))
        .field("projectId"@, Tree::Str(thread.project_id@))
        .field("environmentId"@, opt_tree(opt_view(thread.environment_id)))
        .field(
            "providerId"@,
            Tree::Str(
                match thread.provider_id {
                    Some(provider) => provider@,
                    None => default_provider(directory.providers@),
                },
            ),
        )
        .field("title"@, opt_tree(opt_view(thread.title)))
        .field("titleFallback"@, opt_tree(opt_view(thread.title)))
        .field("sectionId"@, opt_tree(opt_view(thread.section_id)))
        .field("status"@, Tree::Str(status_word(thread.status)))
        .field("parentThreadId"@, opt_tree(opt_view(thread.parent_thread_id)))
        .field("sourceThreadId"@, opt_tree(opt_view(thread.source_thread_id)))
        .field("originKind"@, opt_tree(opt_view(thread.origin_kind)))
        .field("originPluginId"@, opt_tree(opt_view(thread.origin_plugin_id)))
        .field("visibility"@, Tree::Str(thread.visibility@))
        .field("archivedAt"@, opt_uint_tree(thread.archived_at_ms))
        .field("pinnedAt"@, opt_uint_tree(thread.pinned_at_ms))
        .field("deletedAt"@, opt_uint_tree(thread.deleted_at_ms))
        .field("lastReadAt"@, opt_uint_tree(thread.last_read_at_ms))
        .field("latestAttentionAt"@, Tree::UInt(thread.updated_at_ms))
        .field("createdAt"@, Tree::UInt(thread.created_at_ms))
        .field("updatedAt"@, Tree::UInt(thread.updated_at_ms))
        .field(
            "runtime"@,
            object().field(
                "displayStatus"@,
                Tree::Str(
                    display_status(
                        thread.status,
                        workspace_of(thread, directory.environments@),
                        directory.hosts@,
                    ),
                ),
            ).field("hostReconnectGraceExpiresAt"@, Tree::Null),
        )
}

/// What a thread's own representation and its row in a list share.
fn thread_fields(thread: &Thread, directory: &Directory) -> (result: Fields)
    ensures
        Tree::Object(result@) == thread_columns(*thread, *directory),
{
    let environment: Option<&Environment> = find_workspace(thread, &directory.environments);
    let provider: String = match &thread.provider_id {
        Some(provider) => provider.clone(),
        None => configured_provider_id(&directory.providers),
    };
    let shown: &str = runtime_display_status(thread.status, environment, &directory.hosts);
    let runtime: Json = Fields::new().with("displayStatus", Json::text(shown)).with(
        "hostReconnectGraceExpiresAt",
        Json::Null,
    ).object();
    Fields::new().with("id", Json::text(thread.id.as_str()))
        .with("projectId", Json::text(thread.project_id.as_str()))
        .with("environmentId", Json::opt_text(&thread.environment_id))
        .with("providerId", Json::Str(provider))
        .with("title", Json::opt_text(&thread.title))
        .with("titleFallback", Json::opt_text(&thread.title))
        .with("sectionId", Json::opt_text(&thread.section_id))
        .with("status", Json::text(bb_thread_status(thread.status)))
        .with("parentThreadId", Json::opt_text(&thread.parent_thread_id))
        .with("sourceThreadId", Json::opt_text(&thread.source_thread_id))
        .with("originKind", Json::opt_text(&thread.origin_kind))
        .with("originPluginId", Json::opt_text(&thread.origin_plugin_id))
        .with("visibility", Json::text(thread.visibility.as_str()))
        .with("archivedAt", Json::opt_uint(thread.archived_at_ms))
        .with("pinnedAt", Json::opt_uint(thread.pinned_at_ms))
        .with("deletedAt", Json::opt_uint(thread.deleted_at_ms))
        .with("lastReadAt", Json::opt_uint(thread.last_read_at_ms))
        .with("latestAttentionAt", Json::UInt(thread.updated_at_ms))
        .with("createdAt", Json::UInt(thread.created_at_ms))
        .with("updatedAt", Json::UInt(thread.updated_at_ms))
        .with("runtime", runtime)
}

/// A thread.
pub open spec fn thread_tree(thread: Thread, queued_messages: u64, directory: Directory) -> Tree {
    thread_columns(thread, directory).field("activeBackgroundAgentCount"@, Tree::UInt(0))
        .field("canSpawnChild"@, Tree::Bool(true))
        .field("queuedMessageCount"@, Tree::UInt(queued_messages))
}

/// A thread.
pub fn thread_summary_value(thread: &Thread, queued_messages: u64, directory: &Directory) -> (result:
    Json)
    ensures
        result@ == thread_tree(*thread, queued_messages, *directory),
{
    thread_fields(thread, directory).with("activeBackgroundAgentCount", Json::UInt(0))
        .with("canSpawnChild", Json::Bool(true))
        .with("queuedMessageCount", Json::UInt(queued_messages))
        .object()
}

/// A count of at most one.
pub open spec fn one_if(held: bool) -> Tree {
    Tree::UInt(
        if held {
            1
        } else {
            0
        },
    )
}

/// A thread's row in a list.
pub open spec fn list_entry_tree(record: ThreadRecord, directory: Directory) -> Tree {
    let environment = workspace_of(record.thread, directory.environments@);
    thread_columns(record.thread, directory).field(
        "activity"@,
        object().field("activeWorkflowCount"@, Tree::UInt(0))
            .field("activeBackgroundAgentCount"@, Tree::UInt(0))
            .field("activeBackgroundCommandCount"@, Tree::UInt(0))
            .field(
                "activePlanModeCount"@,
                one_if(plan_shown(record.entries@)),
            )
            .field(
                "activeGoalCount"@,
                one_if(
                    switched_on(record.entries@, "thread/goal/updated"@, "thread/goal/cleared"@),
                ),
            ),
    )
        .field(
            "queuedWork"@,
            Tree::Str(
                if record.thread.status is Error {
                    "failed"@
                } else {
                    "none"@
                },
            ),
        )
        .field("pinSortKey"@, opt_tree(opt_view(record.thread.pin_sort_key)))
        .field("hasPendingInteraction"@, Tree::Bool(record.has_pending_interaction))
        .field(
            "environmentHostId"@,
            match environment {
                Some(environment) => Tree::Str(environment.host_id@),
                None => Tree::Null,
            },
        )
        .field(
            "environmentName"@,
            match environment {
                Some(environment) => opt_tree(opt_view(environment.name)),
                None => Tree::Null,
            },
        )
        .field("environmentBranchName"@, Tree::Null)
        .field(
            "environmentPath"@,
            match environment {
                Some(environment) => opt_tree(opt_view(environment.path)),
                None => Tree::Null,
            },
        )
        .field("environmentProviderId"@, Tree::Null)
        .field(
            "environmentIsWorktree"@,
            match environment {
                Some(environment) => Tree::Bool(environment.kind is Managed),
                None => Tree::Null,
            },
        )
        .field(
            "environmentWorkspaceDisplayKind"@,
            Tree::Str(
                match environment {
                    Some(environment) => if environment.kind is Managed {
                        "managed-worktree"@
                    } else {
                        "unmanaged-worktree"@
                    },
                    None => "other"@,
                },
            ),
        )
}

/// A thread's row in a list.
pub fn thread_list_entry_value(record: &ThreadRecord, directory: &Directory) -> (result: Json)
    ensures
        result@ == list_entry_tree(*record, *directory),
{
    let (host, name, path, worktree, kind): (Json, Json, Json, Json, &str) = match find_workspace(
        &record.thread,
        &directory.environments,
    ) {
        Some(environment) => {
            let managed: bool = matches!(environment.kind, EnvironmentKind::Managed);
            let kind: &str = if managed {
                "managed-worktree"
            } else {
                "unmanaged-worktree"
            };
            (
                Json::text(environment.host_id.as_str()),
                Json::opt_text(&environment.name),
                Json::opt_text(&environment.path),
                Json::Bool(managed),
                kind,
            )
        },
        None => (Json::Null, Json::Null, Json::Null, Json::Null, "other"),
    };
    let plans: u64 = if thread_has_active_plan(&record.entries) {
        1
    } else {
        0
    };
    let goals: u64 = if thread_has_goal(&record.entries) {
        1
    } else {
        0
    };
    let activity: Json = Fields::new().with("activeWorkflowCount", Json::UInt(0))
        .with("activeBackgroundAgentCount", Json::UInt(0))
        .with("activeBackgroundCommandCount", Json::UInt(0))
        .with("activePlanModeCount", Json::UInt(plans))
        .with("activeGoalCount", Json::UInt(goals))
        .object();
    let work: &str = match record.thread.status {
        ThreadStatus::Error => "failed",
        _ => "none",
    };
    thread_fields(&record.thread, directory).with("activity", activity)
        .with("queuedWork", Json::text(work))
        .with("pinSortKey", Json::opt_text(&record.thread.pin_sort_key))
        .with("hasPendingInteraction", Json::Bool(record.has_pending_interaction))
        .with("environmentHostId", host)
        .with("environmentName", name)
        .with("environmentBranchName", Json::Null)
        .with("environmentPath", path)
        .with("environmentProviderId", Json::Null)
        .with("environmentIsWorktree", worktree)
        .with("environmentWorkspaceDisplayKind", Json::text(kind))
        .object()
}

/// The rows of the threads of a project.
pub open spec fn project_rows(
    records: Seq<ThreadRecord>,
    project: Seq<char>,
    directory: Directory,
) -> Seq<Tree>
    decreases records.len(),
{
    if records.len() == 0 {
        Seq::empty()
    } else {
        let before = project_rows(records.drop_last(), project, directory);
        if records.last().thread.project_id@ == project {
            before.push(list_entry_tree(records.last(), directory))
        } else {
            before
        }
    }
}

/// A project with its threads.
pub open spec fn project_detail_tree(project: Project, directory: Directory) -> Tree {
    project_tree(project).field(
        "threads"@,
        Tree::Array(project_rows(directory.records@, project.id@, directory)),
    ).field("defaultExecutionOptions"@, Tree::Null)
}

/// A project with its threads.
pub fn project_detail_value(project: &Project, directory: &Directory) -> (result: Json)
    ensures
        result@ == project_detail_tree(*project, *directory),
{
    let records: &Vec<ThreadRecord> = &directory.records;
    let mut rows: Vec<Json> = Vec::new();
    assert(records@.take(0) =~= Seq::<ThreadRecord>::empty());
    assert(trees(rows@) =~= Seq::<Tree>::empty());
    for i in 0..records.len()
        invariant
            records == directory.records,
            trees(rows@) == project_rows(records@.take(i as int), project.id@, *directory),
    {
        let record: &ThreadRecord = &records[i];
        let ghost before = trees(rows@);
        assert(records@.take(i + 1).drop_last() =~= records@.take(i as int));
        assert(records@.take(i + 1).last() == *record);
        if same_text(record.thread.project_id.as_str(), project.id.as_str()) {
            rows.push(thread_list_entry_value(record, directory));
            assert(trees(rows@) =~= before.push(list_entry_tree(*record, *directory)));
        }
    }
    assert(records@.take(records@.len() as int) =~= records@);
    project_fields(project).with("threads", Json::array(rows)).with(
        "defaultExecutionOptions",
        Json::Null,
    ).object()
}

/// The projects of a sidebar, but for the personal one and those that are deleted.
pub open spec fn sidebar_projects(
    projects: Seq<Project>,
    personal: Seq<char>,
    directory: Directory,
) -> Seq<Tree>
    decreases projects.len(),
{
    if projects.len() == 0 {
        Seq::empty()
    } else {
        let before = sidebar_projects(projects.drop_last(), personal, directory);
        let project = projects.last();
        if project.deleted_at_ms is None && project.id@ != personal {
            before.push(project_detail_tree(project, directory))
        } else {
            before
        }
    }
}

/// The personal project of a sidebar: the first that has its id and is not deleted, else an empty
/// one under that id.
pub open spec fn sidebar_personal(
    projects: Seq<Project>,
    personal: Seq<char>,
    directory: Directory,
) -> Tree
    decreases projects.len(),
{
    if projects.len() == 0 {
        object().field("id"@, Tree::Str(personal))
            .field("kind"@, Tree::Str("personal"@))
            .field("name"@, Tree::Str("Personal"@))
            .field("gitRemoteUrl"@, Tree::Null)
            .field("createdAt"@, Tree::UInt(0))
            .field("updatedAt"@, Tree::UInt(0))
            .field("sources"@, Tree::Array(Seq::empty()))
            .field("threads"@, Tree::Array(Seq::empty()))
            .field("defaultExecutionOptions"@, Tree::Null)
    } else if projects[0].deleted_at_ms is None && projects[0].id@ == personal {
        project_detail_tree(projects[0], directory)
    } else {
        sidebar_personal(projects.drop_first(), personal, directory)
    }
}

/// The personal project of a sidebar.
fn personal_project(projects: &Vec<Project>, personal: &str, directory: &Directory) -> (result: Json)
    ensures
        result@ == sidebar_personal(projects@, personal@, *directory),
{
    assert(projects@.skip(0) =~= projects@);
    for i in 0..projects.len()
        invariant
            sidebar_personal(projects@, personal@, *directory) == sidebar_personal(
                projects@.skip(i as int),
                personal@,
                *directory,
            ),
    {
        let project: &Project = &projects[i];
        assert(projects@.skip(i as int)[0] == *project);
        assert(projects@.skip(i as int).drop_first() =~= projects@.skip(i + 1));
        if project.deleted_at_ms.is_none() && same_text(project.id.as_str(), personal) {
            return project_detail_value(project, directory);
        }
    }
    assert(projects@.skip(projects@.len() as int) =~= Seq::<Project>::empty());
    Fields::new().with("id", Json::text(personal))
        .with("kind", Json::text("personal"))
        .with("name", Json::text("Personal"))
        .with("gitRemoteUrl", Json::Null)
        .with("createdAt", Json::UInt(0))
        .with("updatedAt", Json::UInt(0))
        .with("sources", empty_array())
        .with("threads", empty_array())
        .with("defaultExecutionOptions", Json::Null)
        .object()
}

/// Everything that a sidebar is made of, in one answer: the personal project stands apart and is
/// not listed among the others, and a deleted project is in neither place.
pub fn sidebar_bootstrap(
    projects: &Vec<Project>,
    personal: &str,
    sections: Vec<Json>,
    directory: &Directory,
) -> (result: Reply)
    ensures
        result@ == ok_view(
            object().field("sections"@, Tree::Array(trees(sections@))).field(
                "projects"@,
                Tree::Array(sidebar_projects(projects@, personal@, *directory)),
            ).field("personalProject"@, sidebar_personal(projects@, personal@, *directory)),
        ),
{
    let mut rows: Vec<Json> = Vec::new();
    assert(projects@.take(0) =~= Seq::<Project>::empty());
    assert(trees(rows@) =~= Seq::<Tree>::empty());
    for i in 0..projects.len()
        invariant
            trees(rows@) == sidebar_projects(projects@.take(i as int), personal@, *directory),
    {
        let project: &Project = &projects[i];
        let ghost before = trees(rows@);
        assert(projects@.take(i + 1).drop_last() =~= projects@.take(i as int));
        assert(projects@.take(i + 1).last() == *project);
        if project.deleted_at_ms.is_none() && !same_text(project.id.as_str(), personal) {
            rows.push(project_detail_value(project, directory));
            assert(trees(rows@) =~= before.push(project_detail_tree(*project, *directory)));
        }
    }
    assert(projects@.take(projects@.len() as int) =~= projects@);
    let own: Json = personal_project(projects, personal, directory);
    ok(
        Fields::new().with("sections", Json::array(sections)).with(
            "projects",
            Json::array(rows),
        ).with("personalProject", own).object(),
    )
}

/// The answer to a query for the server's version.
pub fn system_version(current: &str) -> (result: Reply)
    ensures
        result@ == ok_view(
            object().field("currentVersion"@, Tree::Str(current@))
                .field("latestVersion"@, Tree::Null)
                .field("source"@, Tree::Str("npm"@))
                .field("updateAvailable"@, Tree::Bool(false))
                .field("isDevelopment"@, Tree::Bool(true))
                .field("upgradeCommand"@, Tree::Str(""@)),
        ),
{
    ok(
        Fields::new().with("currentVersion", Json::text(current))
            .with("latestVersion", Json::Null)
            .with("source", Json::text("npm"))
            .with("updateAvailable", Json::Bool(false))
            .with("isDevelopment", Json::Bool(true))
            .with("upgradeCommand", Json::text(""))
            .object(),
    )
}

/// What a thread is shown as doing agrees with its durable status, but for a thread that works on
/// a machine that is away.
pub proof fn display_refines_the_status(
    status: ThreadStatus,
    environment: Option<Environment>,
    hosts: Seq<Host>,
)
    ensures
        display_status(status, environment, hosts) == status_word(status) || (status is Working && (
        display_status(status, environment, hosts) == "host-reconnecting"@ || display_status(
            status,
            environment,
            hosts,
        ) == "waiting-for-host"@)),
{
}

// What a client is shown.

/// A source is shown with its place: the project, the machine, the path, and whether it is the
/// default.
pub proof fn sources_are_shown(source: ProjectSource, value: Json)
    requires
        call_ensures(project_source_value, (&source,), value),
    ensures
        member(value@, "id"@) == Some(Tree::Str(source.id@)),
        member(value@, "projectId"@) == Some(Tree::Str(source.project_id@)),
        member(value@, "isDefault"@) == Some(Tree::Bool(source.is_default)),
        member(value@, "createdAt"@) == Some(Tree::UInt(source.created_at_ms)),
        member(value@, "updatedAt"@) == Some(Tree::UInt(source.updated_at_ms)),
        member(value@, "type"@) == Some(Tree::Str("local_path"@)),
        member(value@, "hostId"@) == Some(Tree::Str(source.host_id@)),
        member(value@, "path"@) == Some(Tree::Str(source.path@)),
{
    broadcast use {crate::json::member_of_field, crate::reply::errors_say_what_is_wrong};

    reveal_strlit("id");
    reveal_strlit("path");
    reveal_strlit("type");
    reveal_strlit("hostId");
    reveal_strlit("createdAt");
    reveal_strlit("isDefault");
    reveal_strlit("projectId");
    reveal_strlit("updatedAt");
    assert("id"@.len() == 2);
    assert("path"@.len() == 4 && "path"@[0] == 'p');
    assert("type"@.len() == 4 && "type"@[0] == 't');
    assert("hostId"@.len() == 6);
    assert("createdAt"@.len() == 9 && "createdAt"@[0] == 'c');
    assert("isDefault"@.len() == 9 && "isDefault"@[0] == 'i');
    assert("projectId"@.len() == 9 && "projectId"@[0] == 'p');
    assert("updatedAt"@.len() == 9 && "updatedAt"@[0] == 'u');
}

/// A project is shown with what it is, and with its sources in their order.
pub proof fn projects_are_shown(project: Project, value: Json)
    requires
        call_ensures(project_value, (&project,), value),
    ensures
        member(value@, "id"@) == Some(Tree::Str(project.id@)),
        member(value@, "kind"@) == Some(Tree::Str(project.kind@)),
        member(value@, "name"@) == Some(Tree::Str(project.name@)),
        member(value@, "gitRemoteUrl"@) == Some(opt_tree(opt_view(project.git_remote_url))),
        member(value@, "createdAt"@) == Some(Tree::UInt(project.created_at_ms)),
        member(value@, "updatedAt"@) == Some(Tree::UInt(project.updated_at_ms)),
        member(value@, "sources"@) matches Some(Tree::Array(shown)) && shown.len() == project.sources@.len() && forall|i: int| 0 <= i < shown.len() ==> #[trigger] shown[i] == source_tree(project.sources@[i]),
{
    broadcast use {crate::json::member_of_field, crate::reply::errors_say_what_is_wrong};

    reveal_strlit("id");
    reveal_strlit("kind");
    reveal_strlit("name");
    reveal_strlit("sources");
    reveal_strlit("createdAt");
    reveal_strlit("updatedAt");
    reveal_strlit("gitRemoteUrl");
    assert("id"@.len() == 2);
    assert("kind"@.len() == 4 && "kind"@[0] == 'k');
    assert("name"@.len() == 4 && "name"@[0] == 'n');
    assert("sources"@.len() == 7);
    assert("createdAt"@.len() == 9 && "createdAt"@[0] == 'c');
    assert("updatedAt"@.len() == 9 && "updatedAt"@[0] == 'u');
    assert("gitRemoteUrl"@.len() == 12);
}

/// An environment is shown with where it is, how it stands, and whether the server manages it.
#[verifier::rlimit(50)]
pub proof fn environments_are_shown(environment: Environment, value: Json)
    requires
        call_ensures(environment_value, (&environment,), value),
    ensures
        member(value@, "id"@) == Some(Tree::Str(environment.id@)),
        member(value@, "name"@) == Some(opt_tree(opt_view(environment.name))),
        member(value@, "projectId"@) == Some(Tree::Str(environment.project_id@)),
        member(value@, "hostId"@) == Some(Tree::Str(environment.host_id@)),
        member(value@, "path"@) == Some(opt_tree(opt_view(environment.path))),
        member(value@, "isGitRepo"@) == Some(Tree::Bool(false)),
        member(value@, "branchName"@) == Some(Tree::Null),
        member(value@, "baseBranch"@) == Some(Tree::Null),
        member(value@, "defaultBranch"@) == Some(Tree::Null),
        member(value@, "mergeBaseBranch"@) == Some(opt_tree(opt_view(environment.merge_base_branch))),
        member(value@, "status"@) == Some(Tree::Str(environment.status@)),
        member(value@, "environmentProviderId"@) == Some(Tree::Null),
        member(value@, "environmentProviderSelection"@) == Some(Tree::Null),
        member(value@, "environmentProviderInstanceKey"@) == Some(Tree::Null),
        member(value@, "createdAt"@) == Some(Tree::UInt(environment.created_at_ms)),
        member(value@, "updatedAt"@) == Some(Tree::UInt(environment.updated_at_ms)),
        member(value@, "isWorktree"@) == Some(Tree::Bool(environment.kind == EnvironmentKind::Managed)),
        member(value@, "managed"@) == Some(Tree::Bool(environment.kind == EnvironmentKind::Managed)),
        environment.kind == EnvironmentKind::Managed ==> member(value@, "workspaceProvisionType"@) == Some(Tree::Str("managed-worktree"@)),
        environment.kind == EnvironmentKind::Unmanaged ==> member(value@, "workspaceProvisionType"@) == Some(Tree::Str("unmanaged"@)),
        member(value@, "lifecycle"@) is Some,
        environment.status@ == "destroyed"@ ==> member(member(value@, "lifecycle"@)->0, "phase"@) == Some(Tree::Str("destroyed"@)),
        environment.status@ != "destroyed"@ ==> member(member(value@, "lifecycle"@)->0, "phase"@) == Some(Tree::Str("active"@)),
        member(member(value@, "lifecycle"@)->0, "retireAt"@) == Some(Tree::Null),
        member(member(value@, "lifecycle"@)->0, "teardown"@) == Some(Tree::Null),
{
    broadcast use {crate::json::member_of_field, crate::reply::errors_say_what_is_wrong};

    reveal_strlit("id");
    reveal_strlit("name");
    reveal_strlit("path");
    reveal_strlit("phase");
    reveal_strlit("hostId");
    reveal_strlit("status");
    reveal_strlit("managed");
    reveal_strlit("retireAt");
    reveal_strlit("teardown");
    reveal_strlit("createdAt");
    reveal_strlit("isGitRepo");
    reveal_strlit("lifecycle");
    reveal_strlit("projectId");
    reveal_strlit("updatedAt");
    reveal_strlit("baseBranch");
    reveal_strlit("branchName");
    reveal_strlit("isWorktree");
    reveal_strlit("defaultBranch");
    reveal_strlit("mergeBaseBranch");
    reveal_strlit("environmentProviderId");
    reveal_strlit("workspaceProvisionType");
    reveal_strlit("environmentProviderSelection");
    reveal_strlit("environmentProviderInstanceKey");
    assert("id"@.len() == 2);
    assert("name"@.len() == 4 && "name"@[0] == 'n');
    assert("path"@.len() == 4 && "path"@[0] == 'p');
    assert("phase"@.len() == 5);
    assert("hostId"@.len() == 6 && "hostId"@[0] == 'h');
    assert("status"@.len() == 6 && "status"@[0] == 's');
    assert("managed"@.len() == 7);
    assert("retireAt"@.len() == 8 && "retireAt"@[0] == 'r');
    assert("teardown"@.len() == 8 && "teardown"@[0] == 't');
    assert("createdAt"@.len() == 9 && "createdAt"@[0] == 'c');
    assert("isGitRepo"@.len() == 9 && "isGitRepo"@[0] == 'i');
    assert("lifecycle"@.len() == 9 && "lifecycle"@[0] == 'l');
    assert("projectId"@.len() == 9 && "projectId"@[0] == 'p');
    assert("updatedAt"@.len() == 9 && "updatedAt"@[0] == 'u');
    assert("baseBranch"@.len() == 10 && "baseBranch"@[1] == 'a');
    assert("branchName"@.len() == 10 && "branchName"@[1] == 'r');
    assert("isWorktree"@.len() == 10 && "isWorktree"@[1] == 's');
    assert("defaultBranch"@.len() == 13);
    assert("mergeBaseBranch"@.len() == 15);
    assert("environmentProviderId"@.len() == 21);
    assert("workspaceProvisionType"@.len() == 22);
    assert("environmentProviderSelection"@.len() == 28);
    assert("environmentProviderInstanceKey"@.len() == 30);
}

/// A machine is shown with its name, whether it is connected, what it allows and when it was last
/// heard of.
pub proof fn machines_are_shown(host: Host, value: Json)
    requires
        call_ensures(host_value, (&host,), value),
    ensures
        member(value@, "id"@) == Some(Tree::Str(host.id@)),
        member(value@, "name"@) == Some(Tree::Str(host.name@)),
        member(value@, "type"@) == Some(Tree::Str("persistent"@)),
        member(value@, "maxPermissionMode"@) == Some(Tree::Str(host.max_permission_mode@)),
        member(value@, "lastSeenAt"@) == Some(opt_uint_tree(host.last_seen_at_ms)),
        member(value@, "lastRejectedProtocolVersion"@) == Some(Tree::Null),
        member(value@, "createdAt"@) == Some(Tree::UInt(host.created_at_ms)),
        member(value@, "updatedAt"@) == Some(Tree::UInt(host.updated_at_ms)),
        host.status == HostStatus::Connected ==> member(value@, "status"@) == Some(Tree::Str("connected"@)),
        host.status == HostStatus::Disconnected ==> member(value@, "status"@) == Some(Tree::Str("disconnected"@)),
{
    broadcast use {crate::json::member_of_field, crate::reply::errors_say_what_is_wrong};

    reveal_strlit("id");
    reveal_strlit("name");
    reveal_strlit("type");
    reveal_strlit("status");
    reveal_strlit("createdAt");
    reveal_strlit("updatedAt");
    reveal_strlit("lastSeenAt");
    reveal_strlit("maxPermissionMode");
    reveal_strlit("lastRejectedProtocolVersion");
    assert("id"@.len() == 2);
    assert("name"@.len() == 4 && "name"@[0] == 'n');
    assert("type"@.len() == 4 && "type"@[0] == 't');
    assert("status"@.len() == 6);
    assert("createdAt"@.len() == 9 && "createdAt"@[0] == 'c');
    assert("updatedAt"@.len() == 9 && "updatedAt"@[0] == 'u');
    assert("lastSeenAt"@.len() == 10);
    assert("maxPermissionMode"@.len() == 17);
    assert("lastRejectedProtocolVersion"@.len() == 27);
}

/// A thread that works or waits is active, one that failed is in error, and any other is idle.
pub proof fn statuses_have_their_word(status: ThreadStatus, word: &str)
    requires
        call_ensures(bb_thread_status, (status,), word),
    ensures
        status == ThreadStatus::Working || status == ThreadStatus::Waiting ==> word@ == "active"@,
        status == ThreadStatus::Error ==> word@ == "error"@,
        status == ThreadStatus::Idle || status == ThreadStatus::Archived ==> word@ == "idle"@,
{
}

/// A thread that works is shown as active exactly where the machine of its environment is
/// connected; where that machine is away it is being reached again, and where there is none it is
/// awaited.
pub proof fn working_threads_show_their_machine(
    status: ThreadStatus,
    environment: Option<&Environment>,
    hosts: Vec<Host>,
    word: &str,
)
    requires
        call_ensures(runtime_display_status, (status, environment, &hosts), word),
    ensures
        status == ThreadStatus::Waiting ==> word@ == "active"@,
        status == ThreadStatus::Error ==> word@ == "error"@,
        status == ThreadStatus::Idle || status == ThreadStatus::Archived ==> word@ == "idle"@,
        status == ThreadStatus::Working && environment is None ==> word@ == "waiting-for-host"@,
        status == ThreadStatus::Working && environment is Some && (forall|i: int| 0 <= i < hosts@.len() ==> (#[trigger] hosts@[i]).id@ != environment->0.host_id@) ==> word@ == "waiting-for-host"@,
        status == ThreadStatus::Working && environment is Some && by_id(hosts@, environment->0.host_id@) is Some && by_id(hosts@, environment->0.host_id@)->0.status == HostStatus::Connected ==> word@ == "active"@,
        status == ThreadStatus::Working && environment is Some && by_id(hosts@, environment->0.host_id@) is Some && by_id(hosts@, environment->0.host_id@)->0.status == HostStatus::Disconnected ==> word@ == "host-reconnecting"@,
{
    if environment is Some && by_id(hosts@, environment->0.host_id@) is Some {
        let i = found_by_id(hosts@, environment->0.host_id@);
        assert(hosts@[i].id@ == environment->0.host_id@);
    }
}

/// A thread is shown with what it is, how it stands, and how many messages wait in its queue.
#[verifier::rlimit(100)]
pub proof fn threads_are_shown(
    thread: Thread,
    queued_messages: u64,
    directory: Directory,
    value: Json,
)
    requires
        call_ensures(thread_summary_value, (&thread, queued_messages, &directory), value),
    ensures
        member(value@, "id"@) == Some(Tree::Str(thread.id@)),
        member(value@, "projectId"@) == Some(Tree::Str(thread.project_id@)),
        member(value@, "environmentId"@) == Some(opt_tree(opt_view(thread.environment_id))),
        member(value@, "title"@) == Some(opt_tree(opt_view(thread.title))),
        member(value@, "titleFallback"@) == Some(opt_tree(opt_view(thread.title))),
        member(value@, "sectionId"@) == Some(opt_tree(opt_view(thread.section_id))),
        member(value@, "parentThreadId"@) == Some(opt_tree(opt_view(thread.parent_thread_id))),
        member(value@, "sourceThreadId"@) == Some(opt_tree(opt_view(thread.source_thread_id))),
        member(value@, "originKind"@) == Some(opt_tree(opt_view(thread.origin_kind))),
        member(value@, "originPluginId"@) == Some(opt_tree(opt_view(thread.origin_plugin_id))),
        member(value@, "visibility"@) == Some(Tree::Str(thread.visibility@)),
        member(value@, "archivedAt"@) == Some(opt_uint_tree(thread.archived_at_ms)),
        member(value@, "pinnedAt"@) == Some(opt_uint_tree(thread.pinned_at_ms)),
        member(value@, "deletedAt"@) == Some(opt_uint_tree(thread.deleted_at_ms)),
        member(value@, "lastReadAt"@) == Some(opt_uint_tree(thread.last_read_at_ms)),
        member(value@, "latestAttentionAt"@) == Some(Tree::UInt(thread.updated_at_ms)),
        member(value@, "createdAt"@) == Some(Tree::UInt(thread.created_at_ms)),
        member(value@, "updatedAt"@) == Some(Tree::UInt(thread.updated_at_ms)),
        thread.provider_id matches Some(provider) ==> member(value@, "providerId"@) == Some(Tree::Str(provider@)),
        thread.provider_id is None && directory.providers@.len() > 0 ==> member(value@, "providerId"@) == Some(Tree::Str(directory.providers@[0].name@)),
        thread.status == ThreadStatus::Working || thread.status == ThreadStatus::Waiting ==> member(value@, "status"@) == Some(Tree::Str("active"@)),
        thread.status == ThreadStatus::Error ==> member(value@, "status"@) == Some(Tree::Str("error"@)),
        thread.status == ThreadStatus::Idle || thread.status == ThreadStatus::Archived ==> member(value@, "status"@) == Some(Tree::Str("idle"@)),
        member(value@, "runtime"@) is Some,
        member(member(value@, "runtime"@)->0, "hostReconnectGraceExpiresAt"@) == Some(Tree::Null),
        member(member(value@, "runtime"@)->0, "displayStatus"@) == Some(Tree::Str(display_status(thread.status, workspace_of(thread, directory.environments@), directory.hosts@))),
        thread.environment_id is None ==> workspace_of(thread, directory.environments@) is None,
        thread.environment_id matches Some(id) ==> workspace_of(thread, directory.environments@) == by_id(directory.environments@, id@),
        member(value@, "activeBackgroundAgentCount"@) == Some(Tree::UInt(0)),
        member(value@, "canSpawnChild"@) == Some(Tree::Bool(true)),
        member(value@, "queuedMessageCount"@) == Some(Tree::UInt(queued_messages)),
{
    broadcast use {crate::json::member_of_field, crate::reply::errors_say_what_is_wrong};

    reveal_strlit("id");
    reveal_strlit("title");
    reveal_strlit("status");
    reveal_strlit("runtime");
    reveal_strlit("pinnedAt");
    reveal_strlit("createdAt");
    reveal_strlit("deletedAt");
    reveal_strlit("projectId");
    reveal_strlit("sectionId");
    reveal_strlit("updatedAt");
    reveal_strlit("archivedAt");
    reveal_strlit("lastReadAt");
    reveal_strlit("originKind");
    reveal_strlit("providerId");
    reveal_strlit("visibility");
    reveal_strlit("canSpawnChild");
    reveal_strlit("displayStatus");
    reveal_strlit("environmentId");
    reveal_strlit("titleFallback");
    reveal_strlit("originPluginId");
    reveal_strlit("parentThreadId");
    reveal_strlit("sourceThreadId");
    reveal_strlit("latestAttentionAt");
    reveal_strlit("queuedMessageCount");
    reveal_strlit("activeBackgroundAgentCount");
    reveal_strlit("hostReconnectGraceExpiresAt");
    assert("id"@.len() == 2);
    assert("title"@.len() == 5);
    assert("status"@.len() == 6);
    assert("runtime"@.len() == 7);
    assert("pinnedAt"@.len() == 8);
    assert("createdAt"@.len() == 9 && "createdAt"@[0] == 'c');
    assert("deletedAt"@.len() == 9 && "deletedAt"@[0] == 'd');
    assert("projectId"@.len() == 9 && "projectId"@[0] == 'p');
    assert("sectionId"@.len() == 9 && "sectionId"@[0] == 's');
    assert("updatedAt"@.len() == 9 && "updatedAt"@[0] == 'u');
    assert("archivedAt"@.len() == 10 && "archivedAt"@[0] == 'a');
    assert("lastReadAt"@.len() == 10 && "lastReadAt"@[0] == 'l');
    assert("originKind"@.len() == 10 && "originKind"@[0] == 'o');
    assert("providerId"@.len() == 10 && "providerId"@[0] == 'p');
    assert("visibility"@.len() == 10 && "visibility"@[0] == 'v');
    assert("canSpawnChild"@.len() == 13 && "canSpawnChild"@[0] == 'c');
    assert("displayStatus"@.len() == 13 && "displayStatus"@[0] == 'd');
    assert("environmentId"@.len() == 13 && "environmentId"@[0] == 'e');
    assert("titleFallback"@.len() == 13 && "titleFallback"@[0] == 't');
    assert("originPluginId"@.len() == 14 && "originPluginId"@[0] == 'o');
    assert("parentThreadId"@.len() == 14 && "parentThreadId"@[0] == 'p');
    assert("sourceThreadId"@.len() == 14 && "sourceThreadId"@[0] == 's');
    assert("latestAttentionAt"@.len() == 17);
    assert("queuedMessageCount"@.len() == 18);
    assert("activeBackgroundAgentCount"@.len() == 26);
    assert("hostReconnectGraceExpiresAt"@.len() == 27);
}

/// An entry of a list shows its thread with what it is and how it stands.
#[verifier::rlimit(100)]
pub proof fn list_entries_show_their_thread(
    record: ThreadRecord,
    directory: Directory,
    value: Json,
)
    requires
        call_ensures(thread_list_entry_value, (&record, &directory), value),
    ensures
        member(value@, "id"@) == Some(Tree::Str(record.thread.id@)),
        member(value@, "projectId"@) == Some(Tree::Str(record.thread.project_id@)),
        member(value@, "environmentId"@) == Some(opt_tree(opt_view(record.thread.environment_id))),
        member(value@, "title"@) == Some(opt_tree(opt_view(record.thread.title))),
        member(value@, "titleFallback"@) == Some(opt_tree(opt_view(record.thread.title))),
        member(value@, "sectionId"@) == Some(opt_tree(opt_view(record.thread.section_id))),
        member(value@, "parentThreadId"@) == Some(opt_tree(opt_view(record.thread.parent_thread_id))),
        member(value@, "sourceThreadId"@) == Some(opt_tree(opt_view(record.thread.source_thread_id))),
        member(value@, "originKind"@) == Some(opt_tree(opt_view(record.thread.origin_kind))),
        member(value@, "originPluginId"@) == Some(opt_tree(opt_view(record.thread.origin_plugin_id))),
        member(value@, "visibility"@) == Some(Tree::Str(record.thread.visibility@)),
        member(value@, "archivedAt"@) == Some(opt_uint_tree(record.thread.archived_at_ms)),
        member(value@, "pinnedAt"@) == Some(opt_uint_tree(record.thread.pinned_at_ms)),
        member(value@, "deletedAt"@) == Some(opt_uint_tree(record.thread.deleted_at_ms)),
        member(value@, "lastReadAt"@) == Some(opt_uint_tree(record.thread.last_read_at_ms)),
        member(value@, "latestAttentionAt"@) == Some(Tree::UInt(record.thread.updated_at_ms)),
        member(value@, "createdAt"@) == Some(Tree::UInt(record.thread.created_at_ms)),
        member(value@, "updatedAt"@) == Some(Tree::UInt(record.thread.updated_at_ms)),
        record.thread.provider_id matches Some(provider) ==> member(value@, "providerId"@) == Some(Tree::Str(provider@)),
        record.thread.provider_id is None && directory.providers@.len() > 0 ==> member(value@, "providerId"@) == Some(Tree::Str(directory.providers@[0].name@)),
        record.thread.status == ThreadStatus::Working || record.thread.status == ThreadStatus::Waiting ==> member(value@, "status"@) == Some(Tree::Str("active"@)),
        record.thread.status == ThreadStatus::Error ==> member(value@, "status"@) == Some(Tree::Str("error"@)),
        record.thread.status == ThreadStatus::Idle || record.thread.status == ThreadStatus::Archived ==> member(value@, "status"@) == Some(Tree::Str("idle"@)),
        member(value@, "runtime"@) is Some,
        member(member(value@, "runtime"@)->0, "hostReconnectGraceExpiresAt"@) == Some(Tree::Null),
        member(member(value@, "runtime"@)->0, "displayStatus"@) == Some(Tree::Str(display_status(record.thread.status, workspace_of(record.thread, directory.environments@), directory.hosts@))),
        record.thread.environment_id is None ==> workspace_of(record.thread, directory.environments@) is None,
        record.thread.environment_id matches Some(id) ==> workspace_of(record.thread, directory.environments@) == by_id(directory.environments@, id@),
{
    broadcast use {crate::json::member_of_field, crate::reply::errors_say_what_is_wrong};

    reveal_strlit("id");
    reveal_strlit("title");
    reveal_strlit("status");
    reveal_strlit("runtime");
    reveal_strlit("activity");
    reveal_strlit("pinnedAt");
    reveal_strlit("createdAt");
    reveal_strlit("deletedAt");
    reveal_strlit("projectId");
    reveal_strlit("sectionId");
    reveal_strlit("updatedAt");
    reveal_strlit("archivedAt");
    reveal_strlit("lastReadAt");
    reveal_strlit("originKind");
    reveal_strlit("pinSortKey");
    reveal_strlit("providerId");
    reveal_strlit("queuedWork");
    reveal_strlit("visibility");
    reveal_strlit("displayStatus");
    reveal_strlit("environmentId");
    reveal_strlit("titleFallback");
    reveal_strlit("originPluginId");
    reveal_strlit("parentThreadId");
    reveal_strlit("sourceThreadId");
    reveal_strlit("activeGoalCount");
    reveal_strlit("environmentName");
    reveal_strlit("environmentPath");
    reveal_strlit("environmentHostId");
    reveal_strlit("latestAttentionAt");
    reveal_strlit("activePlanModeCount");
    reveal_strlit("activeWorkflowCount");
    reveal_strlit("environmentBranchName");
    reveal_strlit("environmentIsWorktree");
    reveal_strlit("environmentProviderId");
    reveal_strlit("hasPendingInteraction");
    reveal_strlit("activeBackgroundAgentCount");
    reveal_strlit("hostReconnectGraceExpiresAt");
    reveal_strlit("activeBackgroundCommandCount");
    reveal_strlit("environmentWorkspaceDisplayKind");
    assert("id"@.len() == 2);
    assert("title"@.len() == 5);
    assert("status"@.len() == 6);
    assert("runtime"@.len() == 7);
    assert("activity"@.len() == 8 && "activity"@[0] == 'a');
    assert("pinnedAt"@.len() == 8 && "pinnedAt"@[0] == 'p');
    assert("createdAt"@.len() == 9 && "createdAt"@[0] == 'c');
    assert("deletedAt"@.len() == 9 && "deletedAt"@[0] == 'd');
    assert("projectId"@.len() == 9 && "projectId"@[0] == 'p');
    assert("sectionId"@.len() == 9 && "sectionId"@[0] == 's');
    assert("updatedAt"@.len() == 9 && "updatedAt"@[0] == 'u');
    assert("archivedAt"@.len() == 10 && "archivedAt"@[3] == 'h');
    assert("lastReadAt"@.len() == 10 && "lastReadAt"@[3] == 't');
    assert("originKind"@.len() == 10 && "originKind"@[3] == 'g');
    assert("pinSortKey"@.len() == 10 && "pinSortKey"@[3] == 'S');
    assert("providerId"@.len() == 10 && "providerId"@[3] == 'v');
    assert("queuedWork"@.len() == 10 && "queuedWork"@[3] == 'u');
    assert("visibility"@.len() == 10 && "visibility"@[3] == 'i');
    assert("displayStatus"@.len() == 13 && "displayStatus"@[0] == 'd');
    assert("environmentId"@.len() == 13 && "environmentId"@[0] == 'e');
    assert("titleFallback"@.len() == 13 && "titleFallback"@[0] == 't');
    assert("originPluginId"@.len() == 14 && "originPluginId"@[0] == 'o');
    assert("parentThreadId"@.len() == 14 && "parentThreadId"@[0] == 'p');
    assert("sourceThreadId"@.len() == 14 && "sourceThreadId"@[0] == 's');
    assert("activeGoalCount"@.len() == 15 && "activeGoalCount"@[11] == 'o');
    assert("environmentName"@.len() == 15 && "environmentName"@[11] == 'N');
    assert("environmentPath"@.len() == 15 && "environmentPath"@[11] == 'P');
    assert("environmentHostId"@.len() == 17 && "environmentHostId"@[0] == 'e');
    assert("latestAttentionAt"@.len() == 17 && "latestAttentionAt"@[0] == 'l');
    assert("activePlanModeCount"@.len() == 19 && "activePlanModeCount"@[6] == 'P');
    assert("activeWorkflowCount"@.len() == 19 && "activeWorkflowCount"@[6] == 'W');
    assert("environmentBranchName"@.len() == 21 && "environmentBranchName"@[11] == 'B');
    assert("environmentIsWorktree"@.len() == 21 && "environmentIsWorktree"@[11] == 'I');
    assert("environmentProviderId"@.len() == 21 && "environmentProviderId"@[11] == 'P');
    assert("hasPendingInteraction"@.len() == 21 && "hasPendingInteraction"@[11] == 'n');
    assert("activeBackgroundAgentCount"@.len() == 26);
    assert("hostReconnectGraceExpiresAt"@.len() == 27);
    assert("activeBackgroundCommandCount"@.len() == 28);
    assert("environmentWorkspaceDisplayKind"@.len() == 31);
}

/// An entry of a list shows what goes on in its thread: a plan, a goal, an open question, failed
/// work, and the workspace.
#[verifier::rlimit(100)]
pub proof fn list_entries_show_what_goes_on(
    record: ThreadRecord,
    directory: Directory,
    value: Json,
)
    requires
        call_ensures(thread_list_entry_value, (&record, &directory), value),
    ensures
        member(value@, "activity"@) is Some,
        member(member(value@, "activity"@)->0, "activeWorkflowCount"@) == Some(Tree::UInt(0)),
        member(member(value@, "activity"@)->0, "activeBackgroundAgentCount"@) == Some(Tree::UInt(0)),
        member(member(value@, "activity"@)->0, "activeBackgroundCommandCount"@) == Some(Tree::UInt(0)),
        plan_shown(record.entries@) ==> member(member(value@, "activity"@)->0, "activePlanModeCount"@) == Some(Tree::UInt(1)),
        !plan_shown(record.entries@) ==> member(member(value@, "activity"@)->0, "activePlanModeCount"@) == Some(Tree::UInt(0)),
        switched_on(record.entries@, "thread/goal/updated"@, "thread/goal/cleared"@) ==> member(member(value@, "activity"@)->0, "activeGoalCount"@) == Some(Tree::UInt(1)),
        !switched_on(record.entries@, "thread/goal/updated"@, "thread/goal/cleared"@) ==> member(member(value@, "activity"@)->0, "activeGoalCount"@) == Some(Tree::UInt(0)),
        record.thread.status == ThreadStatus::Error ==> member(value@, "queuedWork"@) == Some(Tree::Str("failed"@)),
        record.thread.status != ThreadStatus::Error ==> member(value@, "queuedWork"@) == Some(Tree::Str("none"@)),
        member(value@, "pinSortKey"@) == Some(opt_tree(opt_view(record.thread.pin_sort_key))),
        member(value@, "hasPendingInteraction"@) == Some(Tree::Bool(record.has_pending_interaction)),
        member(value@, "environmentBranchName"@) == Some(Tree::Null),
        member(value@, "environmentProviderId"@) == Some(Tree::Null),
        workspace_of(record.thread, directory.environments@) is None ==> member(value@, "environmentHostId"@) == Some(Tree::Null) && member(value@, "environmentName"@) == Some(Tree::Null) && member(value@, "environmentPath"@) == Some(Tree::Null) && member(value@, "environmentIsWorktree"@) == Some(Tree::Null) && member(value@, "environmentWorkspaceDisplayKind"@) == Some(Tree::Str("other"@)),
        workspace_of(record.thread, directory.environments@) matches Some(environment) ==> member(value@, "environmentHostId"@) == Some(Tree::Str(environment.host_id@)) && member(value@, "environmentName"@) == Some(opt_tree(opt_view(environment.name))) && member(value@, "environmentPath"@) == Some(opt_tree(opt_view(environment.path))) && member(value@, "environmentIsWorktree"@) == Some(Tree::Bool(environment.kind == EnvironmentKind::Managed)),
        workspace_of(record.thread, directory.environments@) is Some && workspace_of(record.thread, directory.environments@)->0.kind == EnvironmentKind::Managed ==> member(value@, "environmentWorkspaceDisplayKind"@) == Some(Tree::Str("managed-worktree"@)),
        workspace_of(record.thread, directory.environments@) is Some && workspace_of(record.thread, directory.environments@)->0.kind == EnvironmentKind::Unmanaged ==> member(value@, "environmentWorkspaceDisplayKind"@) == Some(Tree::Str("unmanaged-worktree"@)),
{
    broadcast use {crate::json::member_of_field, crate::reply::errors_say_what_is_wrong};

    reveal_strlit("id");
    reveal_strlit("title");
    reveal_strlit("status");
    reveal_strlit("runtime");
    reveal_strlit("activity");
    reveal_strlit("pinnedAt");
    reveal_strlit("createdAt");
    reveal_strlit("deletedAt");
    reveal_strlit("projectId");
    reveal_strlit("sectionId");
    reveal_strlit("updatedAt");
    reveal_strlit("archivedAt");
    reveal_strlit("lastReadAt");
    reveal_strlit("originKind");
    reveal_strlit("pinSortKey");
    reveal_strlit("providerId");
    reveal_strlit("queuedWork");
    reveal_strlit("visibility");
    reveal_strlit("displayStatus");
    reveal_strlit("environmentId");
    reveal_strlit("titleFallback");
    reveal_strlit("originPluginId");
    reveal_strlit("parentThreadId");
    reveal_strlit("sourceThreadId");
    reveal_strlit("activeGoalCount");
    reveal_strlit("environmentName");
    reveal_strlit("environmentPath");
    reveal_strlit("environmentHostId");
    reveal_strlit("latestAttentionAt");
    reveal_strlit("activePlanModeCount");
    reveal_strlit("activeWorkflowCount");
    reveal_strlit("environmentBranchName");
    reveal_strlit("environmentIsWorktree");
    reveal_strlit("environmentProviderId");
    reveal_strlit("hasPendingInteraction");
    reveal_strlit("activeBackgroundAgentCount");
    reveal_strlit("hostReconnectGraceExpiresAt");
    reveal_strlit("activeBackgroundCommandCount");
    reveal_strlit("environmentWorkspaceDisplayKind");
    assert("id"@.len() == 2);
    assert("title"@.len() == 5);
    assert("status"@.len() == 6);
    assert("runtime"@.len() == 7);
    assert("activity"@.len() == 8 && "activity"@[0] == 'a');
    assert("pinnedAt"@.len() == 8 && "pinnedAt"@[0] == 'p');
    assert("createdAt"@.len() == 9 && "createdAt"@[0] == 'c');
    assert("deletedAt"@.len() == 9 && "deletedAt"@[0] == 'd');
    assert("projectId"@.len() == 9 && "projectId"@[0] == 'p');
    assert("sectionId"@.len() == 9 && "sectionId"@[0] == 's');
    assert("updatedAt"@.len() == 9 && "updatedAt"@[0] == 'u');
    assert("archivedAt"@.len() == 10 && "archivedAt"@[3] == 'h');
    assert("lastReadAt"@.len() == 10 && "lastReadAt"@[3] == 't');
    assert("originKind"@.len() == 10 && "originKind"@[3] == 'g');
    assert("pinSortKey"@.len() == 10 && "pinSortKey"@[3] == 'S');
    assert("providerId"@.len() == 10 && "providerId"@[3] == 'v');
    assert("queuedWork"@.len() == 10 && "queuedWork"@[3] == 'u');
    assert("visibility"@.len() == 10 && "visibility"@[3] == 'i');
    assert("displayStatus"@.len() == 13 && "displayStatus"@[0] == 'd');
    assert("environmentId"@.len() == 13 && "environmentId"@[0] == 'e');
    assert("titleFallback"@.len() == 13 && "titleFallback"@[0] == 't');
    assert("originPluginId"@.len() == 14 && "originPluginId"@[0] == 'o');
    assert("parentThreadId"@.len() == 14 && "parentThreadId"@[0] == 'p');
    assert("sourceThreadId"@.len() == 14 && "sourceThreadId"@[0] == 's');
    assert("activeGoalCount"@.len() == 15 && "activeGoalCount"@[11] == 'o');
    assert("environmentName"@.len() == 15 && "environmentName"@[11] == 'N');
    assert("environmentPath"@.len() == 15 && "environmentPath"@[11] == 'P');
    assert("environmentHostId"@.len() == 17 && "environmentHostId"@[0] == 'e');
    assert("latestAttentionAt"@.len() == 17 && "latestAttentionAt"@[0] == 'l');
    assert("activePlanModeCount"@.len() == 19 && "activePlanModeCount"@[6] == 'P');
    assert("activeWorkflowCount"@.len() == 19 && "activeWorkflowCount"@[6] == 'W');
    assert("environmentBranchName"@.len() == 21 && "environmentBranchName"@[11] == 'B');
    assert("environmentIsWorktree"@.len() == 21 && "environmentIsWorktree"@[11] == 'I');
    assert("environmentProviderId"@.len() == 21 && "environmentProviderId"@[11] == 'P');
    assert("hasPendingInteraction"@.len() == 21 && "hasPendingInteraction"@[11] == 'n');
    assert("activeBackgroundAgentCount"@.len() == 26);
    assert("hostReconnectGraceExpiresAt"@.len() == 27);
    assert("activeBackgroundCommandCount"@.len() == 28);
    assert("environmentWorkspaceDisplayKind"@.len() == 31);
}

/// A project's threads are those of the directory that are the project's, in their order.
pub proof fn projects_show_their_own_threads(
    records: Seq<ThreadRecord>,
    project: Seq<char>,
    directory: Directory,
)
    ensures
        project_rows(records, project, directory) == records.filter(
            |record: ThreadRecord| record.thread.project_id@ == project,
        ).map_values(|record: ThreadRecord| list_entry_tree(record, directory)),
    decreases records.len(),
{
    let own = |record: ThreadRecord| record.thread.project_id@ == project;
    let row = |record: ThreadRecord| list_entry_tree(record, directory);
    reveal(Seq::filter);
    if records.len() == 0 {
        assert(records.filter(own).map_values(row) =~= Seq::<Tree>::empty());
    } else {
        let rest = records.drop_last();
        projects_show_their_own_threads(rest, project, directory);
        if own(records.last()) {
            assert(rest.filter(own).push(records.last()).map_values(row) =~= rest.filter(
                own,
            ).map_values(row).push(row(records.last())));
        }
    }
}

/// The sidebar's projects are those that were not deleted and are not the personal one, in their
/// order.
pub proof fn sidebars_show_living_projects(
    projects: Seq<Project>,
    personal: Seq<char>,
    directory: Directory,
)
    ensures
        sidebar_projects(projects, personal, directory) == projects.filter(
            |project: Project| project.deleted_at_ms is None && project.id@ != personal,
        ).map_values(|project: Project| project_detail_tree(project, directory)),
    decreases projects.len(),
{
    let shown = |project: Project| project.deleted_at_ms is None && project.id@ != personal;
    let row = |project: Project| project_detail_tree(project, directory);
    reveal(Seq::filter);
    if projects.len() == 0 {
        assert(projects.filter(shown).map_values(row) =~= Seq::<Tree>::empty());
    } else {
        let rest = projects.drop_last();
        sidebars_show_living_projects(rest, personal, directory);
        if shown(projects.last()) {
            assert(rest.filter(shown).push(projects.last()).map_values(row) =~= rest.filter(
                shown,
            ).map_values(row).push(row(projects.last())));
        }
    }
}

/// The sidebar's personal project is the first that has its id and was not deleted.
pub proof fn sidebars_show_the_personal_project(
    projects: Seq<Project>,
    personal: Seq<char>,
    directory: Directory,
    i: int,
)
    requires
        0 <= i < projects.len(),
        projects[i].deleted_at_ms is None,
        projects[i].id@ == personal,
        forall|j: int|
            0 <= j < i ==> (#[trigger] projects[j]).deleted_at_ms is Some || projects[j].id@
                != personal,
    ensures
        sidebar_personal(projects, personal, directory) == project_detail_tree(
            projects[i],
            directory,
        ),
    decreases projects.len(),
{
    if i > 0 {
        let rest = projects.drop_first();
        assert(rest[i - 1] == projects[i]);
        assert forall|j: int| 0 <= j < i - 1 implies (#[trigger] rest[j]).deleted_at_ms is Some
            || rest[j].id@ != personal by {
            assert(rest[j] == projects[j + 1]);
        }
        assert(projects[0].deleted_at_ms is Some || projects[0].id@ != personal);
        sidebars_show_the_personal_project(rest, personal, directory, i - 1);
    }
}

/// Where there is no personal project, an empty one stands for it.
pub proof fn missing_personal_projects_are_made_up(
    projects: Seq<Project>,
    personal: Seq<char>,
    directory: Directory,
)
    requires
        forall|j: int| 0 <= j < projects.len() ==> (#[trigger] projects[j]).deleted_at_ms is Some || projects[j].id@ != personal,
    ensures
        member(sidebar_personal(projects, personal, directory), "id"@) == Some(Tree::Str(personal)),
        member(sidebar_personal(projects, personal, directory), "kind"@) == Some(Tree::Str("personal"@)),
        member(sidebar_personal(projects, personal, directory), "name"@) == Some(Tree::Str("Personal"@)),
        member(sidebar_personal(projects, personal, directory), "gitRemoteUrl"@) == Some(Tree::Null),
        member(sidebar_personal(projects, personal, directory), "createdAt"@) == Some(Tree::UInt(0)),
        member(sidebar_personal(projects, personal, directory), "updatedAt"@) == Some(Tree::UInt(0)),
        member(sidebar_personal(projects, personal, directory), "sources"@) == Some(Tree::Array(Seq::empty())),
        member(sidebar_personal(projects, personal, directory), "threads"@) == Some(Tree::Array(Seq::empty())),
        member(sidebar_personal(projects, personal, directory), "defaultExecutionOptions"@) == Some(Tree::Null),
    decreases projects.len(),
{
    broadcast use {crate::json::member_of_field, crate::reply::errors_say_what_is_wrong};

    reveal_strlit("id");
    reveal_strlit("kind");
    reveal_strlit("name");
    reveal_strlit("sources");
    reveal_strlit("threads");
    reveal_strlit("createdAt");
    reveal_strlit("updatedAt");
    reveal_strlit("gitRemoteUrl");
    reveal_strlit("defaultExecutionOptions");
    assert("id"@.len() == 2);
    assert("kind"@.len() == 4 && "kind"@[0] == 'k');
    assert("name"@.len() == 4 && "name"@[0] == 'n');
    assert("sources"@.len() == 7 && "sources"@[0] == 's');
    assert("threads"@.len() == 7 && "threads"@[0] == 't');
    assert("createdAt"@.len() == 9 && "createdAt"@[0] == 'c');
    assert("updatedAt"@.len() == 9 && "updatedAt"@[0] == 'u');
    assert("gitRemoteUrl"@.len() == 12);
    assert("defaultExecutionOptions"@.len() == 23);
    if projects.len() > 0 {
        let rest = projects.drop_first();
        assert forall|j: int| 0 <= j < rest.len() implies (#[trigger] rest[j]).deleted_at_ms is Some
            || rest[j].id@ != personal by {
            assert(rest[j] == projects[j + 1]);
        }
        assert(projects[0].deleted_at_ms is Some || projects[0].id@ != personal);
        missing_personal_projects_are_made_up(rest, personal, directory);
    }
}

/// A project's details are the project with its threads.
pub proof fn project_details_show_threads(
    project: Project,
    directory: Directory,
    value: Json,
    plain: Json,
    key: Seq<char>,
)
    requires
        call_ensures(project_detail_value, (&project, &directory), value),
        call_ensures(project_value, (&project,), plain),
    ensures
        member(value@, "threads"@) == Some(Tree::Array(project_rows(directory.records@, project.id@, directory))),
        member(value@, "defaultExecutionOptions"@) == Some(Tree::Null),
        key != "threads"@ && key != "defaultExecutionOptions"@ ==> member(value@, key) == member(plain@, key),
{
    broadcast use {crate::json::member_of_field, crate::reply::errors_say_what_is_wrong};

    reveal_strlit("threads");
    reveal_strlit("defaultExecutionOptions");
    assert("threads"@.len() == 7);
    assert("defaultExecutionOptions"@.len() == 23);
}

/// A sidebar begins with its sections, the projects and the personal project.
pub proof fn sidebars_begin_with_everything(
    projects: Vec<Project>,
    personal: &str,
    sections: Vec<Json>,
    directory: Directory,
    answer: Reply,
)
    requires
        call_ensures(sidebar_bootstrap, (&projects, personal, sections, &directory), answer),
    ensures
        answer@.status == 200,
        member(answer@.body, "sections"@) == Some(Tree::Array(trees(sections@))),
        member(answer@.body, "projects"@) == Some(Tree::Array(sidebar_projects(projects@, personal@, directory))),
        member(answer@.body, "personalProject"@) == Some(sidebar_personal(projects@, personal@, directory)),
{
    broadcast use {crate::json::member_of_field, crate::reply::errors_say_what_is_wrong};

    reveal_strlit("projects");
    reveal_strlit("sections");
    reveal_strlit("personalProject");
    assert("projects"@.len() == 8 && "projects"@[0] == 'p');
    assert("sections"@.len() == 8 && "sections"@[0] == 's');
    assert("personalProject"@.len() == 15);
}

/// The version is shown as it is; nothing newer is known of.
pub proof fn versions_are_shown(current: &str, answer: Reply)
    requires
        call_ensures(system_version, (current,), answer),
    ensures
        answer@.status == 200,
        member(answer@.body, "currentVersion"@) == Some(Tree::Str(current@)),
        member(answer@.body, "latestVersion"@) == Some(Tree::Null),
        member(answer@.body, "source"@) == Some(Tree::Str("npm"@)),
        member(answer@.body, "updateAvailable"@) == Some(Tree::Bool(false)),
        member(answer@.body, "isDevelopment"@) == Some(Tree::Bool(true)),
        member(answer@.body, "upgradeCommand"@) == Some(Tree::Str(""@)),
{
    broadcast use {crate::json::member_of_field, crate::reply::errors_say_what_is_wrong};

    reveal_strlit("source");
    reveal_strlit("isDevelopment");
    reveal_strlit("latestVersion");
    reveal_strlit("currentVersion");
    reveal_strlit("upgradeCommand");
    reveal_strlit("updateAvailable");
    assert("source"@.len() == 6);
    assert("isDevelopment"@.len() == 13 && "isDevelopment"@[0] == 'i');
    assert("latestVersion"@.len() == 13 && "latestVersion"@[0] == 'l');
    assert("currentVersion"@.len() == 14 && "currentVersion"@[0] == 'c');
    assert("upgradeCommand"@.len() == 14 && "upgradeCommand"@[0] == 'u');
    assert("updateAvailable"@.len() == 15);
}

} // verus!
