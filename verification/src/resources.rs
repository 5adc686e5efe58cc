//! Projects, workspaces, machines and replays as resources that clients ask for.

use vstd::prelude::*;

use crate::domain::{Environment, EnvironmentKind, Host, Project, ProjectSource};
use crate::json::{json_parse, member, object, trees, Fields, Json, Tree};
use crate::projections::{
    environment_tree, environment_value, host_tree, host_value, list_entry_tree,
    project_source_value, project_tree, project_value, source_tree, thread_list_entry_value,
    Directory, ThreadRecord,
};
use crate::reply::{
    command_error_response, debug_quoted, error_response, ok, ok_view, plain_error, quoted,
    refuses, CommandError, Reply, ReplyView,
};
use crate::runs::{selected, RunRecord, RunRegistry};
use crate::text::{copy_opt, joined, joined3, opt_view, same_text};
use crate::wire::{names_something, parse_scope, replayed_frame, utf8_lossy, Scope};

verus! {

/// The rows of every thread.
pub fn list_threads(directory: &Directory) -> (result: Reply)
    ensures
        result@ == ok_view(
            Tree::Array(
                Seq::new(
                    directory.records@.len(),
                    |i: int| list_entry_tree(directory.records@[i], *directory),
                ),
            ),
        ),
{
    let mut rows: Vec<Json> = Vec::new();
    for i in 0..directory.records.len()
        invariant
            rows@.len() == i,
            forall|k: int|
                0 <= k < i ==> (#[trigger] rows@[k])@ == list_entry_tree(
                    directory.records@[k],
                    *directory,
                ),
    {
        rows.push(thread_list_entry_value(&directory.records[i], directory));
    }
    assert(trees(rows@) =~= Seq::new(
        directory.records@.len(),
        |i: int| list_entry_tree(directory.records@[i], *directory),
    ));
    ok(Json::array(rows))
}

/// Every machine.
pub fn list_hosts(hosts: &Vec<Host>) -> (result: Reply)
    ensures
        result@ == ok_view(Tree::Array(Seq::new(hosts@.len(), |i: int| host_tree(hosts@[i])))),
{
    let mut rows: Vec<Json> = Vec::new();
    for i in 0..hosts.len()
        invariant
            rows@.len() == i,
            forall|k: int| 0 <= k < i ==> (#[trigger] rows@[k])@ == host_tree(hosts@[k]),
    {
        rows.push(host_value(&hosts[i]));
    }
    assert(trees(rows@) =~= Seq::new(hosts@.len(), |i: int| host_tree(hosts@[i])));
    ok(Json::array(rows))
}

/// The answer to a machine that was detached.
pub fn host_disconnected(host_id: &str) -> (result: Reply)
    ensures
        result@ == ok_view(object().field("host_id"@, Tree::Str(host_id@))),
{
    ok(Fields::new().with("host_id", Json::text(host_id)).object())
}

/// The projects but for the personal one, which is a scope of its own.
pub open spec fn listed_projects(projects: Seq<Project>, personal: Seq<char>) -> Seq<Tree>
    decreases projects.len(),
{
    if projects.len() == 0 {
        Seq::empty()
    } else {
        let before = listed_projects(projects.drop_last(), personal);
        if projects.last().id@ != personal {
            before.push(project_tree(projects.last()))
        } else {
            before
        }
    }
}

/// The projects but for the personal one.
pub fn list_projects(projects: &Vec<Project>, personal: &str) -> (result: Reply)
    ensures
        result@ == ok_view(Tree::Array(listed_projects(projects@, personal@))),
{
    let mut rows: Vec<Json> = Vec::new();
    assert(projects@.take(0) =~= Seq::<Project>::empty());
    assert(trees(rows@) =~= Seq::<Tree>::empty());
    for i in 0..projects.len()
        invariant
            trees(rows@) == listed_projects(projects@.take(i as int), personal@),
    {
        let ghost before = trees(rows@);
        assert(projects@.take(i + 1).drop_last() =~= projects@.take(i as int));
        assert(projects@.take(i + 1).last() == projects@[i as int]);
        if !same_text(projects[i].id.as_str(), personal) {
            rows.push(project_value(&projects[i]));
            assert(trees(rows@) =~= before.push(project_tree(projects@[i as int])));
        }
    }
    assert(projects@.take(projects@.len() as int) =~= projects@);
    ok(Json::array(rows))
}

/// The answer that a project is not known.
pub open spec fn unknown_project(project_id: Seq<char>) -> ReplyView {
    plain_error(404, "project "@ + project_id + " is not known"@)
}

/// The answer that a project is not known.
fn project_not_known(project_id: &str) -> (result: Reply)
    ensures
        result@ == unknown_project(project_id@),
{
    error_response(404, joined3("project ", project_id, " is not known"))
}

/// One project.
pub fn get_project(project: &Option<Project>, project_id: &str) -> (result: Reply)
    ensures
        result@ == (match *project {
            Some(project) => ok_view(project_tree(project)),
            None => unknown_project(project_id@),
        }),
{
    match project {
        Some(project) => ok(project_value(project)),
        None => project_not_known(project_id),
    }
}

/// A change of a project.
#[derive(Debug, PartialEq, Eq)]
pub struct UpdateProjectRequest {
    /// A new name.
    pub name: Option<String>,
}

/// The new name of a project, or why the change is refused: it names nothing to change, or no
/// project that is known.
pub fn update_project(
    request: UpdateProjectRequest,
    project: &Option<Project>,
    project_id: &str,
) -> (result: Result<String, Reply>)
    ensures
        match request.name {
            None => result matches Err(reply) && reply@ == plain_error(400, "provide a name"@),
            Some(name) => match *project {
                None => result matches Err(reply) && reply@ == unknown_project(project_id@),
                Some(_) => result == Ok::<String, Reply>(name),
            },
        },
{
    match request.name {
        None => Err(error_response(400, "provide a name".to_owned())),
        Some(name) => match project {
            None => Err(project_not_known(project_id)),
            Some(_) => Ok(name),
        },
    }
}

/// The answer to a project that was created.
pub fn project_created(project: &Project) -> (result: Reply)
    ensures
        result@ == (ReplyView { status: 201, body: project_tree(*project) }),
{
    Reply { status: 201, body: project_value(project) }
}

/// The answer to a directory that was added to a project: the last that it has.
pub fn source_added(project: &Project) -> (result: Reply)
    requires
        project.sources@.len() > 0,
    ensures
        result@ == (ReplyView { status: 201, body: source_tree(project.sources@.last()) }),
{
    let source: &ProjectSource = &project.sources[project.sources.len() - 1];
    Reply { status: 201, body: project_source_value(source) }
}

/// The answer that a directory is none of a project's.
pub fn source_not_found(source_id: &str, project_id: &str) -> (result: Reply)
    ensures
        result@ == plain_error(
            404,
            "source "@ + source_id@ + " is not part of project "@ + project_id@,
        ),
{
    let mut problem: String = joined3("source ", source_id, " is not part of project ");
    problem.append(project_id);
    error_response(404, problem)
}

/// Where a project's code is, or will be.
#[allow(inconsistent_fields)]
#[derive(Debug, PartialEq, Eq)]
pub enum CreateProjectSource {
    /// A directory that exists.
    LocalPath {
        /// The machine.
        host_id: String,
        /// The directory.
        path: String,
    },
    /// A repository to be checked out later.
    Clone {
        /// The machine.
        host_id: String,
        /// Where it is published.
        remote_url: Option<String>,
        /// The directory that it goes to.
        target_path: Option<String>,
    },
}

impl CreateProjectSource {
    /// The machine.
    pub fn host_id(&self) -> (result: String)
        ensures
            result == (match *self {
                CreateProjectSource::LocalPath { host_id, .. } => host_id,
                CreateProjectSource::Clone { host_id, .. } => host_id,
            }),
    {
        match self {
            CreateProjectSource::LocalPath { host_id, .. } => host_id.clone(),
            CreateProjectSource::Clone { host_id, .. } => host_id.clone(),
        }
    }

    /// The directory, empty where none is named yet.
    pub fn path(&self) -> (result: String)
        ensures
            result@ == (match *self {
                CreateProjectSource::LocalPath { path, .. } => path@,
                CreateProjectSource::Clone { target_path, .. } => match target_path {
                    Some(path) => path@,
                    None => ""@,
                },
            }),
    {
        match self {
            CreateProjectSource::LocalPath { path, .. } => path.clone(),
            CreateProjectSource::Clone { target_path, .. } => match target_path {
                Some(path) => path.clone(),
                None => "".to_owned(),
            },
        }
    }

    /// Where the repository is published, where it is to be checked out.
    pub fn remote_url(&self) -> (result: Option<String>)
        ensures
            result == (match *self {
                CreateProjectSource::LocalPath { .. } => None,
                CreateProjectSource::Clone { remote_url, .. } => remote_url,
            }),
    {
        match self {
            CreateProjectSource::LocalPath { .. } => None,
            CreateProjectSource::Clone { remote_url, .. } => copy_opt(remote_url),
        }
    }
}

/// Whether a path begins with a separator, or with a drive letter.
pub open spec fn may_be_absolute(path: Seq<char>) -> bool {
    path.len() > 0 && (path[0] == '/' || path[0] == '\\' || (path.len() >= 3 && path[1] == ':'))
}

/// `std::path::Path::is_absolute`. What is absolute differs from platform to platform; stated is
/// that on all of them an absolute path begins with a separator, or with a drive letter.
#[verifier::external_body]
fn is_absolute(path: &str) -> (result: bool)
    ensures
        result ==> may_be_absolute(path@),
{
    std::path::Path::new(path).is_absolute()
}

/// A request to create a workspace.
#[derive(Debug, PartialEq, Eq)]
pub struct CreateEnvironmentRequest {
    /// Who owns the directory.
    pub kind: EnvironmentKind,
    /// The machine, where one is named.
    pub host_id: Option<String>,
    /// The directory, where one is named.
    pub path: Option<String>,
}

/// Why a workspace is refused: no machine can hold it, or the directory that it is to use is not
/// named, or not absolute. Whether the directory exists only its machine can say.
pub open spec fn environment_refusal(
    request: CreateEnvironmentRequest,
    primary: Option<String>,
    absolute: bool,
) -> Option<ReplyView> {
    if request.host_id is None && primary is None {
        Some(
            plain_error(
                409,
                "no host is available to own the environment; enroll a worker first"@,
            ),
        )
    } else if request.kind is Unmanaged {
        match request.path {
            None => Some(plain_error(400, "an unmanaged environment requires a path"@)),
            Some(path) => if !absolute {
                Some(plain_error(400, "path "@ + debug_quoted(path@) + " must be absolute"@))
            } else {
                None
            },
        }
    } else {
        None
    }
}

/// The machine of a new workspace, or why the workspace is refused, given whether the directory
/// that it names is absolute.
pub fn place_environment(
    request: &CreateEnvironmentRequest,
    primary: &Option<String>,
    absolute: bool,
) -> (result: Result<String, Reply>)
    ensures
        match environment_refusal(*request, *primary, absolute) {
            Some(refusal) => result matches Err(reply) && reply@ == refusal,
            None => result matches Ok(host) && Some(host) == (match request.host_id {
                Some(host) => Some(host),
                None => *primary,
            }),
        },
{
    let host: String = match &request.host_id {
        Some(host) => host.clone(),
        None => match primary {
            Some(host) => host.clone(),
            None => {
                return Err(
                    error_response(
                        409,
                        "no host is available to own the environment; enroll a worker first".to_owned(),
                    ),
                );
            },
        },
    };
    if matches!(request.kind, EnvironmentKind::Unmanaged) {
        match &request.path {
            None => {
                return Err(
                    error_response(400, "an unmanaged environment requires a path".to_owned()),
                );
            },
            Some(path) => {
                if !absolute {
                    let shown: String = quoted(path.as_str());
                    return Err(
                        error_response(400, joined3("path ", shown.as_str(), " must be absolute")),
                    );
                }
            },
        }
    }
    Ok(host)
}

/// The machine of a new workspace, or why the workspace is refused.
pub fn create_environment(request: &CreateEnvironmentRequest, primary: &Option<String>) -> (result:
    Result<String, Reply>)
    ensures
        exists|absolute: bool|
            (absolute ==> request.path is Some && may_be_absolute(request.path->0@)) && match
                #[trigger] environment_refusal(*request, *primary, absolute) {
                Some(refusal) => result matches Err(reply) && reply@ == refusal,
                None => result matches Ok(host) && Some(host) == (match request.host_id {
                    Some(host) => Some(host),
                    None => *primary,
                }),
            },
{
    let absolute: bool = match &request.path {
        Some(path) => is_absolute(path.as_str()),
        None => false,
    };
    let result: Result<String, Reply> = place_environment(request, primary, absolute);
    proof {
        let refusal = environment_refusal(*request, *primary, absolute);
        assert(refusal is Some ==> result is Err);
    }
    result
}

/// The filter of a list of workspaces.
#[derive(Debug, PartialEq, Eq)]
pub struct EnvironmentListQuery {
    /// The project, where one is named.
    pub project_id: Option<String>,
}

/// Whether a list is of one project: an empty id names none.
pub open spec fn filter_of(query: EnvironmentListQuery) -> Option<Seq<char>> {
    match query.project_id {
        Some(id) => if id@.len() == 0 {
            None
        } else {
            Some(id@)
        },
        None => None,
    }
}

/// The workspaces of a project, or all.
pub open spec fn listed_environments(
    environments: Seq<Environment>,
    project: Option<Seq<char>>,
) -> Seq<Tree>
    decreases environments.len(),
{
    if environments.len() == 0 {
        Seq::empty()
    } else {
        let before = listed_environments(environments.drop_last(), project);
        if project is None || environments.last().project_id@ == project->0 {
            before.push(environment_tree(environments.last()))
        } else {
            before
        }
    }
}

/// The workspaces of a project, or all.
pub fn list_environments(query: &EnvironmentListQuery, environments: &Vec<Environment>) -> (result:
    Reply)
    ensures
        result@ == ok_view(Tree::Array(listed_environments(environments@, filter_of(*query)))),
{
    let filter: Option<&String> = match &query.project_id {
        Some(id) => if same_text(id.as_str(), "") {
            proof {
                reveal_strlit("");
            }
            None
        } else {
            proof {
                reveal_strlit("");
                if id@.len() == 0 {
                    assert(id@ =~= ""@);
                }
            }
            Some(id)
        },
        None => None,
    };
    let ghost wanted = filter_of(*query);
    assert(match filter {
        Some(id) => wanted == Some(id@),
        None => wanted is None,
    });
    let mut rows: Vec<Json> = Vec::new();
    assert(environments@.take(0) =~= Seq::<Environment>::empty());
    assert(trees(rows@) =~= Seq::<Tree>::empty());
    for i in 0..environments.len()
        invariant
            match filter {
                Some(id) => wanted == Some(id@),
                None => wanted is None,
            },
            trees(rows@) == listed_environments(environments@.take(i as int), wanted),
    {
        let ghost before = trees(rows@);
        assert(environments@.take(i + 1).drop_last() =~= environments@.take(i as int));
        assert(environments@.take(i + 1).last() == environments@[i as int]);
        let shown: bool = match filter {
            Some(id) => same_text(environments[i].project_id.as_str(), id.as_str()),
            None => true,
        };
        if shown {
            rows.push(environment_value(&environments[i]));
            assert(trees(rows@) =~= before.push(environment_tree(environments@[i as int])));
        }
    }
    assert(environments@.take(environments@.len() as int) =~= environments@);
    ok(Json::array(rows))
}

/// One workspace.
pub fn get_environment(environment: &Option<Environment>, environment_id: &str) -> (result: Reply)
    ensures
        result@ == (match *environment {
            Some(environment) => ok_view(environment_tree(environment)),
            None => plain_error(404, "environment "@ + environment_id@ + " is not known"@),
        }),
{
    match environment {
        Some(environment) => ok(environment_value(environment)),
        None => error_response(
            404,
            joined3("environment ", environment_id, " is not known"),
        ),
    }
}

/// What became of an attempt to provision a workspace.
#[derive(Debug, PartialEq, Eq)]
pub enum ProvisionOutcome {
    /// Its machine was asked.
    Dispatched,
    /// There is no such workspace.
    Unknown,
    /// It is not one that can be provisioned.
    NotProvisionable {
        /// The workspace.
        environment: Environment,
        /// Why.
        reason: String,
        /// How the domain words that its status does not lead to provisioning.
        illegal_transition: String,
    },
    /// Its machine could not be asked.
    PublishFailed {
        /// The status that it has now.
        status: String,
        /// Why.
        error: String,
    },
}

/// Why a workspace was not provisioned, where it was not.
pub fn provision_refusal(environment_id: &str, outcome: ProvisionOutcome) -> (result: Option<Reply>)
    ensures
        match outcome {
            ProvisionOutcome::Dispatched => result is None,
            ProvisionOutcome::Unknown => result matches Some(reply) && reply@ == plain_error(
                404,
                "environment "@ + environment_id@ + " is not known"@,
            ),
            ProvisionOutcome::NotProvisionable { environment, reason, illegal_transition } => result matches Some(
                reply,
            ) && reply@ == plain_error(
                409,
                if environment.spec_is_destroyed() {
                    illegal_transition@
                } else {
                    reason@
                },
            ),
            ProvisionOutcome::PublishFailed { status, error } => result matches Some(reply)
                && reply@ == plain_error(
                500,
                "could not dispatch provisioning: "@ + error@ + "; environment is "@ + status@,
            ),
        },
{
    match outcome {
        ProvisionOutcome::Dispatched => None,
        ProvisionOutcome::Unknown => Some(
            error_response(404, joined3("environment ", environment_id, " is not known")),
        ),
        ProvisionOutcome::NotProvisionable { environment, reason, illegal_transition } => {
            if environment.is_destroyed() {
                Some(command_error_response(CommandError::Domain(illegal_transition)))
            } else {
                Some(error_response(409, reason))
            }
        },
        ProvisionOutcome::PublishFailed { status, error } => {
            let mut problem: String = joined3(
                "could not dispatch provisioning: ",
                error.as_str(),
                "; environment is ",
            );
            problem.append(status.as_str());
            Some(error_response(500, problem))
        },
    }
}

/// Where the machine that queries go to came from.
#[derive(Clone, Copy, Debug, PartialEq, Eq, Structural)]
pub enum PrimaryHostSource {
    /// It is the server's own, and attached.
    Local,
    /// It is another that is attached.
    Remote,
    /// There is none, which is no error.
    NoHost,
}

impl PrimaryHostSource {
    /// The wire word.
    pub open spec fn spec_as_str(self) -> Seq<char> {
        match self {
            PrimaryHostSource::Local => "local"@,
            PrimaryHostSource::Remote => "remote"@,
            PrimaryHostSource::NoHost => "no_host"@,
        }
    }

    /// The wire word.
    pub fn as_str(self) -> (result: &'static str)
        ensures
            result@ == self.spec_as_str(),
    {
        match self {
            PrimaryHostSource::Local => "local",
            PrimaryHostSource::Remote => "remote",
            PrimaryHostSource::NoHost => "no_host",
        }
    }
}

/// Where the machine that queries go to came from.
pub open spec fn source_of(host: Option<Host>, local: Option<Seq<char>>) -> PrimaryHostSource {
    match host {
        None => PrimaryHostSource::NoHost,
        Some(host) => if local == Some(host.id@) {
            PrimaryHostSource::Local
        } else {
            PrimaryHostSource::Remote
        },
    }
}

/// Where the machine that queries go to came from.
pub fn primary_host_source(host: &Option<Host>, local: &Option<String>) -> (result:
    PrimaryHostSource)
    ensures
        result == source_of(*host, opt_view(*local)),
{
    match host {
        None => PrimaryHostSource::NoHost,
        Some(host) => match local {
            Some(own) => if same_text(own.as_str(), host.id.as_str()) {
                PrimaryHostSource::Local
            } else {
                PrimaryHostSource::Remote
            },
            None => PrimaryHostSource::Remote,
        },
    }
}

/// The machine that queries go to. This never fails: where there is no machine the answer says so.
pub fn primary_host(host: &Option<Host>, local: &Option<String>) -> (result: Reply)
    ensures
        result@ == ok_view(
            object().field(
                "host"@,
                match *host {
                    Some(host) => host_tree(host),
                    None => Tree::Null,
                },
            ).field("source"@, Tree::Str(source_of(*host, opt_view(*local)).spec_as_str())),
        ),
{
    let source: PrimaryHostSource = primary_host_source(host, local);
    let shown: Json = match host {
        Some(host) => host_value(host),
        None => Json::Null,
    };
    ok(Fields::new().with("host", shown).with("source", Json::text(source.as_str())).object())
}

/// The answer to a machine that was enrolled, with the event that it made, or none where it was
/// known.
pub fn host_registered(host: &Host, event_id: &str) -> (result: Reply)
    ensures
        result@ == ok_view(
            object().field("host"@, host_tree(*host)).field("event_id"@, Tree::Str(event_id@)),
        ),
{
    ok(Fields::new().with("host", host_value(host)).with("event_id", Json::text(event_id)).object())
}

/// An event that was published.
#[derive(Debug, PartialEq, Eq)]
pub struct PublishedEvent {
    /// Its place in the log.
    pub event_id: String,
    /// What it says.
    pub event_type: String,
    /// Where it was published.
    pub scope: Scope,
}

/// Events that were published, on the wire.
pub open spec fn published_trees(events: Seq<PublishedEvent>) -> Seq<Tree> {
    Seq::new(
        events.len(),
        |i: int|
            object().field("event_id"@, Tree::Str(events[i].event_id@)).field(
                "event_type"@,
                Tree::Str(events[i].event_type@),
            ).field("scope"@, events[i].scope.tree()),
    )
}

/// The answer to a message that was added to a thread: the events that it made.
pub fn message_posted(thread_id: &str, events: &Vec<PublishedEvent>) -> (result: Reply)
    ensures
        result@ == ok_view(
            object().field("thread_id"@, Tree::Str(thread_id@)).field(
                "events"@,
                Tree::Array(published_trees(events@)),
            ),
        ),
{
    let mut rows: Vec<Json> = Vec::new();
    for i in 0..events.len()
        invariant
            trees(rows@) =~= published_trees(events@).take(i as int),
    {
        let event: &PublishedEvent = &events[i];
        let ghost before = trees(rows@);
        let row: Json = Fields::new().with("event_id", Json::text(event.event_id.as_str())).with(
            "event_type",
            Json::text(event.event_type.as_str()),
        ).with("scope", event.scope.to_json()).object();
        assert(row@ == published_trees(events@)[i as int]);
        rows.push(row);
        assert(trees(rows@) =~= before.push(row@));
    }
    assert(trees(rows@) =~= published_trees(events@));
    ok(
        Fields::new().with("thread_id", Json::text(thread_id)).with(
            "events",
            Json::array(rows),
        ).object(),
    )
}

/// The runs in flight.
#[derive(Debug, PartialEq, Eq)]
pub struct RunListResponse {
    /// The runs, in the order of their ids.
    pub runs: Vec<RunRecord>,
}

/// The runs in flight.
pub fn list_runs(registry: &RunRegistry) -> (result: RunListResponse)
    requires
        registry.wf(),
    ensures
        selected(registry@, |record: RunRecord| true, result.runs@),
{
    RunListResponse { runs: registry.all() }
}

/// A request to replay a scope.
#[derive(Debug, PartialEq, Eq)]
pub struct ReplayQuery {
    /// The kind of the scope.
    pub scope_kind: String,
    /// Its id, for every kind but the global one.
    pub scope_id: Option<String>,
    /// The most frames to answer with.
    pub limit: Option<u64>,
    /// The event to replay from, where the client has one.
    pub since: Option<String>,
}

/// What is to be read for a replay.
#[derive(Debug, PartialEq, Eq)]
pub struct ReplayPlan {
    /// The scope.
    pub scope: Scope,
    /// The event that was seen last: with one, the oldest frames after it are read, without, the
    /// newest.
    pub cursor: Option<String>,
    /// The most frames.
    pub limit: u64,
}

/// The most frames of a replay.
pub open spec fn replay_limit(limit: Option<u64>) -> u64 {
    match limit {
        None => 100,
        Some(n) => if n < 1 {
            1
        } else if n > 10_000 {
            10_000
        } else {
            n
        },
    }
}

/// What is to be read for a replay, or why the request is refused: the scope first, then the
/// event, which was read from its text or refused.
pub fn replay_plan(query: &ReplayQuery, cursor: Result<Option<String>, String>) -> (result: Result<
    ReplayPlan,
    Reply,
>)
    ensures
        ({
            let kind = query.scope_kind@;
            let known = kind == "global"@ || (names_something(kind) && query.scope_id is Some
                && query.scope_id->0@.len() > 0);
            if !known {
                result matches Err(reply) && reply@ == plain_error(
                    400,
                    if names_something(kind) {
                        "scope id is required for kind \""@ + kind + "\""@
                    } else {
                        "unknown scope kind \""@ + kind + "\""@
                    },
                )
            } else {
                match cursor {
                    Err(problem) => result matches Err(reply) && reply@ == plain_error(
                        400,
                        "invalid since cursor: "@ + problem@,
                    ),
                    Ok(cursor) => result matches Ok(plan) && plan.scope.kind() == kind && (kind
                        == "global"@ || plan.scope.named() == opt_view(query.scope_id))
                        && plan.cursor == cursor && plan.limit == replay_limit(query.limit),
                }
            }
        }),
{
    let scope: Scope = match parse_scope(query.scope_kind.as_str(), &query.scope_id) {
        Ok(scope) => scope,
        Err(problem) => {
            return Err(error_response(400, problem));
        },
    };
    let cursor: Option<String> = match cursor {
        Ok(cursor) => cursor,
        Err(problem) => {
            return Err(error_response(400, joined("invalid since cursor: ", problem.as_str())));
        },
    };
    let limit: u64 = match query.limit {
        None => 100,
        Some(n) => if n < 1 {
            1
        } else if n > 10_000 {
            10_000
        } else {
            n
        },
    };
    Ok(ReplayPlan { scope, cursor, limit })
}

/// A stored frame as a replay hands it out.
pub open spec fn replayed(payload: Seq<u8>) -> Tree {
    match json_parse(payload) {
        Some(value) => value,
        None => Tree::Str(utf8_lossy(payload)),
    }
}

/// The frames of a replay, as a socket would have delivered them.
pub fn replay_response(payloads: &Vec<Vec<u8>>, has_more: bool) -> (result: Reply)
    ensures
        result@ == ok_view(
            object().field(
                "frames"@,
                Tree::Array(Seq::new(payloads@.len(), |i: int| replayed(payloads@[i]@))),
            ).field("has_more"@, Tree::Bool(has_more)),
        ),
{
    let mut frames: Vec<Json> = Vec::new();
    for i in 0..payloads.len()
        invariant
            frames@.len() == i,
            forall|k: int| 0 <= k < i ==> (#[trigger] frames@[k])@ == replayed(payloads@[k]@),
    {
        frames.push(replayed_frame(payloads[i].as_slice()));
    }
    assert(trees(frames@) =~= Seq::new(payloads@.len(), |i: int| replayed(payloads@[i]@)));
    ok(
        Fields::new().with("frames", Json::array(frames)).with(
            "has_more",
            Json::Bool(has_more),
        ).object(),
    )
}

/// The answer to a frame that was published.
pub fn publish_response(event_id: &str, scope: &Scope, created_at_ms: u64) -> (result: Reply)
    ensures
        result@ == ok_view(
            object().field("event_id"@, Tree::Str(event_id@))
                .field("scope"@, scope.tree())
                .field("created_at_ms"@, Tree::UInt(created_at_ms)),
        ),
{
    ok(
        Fields::new().with("event_id", Json::text(event_id))
            .with("scope", scope.to_json())
            .with("created_at_ms", Json::UInt(created_at_ms))
            .object(),
    )
}

// What is answered of the resources.

/// Every thread is listed, in its order, as an entry of a list.
pub proof fn threads_are_listed_in_order(directory: Directory, answer: Reply)
    requires
        call_ensures(list_threads, (&directory,), answer),
    ensures
        answer@.status == 200,
        answer@.body == Tree::Array(directory.records@.map_values(|record: ThreadRecord| list_entry_tree(record, directory))),
{
    assert(answer@.body->Array_0 =~= directory.records@.map_values(
        |record: ThreadRecord| list_entry_tree(record, directory),
    ));
}

/// Every machine is listed, in its order.
pub proof fn machines_are_listed_in_order(hosts: Vec<Host>, answer: Reply)
    requires
        call_ensures(list_hosts, (&hosts,), answer),
    ensures
        answer@.status == 200,
        answer@.body == Tree::Array(hosts@.map_values(|host: Host| host_tree(host))),
{
    assert(answer@.body->Array_0 =~= hosts@.map_values(|host: Host| host_tree(host)));
}

/// A machine that was detached is named.
pub proof fn detached_machines_are_named(host_id: &str, answer: Reply)
    requires
        call_ensures(host_disconnected, (host_id,), answer),
    ensures
        answer@.status == 200,
        member(answer@.body, "host_id"@) == Some(Tree::Str(host_id@)),
{
    broadcast use {crate::json::member_of_field, crate::reply::errors_say_what_is_wrong};

    reveal_strlit("host_id");
    assert("host_id"@.len() == 7);
}

/// Every project but the personal one is listed, in its order.
pub proof fn projects_are_listed_without_the_personal_one(
    projects: Seq<Project>,
    personal: Seq<char>,
)
    ensures
        listed_projects(projects, personal) == projects.filter(|project: Project| project.id@ != personal).map_values(|project: Project| project_tree(project)),
    decreases projects.len(),
{
    let kept = |project: Project| project.id@ != personal;
    let row = |project: Project| project_tree(project);
    reveal(Seq::filter);
    if projects.len() == 0 {
        assert(projects.filter(kept).map_values(row) =~= Seq::<Tree>::empty());
    } else {
        let rest = projects.drop_last();
        projects_are_listed_without_the_personal_one(rest, personal);
        if kept(projects.last()) {
            assert(rest.filter(kept).push(projects.last()).map_values(row) =~= rest.filter(kept).map_values(row).push(row(projects.last())));
        }
    }
}

/// The projects are answered as they are listed.
pub proof fn projects_are_answered(
    projects: Vec<Project>,
    personal: &str,
    answer: Reply,
)
    requires
        call_ensures(list_projects, (&projects, personal), answer),
    ensures
        answer@.status == 200,
        answer@.body == Tree::Array(listed_projects(projects@, personal@)),
{
}

/// A known project is answered as it is, and one that is not known is not found.
pub proof fn known_projects_are_answered(
    project: Option<Project>,
    project_id: &str,
    answer: Reply,
)
    requires
        call_ensures(get_project, (&project, project_id), answer),
    ensures
        project matches Some(known) ==> answer@.status == 200 && answer@.body == project_tree(known),
        project is None ==> refuses(answer@, 404, "not_found"@, "project "@ + project_id@ + " is not known"@),
{
    broadcast use {crate::json::member_of_field, crate::reply::errors_say_what_is_wrong};

}

/// A known project takes the name that is given; without a name there is nothing to do, and one
/// that is not known is not found.
pub proof fn projects_are_renamed(
    request: UpdateProjectRequest,
    project: Option<Project>,
    project_id: &str,
    answer: Result<String, Reply>,
)
    requires
        call_ensures(update_project, (request, &project, project_id), answer),
    ensures
        answer is Ok <==> request.name is Some && project is Some,
        answer is Ok ==> request.name == Some(answer->Ok_0),
        request.name is None ==> refuses(answer->Err_0@, 400, "invalid_request"@, "provide a name"@),
        request.name is Some && project is None ==> refuses(answer->Err_0@, 404, "not_found"@, "project "@ + project_id@ + " is not known"@),
{
    broadcast use {crate::json::member_of_field, crate::reply::errors_say_what_is_wrong};

}

/// A new project is answered as created, and so is a project's new source, which is its last.
pub proof fn created_things_are_answered(
    project: Project,
    created: Reply,
    added: Reply,
)
    requires
        call_ensures(project_created, (&project,), created),
        call_ensures(source_added, (&project,), added),
        project.sources@.len() > 0,
    ensures
        created@.status == 201,
        created@.body == project_tree(project),
        added@.status == 201,
        added@.body == source_tree(project.sources@[project.sources@.len() - 1]),
{
}

/// A source that is not the project's is not found.
pub proof fn missing_sources_are_named(
    source_id: &str,
    project_id: &str,
    answer: Reply,
)
    requires
        call_ensures(source_not_found, (source_id, project_id), answer),
    ensures
        refuses(answer@, 404, "not_found"@, "source "@ + source_id@ + " is not part of project "@ + project_id@),
{
    broadcast use {crate::json::member_of_field, crate::reply::errors_say_what_is_wrong};

}

/// A source says its machine and its path: a local one its own, a clone its target and the remote
/// it comes from.
pub proof fn sources_say_where_they_are(
    source: CreateProjectSource,
    host: String,
    path: String,
    remote: Option<String>,
)
    requires
        call_ensures(CreateProjectSource::host_id, (&source,), host),
        call_ensures(CreateProjectSource::path, (&source,), path),
        call_ensures(CreateProjectSource::remote_url, (&source,), remote),
    ensures
        source matches CreateProjectSource::LocalPath { host_id, path: own } ==> host == host_id && path@ == own@ && remote is None,
        source matches CreateProjectSource::Clone { host_id, remote_url, target_path } ==> host == host_id && remote == remote_url && (target_path is Some ==> path@ == target_path->0@) && (target_path is None ==> path@ == ""@),
{
}

/// An environment is placed on the machine that is named, else on the primary one. Where there is
/// neither it has no owner; an unmanaged one needs an absolute path.
pub proof fn environments_are_placed(
    request: CreateEnvironmentRequest,
    primary: Option<String>,
    absolute: bool,
    answer: Result<String, Reply>,
)
    requires
        call_ensures(place_environment, (&request, &primary, absolute), answer),
    ensures
        ({
            let owned = request.host_id is Some || primary is Some;
            let managed = request.kind == EnvironmentKind::Managed;
            &&& answer is Ok <==> owned && (managed || (request.path is Some && absolute))
            &&& answer is Ok && request.host_id is Some ==> request.host_id == Some(answer->Ok_0)
            &&& answer is Ok && request.host_id is None ==> primary == Some(answer->Ok_0)
            &&& !owned ==> refuses(answer->Err_0@, 409, "conflict"@, "no host is available to own the environment; enroll a worker first"@)
            &&& (owned && !managed && request.path is None) ==> refuses(answer->Err_0@, 400, "invalid_request"@, "an unmanaged environment requires a path"@)
            &&& (owned && !managed && request.path is Some && !absolute) ==> refuses(answer->Err_0@, 400, "invalid_request"@, "path "@ + debug_quoted(request.path->0@) + " must be absolute"@)
        }),
{
    broadcast use {crate::json::member_of_field, crate::reply::errors_say_what_is_wrong};

}

/// A new environment is the named machine's, else the primary one's.
pub proof fn environments_are_owned_by_a_machine(
    request: CreateEnvironmentRequest,
    primary: Option<String>,
    answer: Result<String, Reply>,
)
    requires
        call_ensures(create_environment, (&request, &primary), answer),
    ensures
        answer is Ok && request.host_id is Some ==> request.host_id == Some(answer->Ok_0),
        answer is Ok && request.host_id is None ==> primary == Some(answer->Ok_0),
        request.host_id is None && primary is None ==> answer is Err,
        request.kind == EnvironmentKind::Managed && (request.host_id is Some || primary is Some) ==> answer is Ok,
        request.kind == EnvironmentKind::Unmanaged && request.path is None ==> answer is Err,
        request.kind == EnvironmentKind::Unmanaged && answer is Ok ==> request.path is Some && request.path->0@.len() > 0,
{
    broadcast use {crate::json::member_of_field, crate::reply::errors_say_what_is_wrong};

}

/// The environments of a project are listed, in their order, and all of them where none is named.
pub proof fn environments_are_listed_by_project(
    environments: Seq<Environment>,
    project: Option<Seq<char>>,
)
    ensures
        listed_environments(environments, project) == environments.filter(|environment: Environment| project is None || environment.project_id@ == project->0).map_values(|environment: Environment| environment_tree(environment)),
    decreases environments.len(),
{
    let kept = |environment: Environment| project is None || environment.project_id@ == project->0;
    let row = |environment: Environment| environment_tree(environment);
    reveal(Seq::filter);
    if environments.len() == 0 {
        assert(environments.filter(kept).map_values(row) =~= Seq::<Tree>::empty());
    } else {
        let rest = environments.drop_last();
        environments_are_listed_by_project(rest, project);
        if kept(environments.last()) {
            assert(rest.filter(kept).push(environments.last()).map_values(row) =~= rest.filter(kept).map_values(row).push(row(environments.last())));
        }
    }
}

/// A list of environments is of the project that the query names; an empty name is none.
pub proof fn environment_lists_are_answered(
    query: EnvironmentListQuery,
    environments: Vec<Environment>,
    answer: Reply,
)
    requires
        call_ensures(list_environments, (&query, &environments), answer),
    ensures
        answer@.status == 200,
        query.project_id is None || query.project_id->0@.len() == 0 ==> answer@.body == Tree::Array(listed_environments(environments@, None)),
        query.project_id is Some && query.project_id->0@.len() > 0 ==> answer@.body == Tree::Array(listed_environments(environments@, Some(query.project_id->0@))),
{
}

/// A known environment is answered as it is, and one that is not known is not found.
pub proof fn known_environments_are_answered(
    environment: Option<Environment>,
    environment_id: &str,
    answer: Reply,
)
    requires
        call_ensures(get_environment, (&environment, environment_id), answer),
    ensures
        environment matches Some(known) ==> answer@.status == 200 && answer@.body == environment_tree(known),
        environment is None ==> refuses(answer@, 404, "not_found"@, "environment "@ + environment_id@ + " is not known"@),
{
    broadcast use {crate::json::member_of_field, crate::reply::errors_say_what_is_wrong};

}

/// Provisioning goes on where it was dispatched; otherwise the answer says what stood in its way.
pub proof fn provisioning_is_refused_for_what_stands_in_the_way(
    environment_id: &str,
    outcome: ProvisionOutcome,
    answer: Option<Reply>,
)
    requires
        call_ensures(provision_refusal, (environment_id, outcome), answer),
    ensures
        answer is None <==> outcome is Dispatched,
        outcome is Unknown ==> refuses(answer->0@, 404, "not_found"@, "environment "@ + environment_id@ + " is not known"@),
        outcome matches ProvisionOutcome::NotProvisionable { environment, reason, illegal_transition } ==> (environment.status@ == "destroyed"@ ==> refuses(answer->0@, 409, "conflict"@, illegal_transition@)) && (environment.status@ != "destroyed"@ ==> refuses(answer->0@, 409, "conflict"@, reason@)),
        outcome matches ProvisionOutcome::PublishFailed { status, error } ==> refuses(answer->0@, 500, "internal_error"@, "could not dispatch provisioning: "@ + error@ + "; environment is "@ + status@),
{
    broadcast use {crate::json::member_of_field, crate::reply::errors_say_what_is_wrong};

}

/// The primary machine is shown, and is local exactly where it is the one that the server runs on.
pub proof fn the_primary_machine_says_where_it_is(
    host: Option<Host>,
    local: Option<String>,
    source: PrimaryHostSource,
    answer: Reply,
)
    requires
        call_ensures(primary_host_source, (&host, &local), source),
        call_ensures(primary_host, (&host, &local), answer),
    ensures
        host is None ==> source == PrimaryHostSource::NoHost && member(answer@.body, "host"@) == Some(Tree::Null) && member(answer@.body, "source"@) == Some(Tree::Str("no_host"@)),
        host is Some ==> member(answer@.body, "host"@) == Some(host_tree(host->0)),
        host is Some && local is Some && local->0@ == host->0.id@ ==> source == PrimaryHostSource::Local && member(answer@.body, "source"@) == Some(Tree::Str("local"@)),
        host is Some && !(local is Some && local->0@ == host->0.id@) ==> source == PrimaryHostSource::Remote && member(answer@.body, "source"@) == Some(Tree::Str("remote"@)),
        answer@.status == 200,
{
    broadcast use {crate::json::member_of_field, crate::reply::errors_say_what_is_wrong};

    reveal_strlit("host");
    reveal_strlit("source");
    assert("host"@.len() == 4);
    assert("source"@.len() == 6);
}

/// A machine that was registered is shown, with the event that says so.
pub proof fn registered_machines_are_shown(
    host: Host,
    event_id: &str,
    answer: Reply,
)
    requires
        call_ensures(host_registered, (&host, event_id), answer),
    ensures
        answer@.status == 200,
        member(answer@.body, "host"@) == Some(host_tree(host)),
        member(answer@.body, "event_id"@) == Some(Tree::Str(event_id@)),
{
    broadcast use {crate::json::member_of_field, crate::reply::errors_say_what_is_wrong};

    reveal_strlit("host");
    reveal_strlit("event_id");
    assert("host"@.len() == 4);
    assert("event_id"@.len() == 8);
}

/// A posted message is answered with its thread and the events it made, in their order.
pub proof fn posted_messages_list_their_events(
    thread_id: &str,
    events: Vec<PublishedEvent>,
    answer: Reply,
    i: int,
)
    requires
        call_ensures(message_posted, (thread_id, &events), answer),
        0 <= i < events@.len(),
    ensures
        answer@.status == 200,
        member(answer@.body, "thread_id"@) == Some(Tree::Str(thread_id@)),
        member(answer@.body, "events"@) is Some,
        member(answer@.body, "events"@)->0 is Array,
        member(answer@.body, "events"@)->0->Array_0.len() == events@.len(),
        member(member(answer@.body, "events"@)->0->Array_0[i], "event_id"@) == Some(Tree::Str(events@[i].event_id@)),
        member(member(answer@.body, "events"@)->0->Array_0[i], "event_type"@) == Some(Tree::Str(events@[i].event_type@)),
        member(member(answer@.body, "events"@)->0->Array_0[i], "scope"@) == Some(events@[i].scope.tree()),
{
    broadcast use {crate::json::member_of_field, crate::reply::errors_say_what_is_wrong};

    reveal_strlit("scope");
    reveal_strlit("events");
    reveal_strlit("event_id");
    reveal_strlit("thread_id");
    reveal_strlit("event_type");
    assert("scope"@.len() == 5);
    assert("events"@.len() == 6);
    assert("event_id"@.len() == 8);
    assert("thread_id"@.len() == 9);
    assert("event_type"@.len() == 10);
}

/// A replay is of the scope that is named, from the cursor on, with as many frames as are asked for
/// and may be. A scope other than the whole needs an id.
pub proof fn replays_are_of_their_scope(
    query: ReplayQuery,
    cursor: Result<Option<String>, String>,
    answer: Result<ReplayPlan, Reply>,
)
    requires
        call_ensures(replay_plan, (&query, cursor), answer),
    ensures
        answer matches Ok(plan) ==> plan.scope.kind() == query.scope_kind@ && cursor == Ok::<Option<String>, String>(plan.cursor),
        answer matches Ok(plan) ==> (query.limit is None ==> plan.limit == 100) && (query.limit is Some && 1 <= query.limit->0 <= 10_000 ==> plan.limit == query.limit->0) && (query.limit is Some && query.limit->0 < 1 ==> plan.limit == 1) && (query.limit is Some && query.limit->0 > 10_000 ==> plan.limit == 10_000),
        answer matches Ok(plan) ==> (query.scope_kind@ == "global"@ || plan.scope.named() == opt_view(query.scope_id)),
        query.scope_kind@ == "global"@ && cursor is Ok ==> answer is Ok,
        query.scope_kind@ != "global"@ && (query.scope_id is None || query.scope_id->0@.len() == 0) ==> answer is Err,
        query.scope_kind@ == "global"@ && cursor is Err ==> refuses(answer->Err_0@, 400, "invalid_request"@, "invalid since cursor: "@ + cursor->Err_0@),
{
    broadcast use {crate::json::member_of_field, crate::reply::errors_say_what_is_wrong};

}

/// A replay shows its frames in their order, each as the JSON it is or else as its text, and
/// whether there are more.
pub proof fn replays_show_their_frames(
    payloads: Vec<Vec<u8>>,
    has_more: bool,
    answer: Reply,
    i: int,
)
    requires
        call_ensures(replay_response, (&payloads, has_more), answer),
        0 <= i < payloads@.len(),
    ensures
        answer@.status == 200,
        member(answer@.body, "has_more"@) == Some(Tree::Bool(has_more)),
        member(answer@.body, "frames"@) is Some,
        member(answer@.body, "frames"@)->0 is Array,
        member(answer@.body, "frames"@)->0->Array_0.len() == payloads@.len(),
        json_parse(payloads@[i]@) matches Some(value) ==> member(answer@.body, "frames"@)->0->Array_0[i] == value,
        json_parse(payloads@[i]@) is None ==> member(answer@.body, "frames"@)->0->Array_0[i] == Tree::Str(utf8_lossy(payloads@[i]@)),
{
    broadcast use {crate::json::member_of_field, crate::reply::errors_say_what_is_wrong};

    reveal_strlit("frames");
    reveal_strlit("has_more");
    assert("frames"@.len() == 6);
    assert("has_more"@.len() == 8);
}

/// A published event is answered with its id, its scope and its time.
pub proof fn published_events_are_answered(
    event_id: &str,
    scope: Scope,
    created_at_ms: u64,
    answer: Reply,
)
    requires
        call_ensures(publish_response, (event_id, &scope, created_at_ms), answer),
    ensures
        answer@.status == 200,
        member(answer@.body, "event_id"@) == Some(Tree::Str(event_id@)),
        member(answer@.body, "scope"@) == Some(scope.tree()),
        member(answer@.body, "created_at_ms"@) == Some(Tree::UInt(created_at_ms)),
{
    broadcast use {crate::json::member_of_field, crate::reply::errors_say_what_is_wrong};

    reveal_strlit("scope");
    reveal_strlit("event_id");
    reveal_strlit("created_at_ms");
    assert("scope"@.len() == 5);
    assert("event_id"@.len() == 8);
    assert("created_at_ms"@.len() == 13);
}

/// The runs that are listed are those in flight.
pub proof fn runs_are_listed(
    registry: RunRegistry,
    answer: RunListResponse,
    run: Seq<char>,
)
    requires
        call_ensures(list_runs, (&registry,), answer),
    ensures
        registry@.records.dom().contains(run) ==> answer.runs@.contains(registry@.records[run]),
        forall|i: int| 0 <= i < answer.runs@.len() ==> registry@.records.dom().contains((#[trigger] answer.runs@[i]).run_id@) && registry@.records[answer.runs@[i].run_id@] == answer.runs@[i],
{
    let all = |record: RunRecord| true;
    if registry@.records.dom().contains(run) {
        assert(all(registry@.records[run]));
    }
}

} // verus!
