//! The entities the control plane reasons about, as plain values.
//!
//! Identifiers are texts: the execution plane and the clients only ever see them as such.

use vstd::prelude::*;

use crate::json::{member, Json, Tree};
use crate::text::{copy_opt, same_text};

verus! {

/// How a run ended.
#[derive(Clone, Copy, Debug, PartialEq, Eq, Structural)]
pub enum RunOutcome {
    /// The provider finished the turn.
    Completed,
    /// The provider or the control plane failed it.
    Failed,
    /// Its deadline passed.
    TimedOut,
    /// Its host stopped heartbeating.
    HostStale,
    /// A client stopped it.
    Cancelled,
}

/// The status a completed turn carries on the wire.
#[derive(Clone, Copy, Debug, PartialEq, Eq, Structural)]
pub enum TurnStatus {
    /// The turn finished.
    Completed,
    /// The turn failed.
    Failed,
    /// The turn was stopped.
    Interrupted,
}

impl TurnStatus {
    /// The status as a word.
    pub open spec fn spec_as_str(self) -> Seq<char> {
        match self {
            TurnStatus::Completed => "completed"@,
            TurnStatus::Failed => "failed"@,
            TurnStatus::Interrupted => "interrupted"@,
        }
    }

    /// The status as a word.
    pub fn as_str(self) -> (result: &'static str)
        ensures
            result@ == self.spec_as_str(),
    {
        match self {
            TurnStatus::Completed => "completed",
            TurnStatus::Failed => "failed",
            TurnStatus::Interrupted => "interrupted",
        }
    }
}

/// Where a thread is in its life.
#[derive(Clone, Copy, Debug, PartialEq, Eq, Structural)]
pub enum ThreadStatus {
    /// Ready for a message.
    Idle,
    /// A turn is in flight.
    Working,
    /// The turn waits on something outside it.
    Waiting,
    /// The last turn failed.
    Error,
    /// Put away.
    Archived,
}

impl ThreadStatus {
    /// The status as a word.
    pub open spec fn spec_as_str(self) -> Seq<char> {
        match self {
            ThreadStatus::Idle => "idle"@,
            ThreadStatus::Working => "working"@,
            ThreadStatus::Waiting => "waiting"@,
            ThreadStatus::Error => "error"@,
            ThreadStatus::Archived => "archived"@,
        }
    }

    /// The status as a word.
    pub fn as_str(self) -> (result: &'static str)
        ensures
            result@ == self.spec_as_str(),
    {
        match self {
            ThreadStatus::Idle => "idle",
            ThreadStatus::Working => "working",
            ThreadStatus::Waiting => "waiting",
            ThreadStatus::Error => "error",
            ThreadStatus::Archived => "archived",
        }
    }
}

/// What moves a thread from one status to the next.
#[derive(Clone, Copy, Debug, PartialEq, Eq, Structural)]
pub enum ThreadTrigger {
    /// Its run completed.
    RunCompleted,
    /// Its run was stopped.
    RunCancelled,
    /// Its run failed.
    RunFailed,
    /// A run started.
    RunStarted,
    /// A client retries the failed turn.
    Retry,
}

/// Whether a machine is attached.
#[derive(Clone, Copy, Debug, PartialEq, Eq, Structural)]
pub enum HostStatus {
    /// Its socket is open and it heartbeats.
    Connected,
    /// It is not.
    Disconnected,
}

/// Who owns a workspace directory.
#[derive(Clone, Copy, Debug, PartialEq, Eq, Structural)]
pub enum EnvironmentKind {
    /// The control plane provisions it.
    Managed,
    /// It already exists on the machine.
    Unmanaged,
}

impl RunOutcome {
    /// The word for an outcome.
    pub open spec fn spec_as_str(self) -> Seq<char> {
        match self {
            RunOutcome::Completed => "completed"@,
            RunOutcome::Failed => "failed"@,
            RunOutcome::TimedOut => "timed_out"@,
            RunOutcome::HostStale => "host_stale"@,
            RunOutcome::Cancelled => "cancelled"@,
        }
    }

    /// The word for an outcome.
    pub fn as_str(self) -> (result: &'static str)
        ensures
            result@ == self.spec_as_str(),
    {
        match self {
            RunOutcome::Completed => "completed",
            RunOutcome::Failed => "failed",
            RunOutcome::TimedOut => "timed_out",
            RunOutcome::HostStale => "host_stale",
            RunOutcome::Cancelled => "cancelled",
        }
    }

    /// The outcome that a word stands for.
    pub open spec fn spec_of_word(word: Seq<char>) -> Option<RunOutcome> {
        if word == "completed"@ {
            Some(RunOutcome::Completed)
        } else if word == "failed"@ {
            Some(RunOutcome::Failed)
        } else if word == "timed_out"@ {
            Some(RunOutcome::TimedOut)
        } else if word == "host_stale"@ {
            Some(RunOutcome::HostStale)
        } else if word == "cancelled"@ {
            Some(RunOutcome::Cancelled)
        } else {
            None
        }
    }

    /// The outcome that a word stands for.
    pub fn of_word(word: &str) -> (result: Option<RunOutcome>)
        ensures
            result == RunOutcome::spec_of_word(word@),
    {
        if same_text(word, "completed") {
            Some(RunOutcome::Completed)
        } else if same_text(word, "failed") {
            Some(RunOutcome::Failed)
        } else if same_text(word, "timed_out") {
            Some(RunOutcome::TimedOut)
        } else if same_text(word, "host_stale") {
            Some(RunOutcome::HostStale)
        } else if same_text(word, "cancelled") {
            Some(RunOutcome::Cancelled)
        } else {
            None
        }
    }

    /// The turn status that an outcome is reported under.
    pub open spec fn spec_turn_status(self) -> TurnStatus {
        match self {
            RunOutcome::Completed => TurnStatus::Completed,
            RunOutcome::Cancelled => TurnStatus::Interrupted,
            _ => TurnStatus::Failed,
        }
    }

    /// The turn status that an outcome is reported under.
    pub fn turn_status(self) -> (result: TurnStatus)
        ensures
            result == self.spec_turn_status(),
    {
        match self {
            RunOutcome::Completed => TurnStatus::Completed,
            RunOutcome::Cancelled => TurnStatus::Interrupted,
            _ => TurnStatus::Failed,
        }
    }

    /// What an outcome does to its thread.
    pub open spec fn spec_trigger(self) -> ThreadTrigger {
        match self {
            RunOutcome::Completed => ThreadTrigger::RunCompleted,
            RunOutcome::Cancelled => ThreadTrigger::RunCancelled,
            _ => ThreadTrigger::RunFailed,
        }
    }

    /// What an outcome does to its thread.
    pub fn trigger(self) -> (result: ThreadTrigger)
        ensures
            result == self.spec_trigger(),
    {
        match self {
            RunOutcome::Completed => ThreadTrigger::RunCompleted,
            RunOutcome::Cancelled => ThreadTrigger::RunCancelled,
            RunOutcome::Failed => ThreadTrigger::RunFailed,
            RunOutcome::TimedOut => ThreadTrigger::RunFailed,
            RunOutcome::HostStale => ThreadTrigger::RunFailed,
        }
    }
}

/// A value that has an identifier of its own.
pub trait Identified {
    /// The identifier.
    spec fn key(&self) -> Seq<char>;

    /// The identifier.
    fn id_text(&self) -> (result: &String)
        ensures
            result@ == self.key(),
    ;
}

/// The first item of that identifier, or none.
pub open spec fn by_id<T: Identified>(items: Seq<T>, id: Seq<char>) -> Option<T>
    decreases items.len(),
{
    if items.len() == 0 {
        None
    } else if items[0].key() == id {
        Some(items[0])
    } else {
        by_id(items.drop_first(), id)
    }
}

/// The first item of that identifier, or none.
pub fn find_by_id<'a, T: Identified>(items: &'a Vec<T>, id: &str) -> (result: Option<&'a T>)
    ensures
        match result {
            Some(item) => by_id(items@, id@) == Some(*item),
            None => by_id(items@, id@) is None,
        },
{
    assert(items@.skip(0) =~= items@);
    for i in 0..items.len()
        invariant
            by_id(items@, id@) == by_id(items@.skip(i as int), id@),
    {
        let ghost rest = items@.skip(i as int);
        assert(rest[0] == items@[i as int]);
        assert(rest.drop_first() =~= items@.skip(i + 1));
        if same_text(items[i].id_text().as_str(), id) {
            return Some(&items[i]);
        }
    }
    assert(items@.skip(items@.len() as int).len() == 0);
    None
}

/// The first item of an identifier stands before every other of it.
pub proof fn found_by_id<T: Identified>(items: Seq<T>, id: Seq<char>) -> (i: int)
    requires
        by_id(items, id) is Some,
    ensures
        0 <= i < items.len(),
        by_id(items, id) == Some(items[i]),
        items[i].key() == id,
        forall|j: int| 0 <= j < i ==> (#[trigger] items[j]).key() != id,
    decreases items.len(),
{
    if items[0].key() == id {
        0
    } else {
        let i = found_by_id(items.drop_first(), id);
        assert forall|j: int| 0 <= j < i + 1 implies (#[trigger] items[j]).key() != id by {
            if j > 0 {
                assert(items.drop_first()[j - 1] == items[j]);
            }
        }
        i + 1
    }
}

/// An item of an identifier is found, unless there is none.
pub proof fn missed_by_id<T: Identified>(items: Seq<T>, id: Seq<char>, i: int)
    requires
        by_id(items, id) is None,
        0 <= i < items.len(),
    ensures
        items[i].key() != id,
    decreases items.len(),
{
    if i > 0 {
        missed_by_id(items.drop_first(), id, i - 1);
        assert(items.drop_first()[i - 1] == items[i]);
    }
}

/// The agent and the directory that a provider session belongs to.
#[derive(Clone, Debug, PartialEq, Eq)]
pub struct ProviderSessionBinding {
    /// The agent that issued the session.
    pub agent: String,
    /// The directory that it was opened in.
    pub cwd: String,
    /// When it was learned.
    pub at_ms: u64,
}

/// A conversation.
#[derive(Clone, Debug, PartialEq, Eq)]
pub struct Thread {
    /// Its identity.
    pub id: String,
    /// The project it belongs to.
    pub project_id: String,
    /// The workspace it runs in, once bound.
    pub environment_id: Option<String>,
    /// The agent that its client picked.
    pub provider_id: Option<String>,
    /// The model that its client picked.
    pub model: Option<String>,
    /// The reasoning level that its client picked.
    pub reasoning_level: Option<String>,
    /// Its title.
    pub title: Option<String>,
    /// The sidebar section it stands in.
    pub section_id: Option<String>,
    /// Where it is in its life.
    pub status: ThreadStatus,
    /// The thread it was spawned from.
    pub parent_thread_id: Option<String>,
    /// The thread it was forked from.
    pub source_thread_id: Option<String>,
    /// What created it.
    pub origin_kind: Option<String>,
    /// The plugin that created it.
    pub origin_plugin_id: Option<String>,
    /// Whether lists show it.
    pub visibility: String,
    /// When it was archived.
    pub archived_at_ms: Option<u64>,
    /// When it was pinned.
    pub pinned_at_ms: Option<u64>,
    /// Its place among the pinned ones.
    pub pin_sort_key: Option<String>,
    /// When it was deleted.
    pub deleted_at_ms: Option<u64>,
    /// When it was last read.
    pub last_read_at_ms: Option<u64>,
    /// When it was created.
    pub created_at_ms: u64,
    /// When it last changed.
    pub updated_at_ms: u64,
    /// The agent's own conversation, once learned.
    pub provider_session_id: Option<String>,
    /// What that conversation belongs to.
    pub provider_session_binding: Option<ProviderSessionBinding>,
}

impl Identified for Thread {
    open spec fn key(&self) -> Seq<char> {
        self.id@
    }

    fn id_text(&self) -> (result: &String) {
        &self.id
    }
}

impl Thread {
    /// The session to resume under an agent in a directory: the learned one, where it was issued
    /// by that agent for that directory.
    pub open spec fn spec_resumable(&self, agent: Seq<char>, cwd: Seq<char>) -> Option<String> {
        match (self.provider_session_id, self.provider_session_binding) {
            (Some(session), Some(binding)) => if binding.agent@ == agent && binding.cwd@ == cwd {
                Some(session)
            } else {
                None
            },
            _ => None,
        }
    }

    /// The session to resume under an agent in a directory.
    pub fn resumable_session_id(&self, agent: &str, cwd: &str) -> (result: Option<String>)
        ensures
            result == self.spec_resumable(agent@, cwd@),
    {
        match (&self.provider_session_id, &self.provider_session_binding) {
            (Some(session), Some(binding)) => {
                if same_text(binding.agent.as_str(), agent) && same_text(binding.cwd.as_str(), cwd) {
                    Some(session.clone())
                } else {
                    None
                }
            },
            _ => None,
        }
    }
}

/// An execution machine.
#[derive(Clone, Debug, PartialEq, Eq)]
pub struct Host {
    /// Its identity.
    pub id: String,
    /// Its display name.
    pub name: String,
    /// Whether it is attached.
    pub status: HostStatus,
    /// The most a run on it may do.
    pub max_permission_mode: String,
    /// When it last heartbeat.
    pub last_seen_at_ms: Option<u64>,
    /// When it enrolled.
    pub created_at_ms: u64,
    /// When it last changed.
    pub updated_at_ms: u64,
}

impl Identified for Host {
    open spec fn key(&self) -> Seq<char> {
        self.id@
    }

    fn id_text(&self) -> (result: &String) {
        &self.id
    }
}

/// A directory of a project on one machine.
#[derive(Clone, Debug, PartialEq, Eq)]
pub struct ProjectSource {
    /// Its identity.
    pub id: String,
    /// The project it belongs to.
    pub project_id: String,
    /// The machine that holds it.
    pub host_id: String,
    /// The directory.
    pub path: String,
    /// Whether the project's threads start there.
    pub is_default: bool,
    /// When it was added.
    pub created_at_ms: u64,
    /// When it last changed.
    pub updated_at_ms: u64,
}

/// A project: a scope for threads.
#[derive(Clone, Debug, PartialEq, Eq)]
pub struct Project {
    /// Its identity.
    pub id: String,
    /// Its kind word: `standard` or `personal`.
    pub kind: String,
    /// Its display name.
    pub name: String,
    /// Where its repository is published.
    pub git_remote_url: Option<String>,
    /// Its directories, one per machine at most.
    pub sources: Vec<ProjectSource>,
    /// When it was deleted.
    pub deleted_at_ms: Option<u64>,
    /// When it was created.
    pub created_at_ms: u64,
    /// When it last changed.
    pub updated_at_ms: u64,
}

impl Identified for Project {
    open spec fn key(&self) -> Seq<char> {
        self.id@
    }

    fn id_text(&self) -> (result: &String) {
        &self.id
    }
}

/// A workspace on one machine.
#[derive(Clone, Debug, PartialEq, Eq)]
pub struct Environment {
    /// Its identity.
    pub id: String,
    /// Its display name.
    pub name: Option<String>,
    /// The project it belongs to.
    pub project_id: String,
    /// The machine that holds it.
    pub host_id: String,
    /// Who owns the directory.
    pub kind: EnvironmentKind,
    /// Its status word: `creating`, `provisioning`, `ready`, `destroyed` and the like.
    pub status: String,
    /// The directory, once there is one.
    pub path: Option<String>,
    /// The branch that its changes merge into.
    pub merge_base_branch: Option<String>,
    /// When it was created.
    pub created_at_ms: u64,
    /// When it last changed.
    pub updated_at_ms: u64,
}

impl Identified for Environment {
    open spec fn key(&self) -> Seq<char> {
        self.id@
    }

    fn id_text(&self) -> (result: &String) {
        &self.id
    }
}

impl Environment {
    /// Whether the workspace can run a provider.
    pub open spec fn spec_is_ready(&self) -> bool {
        self.status@ == "ready"@
    }

    /// Whether the workspace can run a provider.
    pub fn is_ready(&self) -> (result: bool)
        ensures
            result == self.spec_is_ready(),
    {
        same_text(self.status.as_str(), "ready")
    }

    /// Whether the workspace is gone.
    pub open spec fn spec_is_destroyed(&self) -> bool {
        self.status@ == "destroyed"@
    }

    /// Whether the workspace is gone.
    pub fn is_destroyed(&self) -> (result: bool)
        ensures
            result == self.spec_is_destroyed(),
    {
        same_text(self.status.as_str(), "destroyed")
    }
}

/// An agent that runs can be dispatched to.
#[derive(Clone, Debug, PartialEq, Eq)]
pub struct ProviderSpec {
    /// Its id.
    pub name: String,
    /// The directory to start it in.
    pub cwd: Option<String>,
    /// How to launch it, carried through as it is.
    pub launch: Json,
}

/// One event that a host reports for a run.
#[derive(Debug, PartialEq, Eq)]
pub struct ReportedEvent {
    /// The run that it claims to be of.
    pub run_id: String,
    /// The thread that it claims to be of.
    pub thread_id: String,
    /// When the host observed it.
    pub at_ms: u64,
    /// The contract event type.
    pub kind: String,
    /// Whether the type belongs to the thread rather than to a turn.
    pub thread_scoped: bool,
    /// The agent's own conversation, where the event names it.
    pub provider_thread_id: Option<String>,
    /// The host's own verdict, on a terminal event that carries one.
    pub outcome: Option<RunOutcome>,
    /// The turn status, on a terminal event.
    pub status: Option<TurnStatus>,
    /// What went wrong, on a terminal event that says so.
    pub error: Option<String>,
    /// The event's body as it came.
    pub body: Json,
}

impl ReportedEvent {
    /// Whether the event ends its run.
    pub open spec fn spec_is_terminal(&self) -> bool {
        self.kind@ == "turn/completed"@
    }

    /// Whether the event ends its run.
    pub fn is_terminal(&self) -> (result: bool)
        ensures
            result == self.spec_is_terminal(),
    {
        same_text(self.kind.as_str(), "turn/completed")
    }

    /// How the run ended: the host's own verdict where it sent one, else by the turn status, else
    /// a failure.
    pub open spec fn spec_terminal_outcome(&self) -> RunOutcome {
        match self.outcome {
            Some(outcome) => outcome,
            None => match self.status {
                Some(TurnStatus::Completed) => RunOutcome::Completed,
                Some(TurnStatus::Interrupted) => RunOutcome::Cancelled,
                Some(TurnStatus::Failed) => RunOutcome::Failed,
                None => RunOutcome::Failed,
            },
        }
    }

    /// How the run ended.
    pub fn terminal_outcome(&self) -> (result: RunOutcome)
        ensures
            result == self.spec_terminal_outcome(),
    {
        match self.outcome {
            Some(outcome) => outcome,
            None => match self.status {
                Some(TurnStatus::Completed) => RunOutcome::Completed,
                Some(TurnStatus::Interrupted) => RunOutcome::Cancelled,
                Some(TurnStatus::Failed) => RunOutcome::Failed,
                None => RunOutcome::Failed,
            },
        }
    }

    /// The same event.
    pub open spec fn same(&self, other: &ReportedEvent) -> bool {
        &&& self.run_id == other.run_id
        &&& self.thread_id == other.thread_id
        &&& self.at_ms == other.at_ms
        &&& self.kind == other.kind
        &&& self.thread_scoped == other.thread_scoped
        &&& self.provider_thread_id == other.provider_thread_id
        &&& self.outcome == other.outcome
        &&& self.status == other.status
        &&& self.error == other.error
        &&& self.body@ == other.body@
    }
}

impl Clone for ReportedEvent {
    fn clone(&self) -> (result: ReportedEvent)
        ensures
            result.same(self),
    {
        ReportedEvent {
            run_id: self.run_id.clone(),
            thread_id: self.thread_id.clone(),
            at_ms: self.at_ms,
            kind: self.kind.clone(),
            thread_scoped: self.thread_scoped,
            provider_thread_id: copy_opt(&self.provider_thread_id),
            outcome: self.outcome,
            status: self.status,
            error: copy_opt(&self.error),
            body: self.body.copy(),
        }
    }
}

/// Who wrote a message.
#[derive(Clone, Copy, Debug, PartialEq, Eq, Structural)]
pub enum MessageRole {
    /// The client.
    User,
    /// The agent.
    Assistant,
    /// The control plane.
    System,
}

/// A message of a thread.
#[derive(Clone, Debug, PartialEq, Eq)]
pub struct Message {
    /// Its identity.
    pub id: String,
    /// The project of its thread, where it is known.
    pub project_id: Option<String>,
    /// Who wrote it.
    pub role: MessageRole,
    /// What it says.
    pub content: String,
    /// When it was written.
    pub created_at_ms: u64,
}

/// One item of a turn, as the projections read it.
#[derive(Clone, Debug, PartialEq, Eq)]
pub enum ThreadEventItem {
    /// What the agent thought.
    Reasoning {
        /// The provider's id for it.
        id: String,
        /// Its summary, in pieces.
        summary: Vec<String>,
        /// Its content, in pieces.
        content: Vec<String>,
    },
    /// What the agent answered.
    AgentMessage {
        /// The provider's id for it.
        id: String,
    },
    /// A tool call.
    ToolCall {
        /// The provider's id for it.
        id: String,
    },
    /// A command.
    CommandExecution {
        /// The provider's id for it.
        id: String,
    },
    /// A change to files.
    FileChange {
        /// The provider's id for it.
        id: String,
    },
    /// A file that was read.
    FileRead {
        /// The provider's id for it.
        id: String,
    },
    /// A search.
    Search {
        /// The provider's id for it.
        id: String,
    },
    /// A page that was fetched.
    WebFetch {
        /// The provider's id for it.
        id: String,
    },
    /// Any other item.
    Other,
}

/// One provider event, as the projections read it.
#[derive(Clone, Debug, PartialEq, Eq)]
pub enum ProviderEvent {
    /// A piece of thinking.
    ItemReasoningTextDelta {
        /// The item it belongs to.
        item_id: String,
        /// The piece.
        delta: String,
    },
    /// A piece of a summary of thinking.
    ItemReasoningSummaryTextDelta {
        /// The item it belongs to.
        item_id: String,
        /// The piece.
        delta: String,
    },
    /// A piece of an answer.
    ItemAgentMessageDelta {
        /// The item it belongs to.
        item_id: String,
        /// The piece.
        delta: String,
    },
    /// An item began.
    ItemStarted {
        /// The item.
        item: ThreadEventItem,
    },
    /// An item is complete.
    ItemCompleted {
        /// The item.
        item: ThreadEventItem,
    },
    /// A tool call moved on.
    ItemToolCallProgress {
        /// The item it belongs to.
        item_id: String,
    },
    /// The provider fell back to another model.
    ProviderModelFallback {
        /// The model that was asked for.
        original_model: String,
        /// The model that answers.
        fallback_model: String,
    },
    /// Any other event.
    Other,
}

/// One event of a run in its thread's log.
#[derive(Clone, Debug, PartialEq, Eq)]
pub struct RunEvent {
    /// The thread.
    pub thread_id: String,
    /// Its project.
    pub project_id: String,
    /// The run.
    pub run_id: String,
    /// When it happened.
    pub at_ms: u64,
    /// The verdict, on an event that ends its run with one.
    pub outcome: Option<RunOutcome>,
    /// The contract event type.
    pub kind: String,
    /// The scope that the event names.
    pub scope: Json,
    /// The event as JSON, its type included.
    pub value: Json,
    /// The event's body as JSON, its type included.
    pub data: Json,
    /// What the projections read of it.
    pub body: ProviderEvent,
}

impl RunEvent {
    /// Whether the event's JSON says of its type and scope what the event does.
    pub open spec fn wf(self) -> bool {
        &&& member(self.value@, "type"@) == Some(Tree::Str(self.kind@))
        &&& member(self.value@, "scope"@) == Some(self.scope@)
    }
}

/// One fact in the log.
#[allow(inconsistent_fields)]
#[derive(Clone, Debug, PartialEq, Eq)]
pub enum DomainEvent {
    /// A project was created.
    ProjectCreated {
        /// The project.
        project_id: String,
    },
    /// A project changed.
    ProjectUpdated {
        /// The project.
        project_id: String,
        /// When it was deleted, if it was.
        deleted_at_ms: Option<u64>,
    },
    /// A thread was created.
    ThreadCreated {
        /// The thread.
        thread_id: String,
        /// Its project.
        project_id: String,
    },
    /// A thread's status changed.
    ThreadStatusChanged {
        /// The thread.
        thread_id: String,
        /// Its project.
        project_id: String,
        /// The status before.
        from: ThreadStatus,
        /// The status after.
        to: ThreadStatus,
        /// When.
        at_ms: u64,
    },
    /// A message was added to a thread.
    ThreadMessageAdded {
        /// The thread.
        thread_id: String,
        /// The message.
        message: Message,
    },
    /// A thread changed.
    ThreadUpdated {
        /// The thread.
        thread_id: String,
        /// Its project.
        project_id: String,
        /// When it was deleted, if it was.
        deleted_at_ms: Option<u64>,
    },
    /// A run of a thread reported.
    ThreadRunEvent {
        /// The event.
        run: RunEvent,
    },
    /// A queued message of a thread changed.
    ThreadQueuedMessageChanged {
        /// The thread.
        thread_id: String,
        /// Its project, where it is known.
        project_id: Option<String>,
    },
    /// An interaction of a thread changed.
    ThreadInteractionChanged {
        /// The thread.
        thread_id: String,
        /// Its project, where it is known.
        project_id: Option<String>,
        /// Whether it is still open.
        open: bool,
    },
    /// A host enrolled.
    HostRegistered {
        /// The host.
        host_id: String,
        /// Whether it is attached.
        status: HostStatus,
    },
    /// A host changed.
    HostUpdated {
        /// The host.
        host_id: String,
        /// Whether it is attached.
        status: HostStatus,
    },
    /// A host attached or detached.
    HostStatusChanged {
        /// The host.
        host_id: String,
        /// Whether it is attached now.
        to: HostStatus,
    },
    /// A host was removed.
    HostDeleted {
        /// The host.
        host_id: String,
    },
    /// An environment was created.
    EnvironmentCreated {
        /// The environment.
        environment_id: String,
    },
    /// An environment changed.
    EnvironmentUpdated {
        /// The environment.
        environment_id: String,
    },
    /// An environment's status changed.
    EnvironmentStatusChanged {
        /// The environment.
        environment_id: String,
        /// The status word after.
        to: String,
    },
    /// A sidebar section was created.
    ThreadSectionCreated,
    /// A sidebar section changed.
    ThreadSectionUpdated,
    /// A sidebar section was removed.
    ThreadSectionDeleted,
}

/// How a run ended leads its thread: a completed run completes it, a stopped one cancels it, and
/// every other fails it; and the turn is shown as completed, interrupted or failed alike.
pub proof fn outcomes_lead_their_thread(outcome: RunOutcome)
    ensures
        outcome == RunOutcome::Completed ==> outcome.spec_trigger() == ThreadTrigger::RunCompleted
            && outcome.spec_turn_status() == TurnStatus::Completed,
        outcome == RunOutcome::Cancelled ==> outcome.spec_trigger() == ThreadTrigger::RunCancelled
            && outcome.spec_turn_status() == TurnStatus::Interrupted,
        outcome == RunOutcome::Failed || outcome == RunOutcome::TimedOut || outcome
            == RunOutcome::HostStale ==> outcome.spec_trigger() == ThreadTrigger::RunFailed
            && outcome.spec_turn_status() == TurnStatus::Failed,
{
}

/// The words under which outcomes, turns and threads are known to hosts and clients.
pub proof fn words_of_the_domain(outcome: RunOutcome, turn: TurnStatus, thread: ThreadStatus)
    ensures
        outcome == RunOutcome::Completed <==> outcome.spec_as_str() == "completed"@,
        outcome == RunOutcome::Failed <==> outcome.spec_as_str() == "failed"@,
        outcome == RunOutcome::TimedOut <==> outcome.spec_as_str() == "timed_out"@,
        outcome == RunOutcome::HostStale <==> outcome.spec_as_str() == "host_stale"@,
        outcome == RunOutcome::Cancelled <==> outcome.spec_as_str() == "cancelled"@,
        turn == TurnStatus::Completed <==> turn.spec_as_str() == "completed"@,
        turn == TurnStatus::Failed <==> turn.spec_as_str() == "failed"@,
        turn == TurnStatus::Interrupted <==> turn.spec_as_str() == "interrupted"@,
        thread == ThreadStatus::Idle <==> thread.spec_as_str() == "idle"@,
        thread == ThreadStatus::Working <==> thread.spec_as_str() == "working"@,
        thread == ThreadStatus::Waiting <==> thread.spec_as_str() == "waiting"@,
        thread == ThreadStatus::Error <==> thread.spec_as_str() == "error"@,
        thread == ThreadStatus::Archived <==> thread.spec_as_str() == "archived"@,
{
    reveal_strlit("completed");
    reveal_strlit("failed");
    reveal_strlit("timed_out");
    reveal_strlit("host_stale");
    reveal_strlit("cancelled");
    reveal_strlit("interrupted");
    reveal_strlit("idle");
    reveal_strlit("working");
    reveal_strlit("waiting");
    reveal_strlit("error");
    reveal_strlit("archived");
    assert("completed"@.len() == 9 && "completed"@[1] == 'o');
    assert("timed_out"@.len() == 9 && "timed_out"@[1] == 'i');
    assert("cancelled"@.len() == 9 && "cancelled"@[1] == 'a');
    assert("failed"@.len() == 6 && "host_stale"@.len() == 10 && "interrupted"@.len() == 11);
    assert("idle"@.len() == 4 && "error"@.len() == 5 && "archived"@.len() == 8);
    assert("working"@.len() == 7 && "working"@[1] == 'o');
    assert("waiting"@.len() == 7 && "waiting"@[1] == 'a');
}

// What the domain promises.

/// A report ends its turn exactly where its type says that the turn is complete.
pub proof fn reports_end_turns_by_their_type(event: ReportedEvent, answer: bool)
    requires
        call_ensures(ReportedEvent::is_terminal, (&event,), answer),
    ensures
        answer <==> event.kind@ == "turn/completed"@,
{
}

/// How a reported turn ended is what the report says: its outcome where it has one, otherwise by
/// its status, and as failed where it has neither.
pub proof fn reported_ends_are_taken_as_said(event: ReportedEvent, answer: RunOutcome)
    requires
        call_ensures(ReportedEvent::terminal_outcome, (&event,), answer),
    ensures
        event.outcome matches Some(outcome) ==> answer == outcome,
        event.outcome is None && event.status == Some(TurnStatus::Completed) ==> answer == RunOutcome::Completed,
        event.outcome is None && event.status == Some(TurnStatus::Interrupted) ==> answer == RunOutcome::Cancelled,
        event.outcome is None && event.status == Some(TurnStatus::Failed) ==> answer == RunOutcome::Failed,
        event.outcome is None && event.status is None ==> answer == RunOutcome::Failed,
{
}

/// A thread's conversation is resumed exactly where it was held by that agent in that directory.
pub proof fn conversations_are_resumed_where_they_were(
    thread: Thread,
    agent: &str,
    cwd: &str,
    answer: Option<String>,
)
    requires
        call_ensures(Thread::resumable_session_id, (&thread, agent, cwd), answer),
    ensures
        answer is Some <==> thread.provider_session_id is Some && thread.provider_session_binding is Some && thread.provider_session_binding->0.agent@ == agent@ && thread.provider_session_binding->0.cwd@ == cwd@,
        answer is Some ==> answer == thread.provider_session_id,
{
}

/// An environment is ready, or destroyed, exactly where its status says so.
pub proof fn environments_stand_by_their_word(
    environment: Environment,
    ready: bool,
    destroyed: bool,
)
    requires
        call_ensures(Environment::is_ready, (&environment,), ready),
        call_ensures(Environment::is_destroyed, (&environment,), destroyed),
    ensures
        ready <==> environment.status@ == "ready"@,
        destroyed <==> environment.status@ == "destroyed"@,
{
}

/// An outcome is read from its word, and no other word is one.
pub proof fn outcomes_read_back(word: &str, answer: Option<RunOutcome>)
    requires
        call_ensures(RunOutcome::of_word, (word,), answer),
    ensures
        answer matches Some(outcome) ==> outcome.spec_as_str() == word@,
        answer is None ==> forall|outcome: RunOutcome| #[trigger] outcome.spec_as_str() != word@,
        word@ == "completed"@ ==> answer == Some(RunOutcome::Completed),
        word@ == "failed"@ ==> answer == Some(RunOutcome::Failed),
        word@ == "timed_out"@ ==> answer == Some(RunOutcome::TimedOut),
        word@ == "host_stale"@ ==> answer == Some(RunOutcome::HostStale),
        word@ == "cancelled"@ ==> answer == Some(RunOutcome::Cancelled),
{
    reveal_strlit("failed");
    reveal_strlit("cancelled");
    reveal_strlit("completed");
    reveal_strlit("timed_out");
    reveal_strlit("host_stale");
    assert("failed"@.len() == 6);
    assert("cancelled"@.len() == 9 && "cancelled"@[1] == 'a');
    assert("completed"@.len() == 9 && "completed"@[1] == 'o');
    assert("timed_out"@.len() == 9 && "timed_out"@[1] == 'i');
    assert("host_stale"@.len() == 10);
}

} // verus!
