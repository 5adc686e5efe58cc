//! The public realtime protocol and the frames behind it.
//!
//! The relay stores domain events as worker frames. Public connections never see those: at the
//! last possible boundary each event is projected into `changed` invalidation messages, which name
//! what a client should read again.

use vstd::prelude::*;

use crate::domain::{DomainEvent, HostStatus, RunEvent, ThreadStatus};
use crate::text::{copy_opt, list_holds, opt_view, same_text, texts};

verus! {

/// The version of the worker protocol, which a worker checks before it enrolls.
pub const PROTOCOL_VERSION: u32 = 3;

/// The subprotocol that a public client asks for.
pub const PUBLIC_WS_SUBPROTOCOL: &'static str = "loom-bb-realtime-v1";

/// Typed subscription targets accepted by the browser protocol.
#[derive(Debug, PartialEq, Eq, Hash)]
pub enum SubscriptionTarget {
    /// One thread.
    ThreadDetail {
        /// Which.
        thread_id: String,
    },
    /// Every thread.
    ThreadList,
    /// One project.
    ProjectDetail {
        /// Which.
        project_id: String,
    },
    /// Every project.
    ProjectList,
    /// One environment.
    EnvironmentDetail {
        /// Which.
        environment_id: String,
    },
    /// Every environment.
    EnvironmentList,
    /// One host.
    HostDetail {
        /// Which.
        host_id: String,
    },
    /// Every host.
    HostList,
    /// The server itself.
    System,
}

impl SubscriptionTarget {
    /// Whether a target that names one entity names it by an id that is not empty.
    pub open spec fn spec_is_valid(&self) -> bool {
        match *self {
            SubscriptionTarget::ThreadDetail { thread_id } => thread_id@.len() > 0,
            SubscriptionTarget::ProjectDetail { project_id } => project_id@.len() > 0,
            SubscriptionTarget::EnvironmentDetail { environment_id } => environment_id@.len() > 0,
            SubscriptionTarget::HostDetail { host_id } => host_id@.len() > 0,
            _ => true,
        }
    }

    /// Contract targets require a non-empty id on detail targets.
    pub fn is_valid(&self) -> (result: bool)
        ensures
            result == self.spec_is_valid(),
    {
        match self {
            SubscriptionTarget::ThreadDetail { thread_id } => !thread_id.as_str().is_empty(),
            SubscriptionTarget::ProjectDetail { project_id } => !project_id.as_str().is_empty(),
            SubscriptionTarget::EnvironmentDetail { environment_id } => !environment_id.as_str().is_empty(),
            SubscriptionTarget::HostDetail { host_id } => !host_id.as_str().is_empty(),
            SubscriptionTarget::ThreadList
            | SubscriptionTarget::ProjectList
            | SubscriptionTarget::EnvironmentList
            | SubscriptionTarget::HostList
            | SubscriptionTarget::System => true,
        }
    }
}

/// Messages a public client may send. There are deliberately no worker commands among them.
#[derive(Debug, PartialEq, Eq)]
pub enum ClientMessage {
    /// Start to receive the changes of a target.
    Subscribe {
        /// The target.
        target: SubscriptionTarget,
    },
    /// Stop to receive the changes of a target.
    Unsubscribe {
        /// The target.
        target: SubscriptionTarget,
    },
    /// Ask for a pong.
    Ping,
}

impl ClientMessage {
    /// Whether the target, where there is one, is valid.
    pub open spec fn spec_is_valid(&self) -> bool {
        match *self {
            ClientMessage::Subscribe { target } => target.spec_is_valid(),
            ClientMessage::Unsubscribe { target } => target.spec_is_valid(),
            ClientMessage::Ping => true,
        }
    }

    /// Whether all values satisfy the contract's non-empty target constraints.
    pub fn is_valid(&self) -> (result: bool)
        ensures
            result == self.spec_is_valid(),
    {
        match self {
            ClientMessage::Subscribe { target } => target.is_valid(),
            ClientMessage::Unsubscribe { target } => target.is_valid(),
            ClientMessage::Ping => true,
        }
    }
}

/// Entity discriminator in a public `changed` message.
#[derive(Clone, Copy, Debug, PartialEq, Eq, Structural)]
pub enum PublicEntity {
    /// A thread.
    Thread,
    /// A project.
    Project,
    /// An environment.
    Environment,
    /// A host.
    Host,
    /// The server itself.
    System,
}

impl PublicEntity {
    /// The word for an entity.
    pub open spec fn spec_as_str(self) -> Seq<char> {
        match self {
            PublicEntity::Thread => "thread"@,
            PublicEntity::Project => "project"@,
            PublicEntity::Environment => "environment"@,
            PublicEntity::Host => "host"@,
            PublicEntity::System => "system"@,
        }
    }

    /// The word for an entity.
    pub fn as_str(self) -> (result: &'static str)
        ensures
            result@ == self.spec_as_str(),
    {
        match self {
            PublicEntity::Thread => "thread",
            PublicEntity::Project => "project",
            PublicEntity::Environment => "environment",
            PublicEntity::Host => "host",
            PublicEntity::System => "system",
        }
    }
}

/// All change kinds emitted by the public adapter.
#[derive(Clone, Copy, Debug, PartialEq, Eq, Structural)]
pub enum PublicChangeKind {
    /// A thread was created.
    ThreadCreated,
    /// A thread was deleted.
    ThreadDeleted,
    /// A thread's log grew.
    EventsAppended,
    /// A thread's history was rewritten.
    HistoryRewritten,
    /// A thread's interactions changed.
    InteractionsChanged,
    /// A status changed.
    StatusChanged,
    /// A title changed.
    TitleChanged,
    /// A queue changed.
    QueueChanged,
    /// A thread was archived or brought back.
    ArchivedChanged,
    /// A thread was pinned or unpinned.
    PinStateChanged,
    /// A thread's parent changed.
    ParentChanged,
    /// A thread's environment changed.
    EnvironmentChanged,
    /// A thread was read or marked unread.
    ReadStateChanged,
    /// The order of threads changed.
    OrderChanged,
    /// A thread's tabs changed.
    TabsChanged,
    /// A thread's terminals changed.
    TerminalsChanged,
    /// A project was created.
    ProjectCreated,
    /// A project changed.
    ProjectUpdated,
    /// A project was deleted.
    ProjectDeleted,
    /// A project's sources changed.
    ProjectSourcesChanged,
    /// A project's threads changed.
    ThreadsChanged,
    /// The order of projects changed.
    ProjectOrderChanged,
    /// An environment was created.
    EnvironmentCreated,
    /// An environment was deleted.
    EnvironmentDeleted,
    /// An environment's metadata changed.
    MetadataChanged,
    /// An environment's work status changed.
    WorkStatusChanged,
    /// An environment's refs changed.
    GitRefsChanged,
    /// A thread's storage changed.
    ThreadStorageChanged,
    /// A host attached.
    HostConnected,
    /// A host detached.
    HostDisconnected,
    /// The configuration changed.
    ConfigChanged,
    /// The plugins changed.
    PluginsChanged,
    /// The providers changed.
    ProviderRegistrationsChanged,
    /// The interface preferences changed.
    UiPreferencesChanged,
    /// Which environments are available changed.
    EnvironmentAvailabilityChanged,
}

impl PublicChangeKind {
    /// The word for a change kind.
    pub open spec fn spec_as_str(self) -> Seq<char> {
        match self {
            PublicChangeKind::ThreadCreated => "thread-created"@,
            PublicChangeKind::ThreadDeleted => "thread-deleted"@,
            PublicChangeKind::EventsAppended => "events-appended"@,
            PublicChangeKind::HistoryRewritten => "history-rewritten"@,
            PublicChangeKind::InteractionsChanged => "interactions-changed"@,
            PublicChangeKind::StatusChanged => "status-changed"@,
            PublicChangeKind::TitleChanged => "title-changed"@,
            PublicChangeKind::QueueChanged => "queue-changed"@,
            PublicChangeKind::ArchivedChanged => "archived-changed"@,
            PublicChangeKind::PinStateChanged => "pin-state-changed"@,
            PublicChangeKind::ParentChanged => "parent-changed"@,
            PublicChangeKind::EnvironmentChanged => "environment-changed"@,
            PublicChangeKind::ReadStateChanged => "read-state-changed"@,
            PublicChangeKind::OrderChanged => "order-changed"@,
            PublicChangeKind::TabsChanged => "tabs-changed"@,
            PublicChangeKind::TerminalsChanged => "terminals-changed"@,
            PublicChangeKind::ProjectCreated => "project-created"@,
            PublicChangeKind::ProjectUpdated => "project-updated"@,
            PublicChangeKind::ProjectDeleted => "project-deleted"@,
            PublicChangeKind::ProjectSourcesChanged => "project-sources-changed"@,
            PublicChangeKind::ThreadsChanged => "threads-changed"@,
            PublicChangeKind::ProjectOrderChanged => "project-order-changed"@,
            PublicChangeKind::EnvironmentCreated => "environment-created"@,
            PublicChangeKind::EnvironmentDeleted => "environment-deleted"@,
            PublicChangeKind::MetadataChanged => "metadata-changed"@,
            PublicChangeKind::WorkStatusChanged => "work-status-changed"@,
            PublicChangeKind::GitRefsChanged => "git-refs-changed"@,
            PublicChangeKind::ThreadStorageChanged => "thread-storage-changed"@,
            PublicChangeKind::HostConnected => "host-connected"@,
            PublicChangeKind::HostDisconnected => "host-disconnected"@,
            PublicChangeKind::ConfigChanged => "config-changed"@,
            PublicChangeKind::PluginsChanged => "plugins-changed"@,
            PublicChangeKind::ProviderRegistrationsChanged => "provider-registrations-changed"@,
            PublicChangeKind::UiPreferencesChanged => "ui-preferences-changed"@,
            PublicChangeKind::EnvironmentAvailabilityChanged => "environment-availability-changed"@,
        }
    }

    /// The word for a change kind.
    pub fn as_str(self) -> (result: &'static str)
        ensures
            result@ == self.spec_as_str(),
    {
        match self {
            PublicChangeKind::ThreadCreated => "thread-created",
            PublicChangeKind::ThreadDeleted => "thread-deleted",
            PublicChangeKind::EventsAppended => "events-appended",
            PublicChangeKind::HistoryRewritten => "history-rewritten",
            PublicChangeKind::InteractionsChanged => "interactions-changed",
            PublicChangeKind::StatusChanged => "status-changed",
            PublicChangeKind::TitleChanged => "title-changed",
            PublicChangeKind::QueueChanged => "queue-changed",
            PublicChangeKind::ArchivedChanged => "archived-changed",
            PublicChangeKind::PinStateChanged => "pin-state-changed",
            PublicChangeKind::ParentChanged => "parent-changed",
            PublicChangeKind::EnvironmentChanged => "environment-changed",
            PublicChangeKind::ReadStateChanged => "read-state-changed",
            PublicChangeKind::OrderChanged => "order-changed",
            PublicChangeKind::TabsChanged => "tabs-changed",
            PublicChangeKind::TerminalsChanged => "terminals-changed",
            PublicChangeKind::ProjectCreated => "project-created",
            PublicChangeKind::ProjectUpdated => "project-updated",
            PublicChangeKind::ProjectDeleted => "project-deleted",
            PublicChangeKind::ProjectSourcesChanged => "project-sources-changed",
            PublicChangeKind::ThreadsChanged => "threads-changed",
            PublicChangeKind::ProjectOrderChanged => "project-order-changed",
            PublicChangeKind::EnvironmentCreated => "environment-created",
            PublicChangeKind::EnvironmentDeleted => "environment-deleted",
            PublicChangeKind::MetadataChanged => "metadata-changed",
            PublicChangeKind::WorkStatusChanged => "work-status-changed",
            PublicChangeKind::GitRefsChanged => "git-refs-changed",
            PublicChangeKind::ThreadStorageChanged => "thread-storage-changed",
            PublicChangeKind::HostConnected => "host-connected",
            PublicChangeKind::HostDisconnected => "host-disconnected",
            PublicChangeKind::ConfigChanged => "config-changed",
            PublicChangeKind::PluginsChanged => "plugins-changed",
            PublicChangeKind::ProviderRegistrationsChanged => "provider-registrations-changed",
            PublicChangeKind::UiPreferencesChanged => "ui-preferences-changed",
            PublicChangeKind::EnvironmentAvailabilityChanged => "environment-availability-changed",
        }
    }

    /// Whether an entity can change in this way.
    pub open spec fn spec_belongs_to(self, entity: PublicEntity) -> bool {
        match entity {
            PublicEntity::Thread => {
                ||| self == PublicChangeKind::ThreadCreated
                ||| self == PublicChangeKind::ThreadDeleted
                ||| self == PublicChangeKind::EventsAppended
                ||| self == PublicChangeKind::HistoryRewritten
                ||| self == PublicChangeKind::InteractionsChanged
                ||| self == PublicChangeKind::StatusChanged
                ||| self == PublicChangeKind::TitleChanged
                ||| self == PublicChangeKind::QueueChanged
                ||| self == PublicChangeKind::ArchivedChanged
                ||| self == PublicChangeKind::PinStateChanged
                ||| self == PublicChangeKind::ParentChanged
                ||| self == PublicChangeKind::EnvironmentChanged
                ||| self == PublicChangeKind::ReadStateChanged
                ||| self == PublicChangeKind::OrderChanged
                ||| self == PublicChangeKind::TabsChanged
                ||| self == PublicChangeKind::TerminalsChanged
            },
            PublicEntity::Project => {
                ||| self == PublicChangeKind::ProjectCreated
                ||| self == PublicChangeKind::ProjectUpdated
                ||| self == PublicChangeKind::ProjectDeleted
                ||| self == PublicChangeKind::ProjectSourcesChanged
                ||| self == PublicChangeKind::ThreadsChanged
                ||| self == PublicChangeKind::ProjectOrderChanged
            },
            PublicEntity::Environment => {
                ||| self == PublicChangeKind::EnvironmentCreated
                ||| self == PublicChangeKind::EnvironmentDeleted
                ||| self == PublicChangeKind::MetadataChanged
                ||| self == PublicChangeKind::StatusChanged
                ||| self == PublicChangeKind::WorkStatusChanged
                ||| self == PublicChangeKind::GitRefsChanged
                ||| self == PublicChangeKind::ThreadStorageChanged
            },
            PublicEntity::Host => {
                ||| self == PublicChangeKind::HostConnected
                ||| self == PublicChangeKind::HostDisconnected
            },
            PublicEntity::System => {
                ||| self == PublicChangeKind::ConfigChanged
                ||| self == PublicChangeKind::PluginsChanged
                ||| self == PublicChangeKind::ProviderRegistrationsChanged
                ||| self == PublicChangeKind::UiPreferencesChanged
                ||| self == PublicChangeKind::EnvironmentAvailabilityChanged
            },
        }
    }

    /// Whether an entity can change in this way.
    pub fn belongs_to(self, entity: PublicEntity) -> (result: bool)
        ensures
            result == self.spec_belongs_to(entity),
    {
        match entity {
            PublicEntity::Thread => match self {
                PublicChangeKind::ThreadCreated
                | PublicChangeKind::ThreadDeleted
                | PublicChangeKind::EventsAppended
                | PublicChangeKind::HistoryRewritten
                | PublicChangeKind::InteractionsChanged
                | PublicChangeKind::StatusChanged
                | PublicChangeKind::TitleChanged
                | PublicChangeKind::QueueChanged
                | PublicChangeKind::ArchivedChanged
                | PublicChangeKind::PinStateChanged
                | PublicChangeKind::ParentChanged
                | PublicChangeKind::EnvironmentChanged
                | PublicChangeKind::ReadStateChanged
                | PublicChangeKind::OrderChanged
                | PublicChangeKind::TabsChanged
                | PublicChangeKind::TerminalsChanged => true,
                _ => false,
            },
            PublicEntity::Project => match self {
                PublicChangeKind::ProjectCreated
                | PublicChangeKind::ProjectUpdated
                | PublicChangeKind::ProjectDeleted
                | PublicChangeKind::ProjectSourcesChanged
                | PublicChangeKind::ThreadsChanged
                | PublicChangeKind::ProjectOrderChanged => true,
                _ => false,
            },
            PublicEntity::Environment => match self {
                PublicChangeKind::EnvironmentCreated
                | PublicChangeKind::EnvironmentDeleted
                | PublicChangeKind::MetadataChanged
                | PublicChangeKind::StatusChanged
                | PublicChangeKind::WorkStatusChanged
                | PublicChangeKind::GitRefsChanged
                | PublicChangeKind::ThreadStorageChanged => true,
                _ => false,
            },
            PublicEntity::Host => match self {
                PublicChangeKind::HostConnected
                | PublicChangeKind::HostDisconnected => true,
                _ => false,
            },
            PublicEntity::System => match self {
                PublicChangeKind::ConfigChanged
                | PublicChangeKind::PluginsChanged
                | PublicChangeKind::ProviderRegistrationsChanged
                | PublicChangeKind::UiPreferencesChanged
                | PublicChangeKind::EnvironmentAvailabilityChanged => true,
                _ => false,
            },
        }
    }
}

/// Every change kind belongs to an entity, and to one alone unless it is a change of status, which
/// threads and environments share.
pub proof fn change_kinds_have_their_entity(kind: PublicChangeKind)
    ensures
        exists|entity: PublicEntity| kind.spec_belongs_to(entity),
        forall|a: PublicEntity, b: PublicEntity|
            #![trigger kind.spec_belongs_to(a), kind.spec_belongs_to(b)]
            kind.spec_belongs_to(a) && kind.spec_belongs_to(b) && kind
                != PublicChangeKind::StatusChanged ==> a == b,
{
    assert(kind.spec_belongs_to(PublicEntity::Thread) || kind.spec_belongs_to(PublicEntity::Project)
        || kind.spec_belongs_to(PublicEntity::Environment) || kind.spec_belongs_to(
        PublicEntity::Host,
    ) || kind.spec_belongs_to(PublicEntity::System));
}

/// Runtime display state carried by optional thread status metadata.
#[derive(Clone, Copy, Debug, PartialEq, Eq, Structural)]
pub enum PublicDisplayStatus {
    /// Not yet begun.
    Pending,
    /// Nothing runs.
    Idle,
    /// A turn is about to run.
    Starting,
    /// A turn runs.
    Active,
    /// A turn is being stopped.
    Stopping,
    /// The last turn failed.
    Error,
    /// The workspace is being made.
    Provisioning,
    /// The host is away.
    HostReconnecting,
    /// There is no host.
    WaitingForHost,
}

impl PublicDisplayStatus {
    /// The word for a display status.
    pub open spec fn spec_as_str(self) -> Seq<char> {
        match self {
            PublicDisplayStatus::Pending => "pending"@,
            PublicDisplayStatus::Idle => "idle"@,
            PublicDisplayStatus::Starting => "starting"@,
            PublicDisplayStatus::Active => "active"@,
            PublicDisplayStatus::Stopping => "stopping"@,
            PublicDisplayStatus::Error => "error"@,
            PublicDisplayStatus::Provisioning => "provisioning"@,
            PublicDisplayStatus::HostReconnecting => "host-reconnecting"@,
            PublicDisplayStatus::WaitingForHost => "waiting-for-host"@,
        }
    }

    /// The word for a display status.
    pub fn as_str(self) -> (result: &'static str)
        ensures
            result@ == self.spec_as_str(),
    {
        match self {
            PublicDisplayStatus::Pending => "pending",
            PublicDisplayStatus::Idle => "idle",
            PublicDisplayStatus::Starting => "starting",
            PublicDisplayStatus::Active => "active",
            PublicDisplayStatus::Stopping => "stopping",
            PublicDisplayStatus::Error => "error",
            PublicDisplayStatus::Provisioning => "provisioning",
            PublicDisplayStatus::HostReconnecting => "host-reconnecting",
            PublicDisplayStatus::WaitingForHost => "waiting-for-host",
        }
    }

    /// Whether a thread can be stored in this state: the states that say where its host or its
    /// workspace is are for display alone.
    pub open spec fn spec_is_durable(self) -> bool {
        !(self == PublicDisplayStatus::Provisioning || self == PublicDisplayStatus::HostReconnecting
            || self == PublicDisplayStatus::WaitingForHost)
    }

    /// Whether a thread can be stored in this state.
    pub fn is_durable_thread_status(self) -> (result: bool)
        ensures
            result == self.spec_is_durable(),
    {
        match self {
            PublicDisplayStatus::Pending
            | PublicDisplayStatus::Idle
            | PublicDisplayStatus::Starting
            | PublicDisplayStatus::Active
            | PublicDisplayStatus::Stopping
            | PublicDisplayStatus::Error => true,
            _ => false,
        }
    }
}

/// Thread activity counters in the optional status metadata.
#[derive(Clone, Copy, Debug, PartialEq, Eq, Structural)]
pub struct ThreadActivityMetadata {
    /// Workflows that run.
    pub active_workflow_count: u64,
    /// Background agents that run.
    pub active_background_agent_count: u64,
    /// Background commands that run.
    pub active_background_command_count: u64,
    /// Plans that are pursued.
    pub active_plan_mode_count: u64,
    /// Goals that are pursued.
    pub active_goal_count: u64,
}

/// Optional runtime status details for a thread change.
#[derive(Clone, Copy, Debug, PartialEq, Eq, Structural)]
pub struct ThreadRuntimeMetadata {
    /// What to display.
    pub display_status: PublicDisplayStatus,
    /// How long the host may still come back.
    pub host_reconnect_grace_expires_at: Option<u64>,
}

/// Optional status transition details for a thread change.
#[derive(Clone, Copy, Debug, PartialEq, Eq, Structural)]
pub struct ThreadStatusMetadata {
    /// The status.
    pub status: PublicDisplayStatus,
    /// What to display.
    pub runtime: ThreadRuntimeMetadata,
    /// What runs.
    pub activity: ThreadActivityMetadata,
    /// When the thread last asked for attention.
    pub latest_attention_at: u64,
    /// When it last changed.
    pub updated_at: u64,
}

/// Optional metadata accepted by the public contract for thread changes.
#[derive(Debug, PartialEq, Eq)]
pub struct ThreadChangeMetadata {
    /// Whether background activity changed.
    pub background_activity_changed: Option<bool>,
    /// The types of the events that were appended.
    pub event_types: Option<Vec<String>>,
    /// Whether an interaction waits for an answer.
    pub has_pending_interaction: Option<bool>,
    /// The project of the thread.
    pub project_id: Option<String>,
    /// The status that the thread came to.
    pub status_change: Option<ThreadStatusMetadata>,
}

/// The metadata of a change, as mathematics.
#[verifier::ext_equal]
pub ghost struct MetadataView {
    /// Whether background activity changed.
    pub background_activity_changed: Option<bool>,
    /// The types of the events that were appended.
    pub event_types: Option<Seq<Seq<char>>>,
    /// Whether an interaction waits for an answer.
    pub has_pending_interaction: Option<bool>,
    /// The project of the thread.
    pub project_id: Option<Seq<char>>,
    /// The status that the thread came to.
    pub status_change: Option<ThreadStatusMetadata>,
}

impl View for ThreadChangeMetadata {
    type V = MetadataView;

    open spec fn view(&self) -> MetadataView {
        MetadataView {
            background_activity_changed: self.background_activity_changed,
            event_types: match self.event_types {
                Some(types) => Some(texts(types@)),
                None => None,
            },
            has_pending_interaction: self.has_pending_interaction,
            project_id: opt_view(self.project_id),
            status_change: self.status_change,
        }
    }
}

/// Messages a public client may receive. Subscribe acknowledgements, relay envelopes, worker acks
/// and errors are intentionally absent.
#[derive(Debug, PartialEq, Eq)]
pub enum ServerMessage {
    /// Something changed; read it again.
    Changed {
        /// What sort of thing.
        entity: PublicEntity,
        /// Which one, unless it is the whole sort.
        id: Option<String>,
        /// What more is known of a thread's change.
        metadata: Option<ThreadChangeMetadata>,
        /// In which ways.
        changes: Vec<PublicChangeKind>,
    },
    /// The answer to a ping.
    Pong,
}

/// A message, as mathematics.
#[verifier::ext_equal]
pub ghost enum MessageView {
    /// Something changed.
    Changed {
        /// What sort of thing.
        entity: PublicEntity,
        /// Which one.
        id: Option<Seq<char>>,
        /// What more is known of a thread's change.
        metadata: Option<MetadataView>,
        /// In which ways.
        changes: Seq<PublicChangeKind>,
    },
    /// The answer to a ping.
    Pong,
}

/// The metadata, where there is any.
pub open spec fn opt_metadata(metadata: Option<ThreadChangeMetadata>) -> Option<MetadataView> {
    match metadata {
        Some(metadata) => Some(metadata@),
        None => None,
    }
}

impl View for ServerMessage {
    type V = MessageView;

    open spec fn view(&self) -> MessageView {
        match *self {
            ServerMessage::Changed { entity, id, metadata, changes } => MessageView::Changed {
                entity,
                id: opt_view(id),
                metadata: opt_metadata(metadata),
                changes: changes@,
            },
            ServerMessage::Pong => MessageView::Pong,
        }
    }
}

/// The messages of a list.
pub open spec fn message_views(messages: Seq<ServerMessage>) -> Seq<MessageView> {
    Seq::new(messages.len(), |i: int| messages[i]@)
}

/// Whether every text of the first list is in the second.
pub open spec fn all_known(items: Seq<Seq<char>>, known: Seq<Seq<char>>) -> bool {
    forall|i: int| 0 <= i < items.len() ==> known.contains(#[trigger] items[i])
}

/// Whether a message is one that the public contract can express: each change is one of its
/// entity's, only a thread's change carries metadata, the server's own change names nothing, and
/// the metadata names known event types and a status that a thread can be stored in.
pub open spec fn message_valid(message: MessageView, known_types: Seq<Seq<char>>) -> bool {
    match message {
        MessageView::Pong => true,
        MessageView::Changed { entity, id, metadata, changes } => {
            &&& forall|i: int|
                0 <= i < changes.len() ==> (#[trigger] changes[i]).spec_belongs_to(entity)
            &&& match entity {
                PublicEntity::Thread => metadata matches Some(metadata) ==> {
                    &&& metadata.event_types matches Some(types) ==> all_known(types, known_types)
                    &&& metadata.status_change matches Some(change)
                        ==> change.status.spec_is_durable()
                },
                PublicEntity::System => id is None && metadata is None,
                _ => metadata is None,
            }
        },
    }
}

/// Whether a change concerns a subscription: a list takes every change of its sort, a detail those
/// of its own entity, and a project also those of its threads.
pub open spec fn message_matches(message: MessageView, target: SubscriptionTarget) -> bool {
    match message {
        MessageView::Pong => false,
        MessageView::Changed { entity, id, metadata, .. } => match (target, entity) {
            (SubscriptionTarget::ThreadList, PublicEntity::Thread) => true,
            (SubscriptionTarget::ProjectList, PublicEntity::Project) => true,
            (SubscriptionTarget::EnvironmentList, PublicEntity::Environment) => true,
            (SubscriptionTarget::HostList, PublicEntity::Host) => true,
            (SubscriptionTarget::System, PublicEntity::System) => true,
            (SubscriptionTarget::ThreadDetail { thread_id }, PublicEntity::Thread) => id == Some(
                thread_id@,
            ),
            (SubscriptionTarget::ProjectDetail { project_id }, PublicEntity::Project) => id
                == Some(project_id@),
            (
                SubscriptionTarget::EnvironmentDetail { environment_id },
                PublicEntity::Environment,
            ) => id == Some(environment_id@),
            (SubscriptionTarget::HostDetail { host_id }, PublicEntity::Host) => id == Some(
                host_id@,
            ),
            (SubscriptionTarget::ProjectDetail { project_id }, PublicEntity::Thread) => metadata
                matches Some(metadata) && metadata.project_id == Some(project_id@),
            _ => false,
        },
    }
}

/// Whether an optional text is this one.
fn is_text(value: &Option<String>, wanted: &str) -> (result: bool)
    ensures
        result == (opt_view(*value) == Some(wanted@)),
{
    match value {
        Some(text) => same_text(text.as_str(), wanted),
        None => false,
    }
}

impl ServerMessage {
    /// Rejects combinations that the public contract cannot express, given the contract's event
    /// types.
    pub fn is_valid(&self, known_types: &Vec<String>) -> (result: bool)
        ensures
            result == message_valid(self@, texts(known_types@)),
    {
        match self {
            ServerMessage::Pong => true,
            ServerMessage::Changed { entity, id, metadata, changes } => {
                for i in 0..changes.len()
                    invariant
                        forall|j: int|
                            0 <= j < i ==> (#[trigger] changes@[j]).spec_belongs_to(*entity),
                        self@ is Changed,
                        self@->changes == changes@,
                        self@->entity == *entity,
                {
                    if !changes[i].belongs_to(*entity) {
                        assert(!changes@[i as int].spec_belongs_to(*entity));
                        return false;
                    }
                }
                match entity {
                    PublicEntity::Thread => match metadata {
                        None => true,
                        Some(metadata) => {
                            if let Some(types) = &metadata.event_types {
                                if !all_held(types, known_types) {
                                    return false;
                                }
                            }
                            match &metadata.status_change {
                                Some(change) => change.status.is_durable_thread_status(),
                                None => true,
                            }
                        },
                    },
                    PublicEntity::System => id.is_none() && metadata.is_none(),
                    PublicEntity::Project | PublicEntity::Environment | PublicEntity::Host => {
                        metadata.is_none()
                    },
                }
            },
        }
    }

    /// Whether this change belongs to one typed public subscription target.
    pub fn matches_target(&self, target: &SubscriptionTarget) -> (result: bool)
        ensures
            result == message_matches(self@, *target),
    {
        match self {
            ServerMessage::Pong => false,
            ServerMessage::Changed { entity, id, metadata, .. } => match (target, entity) {
                (SubscriptionTarget::ThreadList, PublicEntity::Thread) => true,
                (SubscriptionTarget::ProjectList, PublicEntity::Project) => true,
                (SubscriptionTarget::EnvironmentList, PublicEntity::Environment) => true,
                (SubscriptionTarget::HostList, PublicEntity::Host) => true,
                (SubscriptionTarget::System, PublicEntity::System) => true,
                (SubscriptionTarget::ThreadDetail { thread_id }, PublicEntity::Thread) => is_text(
                    id,
                    thread_id.as_str(),
                ),
                (
                    SubscriptionTarget::ProjectDetail { project_id },
                    PublicEntity::Project,
                ) => is_text(id, project_id.as_str()),
                (
                    SubscriptionTarget::EnvironmentDetail { environment_id },
                    PublicEntity::Environment,
                ) => is_text(id, environment_id.as_str()),
                (SubscriptionTarget::HostDetail { host_id }, PublicEntity::Host) => is_text(
                    id,
                    host_id.as_str(),
                ),
                (SubscriptionTarget::ProjectDetail { project_id }, PublicEntity::Thread) => match metadata {
                    Some(metadata) => is_text(&metadata.project_id, project_id.as_str()),
                    None => false,
                },
                _ => false,
            },
        }
    }
}

/// Whether every text of the first list is in the second.
fn all_held(items: &Vec<String>, known: &Vec<String>) -> (result: bool)
    ensures
        result == all_known(texts(items@), texts(known@)),
{
    for i in 0..items.len()
        invariant
            forall|j: int| 0 <= j < i ==> texts(known@).contains(#[trigger] texts(items@)[j]),
    {
        if !list_holds(known, items[i].as_str()) {
            assert(!texts(known@).contains(texts(items@)[i as int]));
            return false;
        }
        assert(texts(known@).contains(texts(items@)[i as int]));
    }
    true
}

/// A change without metadata.
pub open spec fn change_view(
    entity: PublicEntity,
    id: Option<Seq<char>>,
    changes: Seq<PublicChangeKind>,
) -> MessageView {
    MessageView::Changed { entity, id, metadata: None, changes }
}

/// A thread's change: with metadata exactly where there is something to say in it.
pub open spec fn thread_change_view(
    id: Seq<char>,
    project_id: Option<Seq<char>>,
    changes: Seq<PublicChangeKind>,
    event_types: Option<Seq<Seq<char>>>,
    has_pending_interaction: Option<bool>,
) -> MessageView {
    MessageView::Changed {
        entity: PublicEntity::Thread,
        id: Some(id),
        metadata: if project_id is None && event_types is None && has_pending_interaction is None {
            None
        } else {
            Some(
                MetadataView {
                    background_activity_changed: None,
                    event_types,
                    has_pending_interaction,
                    project_id,
                    status_change: None,
                },
            )
        },
        changes,
    }
}

/// A change without metadata.
pub fn changed(entity: PublicEntity, id: Option<String>, changes: Vec<PublicChangeKind>) -> (result:
    ServerMessage)
    ensures
        result@ == change_view(entity, opt_view(id), changes@),
{
    ServerMessage::Changed { entity, id, metadata: None, changes }
}

/// The texts of an optional list.
pub open spec fn opt_texts(items: Option<Vec<String>>) -> Option<Seq<Seq<char>>> {
    match items {
        Some(items) => Some(texts(items@)),
        None => None,
    }
}

/// A thread's change.
pub fn thread_changed(
    id: String,
    project_id: Option<String>,
    changes: Vec<PublicChangeKind>,
    event_types: Option<Vec<String>>,
    has_pending_interaction: Option<bool>,
) -> (result: ServerMessage)
    ensures
        result@ == thread_change_view(
            id@,
            opt_view(project_id),
            changes@,
            opt_texts(event_types),
            has_pending_interaction,
        ),
{
    let metadata: Option<ThreadChangeMetadata> = if project_id.is_none() && event_types.is_none()
        && has_pending_interaction.is_none() {
        None
    } else {
        Some(
            ThreadChangeMetadata {
                background_activity_changed: None,
                event_types,
                has_pending_interaction,
                project_id,
                status_change: None,
            },
        )
    };
    ServerMessage::Changed { entity: PublicEntity::Thread, id: Some(id), metadata, changes }
}

/// Whether a host is attached, as a change.
pub open spec fn host_change(status: HostStatus) -> PublicChangeKind {
    if status == HostStatus::Connected {
        PublicChangeKind::HostConnected
    } else {
        PublicChangeKind::HostDisconnected
    }
}

/// The first message that an event is projected to.
///
/// A thread's update carries the thread after it and not what changed in it, so it invalidates
/// everything that can be represented, clears included. A deletion always reaches the client as
/// one.
pub open spec fn primary_message(event: DomainEvent) -> MessageView {
    match event {
        DomainEvent::ProjectCreated { project_id } => change_view(
            PublicEntity::Project,
            Some(project_id@),
            seq![PublicChangeKind::ProjectCreated],
        ),
        DomainEvent::ProjectUpdated { project_id, deleted_at_ms } => {
            let always = seq![
                PublicChangeKind::ProjectUpdated,
                PublicChangeKind::ProjectSourcesChanged,
                PublicChangeKind::ProjectOrderChanged,
            ];
            change_view(
                PublicEntity::Project,
                Some(project_id@),
                if deleted_at_ms is Some {
                    always.push(PublicChangeKind::ProjectDeleted)
                } else {
                    always
                },
            )
        },
        DomainEvent::ThreadCreated { thread_id, project_id } => thread_change_view(
            thread_id@,
            Some(project_id@),
            seq![PublicChangeKind::ThreadCreated],
            None,
            None,
        ),
        DomainEvent::ThreadStatusChanged { thread_id, project_id, from, to, .. } => {
            thread_change_view(
                thread_id@,
                Some(project_id@),
                if from == ThreadStatus::Archived || to == ThreadStatus::Archived {
                    seq![PublicChangeKind::StatusChanged, PublicChangeKind::ArchivedChanged]
                } else {
                    seq![PublicChangeKind::StatusChanged]
                },
                None,
                None,
            )
        },
        DomainEvent::ThreadMessageAdded { thread_id, message } => thread_change_view(
            thread_id@,
            opt_view(message.project_id),
            seq![PublicChangeKind::EventsAppended],
            None,
            None,
        ),
        DomainEvent::ThreadUpdated { thread_id, project_id, deleted_at_ms } => {
            let always = seq![
                PublicChangeKind::TitleChanged,
                PublicChangeKind::ArchivedChanged,
                PublicChangeKind::PinStateChanged,
                PublicChangeKind::ParentChanged,
                PublicChangeKind::EnvironmentChanged,
                PublicChangeKind::ReadStateChanged,
                PublicChangeKind::OrderChanged,
                PublicChangeKind::TabsChanged,
            ];
            thread_change_view(
                thread_id@,
                Some(project_id@),
                if deleted_at_ms is Some {
                    seq![PublicChangeKind::ThreadDeleted] + always
                } else {
                    always
                },
                None,
                None,
            )
        },
        DomainEvent::ThreadRunEvent { run } => thread_change_view(
            run.thread_id@,
            Some(run.project_id@),
            seq![PublicChangeKind::EventsAppended],
            Some(seq![run.kind@]),
            None,
        ),
        DomainEvent::ThreadQueuedMessageChanged { thread_id, project_id } => thread_change_view(
            thread_id@,
            opt_view(project_id),
            seq![PublicChangeKind::QueueChanged],
            None,
            None,
        ),
        DomainEvent::ThreadInteractionChanged { thread_id, project_id, open } => {
            thread_change_view(
                thread_id@,
                opt_view(project_id),
                seq![PublicChangeKind::InteractionsChanged],
                None,
                Some(open),
            )
        },
        DomainEvent::HostRegistered { host_id, status } => change_view(
            PublicEntity::Host,
            Some(host_id@),
            seq![host_change(status)],
        ),
        DomainEvent::HostUpdated { host_id, status } => change_view(
            PublicEntity::Host,
            Some(host_id@),
            seq![host_change(status)],
        ),
        DomainEvent::HostStatusChanged { host_id, to } => change_view(
            PublicEntity::Host,
            Some(host_id@),
            seq![host_change(to)],
        ),
        DomainEvent::HostDeleted { host_id } => change_view(
            PublicEntity::Host,
            Some(host_id@),
            seq![PublicChangeKind::HostDisconnected],
        ),
        DomainEvent::EnvironmentCreated { environment_id } => change_view(
            PublicEntity::Environment,
            Some(environment_id@),
            seq![PublicChangeKind::EnvironmentCreated],
        ),
        DomainEvent::EnvironmentUpdated { environment_id } => change_view(
            PublicEntity::Environment,
            Some(environment_id@),
            seq![PublicChangeKind::MetadataChanged],
        ),
        DomainEvent::EnvironmentStatusChanged { environment_id, to } => change_view(
            PublicEntity::Environment,
            Some(environment_id@),
            if to@ == "destroyed"@ {
                seq![PublicChangeKind::EnvironmentDeleted]
            } else {
                seq![PublicChangeKind::StatusChanged, PublicChangeKind::WorkStatusChanged]
            },
        ),
        DomainEvent::ThreadSectionCreated => change_view(
            PublicEntity::Thread,
            None,
            seq![PublicChangeKind::OrderChanged],
        ),
        DomainEvent::ThreadSectionUpdated => change_view(
            PublicEntity::Thread,
            None,
            seq![PublicChangeKind::OrderChanged],
        ),
        DomainEvent::ThreadSectionDeleted => change_view(
            PublicEntity::Thread,
            None,
            seq![PublicChangeKind::OrderChanged],
        ),
    }
}

/// Whether an event changes which environments are available.
pub open spec fn moves_availability(event: DomainEvent) -> bool {
    event is HostRegistered || event is HostStatusChanged || event is HostUpdated
        || event is HostDeleted || event is EnvironmentCreated || event is EnvironmentUpdated
        || event is EnvironmentStatusChanged
}

/// The messages that an event is projected to.
pub open spec fn projection(event: DomainEvent) -> Seq<MessageView> {
    if moves_availability(event) {
        seq![
            primary_message(event),
            change_view(
                PublicEntity::System,
                None,
                seq![PublicChangeKind::EnvironmentAvailabilityChanged],
            ),
        ]
    } else {
        seq![primary_message(event)]
    }
}

/// A list of one text.
fn one_text(text: &String) -> (result: Vec<String>)
    ensures
        texts(result@) == seq![text@],
{
    let mut items: Vec<String> = Vec::new();
    items.push(text.clone());
    assert(texts(items@) =~= seq![text@]);
    items
}

/// Whether a host is attached, as a change.
fn host_change_of(status: HostStatus) -> (result: PublicChangeKind)
    ensures
        result == host_change(status),
{
    if status == HostStatus::Connected {
        PublicChangeKind::HostConnected
    } else {
        PublicChangeKind::HostDisconnected
    }
}

/// The first message that an event is projected to.
fn primary_of(event: &DomainEvent) -> (result: ServerMessage)
    ensures
        result@ == primary_message(*event),
{
    let message: ServerMessage = match event {
        DomainEvent::ProjectCreated { project_id } => changed(
            PublicEntity::Project,
            Some(project_id.clone()),
            vec![PublicChangeKind::ProjectCreated],
        ),
        DomainEvent::ProjectUpdated { project_id, deleted_at_ms } => {
            let mut changes: Vec<PublicChangeKind> = vec![
                PublicChangeKind::ProjectUpdated,
                PublicChangeKind::ProjectSourcesChanged,
                PublicChangeKind::ProjectOrderChanged,
            ];
            if deleted_at_ms.is_some() {
                changes.push(PublicChangeKind::ProjectDeleted);
            }
            changed(PublicEntity::Project, Some(project_id.clone()), changes)
        },
        DomainEvent::ThreadCreated { thread_id, project_id } => thread_changed(
            thread_id.clone(),
            Some(project_id.clone()),
            vec![PublicChangeKind::ThreadCreated],
            None,
            None,
        ),
        DomainEvent::ThreadStatusChanged { thread_id, project_id, from, to, .. } => {
            let mut changes: Vec<PublicChangeKind> = vec![PublicChangeKind::StatusChanged];
            if *from == ThreadStatus::Archived || *to == ThreadStatus::Archived {
                changes.push(PublicChangeKind::ArchivedChanged);
            }
            thread_changed(thread_id.clone(), Some(project_id.clone()), changes, None, None)
        },
        DomainEvent::ThreadMessageAdded { thread_id, message } => thread_changed(
            thread_id.clone(),
            copy_opt(&message.project_id),
            vec![PublicChangeKind::EventsAppended],
            None,
            None,
        ),
        DomainEvent::ThreadUpdated { thread_id, project_id, deleted_at_ms } => {
            let mut changes: Vec<PublicChangeKind> = Vec::new();
            if deleted_at_ms.is_some() {
                changes.push(PublicChangeKind::ThreadDeleted);
            }
            changes.push(PublicChangeKind::TitleChanged);
            changes.push(PublicChangeKind::ArchivedChanged);
            changes.push(PublicChangeKind::PinStateChanged);
            changes.push(PublicChangeKind::ParentChanged);
            changes.push(PublicChangeKind::EnvironmentChanged);
            changes.push(PublicChangeKind::ReadStateChanged);
            changes.push(PublicChangeKind::OrderChanged);
            changes.push(PublicChangeKind::TabsChanged);
            thread_changed(thread_id.clone(), Some(project_id.clone()), changes, None, None)
        },
        DomainEvent::ThreadRunEvent { run } => thread_changed(
            run.thread_id.clone(),
            Some(run.project_id.clone()),
            vec![PublicChangeKind::EventsAppended],
            Some(one_text(&run.kind)),
            None,
        ),
        DomainEvent::ThreadQueuedMessageChanged { thread_id, project_id } => thread_changed(
            thread_id.clone(),
            copy_opt(project_id),
            vec![PublicChangeKind::QueueChanged],
            None,
            None,
        ),
        DomainEvent::ThreadInteractionChanged { thread_id, project_id, open } => thread_changed(
            thread_id.clone(),
            copy_opt(project_id),
            vec![PublicChangeKind::InteractionsChanged],
            None,
            Some(*open),
        ),
        DomainEvent::HostRegistered { host_id, status } => changed(
            PublicEntity::Host,
            Some(host_id.clone()),
            vec![host_change_of(*status)],
        ),
        DomainEvent::HostUpdated { host_id, status } => changed(
            PublicEntity::Host,
            Some(host_id.clone()),
            vec![host_change_of(*status)],
        ),
        DomainEvent::HostStatusChanged { host_id, to } => changed(
            PublicEntity::Host,
            Some(host_id.clone()),
            vec![host_change_of(*to)],
        ),
        DomainEvent::HostDeleted { host_id } => changed(
            PublicEntity::Host,
            Some(host_id.clone()),
            vec![PublicChangeKind::HostDisconnected],
        ),
        DomainEvent::EnvironmentCreated { environment_id } => changed(
            PublicEntity::Environment,
            Some(environment_id.clone()),
            vec![PublicChangeKind::EnvironmentCreated],
        ),
        DomainEvent::EnvironmentUpdated { environment_id } => changed(
            PublicEntity::Environment,
            Some(environment_id.clone()),
            vec![PublicChangeKind::MetadataChanged],
        ),
        DomainEvent::EnvironmentStatusChanged { environment_id, to } => {
            let changes: Vec<PublicChangeKind> = if same_text(to.as_str(), "destroyed") {
                vec![PublicChangeKind::EnvironmentDeleted]
            } else {
                vec![PublicChangeKind::StatusChanged, PublicChangeKind::WorkStatusChanged]
            };
            changed(PublicEntity::Environment, Some(environment_id.clone()), changes)
        },
        DomainEvent::ThreadSectionCreated
        | DomainEvent::ThreadSectionUpdated
        | DomainEvent::ThreadSectionDeleted => changed(
            PublicEntity::Thread,
            None,
            vec![PublicChangeKind::OrderChanged],
        ),
    };
    assert(message@->changes =~= primary_message(*event)->changes);
    message
}

/// Projects one domain event into the public invalidation vocabulary.
pub fn project_domain_event(event: &DomainEvent) -> (result: Vec<ServerMessage>)
    ensures
        message_views(result@) == projection(*event),
{
    let mut messages: Vec<ServerMessage> = Vec::new();
    messages.push(primary_of(event));
    let availability: bool = match event {
        DomainEvent::HostRegistered { .. }
        | DomainEvent::HostStatusChanged { .. }
        | DomainEvent::HostUpdated { .. }
        | DomainEvent::HostDeleted { .. }
        | DomainEvent::EnvironmentCreated { .. }
        | DomainEvent::EnvironmentUpdated { .. }
        | DomainEvent::EnvironmentStatusChanged { .. } => true,
        _ => false,
    };
    if availability {
        messages.push(
            changed(
                PublicEntity::System,
                None,
                vec![PublicChangeKind::EnvironmentAvailabilityChanged],
            ),
        );
    }
    assert(message_views(messages@) =~~= projection(*event));
    messages
}

/// Whatever is projected is valid: every message of every event is one that the public contract
/// can express. The type of a run's event is one of the known types, as the domain has them.
pub proof fn projections_are_valid(event: DomainEvent, known_types: Seq<Seq<char>>)
    requires
        event matches DomainEvent::ThreadRunEvent { run } ==> known_types.contains(run.kind@),
    ensures
        projection(event).len() >= 1,
        forall|i: int|
            0 <= i < projection(event).len() ==> message_valid(
                #[trigger] projection(event)[i],
                known_types,
            ),
{
}

/// A deleted thread is reported as deleted, first of all.
pub proof fn deletions_are_reported(thread_id: String, project_id: String, deleted_at_ms: u64)
    ensures
        projection(
            (DomainEvent::ThreadUpdated { thread_id, project_id, deleted_at_ms: Some(deleted_at_ms) }),
        )[0]->changes[0] == PublicChangeKind::ThreadDeleted,
{
}

/// A thread's run events reach those who watch the thread, its project, and the list of threads.
pub proof fn run_events_reach_their_subscribers(
    run: RunEvent,
    thread: SubscriptionTarget,
    project: SubscriptionTarget,
)
    requires
        thread matches SubscriptionTarget::ThreadDetail { thread_id } && thread_id@ == run.thread_id@,
        project matches SubscriptionTarget::ProjectDetail { project_id } && project_id@
            == run.project_id@,
    ensures
        message_matches(projection((DomainEvent::ThreadRunEvent { run }))[0], thread),
        message_matches(projection((DomainEvent::ThreadRunEvent { run }))[0], project),
        message_matches(
            projection((DomainEvent::ThreadRunEvent { run }))[0],
            SubscriptionTarget::ThreadList,
        ),
{
}

/// Every message about a thread names that thread and its project, and says in which ways the thread
/// changed: a new one was created, a new message or a run's event was appended to its log, its
/// status, its queue or its interactions changed. An update may have touched everything.
pub proof fn thread_events_name_their_changes(event: DomainEvent)
    ensures
        (event is ThreadCreated || event is ThreadStatusChanged || event is ThreadMessageAdded
            || event is ThreadUpdated || event is ThreadRunEvent
            || event is ThreadQueuedMessageChanged || event is ThreadInteractionChanged) ==> {
            &&& projection(event).len() == 1
            &&& projection(event)[0] is Changed
            &&& projection(event)[0]->entity == PublicEntity::Thread
        },
        event matches DomainEvent::ThreadCreated { thread_id, project_id } ==> {
            let said = projection(event)[0];
            &&& said->id == Some(thread_id@)
            &&& said->metadata is Some
            &&& said->metadata->0.project_id == Some(project_id@)
            &&& said->metadata->0.event_types is None
            &&& said->metadata->0.has_pending_interaction is None
            &&& said->changes == seq![PublicChangeKind::ThreadCreated]
        },
        event matches DomainEvent::ThreadStatusChanged { thread_id, project_id, from, to, .. } ==> {
            let said = projection(event)[0];
            &&& said->id == Some(thread_id@)
            &&& said->metadata is Some
            &&& said->metadata->0.project_id == Some(project_id@)
            &&& said->metadata->0.event_types is None
            &&& said->metadata->0.has_pending_interaction is None
            &&& said->changes[0] == PublicChangeKind::StatusChanged
            &&& said->changes.len() == 2 || said->changes.len() == 1
            &&& said->changes.len() == 2 <==> (from == ThreadStatus::Archived || to
                == ThreadStatus::Archived)
            &&& said->changes.len() == 2 ==> said->changes[1] == PublicChangeKind::ArchivedChanged
        },
        event matches DomainEvent::ThreadMessageAdded { thread_id, message } ==> {
            let said = projection(event)[0];
            &&& said->id == Some(thread_id@)
            &&& message.project_id is None ==> said->metadata is None
            &&& message.project_id matches Some(project_id) ==> {
                &&& said->metadata is Some
                &&& said->metadata->0.project_id == Some(project_id@)
                &&& said->metadata->0.event_types is None
                &&& said->metadata->0.has_pending_interaction is None
            }
            &&& said->changes == seq![PublicChangeKind::EventsAppended]
        },
        event matches DomainEvent::ThreadUpdated { thread_id, project_id, deleted_at_ms } ==> {
            let said = projection(event)[0];
            &&& said->id == Some(thread_id@)
            &&& said->metadata is Some
            &&& said->metadata->0.project_id == Some(project_id@)
            &&& said->metadata->0.event_types is None
            &&& said->metadata->0.has_pending_interaction is None
            &&& deleted_at_ms is None ==> said->changes == seq![
                PublicChangeKind::TitleChanged,
                PublicChangeKind::ArchivedChanged,
                PublicChangeKind::PinStateChanged,
                PublicChangeKind::ParentChanged,
                PublicChangeKind::EnvironmentChanged,
                PublicChangeKind::ReadStateChanged,
                PublicChangeKind::OrderChanged,
                PublicChangeKind::TabsChanged,
            ]
            &&& deleted_at_ms is Some ==> said->changes == seq![
                PublicChangeKind::ThreadDeleted,
                PublicChangeKind::TitleChanged,
                PublicChangeKind::ArchivedChanged,
                PublicChangeKind::PinStateChanged,
                PublicChangeKind::ParentChanged,
                PublicChangeKind::EnvironmentChanged,
                PublicChangeKind::ReadStateChanged,
                PublicChangeKind::OrderChanged,
                PublicChangeKind::TabsChanged,
            ]
        },
        event matches DomainEvent::ThreadRunEvent { run } ==> {
            let said = projection(event)[0];
            &&& said->id == Some(run.thread_id@)
            &&& said->metadata is Some
            &&& said->metadata->0.project_id == Some(run.project_id@)
            &&& said->metadata->0.event_types == Some(seq![run.kind@])
            &&& said->metadata->0.has_pending_interaction is None
            &&& said->changes == seq![PublicChangeKind::EventsAppended]
        },
        event matches DomainEvent::ThreadQueuedMessageChanged { thread_id, project_id } ==> {
            let said = projection(event)[0];
            &&& said->id == Some(thread_id@)
            &&& project_id is None ==> said->metadata is None
            &&& project_id matches Some(project) ==> {
                &&& said->metadata is Some
                &&& said->metadata->0.project_id == Some(project@)
                &&& said->metadata->0.event_types is None
                &&& said->metadata->0.has_pending_interaction is None
            }
            &&& said->changes == seq![PublicChangeKind::QueueChanged]
        },
        event matches DomainEvent::ThreadInteractionChanged { thread_id, project_id, open } ==> {
            let said = projection(event)[0];
            &&& said->id == Some(thread_id@)
            &&& said->metadata is Some
            &&& said->metadata->0.project_id == opt_view(project_id)
            &&& said->metadata->0.event_types is None
            &&& said->metadata->0.has_pending_interaction == Some(open)
            &&& said->changes == seq![PublicChangeKind::InteractionsChanged]
        },
        (event is ThreadSectionCreated || event is ThreadSectionUpdated
            || event is ThreadSectionDeleted) ==> {
            let said = projection(event)[0];
            &&& projection(event).len() == 1
            &&& said is Changed
            &&& said->entity == PublicEntity::Thread
            &&& said->id is None
            &&& said->metadata is None
            &&& said->changes == seq![PublicChangeKind::OrderChanged]
        },
{
}

/// Every message about a project, a host or an environment names it and says in which ways it
/// changed. Hosts and environments also move what is available, and the server says so behind.
pub proof fn other_events_name_their_changes(event: DomainEvent)
    ensures
        event matches DomainEvent::ProjectCreated { project_id } ==> {
            let said = projection(event)[0];
            &&& projection(event).len() == 1
            &&& said is Changed
            &&& said->entity == PublicEntity::Project
            &&& said->id == Some(project_id@)
            &&& said->metadata is None
            &&& said->changes == seq![PublicChangeKind::ProjectCreated]
        },
        event matches DomainEvent::ProjectUpdated { project_id, deleted_at_ms } ==> {
            let said = projection(event)[0];
            &&& projection(event).len() == 1
            &&& said is Changed
            &&& said->entity == PublicEntity::Project
            &&& said->id == Some(project_id@)
            &&& said->metadata is None
            &&& deleted_at_ms is None ==> said->changes == seq![
                PublicChangeKind::ProjectUpdated,
                PublicChangeKind::ProjectSourcesChanged,
                PublicChangeKind::ProjectOrderChanged,
            ]
            &&& deleted_at_ms is Some ==> said->changes == seq![
                PublicChangeKind::ProjectUpdated,
                PublicChangeKind::ProjectSourcesChanged,
                PublicChangeKind::ProjectOrderChanged,
                PublicChangeKind::ProjectDeleted,
            ]
        },
        (event is HostRegistered || event is HostUpdated || event is HostStatusChanged
            || event is HostDeleted || event is EnvironmentCreated || event is EnvironmentUpdated
            || event is EnvironmentStatusChanged) <==> projection(event).len() == 2,
        projection(event).len() == 2 ==> {
            let said = projection(event)[0];
            let behind = projection(event)[1];
            &&& said is Changed
            &&& said->metadata is None
            &&& behind is Changed
            &&& behind->entity == PublicEntity::System
            &&& behind->id is None
            &&& behind->metadata is None
            &&& behind->changes == seq![PublicChangeKind::EnvironmentAvailabilityChanged]
        },
        event matches DomainEvent::HostRegistered { host_id, status } ==> {
            let said = projection(event)[0];
            &&& said->entity == PublicEntity::Host
            &&& said->id == Some(host_id@)
            &&& said->changes.len() == 1
            &&& status == HostStatus::Connected ==> said->changes[0]
                == PublicChangeKind::HostConnected
            &&& status != HostStatus::Connected ==> said->changes[0]
                == PublicChangeKind::HostDisconnected
        },
        event matches DomainEvent::HostUpdated { host_id, status } ==> {
            let said = projection(event)[0];
            &&& said->entity == PublicEntity::Host
            &&& said->id == Some(host_id@)
            &&& said->changes.len() == 1
            &&& status == HostStatus::Connected ==> said->changes[0]
                == PublicChangeKind::HostConnected
            &&& status != HostStatus::Connected ==> said->changes[0]
                == PublicChangeKind::HostDisconnected
        },
        event matches DomainEvent::HostStatusChanged { host_id, to } ==> {
            let said = projection(event)[0];
            &&& said->entity == PublicEntity::Host
            &&& said->id == Some(host_id@)
            &&& said->changes.len() == 1
            &&& to == HostStatus::Connected ==> said->changes[0] == PublicChangeKind::HostConnected
            &&& to != HostStatus::Connected ==> said->changes[0]
                == PublicChangeKind::HostDisconnected
        },
        event matches DomainEvent::HostDeleted { host_id } ==> {
            let said = projection(event)[0];
            &&& said->entity == PublicEntity::Host
            &&& said->id == Some(host_id@)
            &&& said->changes == seq![PublicChangeKind::HostDisconnected]
        },
        event matches DomainEvent::EnvironmentCreated { environment_id } ==> {
            let said = projection(event)[0];
            &&& said->entity == PublicEntity::Environment
            &&& said->id == Some(environment_id@)
            &&& said->changes == seq![PublicChangeKind::EnvironmentCreated]
        },
        event matches DomainEvent::EnvironmentUpdated { environment_id } ==> {
            let said = projection(event)[0];
            &&& said->entity == PublicEntity::Environment
            &&& said->id == Some(environment_id@)
            &&& said->changes == seq![PublicChangeKind::MetadataChanged]
        },
        event matches DomainEvent::EnvironmentStatusChanged { environment_id, to } ==> {
            let said = projection(event)[0];
            &&& said->entity == PublicEntity::Environment
            &&& said->id == Some(environment_id@)
            &&& to@ == "destroyed"@ ==> said->changes == seq![PublicChangeKind::EnvironmentDeleted]
            &&& to@ != "destroyed"@ ==> said->changes == seq![
                PublicChangeKind::StatusChanged,
                PublicChangeKind::WorkStatusChanged,
            ]
        },
{
}

/// Who hears of a change: the list of its sort always, the one it names, and of a thread's change
/// also those who watch the thread's project. Nobody else does, and a pong is for nobody.
pub proof fn changes_reach_whom_they_concern(message: MessageView, target: SubscriptionTarget)
    ensures
        message is Pong ==> !message_matches(message, target),
        message is Changed ==> {
            let entity = message->entity;
            let heard = message_matches(message, target);
            &&& target is ThreadList ==> (heard <==> entity == PublicEntity::Thread)
            &&& target is ProjectList ==> (heard <==> entity == PublicEntity::Project)
            &&& target is EnvironmentList ==> (heard <==> entity == PublicEntity::Environment)
            &&& target is HostList ==> (heard <==> entity == PublicEntity::Host)
            &&& target is System ==> (heard <==> entity == PublicEntity::System)
            &&& target matches SubscriptionTarget::ThreadDetail { thread_id } ==> (heard <==> entity
                == PublicEntity::Thread && message->id == Some(thread_id@))
            &&& target matches SubscriptionTarget::EnvironmentDetail { environment_id } ==> (heard
                <==> entity == PublicEntity::Environment && message->id == Some(environment_id@))
            &&& target matches SubscriptionTarget::HostDetail { host_id } ==> (heard <==> entity
                == PublicEntity::Host && message->id == Some(host_id@))
            &&& target matches SubscriptionTarget::ProjectDetail { project_id } ==> (heard <==> (
            entity == PublicEntity::Project && message->id == Some(project_id@)) || (entity
                == PublicEntity::Thread && message->metadata is Some
                && message->metadata->0.project_id == Some(project_id@)))
        },
{
}

/// A subscription is valid unless it is to one thing whose id is empty.
pub proof fn subscriptions_name_something(target: SubscriptionTarget)
    ensures
        target.spec_is_valid() <==> {
            &&& target matches SubscriptionTarget::ThreadDetail { thread_id } ==> thread_id@
                != Seq::<char>::empty()
            &&& target matches SubscriptionTarget::ProjectDetail { project_id } ==> project_id@
                != Seq::<char>::empty()
            &&& target matches SubscriptionTarget::EnvironmentDetail { environment_id }
                ==> environment_id@ != Seq::<char>::empty()
            &&& target matches SubscriptionTarget::HostDetail { host_id } ==> host_id@
                != Seq::<char>::empty()
        },
        (ClientMessage::Subscribe { target }).spec_is_valid() == target.spec_is_valid(),
        (ClientMessage::Unsubscribe { target }).spec_is_valid() == target.spec_is_valid(),
        ClientMessage::Ping.spec_is_valid(),
{
    if target is ThreadDetail && target->thread_id@.len() == 0 {
        assert(target->thread_id@ =~= Seq::<char>::empty());
    }
    if target is ProjectDetail && target->project_id@.len() == 0 {
        assert(target->project_id@ =~= Seq::<char>::empty());
    }
    if target is EnvironmentDetail && target->environment_id@.len() == 0 {
        assert(target->environment_id@ =~= Seq::<char>::empty());
    }
    if target is HostDetail && target->host_id@.len() == 0 {
        assert(target->host_id@ =~= Seq::<char>::empty());
    }
}

/// The words that clients know the sorts of things, the ways to change and the display states by.
pub proof fn words_of_the_protocol()
    ensures
        PublicEntity::Thread.spec_as_str() == "thread"@,
        PublicEntity::Project.spec_as_str() == "project"@,
        PublicEntity::Environment.spec_as_str() == "environment"@,
        PublicEntity::Host.spec_as_str() == "host"@,
        PublicEntity::System.spec_as_str() == "system"@,
        PublicChangeKind::ThreadCreated.spec_as_str() == "thread-created"@,
        PublicChangeKind::ThreadDeleted.spec_as_str() == "thread-deleted"@,
        PublicChangeKind::EventsAppended.spec_as_str() == "events-appended"@,
        PublicChangeKind::HistoryRewritten.spec_as_str() == "history-rewritten"@,
        PublicChangeKind::InteractionsChanged.spec_as_str() == "interactions-changed"@,
        PublicChangeKind::StatusChanged.spec_as_str() == "status-changed"@,
        PublicChangeKind::TitleChanged.spec_as_str() == "title-changed"@,
        PublicChangeKind::QueueChanged.spec_as_str() == "queue-changed"@,
        PublicChangeKind::ArchivedChanged.spec_as_str() == "archived-changed"@,
        PublicChangeKind::PinStateChanged.spec_as_str() == "pin-state-changed"@,
        PublicChangeKind::ParentChanged.spec_as_str() == "parent-changed"@,
        PublicChangeKind::EnvironmentChanged.spec_as_str() == "environment-changed"@,
        PublicChangeKind::ReadStateChanged.spec_as_str() == "read-state-changed"@,
        PublicChangeKind::OrderChanged.spec_as_str() == "order-changed"@,
        PublicChangeKind::TabsChanged.spec_as_str() == "tabs-changed"@,
        PublicChangeKind::TerminalsChanged.spec_as_str() == "terminals-changed"@,
        PublicChangeKind::ProjectCreated.spec_as_str() == "project-created"@,
        PublicChangeKind::ProjectUpdated.spec_as_str() == "project-updated"@,
        PublicChangeKind::ProjectDeleted.spec_as_str() == "project-deleted"@,
        PublicChangeKind::ProjectSourcesChanged.spec_as_str() == "project-sources-changed"@,
        PublicChangeKind::ThreadsChanged.spec_as_str() == "threads-changed"@,
        PublicChangeKind::ProjectOrderChanged.spec_as_str() == "project-order-changed"@,
        PublicChangeKind::EnvironmentCreated.spec_as_str() == "environment-created"@,
        PublicChangeKind::EnvironmentDeleted.spec_as_str() == "environment-deleted"@,
        PublicChangeKind::MetadataChanged.spec_as_str() == "metadata-changed"@,
        PublicChangeKind::WorkStatusChanged.spec_as_str() == "work-status-changed"@,
        PublicChangeKind::GitRefsChanged.spec_as_str() == "git-refs-changed"@,
        PublicChangeKind::ThreadStorageChanged.spec_as_str() == "thread-storage-changed"@,
        PublicChangeKind::HostConnected.spec_as_str() == "host-connected"@,
        PublicChangeKind::HostDisconnected.spec_as_str() == "host-disconnected"@,
        PublicChangeKind::ConfigChanged.spec_as_str() == "config-changed"@,
        PublicChangeKind::PluginsChanged.spec_as_str() == "plugins-changed"@,
        PublicChangeKind::ProviderRegistrationsChanged.spec_as_str() == "provider-registrations-changed"@,
        PublicChangeKind::UiPreferencesChanged.spec_as_str() == "ui-preferences-changed"@,
        PublicChangeKind::EnvironmentAvailabilityChanged.spec_as_str() == "environment-availability-changed"@,
        PublicDisplayStatus::Pending.spec_as_str() == "pending"@,
        PublicDisplayStatus::Idle.spec_as_str() == "idle"@,
        PublicDisplayStatus::Starting.spec_as_str() == "starting"@,
        PublicDisplayStatus::Active.spec_as_str() == "active"@,
        PublicDisplayStatus::Stopping.spec_as_str() == "stopping"@,
        PublicDisplayStatus::Error.spec_as_str() == "error"@,
        PublicDisplayStatus::Provisioning.spec_as_str() == "provisioning"@,
        PublicDisplayStatus::HostReconnecting.spec_as_str() == "host-reconnecting"@,
        PublicDisplayStatus::WaitingForHost.spec_as_str() == "waiting-for-host"@,
{
}

/// What a stored frame turned out to hold.
#[derive(Debug, PartialEq, Eq)]
pub enum FrameContent {
    /// A worker frame around a domain event.
    Event(DomainEvent),
    /// A public message, bare or inside a worker frame.
    Message(ServerMessage),
    /// Worker traffic, or nothing that has a public form.
    Nothing,
}

/// Turns what a stored frame holds into public messages: an event is projected, a message goes out
/// as it is where it is valid, and everything else is dropped.
pub fn public_messages_from_frame(content: FrameContent, known_types: &Vec<String>) -> (result: Vec<
    ServerMessage,
>)
    ensures
        message_views(result@) == (match content {
            FrameContent::Event(event) => projection(event),
            FrameContent::Message(message) => if message_valid(message@, texts(known_types@)) {
                seq![message@]
            } else {
                Seq::empty()
            },
            FrameContent::Nothing => Seq::empty(),
        }),
{
    match content {
        FrameContent::Event(event) => project_domain_event(&event),
        FrameContent::Message(message) => {
            let mut messages: Vec<ServerMessage> = Vec::new();
            if message.is_valid(known_types) {
                let ghost view = message@;
                messages.push(message);
                assert(message_views(messages@) =~= seq![view]);
            } else {
                assert(message_views(messages@) =~= Seq::empty());
            }
            messages
        },
        FrameContent::Nothing => {
            let messages: Vec<ServerMessage> = Vec::new();
            assert(message_views(messages@) =~= Seq::empty());
            messages
        },
    }
}

} // verus!
