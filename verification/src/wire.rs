//! The wire forms: public messages, worker frames, scopes and the frames that the relay stores.

use vstd::prelude::*;
use vstd::utf8::{decode_utf8, valid_utf8};

use crate::json::{
    begins_otherwise, canonical_form, canonical_members, json_parse, lookup, lookup_last, member,
    members_text, object, object_bytes, opt_uint_tree, parse, plain, reserved_name, text_array,
    trees, whole, whole_readings_are_exact, writable, Fields, Json, Tree,
};
use crate::protocol::{
    MessageView, MetadataView, PublicChangeKind, ServerMessage, ThreadActivityMetadata,
    ThreadChangeMetadata, ThreadRuntimeMetadata, ThreadStatusMetadata,
};
use crate::text::{joined3, opt_view, same_text, texts};

verus! {

/// The text that bytes stand for, with a replacement character wherever they are not UTF-8.
pub uninterp spec fn utf8_lossy(bytes: Seq<u8>) -> Seq<char>;

/// `String::from_utf8_lossy`: the text that the bytes encode where they are valid UTF-8, and
/// otherwise one in which what is not was replaced, named by [`utf8_lossy`].
#[verifier::external_body]
pub(crate) fn lossy_text(bytes: &[u8]) -> (result: String)
    ensures
        result@ == utf8_lossy(bytes@),
        valid_utf8(bytes@) ==> result@ == decode_utf8(bytes@),
{
    String::from_utf8_lossy(bytes).into_owned()
}

/// Where an event is published.
#[derive(Clone, Debug, PartialEq, Eq)]
pub enum Scope {
    /// To everyone.
    Global,
    /// To a project.
    Project(String),
    /// To a thread.
    Thread(String),
    /// To a host.
    Host(String),
    /// To one client.
    Client(String),
    /// To one user.
    User(String),
}

impl Scope {
    /// The word for the kind of a scope.
    pub open spec fn kind(&self) -> Seq<char> {
        match *self {
            Scope::Global => "global"@,
            Scope::Project(_) => "project"@,
            Scope::Thread(_) => "thread"@,
            Scope::Host(_) => "host"@,
            Scope::Client(_) => "client"@,
            Scope::User(_) => "user"@,
        }
    }

    /// What the scope names, unless it is everyone.
    pub open spec fn named(&self) -> Option<Seq<char>> {
        match *self {
            Scope::Global => None,
            Scope::Project(id) => Some(id@),
            Scope::Thread(id) => Some(id@),
            Scope::Host(id) => Some(id@),
            Scope::Client(id) => Some(id@),
            Scope::User(id) => Some(id@),
        }
    }

    /// The scope on the wire.
    pub open spec fn tree(&self) -> Tree {
        object().field("kind"@, Tree::Str(self.kind())).field_if("id"@, opt_text(self.named()))
    }

    /// The scope on the wire.
    pub fn to_json(&self) -> (result: Json)
        ensures
            result@ == self.tree(),
    {
        match self {
            Scope::Global => Fields::new().with("kind", Json::text("global")).object(),
            Scope::Project(id) => Fields::new().with("kind", Json::text("project")).with(
                "id",
                Json::text(id.as_str()),
            ).object(),
            Scope::Thread(id) => Fields::new().with("kind", Json::text("thread")).with(
                "id",
                Json::text(id.as_str()),
            ).object(),
            Scope::Host(id) => Fields::new().with("kind", Json::text("host")).with(
                "id",
                Json::text(id.as_str()),
            ).object(),
            Scope::Client(id) => Fields::new().with("kind", Json::text("client")).with(
                "id",
                Json::text(id.as_str()),
            ).object(),
            Scope::User(id) => Fields::new().with("kind", Json::text("user")).with(
                "id",
                Json::text(id.as_str()),
            ).object(),
        }
    }
}

/// Whether a word is the kind of a scope that names something.
pub open spec fn names_something(kind: Seq<char>) -> bool {
    kind == "project"@ || kind == "thread"@ || kind == "host"@ || kind == "client"@ || kind
        == "user"@
}

/// The scope that a kind and an id spell. Every kind but `global` needs an id that is not empty.
pub fn parse_scope(kind: &str, id: &Option<String>) -> (result: Result<Scope, String>)
    ensures
        result matches Ok(scope) ==> scope.kind() == kind@ && (kind@ == "global"@ || (
        scope.named() == opt_view(*id) && id->0@.len() > 0)),
        result is Ok <==> kind@ == "global"@ || (names_something(kind@) && id is Some
            && id->0@.len() > 0),
        result matches Err(message) ==> message@ == (if names_something(kind@) {
            "scope id is required for kind \""@ + kind@ + "\""@
        } else {
            "unknown scope kind \""@ + kind@ + "\""@
        }),
{
    if same_text(kind, "global") {
        return Ok(Scope::Global);
    }
    let known: bool = same_text(kind, "project") || same_text(kind, "thread") || same_text(
        kind,
        "host",
    ) || same_text(kind, "client") || same_text(kind, "user");
    if !known {
        return Err(joined3("unknown scope kind \"", kind, "\""));
    }
    let given: String = match id {
        Some(text) => {
            if text.as_str().is_empty() {
                return Err(joined3("scope id is required for kind \"", kind, "\""));
            }
            text.clone()
        },
        None => {
            return Err(joined3("scope id is required for kind \"", kind, "\""));
        },
    };
    if same_text(kind, "project") {
        Ok(Scope::Project(given))
    } else if same_text(kind, "thread") {
        Ok(Scope::Thread(given))
    } else if same_text(kind, "host") {
        Ok(Scope::Host(given))
    } else if same_text(kind, "client") {
        Ok(Scope::Client(given))
    } else {
        Ok(Scope::User(given))
    }
}

/// The activity counters on the wire.
pub open spec fn activity_tree(activity: ThreadActivityMetadata) -> Tree {
    object()
        .field("activeWorkflowCount"@, Tree::UInt(activity.active_workflow_count))
        .field("activeBackgroundAgentCount"@, Tree::UInt(activity.active_background_agent_count))
        .field("activeBackgroundCommandCount"@, Tree::UInt(activity.active_background_command_count))
        .field("activePlanModeCount"@, Tree::UInt(activity.active_plan_mode_count))
        .field("activeGoalCount"@, Tree::UInt(activity.active_goal_count))
}

/// The runtime details on the wire.
pub open spec fn runtime_tree(runtime: ThreadRuntimeMetadata) -> Tree {
    object()
        .field("displayStatus"@, Tree::Str(runtime.display_status.spec_as_str()))
        .field("hostReconnectGraceExpiresAt"@, opt_uint_tree(runtime.host_reconnect_grace_expires_at))
}

/// The status details on the wire.
pub open spec fn status_tree(status: ThreadStatusMetadata) -> Tree {
    object()
        .field("status"@, Tree::Str(status.status.spec_as_str()))
        .field("runtime"@, runtime_tree(status.runtime))
        .field("activity"@, activity_tree(status.activity))
        .field("latestAttentionAt"@, Tree::UInt(status.latest_attention_at))
        .field("updatedAt"@, Tree::UInt(status.updated_at))
}

/// A truth value on the wire, where there is one.
pub open spec fn opt_bool(value: Option<bool>) -> Option<Tree> {
    match value {
        Some(b) => Some(Tree::Bool(b)),
        None => None,
    }
}

/// A text on the wire, where there is one.
pub open spec fn opt_text(value: Option<Seq<char>>) -> Option<Tree> {
    match value {
        Some(text) => Some(Tree::Str(text)),
        None => None,
    }
}

/// The metadata on the wire: a member for each thing that it says, and none for the others.
pub open spec fn metadata_tree(metadata: MetadataView) -> Tree {
    object().field_if(
        "backgroundActivityChanged"@,
        opt_bool(metadata.background_activity_changed),
    ).field_if(
        "eventTypes"@,
        match metadata.event_types {
            Some(types) => Some(text_array(types)),
            None => None,
        },
    ).field_if("hasPendingInteraction"@, opt_bool(metadata.has_pending_interaction)).field_if(
        "projectId"@,
        opt_text(metadata.project_id),
    ).field_if(
        "statusChange"@,
        match metadata.status_change {
            Some(status) => Some(status_tree(status)),
            None => None,
        },
    )
}

/// The words of a list of changes.
pub open spec fn change_words(changes: Seq<PublicChangeKind>) -> Seq<Seq<char>> {
    Seq::new(changes.len(), |i: int| changes[i].spec_as_str())
}

/// A public message on the wire.
pub open spec fn message_tree(message: MessageView) -> Tree {
    match message {
        MessageView::Pong => object().field("type"@, Tree::Str("pong"@)),
        MessageView::Changed { entity, id, metadata, changes } => {
            object().field("type"@, Tree::Str("changed"@)).field(
                "entity"@,
                Tree::Str(entity.spec_as_str()),
            ).field_if("id"@, opt_text(id)).field_if(
                "metadata"@,
                match metadata {
                    Some(metadata) => Some(metadata_tree(metadata)),
                    None => None,
                },
            ).field("changes"@, text_array(change_words(changes)))
        },
    }
}

fn activity_json(activity: &ThreadActivityMetadata) -> (result: Json)
    ensures
        result@ == activity_tree(*activity),
{
    Fields::new().with(
        "activeWorkflowCount",
        Json::UInt(activity.active_workflow_count),
    ).with(
        "activeBackgroundAgentCount",
        Json::UInt(activity.active_background_agent_count),
    ).with(
        "activeBackgroundCommandCount",
        Json::UInt(activity.active_background_command_count),
    ).with("activePlanModeCount", Json::UInt(activity.active_plan_mode_count)).with(
        "activeGoalCount",
        Json::UInt(activity.active_goal_count),
    ).object()
}

fn status_json(status: &ThreadStatusMetadata) -> (result: Json)
    ensures
        result@ == status_tree(*status),
{
    let runtime: Json = Fields::new().with(
        "displayStatus",
        Json::text(status.runtime.display_status.as_str()),
    ).with(
        "hostReconnectGraceExpiresAt",
        Json::opt_uint(status.runtime.host_reconnect_grace_expires_at),
    ).object();
    Fields::new().with("status", Json::text(status.status.as_str())).with("runtime", runtime).with(
        "activity",
        activity_json(&status.activity),
    ).with("latestAttentionAt", Json::UInt(status.latest_attention_at)).with(
        "updatedAt",
        Json::UInt(status.updated_at),
    ).object()
}

fn metadata_json(metadata: &ThreadChangeMetadata) -> (result: Json)
    ensures
        result@ == metadata_tree(metadata@),
{
    let background: Option<Json> = match metadata.background_activity_changed {
        Some(b) => Some(Json::Bool(b)),
        None => None,
    };
    let types: Option<Json> = match &metadata.event_types {
        Some(types) => Some(Json::texts(types)),
        None => None,
    };
    let pending: Option<Json> = match metadata.has_pending_interaction {
        Some(b) => Some(Json::Bool(b)),
        None => None,
    };
    let project: Option<Json> = match &metadata.project_id {
        Some(id) => Some(Json::text(id.as_str())),
        None => None,
    };
    let status: Option<Json> = match &metadata.status_change {
        Some(status) => Some(status_json(status)),
        None => None,
    };
    Fields::new().maybe("backgroundActivityChanged", background).maybe("eventTypes", types).maybe(
        "hasPendingInteraction",
        pending,
    ).maybe("projectId", project).maybe("statusChange", status).object()
}

/// The words of a list of changes.
fn change_words_json(changes: &Vec<PublicChangeKind>) -> (result: Json)
    ensures
        result@ == text_array(change_words(changes@)),
{
    let mut words: Vec<Json> = Vec::new();
    for i in 0..changes.len()
        invariant
            words@.len() == i,
            forall|j: int|
                0 <= j < i ==> (#[trigger] words@[j])@ == Tree::Str(changes@[j].spec_as_str()),
    {
        words.push(Json::text(changes[i].as_str()));
    }
    assert(trees(words@) =~= text_array(change_words(changes@))->Array_0);
    Json::array(words)
}

impl ServerMessage {
    /// The message on the wire.
    pub fn to_json(&self) -> (result: Json)
        ensures
            result@ == message_tree(self@),
    {
        match self {
            ServerMessage::Pong => Fields::new().with("type", Json::text("pong")).object(),
            ServerMessage::Changed { entity, id, metadata, changes } => {
                let named: Option<Json> = match id {
                    Some(id) => Some(Json::text(id.as_str())),
                    None => None,
                };
                let described: Option<Json> = match metadata {
                    Some(metadata) => Some(metadata_json(metadata)),
                    None => None,
                };
                Fields::new().with("type", Json::text("changed")).with(
                    "entity",
                    Json::text(entity.as_str()),
                ).maybe("id", named).maybe("metadata", described).with(
                    "changes",
                    change_words_json(changes),
                ).object()
            },
        }
    }
}

/// Messages the server sends to a worker.
#[derive(Debug, PartialEq, Eq)]
pub enum WorkerServerMessage {
    /// First frame of a connection; no worker may enroll before checking it.
    Hello {
        /// The protocol version.
        protocol_version: u32,
        /// The agents this server can dispatch, each as its launch description.
        providers: Vec<Json>,
    },
    /// A subscription was taken.
    Subscribed {
        /// To what.
        scope: Scope,
        /// Whether it is the first of that scope.
        first_subscriber: bool,
    },
    /// A subscription was dropped.
    Unsubscribed {
        /// From what.
        scope: Scope,
    },
    /// An event of a scope.
    Event {
        /// Its identity in the log.
        event_id: String,
        /// Its scope.
        scope: Scope,
        /// What it says.
        payload: String,
        /// When it was published.
        created_at_ms: u64,
    },
    /// The answer to a ping.
    Pong,
    /// Something went wrong.
    Error {
        /// What.
        message: String,
    },
    /// A host was enrolled.
    HostEnrolled {
        /// The host.
        host: Json,
        /// The event that says so.
        event_id: String,
    },
    /// A heartbeat was noted.
    HostHeartbeatAck {
        /// The host.
        host_id: String,
        /// When it was last seen.
        last_seen_at_ms: u64,
    },
    /// A host was detached.
    HostDisconnected {
        /// The host.
        host_id: String,
    },
    /// A run report was taken or refused.
    RunReportAck {
        /// The run.
        run_id: String,
        /// Whether it was taken.
        accepted: bool,
        /// Why not.
        detail: Option<String>,
    },
    /// An interaction request was taken or refused.
    InteractionRequestAck {
        /// The provider's own id for it.
        request_id: String,
        /// The interaction it became.
        interaction_id: Option<String>,
        /// Whether it was taken.
        accepted: bool,
        /// Why not.
        detail: Option<String>,
    },
    /// An environment report was taken or refused.
    EnvironmentReportAck {
        /// The environment.
        environment_id: String,
        /// Whether it was taken.
        accepted: bool,
        /// Why not.
        detail: Option<String>,
    },
    /// A replay is over.
    ReplayComplete {
        /// Of what.
        scope: Scope,
        /// How many events it had.
        count: u64,
        /// Whether there are more.
        has_more: bool,
    },
}

/// A worker message on the wire.
pub open spec fn worker_tree(message: WorkerServerMessage) -> Tree {
    match message {
        WorkerServerMessage::Hello { protocol_version, providers } => object()
            .field("type"@, Tree::Str("hello"@))
            .field("protocol_version"@, Tree::UInt(protocol_version as u64))
            .field_if("providers"@, if providers@.len() == 0 {
                None
            } else {
                Some(Tree::Array(trees(providers@)))
            }),
        WorkerServerMessage::Subscribed { scope, first_subscriber } => object()
            .field("type"@, Tree::Str("subscribed"@))
            .field("scope"@, scope.tree())
            .field("first_subscriber"@, Tree::Bool(first_subscriber)),
        WorkerServerMessage::Unsubscribed { scope } => object()
            .field("type"@, Tree::Str("unsubscribed"@))
            .field("scope"@, scope.tree()),
        WorkerServerMessage::Event { event_id, scope, payload, created_at_ms } => event_tree(
            event_id@,
            scope,
            payload@,
            created_at_ms,
        ),
        WorkerServerMessage::Pong => object().field("type"@, Tree::Str("pong"@)),
        WorkerServerMessage::Error { message } => object()
            .field("type"@, Tree::Str("error"@))
            .field("message"@, Tree::Str(message@)),
        WorkerServerMessage::HostEnrolled { host, event_id } => object()
            .field("type"@, Tree::Str("host_enrolled"@))
            .field("host"@, host@)
            .field("event_id"@, Tree::Str(event_id@)),
        WorkerServerMessage::HostHeartbeatAck { host_id, last_seen_at_ms } => object()
            .field("type"@, Tree::Str("host_heartbeat_ack"@))
            .field("host_id"@, Tree::Str(host_id@))
            .field("last_seen_at_ms"@, Tree::UInt(last_seen_at_ms)),
        WorkerServerMessage::HostDisconnected { host_id } => object()
            .field("type"@, Tree::Str("host_disconnected"@))
            .field("host_id"@, Tree::Str(host_id@)),
        WorkerServerMessage::RunReportAck { run_id, accepted, detail } => object()
            .field("type"@, Tree::Str("run_report_ack"@))
            .field("run_id"@, Tree::Str(run_id@))
            .field("accepted"@, Tree::Bool(accepted))
            .field_if("detail"@, opt_text(opt_view(detail))),
        WorkerServerMessage::InteractionRequestAck {
            request_id,
            interaction_id,
            accepted,
            detail,
        } => object()
            .field("type"@, Tree::Str("interaction_request_ack"@))
            .field("request_id"@, Tree::Str(request_id@))
            .field_if("interaction_id"@, opt_text(opt_view(interaction_id)))
            .field("accepted"@, Tree::Bool(accepted))
            .field_if("detail"@, opt_text(opt_view(detail))),
        WorkerServerMessage::EnvironmentReportAck { environment_id, accepted, detail } => {
            object()
                .field("type"@, Tree::Str("environment_report_ack"@))
                .field("environment_id"@, Tree::Str(environment_id@))
                .field("accepted"@, Tree::Bool(accepted))
                .field_if("detail"@, opt_text(opt_view(detail)))
        },
        WorkerServerMessage::ReplayComplete { scope, count, has_more } => object()
            .field("type"@, Tree::Str("replay_complete"@))
            .field("scope"@, scope.tree())
            .field("count"@, Tree::UInt(count))
            .field("has_more"@, Tree::Bool(has_more)),
    }
}

/// An event frame on the wire.
pub open spec fn event_tree(
    event_id: Seq<char>,
    scope: Scope,
    payload: Seq<char>,
    created_at_ms: u64,
) -> Tree {
    object()
        .field("type"@, Tree::Str("event"@))
        .field("event_id"@, Tree::Str(event_id))
        .field("scope"@, scope.tree())
        .field("payload"@, Tree::Str(payload))
        .field("created_at_ms"@, Tree::UInt(created_at_ms))
}

/// A text on the wire, where there is one.
fn opt_text_json(value: &Option<String>) -> (result: Option<Json>)
    ensures
        crate::json::opt_value(result) == opt_text(opt_view(*value)),
{
    match value {
        Some(text) => Some(Json::text(text.as_str())),
        None => None,
    }
}

/// Values of the same trees.
fn copy_all(items: &Vec<Json>) -> (result: Vec<Json>)
    ensures
        trees(result@) == trees(items@),
{
    let mut out: Vec<Json> = Vec::new();
    for i in 0..items.len()
        invariant
            out@.len() == i,
            forall|j: int| 0 <= j < i ==> (#[trigger] out@[j])@ == items@[j]@,
    {
        out.push(items[i].copy());
    }
    assert(trees(out@) =~= trees(items@));
    out
}

impl WorkerServerMessage {
    /// The message on the wire.
    pub fn to_json(&self) -> (result: Json)
        ensures
            result@ == worker_tree(*self),
    {
        match self {
            WorkerServerMessage::Hello { protocol_version, providers } => {
                let listed: Option<Json> = if providers.len() == 0 {
                    None
                } else {
                    Some(Json::array(copy_all(providers)))
                };
                Fields::new().with("type", Json::text("hello")).with(
                    "protocol_version",
                    Json::UInt(*protocol_version as u64),
                ).maybe("providers", listed).object()
            },
            WorkerServerMessage::Subscribed { scope, first_subscriber } => Fields::new().with(
                "type",
                Json::text("subscribed"),
            ).with("scope", scope.to_json()).with(
                "first_subscriber",
                Json::Bool(*first_subscriber),
            ).object(),
            WorkerServerMessage::Unsubscribed { scope } => Fields::new().with(
                "type",
                Json::text("unsubscribed"),
            ).with("scope", scope.to_json()).object(),
            WorkerServerMessage::Event { event_id, scope, payload, created_at_ms } => event_fields(
                event_id.as_str(),
                scope,
                payload.as_str(),
                *created_at_ms,
            ).object(),
            WorkerServerMessage::Pong => Fields::new().with("type", Json::text("pong")).object(),
            WorkerServerMessage::Error { message } => Fields::new().with(
                "type",
                Json::text("error"),
            ).with("message", Json::text(message.as_str())).object(),
            WorkerServerMessage::HostEnrolled { host, event_id } => Fields::new().with(
                "type",
                Json::text("host_enrolled"),
            ).with("host", host.copy()).with("event_id", Json::text(event_id.as_str())).object(),
            WorkerServerMessage::HostHeartbeatAck { host_id, last_seen_at_ms } => Fields::new().with(
                "type",
                Json::text("host_heartbeat_ack"),
            ).with("host_id", Json::text(host_id.as_str())).with(
                "last_seen_at_ms",
                Json::UInt(*last_seen_at_ms),
            ).object(),
            WorkerServerMessage::HostDisconnected { host_id } => Fields::new().with(
                "type",
                Json::text("host_disconnected"),
            ).with("host_id", Json::text(host_id.as_str())).object(),
            WorkerServerMessage::RunReportAck { run_id, accepted, detail } => Fields::new().with(
                "type",
                Json::text("run_report_ack"),
            ).with("run_id", Json::text(run_id.as_str())).with(
                "accepted",
                Json::Bool(*accepted),
            ).maybe("detail", opt_text_json(detail)).object(),
            WorkerServerMessage::InteractionRequestAck {
                request_id,
                interaction_id,
                accepted,
                detail,
            } => Fields::new().with("type", Json::text("interaction_request_ack")).with(
                "request_id",
                Json::text(request_id.as_str()),
            ).maybe("interaction_id", opt_text_json(interaction_id)).with(
                "accepted",
                Json::Bool(*accepted),
            ).maybe("detail", opt_text_json(detail)).object(),
            WorkerServerMessage::EnvironmentReportAck { environment_id, accepted, detail } => {
                Fields::new().with("type", Json::text("environment_report_ack")).with(
                    "environment_id",
                    Json::text(environment_id.as_str()),
                ).with("accepted", Json::Bool(*accepted)).maybe(
                    "detail",
                    opt_text_json(detail),
                ).object()
            },
            WorkerServerMessage::ReplayComplete { scope, count, has_more } => Fields::new().with(
                "type",
                Json::text("replay_complete"),
            ).with("scope", scope.to_json()).with("count", Json::UInt(*count)).with(
                "has_more",
                Json::Bool(*has_more),
            ).object(),
        }
    }
}

/// The members of an event frame, in its order.
fn event_fields(event_id: &str, scope: &Scope, payload: &str, created_at_ms: u64) -> (result: Fields)
    ensures
        Tree::Object(result@) == event_tree(event_id@, *scope, payload@, created_at_ms),
{
    Fields::new().with("type", Json::text("event"))
        .with("event_id", Json::text(event_id))
        .with("scope", scope.to_json())
        .with("payload", Json::text(payload))
        .with("created_at_ms", Json::UInt(created_at_ms))
}

/// Builds the worker frame that the relay stores: the JSON text of an event around the payload, its
/// members in the order of the frame. The text spells that event again.
pub fn build_event_frame(
    scope: &Scope,
    payload: &[u8],
    event_id: &str,
    created_at_ms: u64,
) -> (result: Vec<u8>)
    ensures
        exists|m: Seq<(Seq<char>, Tree)>|
            #![trigger members_text(m)]
            canonical_members(
                event_tree(event_id@, *scope, utf8_lossy(payload@), created_at_ms)->Object_0,
                m,
            ) && result@ == members_text(m),
        json_parse(result@) matches Some(t) && canonical_form(
            event_tree(event_id@, *scope, utf8_lossy(payload@), created_at_ms),
            t,
        ),
        valid_utf8(payload@) ==> utf8_lossy(payload@) == decode_utf8(payload@),
{
    let text: String = lossy_text(payload);
    proof {
        event_frames_are_plain(event_id@, *scope, text@, created_at_ms);
    }
    let frame: Vec<u8> = object_bytes(event_fields(event_id, scope, text.as_str(), created_at_ms));
    proof {
        whole_readings_are_exact(
            event_tree(event_id@, *scope, text@, created_at_ms),
            json_parse(frame@)->0,
        );
    }
    frame
}

/// An event frame has no fractional numbers, is two levels deep, and begins with its type.
proof fn event_frames_are_plain(
    event_id: Seq<char>,
    scope: Scope,
    payload: Seq<char>,
    created_at_ms: u64,
)
    ensures
        whole(event_tree(event_id, scope, payload, created_at_ms)),
        writable(event_tree(event_id, scope, payload, created_at_ms)->Object_0),
{
    reveal_strlit("$serde_json::private::RawValue");
    reveal_strlit("kind");
    reveal_strlit("id");
    reveal_strlit("type");
    reveal_strlit("event_id");
    reveal_strlit("scope");
    reveal_strlit("payload");
    reveal_strlit("created_at_ms");
    assert("$serde_json::private::RawValue"@.len() == 30);
    assert("kind"@.len() == 4 && "id"@.len() == 2 && "type"@.len() == 4 && "event_id"@.len() == 8
        && "scope"@.len() == 5 && "payload"@.len() == 7 && "created_at_ms"@.len() == 13);
    let inner = scope.tree()->Object_0;
    assert(plain(scope.tree(), 126)) by {
        assert forall|i: int| 0 <= i < inner.len() implies plain((#[trigger] inner[i]).1, 125)
            && inner[i].0 != reserved_name() by {
            assert(i == 0 || i == 1);
        }
        begins_otherwise(inner);
    }
    assert(whole(scope.tree())) by {
        assert forall|i: int| 0 <= i < inner.len() implies whole((#[trigger] inner[i]).1) by {
            assert(i == 0 || i == 1);
        }
    }
    let fields = event_tree(event_id, scope, payload, created_at_ms)->Object_0;
    assert forall|i: int| 0 <= i < fields.len() implies plain((#[trigger] fields[i]).1, 126)
        && whole(fields[i].1) && fields[i].0 != reserved_name() by {
        assert(i == 0 || i == 1 || i == 2 || i == 3 || i == 4);
    }
    begins_otherwise(fields);
}

/// What a stored frame spells is what was published: whoever parses it finds under each name what
/// the frame was built with, the payload included.
pub proof fn stored_frames_read_back(
    event_id: Seq<char>,
    scope: Scope,
    payload: Seq<char>,
    created_at_ms: u64,
    t: Tree,
)
    requires
        canonical_form(event_tree(event_id, scope, payload, created_at_ms), t),
    ensures
        member(t, "type"@) == Some(Tree::Str("event"@)),
        member(t, "event_id"@) == Some(Tree::Str(event_id)),
        member(t, "payload"@) == Some(Tree::Str(payload)),
        member(t, "created_at_ms"@) == Some(Tree::UInt(created_at_ms)),
        member(t, "scope"@) matches Some(s) && canonical_form(scope.tree(), s),
{
    let x = event_tree(event_id, scope, payload, created_at_ms)->Object_0;
    reveal_strlit("type");
    reveal_strlit("event_id");
    reveal_strlit("scope");
    reveal_strlit("payload");
    reveal_strlit("created_at_ms");
    assert("type"@.len() == 4 && "event_id"@.len() == 8 && "scope"@.len() == 5 && "payload"@.len()
        == 7 && "created_at_ms"@.len() == 13);
    assert(x[0].0 == "type"@ && x[1].0 == "event_id"@ && x[2].0 == "scope"@ && x[3].0 == "payload"@
        && x[4].0 == "created_at_ms"@);
    assert(t is Object);
    assert forall|i: int| 0 <= i < 5 implies lookup(x, (#[trigger] x[i]).0) == Some(x[i].1) by {
        lookup_last(x, i);
    }
    assert(canonical_form(x[0].1, lookup(t->Object_0, x[0].0)->0));
    assert(canonical_form(x[1].1, lookup(t->Object_0, x[1].0)->0));
    assert(canonical_form(x[2].1, lookup(t->Object_0, x[2].0)->0));
    assert(canonical_form(x[3].1, lookup(t->Object_0, x[3].0)->0));
    assert(canonical_form(x[4].1, lookup(t->Object_0, x[4].0)->0));
}

/// A stored frame as a replay hands it out: the value that it spells, or, where it is not JSON,
/// its text, so that an unexpected payload is still replayed.
pub fn replayed_frame(payload: &[u8]) -> (result: Json)
    ensures
        result@ == (match json_parse(payload@) {
            Some(value) => value,
            None => Tree::Str(utf8_lossy(payload@)),
        }),
{
    match parse(payload) {
        Some(value) => value,
        None => Json::Str(lossy_text(payload)),
    }
}

// What goes over the wire.

/// A scope is shown by its kind, and by its id unless it is the whole.
pub proof fn scopes_are_shown(scope: Scope, value: Json)
    requires
        call_ensures(Scope::to_json, (&scope,), value),
    ensures
        scope is Global ==> member(value@, "kind"@) == Some(Tree::Str("global"@)) && member(value@, "id"@) is None,
        scope matches Scope::Project(id) ==> member(value@, "kind"@) == Some(Tree::Str("project"@)) && member(value@, "id"@) == Some(Tree::Str(id@)),
        scope matches Scope::Thread(id) ==> member(value@, "kind"@) == Some(Tree::Str("thread"@)) && member(value@, "id"@) == Some(Tree::Str(id@)),
        scope matches Scope::Host(id) ==> member(value@, "kind"@) == Some(Tree::Str("host"@)) && member(value@, "id"@) == Some(Tree::Str(id@)),
        scope matches Scope::Client(id) ==> member(value@, "kind"@) == Some(Tree::Str("client"@)) && member(value@, "id"@) == Some(Tree::Str(id@)),
        scope matches Scope::User(id) ==> member(value@, "kind"@) == Some(Tree::Str("user"@)) && member(value@, "id"@) == Some(Tree::Str(id@)),
{
    broadcast use {crate::json::member_of_field, crate::reply::errors_say_what_is_wrong};

    reveal_strlit("id");
    reveal_strlit("kind");
    assert("id"@.len() == 2);
    assert("kind"@.len() == 4);
}

/// A scope is read by its kind, and every kind but the whole needs an id. A kind that is not known
/// is refused.
pub proof fn scopes_are_read_by_their_kind(
    kind: &str,
    id: Option<String>,
    answer: Result<Scope, String>,
)
    requires
        call_ensures(parse_scope, (kind, &id), answer),
    ensures
        kind@ == "global"@ ==> answer is Ok && answer->Ok_0 is Global,
        kind@ == "project"@ && (id is Some && id->0@.len() > 0) ==> (answer matches Ok(Scope::Project(read)) && read@ == id->0@),
        kind@ == "thread"@ && (id is Some && id->0@.len() > 0) ==> (answer matches Ok(Scope::Thread(read)) && read@ == id->0@),
        kind@ == "host"@ && (id is Some && id->0@.len() > 0) ==> (answer matches Ok(Scope::Host(read)) && read@ == id->0@),
        kind@ == "client"@ && (id is Some && id->0@.len() > 0) ==> (answer matches Ok(Scope::Client(read)) && read@ == id->0@),
        kind@ == "user"@ && (id is Some && id->0@.len() > 0) ==> (answer matches Ok(Scope::User(read)) && read@ == id->0@),
        kind@ == "project"@ && !(id is Some && id->0@.len() > 0) ==> answer is Err && answer->Err_0@ == "scope id is required for kind \""@ + kind@ + "\""@,
        kind@ == "thread"@ && !(id is Some && id->0@.len() > 0) ==> answer is Err && answer->Err_0@ == "scope id is required for kind \""@ + kind@ + "\""@,
        kind@ == "host"@ && !(id is Some && id->0@.len() > 0) ==> answer is Err && answer->Err_0@ == "scope id is required for kind \""@ + kind@ + "\""@,
        kind@ == "client"@ && !(id is Some && id->0@.len() > 0) ==> answer is Err && answer->Err_0@ == "scope id is required for kind \""@ + kind@ + "\""@,
        kind@ == "user"@ && !(id is Some && id->0@.len() > 0) ==> answer is Err && answer->Err_0@ == "scope id is required for kind \""@ + kind@ + "\""@,
        (kind@ != "global"@ && kind@ != "project"@ && kind@ != "thread"@ && kind@ != "host"@ && kind@ != "client"@ && kind@ != "user"@) ==> answer is Err && answer->Err_0@ == "unknown scope kind \""@ + kind@ + "\""@,
{
    reveal_strlit("host");
    reveal_strlit("user");
    reveal_strlit("client");
    reveal_strlit("global");
    reveal_strlit("thread");
    reveal_strlit("project");
    assert("host"@.len() == 4 && "host"@[0] == 'h');
    assert("user"@.len() == 4 && "user"@[0] == 'u');
    assert("client"@.len() == 6 && "client"@[0] == 'c');
    assert("global"@.len() == 6 && "global"@[0] == 'g');
    assert("thread"@.len() == 6 && "thread"@[0] == 't');
    assert("project"@.len() == 7);
}

/// A message to a client says its type; a change also says what changed, which one, in which ways,
/// and what more is known of it.
#[verifier::rlimit(30)]
pub proof fn messages_are_put_on_the_wire(message: ServerMessage, value: Json)
    requires
        call_ensures(ServerMessage::to_json, (&message,), value),
    ensures
        message is Pong ==> member(value@, "type"@) == Some(Tree::Str("pong"@)),
        message matches ServerMessage::Changed { entity, id, metadata, changes } ==> {
            &&& member(value@, "type"@) == Some(Tree::Str("changed"@))
            &&& member(value@, "entity"@) == Some(Tree::Str(entity.spec_as_str()))
            &&& id is None ==> member(value@, "id"@) is None
            &&& id is Some ==> member(value@, "id"@) == Some(Tree::Str(id->0@))
            &&& (member(value@, "changes"@) matches Some(Tree::Array(words)) && words.len() == changes@.len() && forall|i: int| 0 <= i < words.len() ==> #[trigger] words[i] == Tree::Str(changes@[i].spec_as_str()))
            &&& metadata is None ==> member(value@, "metadata"@) is None
            &&& metadata is Some ==> member(value@, "metadata"@) == Some(metadata_tree(metadata->0@))
        },
{
    broadcast use {crate::json::member_of_field, crate::reply::errors_say_what_is_wrong};

    reveal_strlit("id");
    reveal_strlit("type");
    reveal_strlit("entity");
    reveal_strlit("changes");
    reveal_strlit("metadata");
    reveal_strlit("projectId");
    reveal_strlit("eventTypes");
    reveal_strlit("statusChange");
    reveal_strlit("hasPendingInteraction");
    reveal_strlit("backgroundActivityChanged");
    assert("id"@.len() == 2);
    assert("type"@.len() == 4);
    assert("entity"@.len() == 6);
    assert("changes"@.len() == 7);
    assert("metadata"@.len() == 8);
    assert("projectId"@.len() == 9);
    assert("eventTypes"@.len() == 10);
    assert("statusChange"@.len() == 12);
    assert("hasPendingInteraction"@.len() == 21);
    assert("backgroundActivityChanged"@.len() == 25);
}

/// What more is known of a thread's change is said, and what is not known is left out.
pub proof fn metadata_says_what_is_known(metadata: MetadataView)
    ensures
        metadata.background_activity_changed is None ==> member(metadata_tree(metadata), "backgroundActivityChanged"@) is None,
        metadata.background_activity_changed matches Some(b) ==> member(metadata_tree(metadata), "backgroundActivityChanged"@) == Some(Tree::Bool(b)),
        metadata.event_types is None ==> member(metadata_tree(metadata), "eventTypes"@) is None,
        metadata.event_types matches Some(types) ==> (member(metadata_tree(metadata), "eventTypes"@) matches Some(Tree::Array(words)) && words.len() == types.len() && forall|i: int| 0 <= i < words.len() ==> #[trigger] words[i] == Tree::Str(types[i])),
        metadata.has_pending_interaction is None ==> member(metadata_tree(metadata), "hasPendingInteraction"@) is None,
        metadata.has_pending_interaction matches Some(b) ==> member(metadata_tree(metadata), "hasPendingInteraction"@) == Some(Tree::Bool(b)),
        metadata.project_id is None ==> member(metadata_tree(metadata), "projectId"@) is None,
        metadata.project_id matches Some(id) ==> member(metadata_tree(metadata), "projectId"@) == Some(Tree::Str(id)),
        metadata.status_change is None ==> member(metadata_tree(metadata), "statusChange"@) is None,
        metadata.status_change matches Some(status) ==> member(metadata_tree(metadata), "statusChange"@) == Some(status_tree(status)),
{
    broadcast use {crate::json::member_of_field, crate::reply::errors_say_what_is_wrong};

    reveal_strlit("projectId");
    reveal_strlit("eventTypes");
    reveal_strlit("statusChange");
    reveal_strlit("hasPendingInteraction");
    reveal_strlit("backgroundActivityChanged");
    assert("projectId"@.len() == 9);
    assert("eventTypes"@.len() == 10);
    assert("statusChange"@.len() == 12);
    assert("hasPendingInteraction"@.len() == 21);
    assert("backgroundActivityChanged"@.len() == 25);
}

/// A change of status shows the status, what is displayed, what goes on and when.
pub proof fn status_changes_are_shown(status: ThreadStatusMetadata)
    ensures
        member(status_tree(status), "status"@) == Some(Tree::Str(status.status.spec_as_str())),
        member(status_tree(status), "latestAttentionAt"@) == Some(Tree::UInt(status.latest_attention_at)),
        member(status_tree(status), "updatedAt"@) == Some(Tree::UInt(status.updated_at)),
        member(status_tree(status), "runtime"@) is Some,
        member(status_tree(status), "activity"@) is Some,
        member(member(status_tree(status), "runtime"@)->0, "displayStatus"@) == Some(Tree::Str(status.runtime.display_status.spec_as_str())),
        member(member(status_tree(status), "runtime"@)->0, "hostReconnectGraceExpiresAt"@) == Some(opt_uint_tree(status.runtime.host_reconnect_grace_expires_at)),
        member(member(status_tree(status), "activity"@)->0, "activeWorkflowCount"@) == Some(Tree::UInt(status.activity.active_workflow_count)),
        member(member(status_tree(status), "activity"@)->0, "activeBackgroundAgentCount"@) == Some(Tree::UInt(status.activity.active_background_agent_count)),
        member(member(status_tree(status), "activity"@)->0, "activeBackgroundCommandCount"@) == Some(Tree::UInt(status.activity.active_background_command_count)),
        member(member(status_tree(status), "activity"@)->0, "activePlanModeCount"@) == Some(Tree::UInt(status.activity.active_plan_mode_count)),
        member(member(status_tree(status), "activity"@)->0, "activeGoalCount"@) == Some(Tree::UInt(status.activity.active_goal_count)),
{
    broadcast use {crate::json::member_of_field, crate::reply::errors_say_what_is_wrong};

    reveal_strlit("status");
    reveal_strlit("runtime");
    reveal_strlit("activity");
    reveal_strlit("updatedAt");
    reveal_strlit("displayStatus");
    reveal_strlit("activeGoalCount");
    reveal_strlit("latestAttentionAt");
    reveal_strlit("activePlanModeCount");
    reveal_strlit("activeWorkflowCount");
    reveal_strlit("activeBackgroundAgentCount");
    reveal_strlit("hostReconnectGraceExpiresAt");
    reveal_strlit("activeBackgroundCommandCount");
    assert("status"@.len() == 6);
    assert("runtime"@.len() == 7);
    assert("activity"@.len() == 8);
    assert("updatedAt"@.len() == 9);
    assert("displayStatus"@.len() == 13);
    assert("activeGoalCount"@.len() == 15);
    assert("latestAttentionAt"@.len() == 17);
    assert("activePlanModeCount"@.len() == 19 && "activePlanModeCount"@[6] == 'P');
    assert("activeWorkflowCount"@.len() == 19 && "activeWorkflowCount"@[6] == 'W');
    assert("activeBackgroundAgentCount"@.len() == 26);
    assert("hostReconnectGraceExpiresAt"@.len() == 27);
    assert("activeBackgroundCommandCount"@.len() == 28);
}

/// A message to a worker says its type and what it carries; an optional part that is not there is
/// left out.
#[verifier::rlimit(60)]
pub proof fn worker_messages_are_put_on_the_wire(message: WorkerServerMessage, value: Json)
    requires
        call_ensures(WorkerServerMessage::to_json, (&message,), value),
    ensures
        message matches WorkerServerMessage::Hello { protocol_version, providers } ==> member(value@, "type"@) == Some(Tree::Str("hello"@)) && member(value@, "protocol_version"@) == Some(Tree::UInt(protocol_version as u64)) && (providers@.len() == 0 ==> member(value@, "providers"@) is None) && (providers@.len() > 0 ==> member(value@, "providers"@) == Some(Tree::Array(trees(providers@)))),
        message matches WorkerServerMessage::Subscribed { scope, first_subscriber } ==> member(value@, "type"@) == Some(Tree::Str("subscribed"@)) && member(value@, "scope"@) == Some(scope.tree()) && member(value@, "first_subscriber"@) == Some(Tree::Bool(first_subscriber)),
        message matches WorkerServerMessage::Unsubscribed { scope } ==> member(value@, "type"@) == Some(Tree::Str("unsubscribed"@)) && member(value@, "scope"@) == Some(scope.tree()),
        message matches WorkerServerMessage::Event { event_id, scope, payload, created_at_ms } ==> member(value@, "type"@) == Some(Tree::Str("event"@)) && member(value@, "event_id"@) == Some(Tree::Str(event_id@)) && member(value@, "scope"@) == Some(scope.tree()) && member(value@, "payload"@) == Some(Tree::Str(payload@)) && member(value@, "created_at_ms"@) == Some(Tree::UInt(created_at_ms)),
        message is Pong ==> member(value@, "type"@) == Some(Tree::Str("pong"@)),
        message is Error ==> member(value@, "type"@) == Some(Tree::Str("error"@)) && member(value@, "message"@) == Some(Tree::Str(message->Error_message@)),
        message matches WorkerServerMessage::HostEnrolled { host, event_id } ==> member(value@, "type"@) == Some(Tree::Str("host_enrolled"@)) && member(value@, "host"@) == Some(host@) && member(value@, "event_id"@) == Some(Tree::Str(event_id@)),
        message matches WorkerServerMessage::HostHeartbeatAck { host_id, last_seen_at_ms } ==> member(value@, "type"@) == Some(Tree::Str("host_heartbeat_ack"@)) && member(value@, "host_id"@) == Some(Tree::Str(host_id@)) && member(value@, "last_seen_at_ms"@) == Some(Tree::UInt(last_seen_at_ms)),
        message matches WorkerServerMessage::HostDisconnected { host_id } ==> member(value@, "type"@) == Some(Tree::Str("host_disconnected"@)) && member(value@, "host_id"@) == Some(Tree::Str(host_id@)),
        message matches WorkerServerMessage::RunReportAck { run_id, accepted, detail } ==> member(value@, "type"@) == Some(Tree::Str("run_report_ack"@)) && member(value@, "run_id"@) == Some(Tree::Str(run_id@)) && member(value@, "accepted"@) == Some(Tree::Bool(accepted)) && (detail is None ==> member(value@, "detail"@) is None) && (detail is Some ==> member(value@, "detail"@) == Some(Tree::Str(detail->0@))),
        message matches WorkerServerMessage::InteractionRequestAck { request_id, interaction_id, accepted, detail } ==> member(value@, "type"@) == Some(Tree::Str("interaction_request_ack"@)) && member(value@, "request_id"@) == Some(Tree::Str(request_id@)) && member(value@, "accepted"@) == Some(Tree::Bool(accepted)) && (detail is None ==> member(value@, "detail"@) is None) && (detail is Some ==> member(value@, "detail"@) == Some(Tree::Str(detail->0@))) && (interaction_id is None ==> member(value@, "interaction_id"@) is None) && (interaction_id is Some ==> member(value@, "interaction_id"@) == Some(Tree::Str(interaction_id->0@))),
        message matches WorkerServerMessage::EnvironmentReportAck { environment_id, accepted, detail } ==> member(value@, "type"@) == Some(Tree::Str("environment_report_ack"@)) && member(value@, "environment_id"@) == Some(Tree::Str(environment_id@)) && member(value@, "accepted"@) == Some(Tree::Bool(accepted)) && (detail is None ==> member(value@, "detail"@) is None) && (detail is Some ==> member(value@, "detail"@) == Some(Tree::Str(detail->0@))),
        message matches WorkerServerMessage::ReplayComplete { scope, count, has_more } ==> member(value@, "type"@) == Some(Tree::Str("replay_complete"@)) && member(value@, "scope"@) == Some(scope.tree()) && member(value@, "count"@) == Some(Tree::UInt(count)) && member(value@, "has_more"@) == Some(Tree::Bool(has_more)),
{
    broadcast use {crate::json::member_of_field, crate::reply::errors_say_what_is_wrong};

    reveal_strlit("host");
    reveal_strlit("type");
    reveal_strlit("count");
    reveal_strlit("scope");
    reveal_strlit("detail");
    reveal_strlit("run_id");
    reveal_strlit("host_id");
    reveal_strlit("message");
    reveal_strlit("payload");
    reveal_strlit("accepted");
    reveal_strlit("event_id");
    reveal_strlit("has_more");
    reveal_strlit("providers");
    reveal_strlit("request_id");
    reveal_strlit("created_at_ms");
    reveal_strlit("environment_id");
    reveal_strlit("interaction_id");
    reveal_strlit("last_seen_at_ms");
    reveal_strlit("first_subscriber");
    reveal_strlit("protocol_version");
    assert("host"@.len() == 4 && "host"@[0] == 'h');
    assert("type"@.len() == 4 && "type"@[0] == 't');
    assert("count"@.len() == 5 && "count"@[0] == 'c');
    assert("scope"@.len() == 5 && "scope"@[0] == 's');
    assert("detail"@.len() == 6 && "detail"@[0] == 'd');
    assert("run_id"@.len() == 6 && "run_id"@[0] == 'r');
    assert("host_id"@.len() == 7 && "host_id"@[0] == 'h');
    assert("message"@.len() == 7 && "message"@[0] == 'm');
    assert("payload"@.len() == 7 && "payload"@[0] == 'p');
    assert("accepted"@.len() == 8 && "accepted"@[0] == 'a');
    assert("event_id"@.len() == 8 && "event_id"@[0] == 'e');
    assert("has_more"@.len() == 8 && "has_more"@[0] == 'h');
    assert("providers"@.len() == 9);
    assert("request_id"@.len() == 10);
    assert("created_at_ms"@.len() == 13);
    assert("environment_id"@.len() == 14 && "environment_id"@[0] == 'e');
    assert("interaction_id"@.len() == 14 && "interaction_id"@[0] == 'i');
    assert("last_seen_at_ms"@.len() == 15);
    assert("first_subscriber"@.len() == 16 && "first_subscriber"@[0] == 'f');
    assert("protocol_version"@.len() == 16 && "protocol_version"@[0] == 'p');
}

/// The frame of an event carries its id, its scope, what it says and its time.
pub proof fn frames_carry_their_event(
    event_id: Seq<char>,
    scope: Scope,
    payload: Seq<char>,
    created_at_ms: u64,
)
    ensures
        member(event_tree(event_id, scope, payload, created_at_ms), "type"@) == Some(Tree::Str("event"@)),
        member(event_tree(event_id, scope, payload, created_at_ms), "event_id"@) == Some(Tree::Str(event_id)),
        member(event_tree(event_id, scope, payload, created_at_ms), "scope"@) == Some(scope.tree()),
        member(event_tree(event_id, scope, payload, created_at_ms), "payload"@) == Some(Tree::Str(payload)),
        member(event_tree(event_id, scope, payload, created_at_ms), "created_at_ms"@) == Some(Tree::UInt(created_at_ms)),
{
    broadcast use {crate::json::member_of_field, crate::reply::errors_say_what_is_wrong};

    reveal_strlit("type");
    reveal_strlit("scope");
    reveal_strlit("payload");
    reveal_strlit("event_id");
    reveal_strlit("created_at_ms");
    assert("type"@.len() == 4);
    assert("scope"@.len() == 5);
    assert("payload"@.len() == 7);
    assert("event_id"@.len() == 8);
    assert("created_at_ms"@.len() == 13);
}

/// A stored frame is replayed as the JSON it is, and as its text where it is none.
pub proof fn replayed_frames_are_what_was_stored(payload: &[u8], value: Json)
    requires
        call_ensures(replayed_frame, (payload,), value),
    ensures
        json_parse(payload@) matches Some(stored) ==> value@ == stored,
        json_parse(payload@) is None ==> value@ == Tree::Str(utf8_lossy(payload@)),
{
}

} // verus!
