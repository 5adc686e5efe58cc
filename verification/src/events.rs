//! Domain events in the log: how one is written as JSON, and how it is read back.

use vstd::prelude::*;
use vstd::utf8::{decode_utf8, decode_utf8_encode_utf8, encode_utf8, valid_utf8};

use crate::domain::{
    DomainEvent, HostStatus, Message, MessageRole, ProviderEvent, RunEvent, RunOutcome,
    ThreadEventItem, ThreadStatus,
};
use crate::json::{
    begins_otherwise, canonical_form, canonical_forms_are_readings, json_parse, json_text, lookup,
    lookup_found, lookup_last, lookup_without, member, member_of_replaced, object, opt_tree,
    opt_uint_tree, parse, plain, reading_of, reserved_name, to_bytes, with_member, without,
    Fields, Json, Tree,
};
use crate::lifecycle::{RunAppend, RunBody};
use crate::protocol::{
    message_valid, projection, projections_are_valid, FrameContent, ServerMessage,
};
use crate::text::{list_holds, opt_view, same_text, texts};
use crate::turns::GoalCleared;
use crate::wire::{event_tree, names_something, stored_frames_read_back, Scope};

verus! {

/// What kind of fact an event is.
#[derive(Clone, Copy, Debug, PartialEq, Eq, Structural)]
pub enum EventKind {
    /// A project was created.
    ProjectCreated,
    /// A project changed.
    ProjectUpdated,
    /// A thread was created.
    ThreadCreated,
    /// A thread's status changed.
    ThreadStatusChanged,
    /// A message was added to a thread.
    ThreadMessageAdded,
    /// A thread changed.
    ThreadUpdated,
    /// A run of a thread reported.
    ThreadRunEvent,
    /// A queued message of a thread changed.
    ThreadQueuedMessageChanged,
    /// An interaction of a thread changed.
    ThreadInteractionChanged,
    /// A host enrolled.
    HostRegistered,
    /// A host changed.
    HostUpdated,
    /// A host attached or detached.
    HostStatusChanged,
    /// A host was removed.
    HostDeleted,
    /// An environment was created.
    EnvironmentCreated,
    /// An environment changed.
    EnvironmentUpdated,
    /// An environment's status changed.
    EnvironmentStatusChanged,
    /// A sidebar section was created.
    ThreadSectionCreated,
    /// A sidebar section changed.
    ThreadSectionUpdated,
    /// A sidebar section was removed.
    ThreadSectionDeleted,
}

impl EventKind {
    /// The word for a kind.
    pub open spec fn word(self) -> Seq<char> {
        match self {
            EventKind::ProjectCreated => "project_created"@,
            EventKind::ProjectUpdated => "project_updated"@,
            EventKind::ThreadCreated => "thread_created"@,
            EventKind::ThreadStatusChanged => "thread_status_changed"@,
            EventKind::ThreadMessageAdded => "thread_message_added"@,
            EventKind::ThreadUpdated => "thread_updated"@,
            EventKind::ThreadRunEvent => "thread_run_event"@,
            EventKind::ThreadQueuedMessageChanged => "thread_queued_message_changed"@,
            EventKind::ThreadInteractionChanged => "thread_interaction_changed"@,
            EventKind::HostRegistered => "host_registered"@,
            EventKind::HostUpdated => "host_updated"@,
            EventKind::HostStatusChanged => "host_status_changed"@,
            EventKind::HostDeleted => "host_deleted"@,
            EventKind::EnvironmentCreated => "environment_created"@,
            EventKind::EnvironmentUpdated => "environment_updated"@,
            EventKind::EnvironmentStatusChanged => "environment_status_changed"@,
            EventKind::ThreadSectionCreated => "thread_section_created"@,
            EventKind::ThreadSectionUpdated => "thread_section_updated"@,
            EventKind::ThreadSectionDeleted => "thread_section_deleted"@,
        }
    }

    /// The word for a kind.
    pub fn as_str(self) -> (result: &'static str)
        ensures
            result@ == self.word(),
    {
        match self {
            EventKind::ProjectCreated => "project_created",
            EventKind::ProjectUpdated => "project_updated",
            EventKind::ThreadCreated => "thread_created",
            EventKind::ThreadStatusChanged => "thread_status_changed",
            EventKind::ThreadMessageAdded => "thread_message_added",
            EventKind::ThreadUpdated => "thread_updated",
            EventKind::ThreadRunEvent => "thread_run_event",
            EventKind::ThreadQueuedMessageChanged => "thread_queued_message_changed",
            EventKind::ThreadInteractionChanged => "thread_interaction_changed",
            EventKind::HostRegistered => "host_registered",
            EventKind::HostUpdated => "host_updated",
            EventKind::HostStatusChanged => "host_status_changed",
            EventKind::HostDeleted => "host_deleted",
            EventKind::EnvironmentCreated => "environment_created",
            EventKind::EnvironmentUpdated => "environment_updated",
            EventKind::EnvironmentStatusChanged => "environment_status_changed",
            EventKind::ThreadSectionCreated => "thread_section_created",
            EventKind::ThreadSectionUpdated => "thread_section_updated",
            EventKind::ThreadSectionDeleted => "thread_section_deleted",
        }
    }
}

/// The kind that a word stands for.
pub open spec fn word_kind(word: Seq<char>) -> Option<EventKind> {
    if word == "project_created"@ {
        Some(EventKind::ProjectCreated)
    } else if word == "project_updated"@ {
        Some(EventKind::ProjectUpdated)
    } else if word == "thread_created"@ {
        Some(EventKind::ThreadCreated)
    } else if word == "thread_status_changed"@ {
        Some(EventKind::ThreadStatusChanged)
    } else if word == "thread_message_added"@ {
        Some(EventKind::ThreadMessageAdded)
    } else if word == "thread_updated"@ {
        Some(EventKind::ThreadUpdated)
    } else if word == "thread_run_event"@ {
        Some(EventKind::ThreadRunEvent)
    } else if word == "thread_queued_message_changed"@ {
        Some(EventKind::ThreadQueuedMessageChanged)
    } else if word == "thread_interaction_changed"@ {
        Some(EventKind::ThreadInteractionChanged)
    } else if word == "host_registered"@ {
        Some(EventKind::HostRegistered)
    } else if word == "host_updated"@ {
        Some(EventKind::HostUpdated)
    } else if word == "host_status_changed"@ {
        Some(EventKind::HostStatusChanged)
    } else if word == "host_deleted"@ {
        Some(EventKind::HostDeleted)
    } else if word == "environment_created"@ {
        Some(EventKind::EnvironmentCreated)
    } else if word == "environment_updated"@ {
        Some(EventKind::EnvironmentUpdated)
    } else if word == "environment_status_changed"@ {
        Some(EventKind::EnvironmentStatusChanged)
    } else if word == "thread_section_created"@ {
        Some(EventKind::ThreadSectionCreated)
    } else if word == "thread_section_updated"@ {
        Some(EventKind::ThreadSectionUpdated)
    } else if word == "thread_section_deleted"@ {
        Some(EventKind::ThreadSectionDeleted)
    } else {
        None
    }
}

/// The kind that a word stands for.
pub fn kind_of(word: &str) -> (result: Option<EventKind>)
    ensures
        result == word_kind(word@),
{
    if same_text(word, "project_created") {
        Some(EventKind::ProjectCreated)
    } else if same_text(word, "project_updated") {
        Some(EventKind::ProjectUpdated)
    } else if same_text(word, "thread_created") {
        Some(EventKind::ThreadCreated)
    } else if same_text(word, "thread_status_changed") {
        Some(EventKind::ThreadStatusChanged)
    } else if same_text(word, "thread_message_added") {
        Some(EventKind::ThreadMessageAdded)
    } else if same_text(word, "thread_updated") {
        Some(EventKind::ThreadUpdated)
    } else if same_text(word, "thread_run_event") {
        Some(EventKind::ThreadRunEvent)
    } else if same_text(word, "thread_queued_message_changed") {
        Some(EventKind::ThreadQueuedMessageChanged)
    } else if same_text(word, "thread_interaction_changed") {
        Some(EventKind::ThreadInteractionChanged)
    } else if same_text(word, "host_registered") {
        Some(EventKind::HostRegistered)
    } else if same_text(word, "host_updated") {
        Some(EventKind::HostUpdated)
    } else if same_text(word, "host_status_changed") {
        Some(EventKind::HostStatusChanged)
    } else if same_text(word, "host_deleted") {
        Some(EventKind::HostDeleted)
    } else if same_text(word, "environment_created") {
        Some(EventKind::EnvironmentCreated)
    } else if same_text(word, "environment_updated") {
        Some(EventKind::EnvironmentUpdated)
    } else if same_text(word, "environment_status_changed") {
        Some(EventKind::EnvironmentStatusChanged)
    } else if same_text(word, "thread_section_created") {
        Some(EventKind::ThreadSectionCreated)
    } else if same_text(word, "thread_section_updated") {
        Some(EventKind::ThreadSectionUpdated)
    } else if same_text(word, "thread_section_deleted") {
        Some(EventKind::ThreadSectionDeleted)
    } else {
        None
    }
}

/// The word of a kind stands for that kind.
pub proof fn kinds_read_back(kind: EventKind)
    ensures
        word_kind(kind.word()) == Some(kind),
{
    reveal_strlit("project_created");
    reveal_strlit("project_updated");
    reveal_strlit("thread_created");
    reveal_strlit("thread_status_changed");
    reveal_strlit("thread_message_added");
    reveal_strlit("thread_updated");
    reveal_strlit("thread_run_event");
    reveal_strlit("thread_queued_message_changed");
    reveal_strlit("thread_interaction_changed");
    reveal_strlit("host_registered");
    reveal_strlit("host_updated");
    reveal_strlit("host_status_changed");
    reveal_strlit("host_deleted");
    reveal_strlit("environment_created");
    reveal_strlit("environment_updated");
    reveal_strlit("environment_status_changed");
    reveal_strlit("thread_section_created");
    reveal_strlit("thread_section_updated");
    reveal_strlit("thread_section_deleted");
    assert("project_created"@.len() == 15);
    assert("project_created"@[0] == 'p');
    assert("project_created"@[8] == 'c');
    assert("project_updated"@.len() == 15);
    assert("project_updated"@[0] == 'p');
    assert("project_updated"@[8] == 'u');
    assert("thread_created"@.len() == 14 && "thread_created"@[7] == 'c');
    assert("thread_status_changed"@.len() == 21);
    assert("thread_message_added"@.len() == 20);
    assert("thread_updated"@.len() == 14 && "thread_updated"@[7] == 'u');
    assert("thread_run_event"@.len() == 16);
    assert("thread_queued_message_changed"@.len() == 29);
    assert("thread_interaction_changed"@.len() == 26 && "thread_interaction_changed"@[0] == 't');
    assert("host_registered"@.len() == 15 && "host_registered"@[0] == 'h');
    assert("host_updated"@.len() == 12 && "host_updated"@[5] == 'u');
    assert("host_status_changed"@.len() == 19 && "host_status_changed"@[0] == 'h');
    assert("host_deleted"@.len() == 12 && "host_deleted"@[5] == 'd');
    assert("environment_created"@.len() == 19);
    assert("environment_created"@[0] == 'e');
    assert("environment_created"@[12] == 'c');
    assert("environment_updated"@.len() == 19);
    assert("environment_updated"@[0] == 'e');
    assert("environment_updated"@[12] == 'u');
    assert("environment_status_changed"@.len() == 26 && "environment_status_changed"@[0] == 'e');
    assert("thread_section_created"@.len() == 22 && "thread_section_created"@[15] == 'c');
    assert("thread_section_updated"@.len() == 22 && "thread_section_updated"@[15] == 'u');
    assert("thread_section_deleted"@.len() == 22 && "thread_section_deleted"@[15] == 'd');
}

/// The string under a name.
pub open spec fn text_at(value: Tree, key: Seq<char>) -> Option<Seq<char>> {
    match member(value, key) {
        Some(Tree::Str(text)) => Some(text),
        _ => None,
    }
}

/// The string under a name, where there is one; anything else is no reading.
pub open spec fn opt_text_at(value: Tree, key: Seq<char>) -> Option<Option<Seq<char>>> {
    match member(value, key) {
        None => Some(None),
        Some(Tree::Null) => Some(None),
        Some(Tree::Str(text)) => Some(Some(text)),
        _ => None,
    }
}

/// The whole number under a name.
pub open spec fn uint_at(value: Tree, key: Seq<char>) -> Option<u64> {
    match member(value, key) {
        Some(Tree::UInt(n)) => Some(n),
        _ => None,
    }
}

/// The whole number under a name, where there is one; anything else is no reading.
pub open spec fn opt_uint_at(value: Tree, key: Seq<char>) -> Option<Option<u64>> {
    match member(value, key) {
        None => Some(None),
        Some(Tree::Null) => Some(None),
        Some(Tree::UInt(n)) => Some(Some(n)),
        _ => None,
    }
}

/// The truth value under a name.
pub open spec fn flag_at(value: Tree, key: Seq<char>) -> Option<bool> {
    match member(value, key) {
        Some(Tree::Bool(b)) => Some(b),
        _ => None,
    }
}

/// The status that a word stands for.
pub open spec fn word_status(word: Seq<char>) -> Option<ThreadStatus> {
    if word == "idle"@ {
        Some(ThreadStatus::Idle)
    } else if word == "working"@ {
        Some(ThreadStatus::Working)
    } else if word == "waiting"@ {
        Some(ThreadStatus::Waiting)
    } else if word == "error"@ {
        Some(ThreadStatus::Error)
    } else if word == "archived"@ {
        Some(ThreadStatus::Archived)
    } else {
        None
    }
}

/// The thread status under a name.
pub open spec fn status_at(value: Tree, key: Seq<char>) -> Option<ThreadStatus> {
    match text_at(value, key) {
        Some(word) => word_status(word),
        None => None,
    }
}

/// Whether a host is attached, as an event says.
pub open spec fn attached_at(value: Tree) -> Option<HostStatus> {
    match flag_at(value, "connected"@) {
        Some(true) => Some(HostStatus::Connected),
        Some(false) => Some(HostStatus::Disconnected),
        None => None,
    }
}

/// The word for who wrote a message.
pub open spec fn role_word(role: MessageRole) -> Seq<char> {
    match role {
        MessageRole::User => "user"@,
        MessageRole::Assistant => "assistant"@,
        MessageRole::System => "system"@,
    }
}

/// Who wrote a message, by the word for it.
pub open spec fn word_role(word: Seq<char>) -> Option<MessageRole> {
    if word == "user"@ {
        Some(MessageRole::User)
    } else if word == "assistant"@ {
        Some(MessageRole::Assistant)
    } else if word == "system"@ {
        Some(MessageRole::System)
    } else {
        None
    }
}

/// Who wrote a message, under a name.
pub open spec fn role_at(value: Tree, key: Seq<char>) -> Option<MessageRole> {
    match text_at(value, key) {
        Some(word) => word_role(word),
        None => None,
    }
}

/// The string under a name.
fn text(value: &Json, key: &str) -> (result: Option<String>)
    ensures
        opt_view(result) == text_at(value@, key@),
{
    match value.get(key) {
        Some(found) => match found.as_str() {
            Some(text) => Some(text.clone()),
            None => None,
        },
        None => None,
    }
}

/// The string under a name, where there is one.
fn opt_text(value: &Json, key: &str) -> (result: Option<Option<String>>)
    ensures
        match result {
            Some(read) => opt_text_at(value@, key@) == Some(opt_view(read)),
            None => opt_text_at(value@, key@) is None,
        },
{
    match value.get(key) {
        Some(found) => if found.is_null() {
            Some(None)
        } else {
            match found.as_str() {
                Some(text) => Some(Some(text.clone())),
                None => None,
            }
        },
        None => Some(None),
    }
}

/// The whole number under a name.
fn uint(value: &Json, key: &str) -> (result: Option<u64>)
    ensures
        result == uint_at(value@, key@),
{
    match value.get(key) {
        Some(found) => found.as_uint(),
        None => None,
    }
}

/// The whole number under a name, where there is one.
fn opt_uint(value: &Json, key: &str) -> (result: Option<Option<u64>>)
    ensures
        result == opt_uint_at(value@, key@),
{
    match value.get(key) {
        Some(found) => if found.is_null() {
            Some(None)
        } else {
            match found.as_uint() {
                Some(n) => Some(Some(n)),
                None => None,
            }
        },
        None => Some(None),
    }
}

/// The truth value under a name.
fn flag(value: &Json, key: &str) -> (result: Option<bool>)
    ensures
        result == flag_at(value@, key@),
{
    match value.get(key) {
        Some(found) => found.as_bool(),
        None => None,
    }
}

/// The thread status under a name.
fn status(value: &Json, key: &str) -> (result: Option<ThreadStatus>)
    ensures
        result == status_at(value@, key@),
{
    let word: String = text(value, key)?;
    if same_text(word.as_str(), "idle") {
        Some(ThreadStatus::Idle)
    } else if same_text(word.as_str(), "working") {
        Some(ThreadStatus::Working)
    } else if same_text(word.as_str(), "waiting") {
        Some(ThreadStatus::Waiting)
    } else if same_text(word.as_str(), "error") {
        Some(ThreadStatus::Error)
    } else if same_text(word.as_str(), "archived") {
        Some(ThreadStatus::Archived)
    } else {
        None
    }
}

/// Whether a host is attached, as an event says.
fn attached(value: &Json) -> (result: Option<HostStatus>)
    ensures
        result == attached_at(value@),
{
    match flag(value, "connected") {
        Some(connected) => if connected {
            Some(HostStatus::Connected)
        } else {
            Some(HostStatus::Disconnected)
        },
        None => None,
    }
}

/// Who wrote a message, under a name.
fn role(value: &Json, key: &str) -> (result: Option<MessageRole>)
    ensures
        result == role_at(value@, key@),
{
    let word: String = text(value, key)?;
    if same_text(word.as_str(), "user") {
        Some(MessageRole::User)
    } else if same_text(word.as_str(), "assistant") {
        Some(MessageRole::Assistant)
    } else if same_text(word.as_str(), "system") {
        Some(MessageRole::System)
    } else {
        None
    }
}

/// A message in the log.
pub open spec fn message_value(message: Message) -> Tree {
    object().field("id"@, Tree::Str(message.id@))
        .field("project_id"@, opt_tree(opt_view(message.project_id)))
        .field("role"@, Tree::Str(role_word(message.role)))
        .field("content"@, Tree::Str(message.content@))
        .field("created_at_ms"@, Tree::UInt(message.created_at_ms))
}

/// Whether a value reads as a message.
pub open spec fn reads_message(value: Tree, message: Message) -> bool {
    &&& text_at(value, "id"@) == Some(message.id@)
    &&& opt_text_at(value, "project_id"@) == Some(opt_view(message.project_id))
    &&& role_at(value, "role"@) == Some(message.role)
    &&& text_at(value, "content"@) == Some(message.content@)
    &&& uint_at(value, "created_at_ms"@) == Some(message.created_at_ms)
}

/// Whether a value reads as some message.
pub open spec fn readable_message(value: Tree) -> bool {
    &&& text_at(value, "id"@) is Some
    &&& opt_text_at(value, "project_id"@) is Some
    &&& role_at(value, "role"@) is Some
    &&& text_at(value, "content"@) is Some
    &&& uint_at(value, "created_at_ms"@) is Some
}

/// A message in the log.
fn message_json(message: &Message) -> (result: Json)
    ensures
        result@ == message_value(*message),
{
    let word: &str = match message.role {
        MessageRole::User => "user",
        MessageRole::Assistant => "assistant",
        MessageRole::System => "system",
    };
    Fields::new().with("id", Json::text(message.id.as_str()))
        .with("project_id", Json::opt_text(&message.project_id))
        .with("role", Json::text(word))
        .with("content", Json::text(message.content.as_str()))
        .with("created_at_ms", Json::UInt(message.created_at_ms))
        .object()
}

/// The message that a value reads as.
fn message_of(value: &Json) -> (result: Option<Message>)
    ensures
        match result {
            Some(message) => reads_message(value@, message),
            None => !readable_message(value@),
        },
{
    let id: String = text(value, "id")?;
    let project_id: Option<String> = opt_text(value, "project_id")?;
    let role: MessageRole = role(value, "role")?;
    let content: String = text(value, "content")?;
    let created_at_ms: u64 = uint(value, "created_at_ms")?;
    Some(Message { id, project_id, role, content, created_at_ms })
}

/// The strings of the array under a name; anything else in it is passed over.
pub open spec fn pieces_at(value: Tree, key: Seq<char>) -> Seq<Seq<char>> {
    match member(value, key) {
        Some(Tree::Array(items)) => strings_of(items),
        _ => Seq::empty(),
    }
}

/// The strings among some values.
pub open spec fn strings_of(items: Seq<Tree>) -> Seq<Seq<char>>
    decreases items.len(),
{
    if items.len() == 0 {
        Seq::empty()
    } else {
        match items.last() {
            Tree::Str(text) => strings_of(items.drop_last()).push(text),
            _ => strings_of(items.drop_last()),
        }
    }
}

/// Whether an item of a turn is what a value says, as far as the projections read it.
pub open spec fn item_fits(value: Tree, item: ThreadEventItem) -> bool {
    match (text_at(value, "type"@), text_at(value, "id"@)) {
        (Some(word), Some(key)) => if word == "reasoning"@ {
            item matches ThreadEventItem::Reasoning { id, summary, content } && id@ == key
                && texts(summary@) == pieces_at(value, "summary"@) && texts(content@) == pieces_at(
                value,
                "content"@,
            )
        } else if word == "agentMessage"@ {
            item matches ThreadEventItem::AgentMessage { id } && id@ == key
        } else if word == "toolCall"@ {
            item matches ThreadEventItem::ToolCall { id } && id@ == key
        } else if word == "commandExecution"@ {
            item matches ThreadEventItem::CommandExecution { id } && id@ == key
        } else if word == "fileChange"@ {
            item matches ThreadEventItem::FileChange { id } && id@ == key
        } else if word == "fileRead"@ {
            item matches ThreadEventItem::FileRead { id } && id@ == key
        } else if word == "search"@ {
            item matches ThreadEventItem::Search { id } && id@ == key
        } else if word == "webFetch"@ {
            item matches ThreadEventItem::WebFetch { id } && id@ == key
        } else {
            item is Other
        },
        _ => item is Other,
    }
}

/// Whether a provider event is what a value of a type says, as far as the projections read it.
pub open spec fn body_fits(kind: Seq<char>, value: Tree, body: ProviderEvent) -> bool {
    let item = text_at(value, "itemId"@);
    let piece = text_at(value, "delta"@);
    if kind == "item/reasoning/textDelta"@ && item is Some && piece is Some {
        body matches ProviderEvent::ItemReasoningTextDelta { item_id, delta } && Some(item_id@)
            == item && Some(delta@) == piece
    } else if kind == "item/reasoning/summaryTextDelta"@ && item is Some && piece is Some {
        body matches ProviderEvent::ItemReasoningSummaryTextDelta { item_id, delta } && Some(
            item_id@,
        ) == item && Some(delta@) == piece
    } else if kind == "item/agentMessage/delta"@ && item is Some && piece is Some {
        body matches ProviderEvent::ItemAgentMessageDelta { item_id, delta } && Some(item_id@)
            == item && Some(delta@) == piece
    } else if kind == "item/started"@ && member(value, "item"@) is Some {
        body matches ProviderEvent::ItemStarted { item } && item_fits(
            member(value, "item"@)->0,
            item,
        )
    } else if kind == "item/completed"@ && member(value, "item"@) is Some {
        body matches ProviderEvent::ItemCompleted { item } && item_fits(
            member(value, "item"@)->0,
            item,
        )
    } else if kind == "item/toolCall/progress"@ && item is Some {
        body matches ProviderEvent::ItemToolCallProgress { item_id } && Some(item_id@) == item
    } else if kind == "provider/modelFallback"@ && text_at(value, "originalModel"@) is Some
        && text_at(value, "fallbackModel"@) is Some {
        &&& body is ProviderModelFallback
        &&& Some(body->original_model@) == text_at(value, "originalModel"@)
        &&& Some(body->fallback_model@) == text_at(value, "fallbackModel"@)
    } else {
        body is Other
    }
}

/// The strings of the array under a name.
fn pieces(value: &Json, key: &str) -> (result: Vec<String>)
    ensures
        texts(result@) == pieces_at(value@, key@),
{
    let mut found: Vec<String> = Vec::new();
    assert(texts(found@) =~= Seq::<Seq<char>>::empty());
    let items: &Vec<Json> = match value.get(key) {
        Some(held) => match held.as_array() {
            Some(items) => items,
            None => {
                return found;
            },
        },
        None => {
            return found;
        },
    };
    let ghost all = crate::json::trees(items@);
    assert(all.take(0) =~= Seq::<Tree>::empty());
    for i in 0..items.len()
        invariant
            all == crate::json::trees(items@),
            texts(found@) == strings_of(all.take(i as int)),
    {
        let ghost before = texts(found@);
        assert(all.take(i + 1).drop_last() =~= all.take(i as int));
        assert(all.take(i + 1).last() == items@[i as int]@);
        if let Some(piece) = items[i].as_str() {
            found.push(piece.clone());
            assert(texts(found@) =~= before.push(piece@));
        }
    }
    assert(all.take(all.len() as int) =~= all);
    found
}

/// An item of a turn, as far as the projections read it.
fn item_of(value: &Json) -> (result: ThreadEventItem)
    ensures
        item_fits(value@, result),
{
    let (word, id): (String, String) = match (text(value, "type"), text(value, "id")) {
        (Some(word), Some(id)) => (word, id),
        _ => {
            return ThreadEventItem::Other;
        },
    };
    let word: &str = word.as_str();
    if same_text(word, "reasoning") {
        ThreadEventItem::Reasoning {
            id,
            summary: pieces(value, "summary"),
            content: pieces(value, "content"),
        }
    } else if same_text(word, "agentMessage") {
        ThreadEventItem::AgentMessage { id }
    } else if same_text(word, "toolCall") {
        ThreadEventItem::ToolCall { id }
    } else if same_text(word, "commandExecution") {
        ThreadEventItem::CommandExecution { id }
    } else if same_text(word, "fileChange") {
        ThreadEventItem::FileChange { id }
    } else if same_text(word, "fileRead") {
        ThreadEventItem::FileRead { id }
    } else if same_text(word, "search") {
        ThreadEventItem::Search { id }
    } else if same_text(word, "webFetch") {
        ThreadEventItem::WebFetch { id }
    } else {
        ThreadEventItem::Other
    }
}

/// A provider event of a type, as far as the projections read it.
pub fn provider_event(kind: &str, value: &Json) -> (result: ProviderEvent)
    ensures
        body_fits(kind@, value@, result),
{
    if let (Some(item_id), Some(delta)) = (text(value, "itemId"), text(value, "delta")) {
        if same_text(kind, "item/reasoning/textDelta") {
            return ProviderEvent::ItemReasoningTextDelta { item_id, delta };
        }
        if same_text(kind, "item/reasoning/summaryTextDelta") {
            return ProviderEvent::ItemReasoningSummaryTextDelta { item_id, delta };
        }
        if same_text(kind, "item/agentMessage/delta") {
            return ProviderEvent::ItemAgentMessageDelta { item_id, delta };
        }
    }
    if let Some(held) = value.get("item") {
        if same_text(kind, "item/started") {
            return ProviderEvent::ItemStarted { item: item_of(held) };
        }
        if same_text(kind, "item/completed") {
            return ProviderEvent::ItemCompleted { item: item_of(held) };
        }
    }
    if same_text(kind, "item/toolCall/progress") {
        if let Some(item_id) = text(value, "itemId") {
            return ProviderEvent::ItemToolCallProgress { item_id };
        }
    }
    if same_text(kind, "provider/modelFallback") {
        if let (Some(original_model), Some(fallback_model)) = (
            text(value, "originalModel"),
            text(value, "fallbackModel"),
        ) {
            return ProviderEvent::ProviderModelFallback { original_model, fallback_model };
        }
    }
    ProviderEvent::Other
}

/// How a run ended, under a name, where it is said; anything else is no reading.
pub open spec fn outcome_at(value: Tree, key: Seq<char>) -> Option<Option<RunOutcome>> {
    match opt_text_at(value, key) {
        Some(Some(word)) => match RunOutcome::spec_of_word(word) {
            Some(outcome) => Some(Some(outcome)),
            None => None,
        },
        Some(None) => Some(None),
        None => None,
    }
}

/// How a run ended, under a name, where it is said.
fn outcome(value: &Json, key: &str) -> (result: Option<Option<RunOutcome>>)
    ensures
        result == outcome_at(value@, key@),
{
    match opt_text(value, key)? {
        Some(word) => match RunOutcome::of_word(word.as_str()) {
            Some(outcome) => Some(Some(outcome)),
            None => None,
        },
        None => Some(None),
    }
}

/// The word for how a run ended, or `null` where it did not.
pub open spec fn outcome_tree(outcome: Option<RunOutcome>) -> Tree {
    match outcome {
        Some(outcome) => Tree::Str(outcome.spec_as_str()),
        None => Tree::Null,
    }
}

/// The word for how a run ended, or `null` where it did not.
fn outcome_json(outcome: Option<RunOutcome>) -> (result: Json)
    ensures
        result@ == outcome_tree(outcome),
{
    match outcome {
        Some(outcome) => Json::text(outcome.as_str()),
        None => Json::Null,
    }
}

/// The body of an event: what it says beside where it belongs.
pub open spec fn body_tree(value: Tree) -> Tree {
    match value {
        Tree::Object(fields) => Tree::Object(without(without(fields, "threadId"@), "scope"@)),
        _ => value,
    }
}

/// The body of an event.
fn body_json(value: &Json) -> (result: Json)
    ensures
        result@ == body_tree(value@),
{
    let copied: Json = value.copy();
    let is_object: bool = copied.is_object();
    if is_object {
        match copied.into_fields() {
            Some(fields) => fields.without("threadId").without("scope").object(),
            None => Json::Null,
        }
    } else {
        copied
    }
}

/// Whether a value reads as a run's event of a known type.
pub open spec fn reads_run(value: Tree, known: Seq<Seq<char>>, run: RunEvent) -> bool {
    &&& text_at(value, "thread_id"@) == Some(run.thread_id@)
    &&& text_at(value, "project_id"@) == Some(run.project_id@)
    &&& text_at(value, "run_id"@) == Some(run.run_id@)
    &&& uint_at(value, "at_ms"@) == Some(run.at_ms)
    &&& outcome_at(value, "outcome"@) == Some(run.outcome)
    &&& member(value, "event"@) == Some(run.value@)
    &&& run.wf()
    &&& known.contains(run.kind@)
    &&& run.data@ == body_tree(run.value@)
    &&& body_fits(run.kind@, run.value@, run.body)
}

/// Whether a value reads as some run's event of a known type.
pub open spec fn readable_run(value: Tree, known: Seq<Seq<char>>) -> bool {
    &&& text_at(value, "thread_id"@) is Some
    &&& text_at(value, "project_id"@) is Some
    &&& text_at(value, "run_id"@) is Some
    &&& uint_at(value, "at_ms"@) is Some
    &&& outcome_at(value, "outcome"@) is Some
    &&& member(value, "event"@) matches Some(event) && member(event, "scope"@) is Some && (text_at(
        event,
        "type"@,
    ) matches Some(kind) && known.contains(kind))
}

/// The run's event that a value reads as.
fn run_of_json(value: &Json, known_types: &Vec<String>) -> (result: Option<RunEvent>)
    ensures
        match result {
            Some(run) => reads_run(value@, texts(known_types@), run),
            None => !readable_run(value@, texts(known_types@)),
        },
{
    let thread_id: String = text(value, "thread_id")?;
    let project_id: String = text(value, "project_id")?;
    let run_id: String = text(value, "run_id")?;
    let at_ms: u64 = uint(value, "at_ms")?;
    let outcome: Option<RunOutcome> = outcome(value, "outcome")?;
    let event: &Json = value.get("event")?;
    let scope: Json = event.get("scope")?.copy();
    let kind: String = text(event, "type")?;
    if !list_holds(known_types, kind.as_str()) {
        return None;
    }
    let body: ProviderEvent = provider_event(kind.as_str(), event);
    Some(
        RunEvent {
            thread_id,
            project_id,
            run_id,
            at_ms,
            outcome,
            kind,
            scope,
            value: event.copy(),
            data: body_json(event),
            body,
        },
    )
}

/// The type of what is appended of a run.
pub open spec fn appended_kind(body: RunBody) -> Seq<char> {
    match body {
        RunBody::Started { .. } => "turn/started"@,
        RunBody::ProviderError { .. } => "provider/error"@,
        RunBody::Terminal { .. } => "turn/completed"@,
        RunBody::Reported(event) => event.kind@,
    }
}

/// The verdict that is appended of a run: the control plane's own, or the host's.
pub open spec fn appended_outcome(body: RunBody) -> Option<RunOutcome> {
    match body {
        RunBody::Started { .. } => None,
        RunBody::ProviderError { .. } => None,
        RunBody::Terminal { outcome, .. } => Some(outcome),
        RunBody::Reported(event) => event.outcome,
    }
}

/// What went wrong, as an event says it.
pub open spec fn error_tree(error: Option<String>) -> Option<Tree> {
    match error {
        Some(message) => Some(object().field("message"@, Tree::Str(message@))),
        None => None,
    }
}

/// The members of a value, if it is an object.
pub open spec fn members_of(value: Tree) -> Seq<(Seq<char>, Tree)> {
    match value {
        Tree::Object(fields) => fields,
        _ => Seq::empty(),
    }
}

/// What is appended of a run says, beside where it belongs: what a host reported stands as it came,
/// but for its envelope.
pub open spec fn appended_body(body: RunBody) -> Seq<(Seq<char>, Tree)> {
    match body {
        RunBody::Started { provider_thread_id } => object().field(
            "providerThreadId"@,
            Tree::Str(provider_thread_id@),
        )->Object_0,
        RunBody::ProviderError { provider_thread_id, message } => object().field(
            "providerThreadId"@,
            Tree::Str(provider_thread_id@),
        ).field("message"@, Tree::Str(message@))->Object_0,
        RunBody::Terminal { status, error, .. } => object().field(
            "status"@,
            Tree::Str(status.spec_as_str()),
        ).field_if("error"@, error_tree(error))->Object_0,
        RunBody::Reported(event) => without(
            without(members_of(event.body@), "threadId"@),
            "scope"@,
        ),
    }
}

/// Where an event of a run belongs: to the thread, or to the turn that the run is.
pub open spec fn turn_scope(thread_scoped: bool, run_id: Seq<char>) -> Tree {
    if thread_scoped {
        object().field("kind"@, Tree::Str("thread"@))
    } else {
        object().field("kind"@, Tree::Str("turn"@)).field("turnId"@, Tree::Str(run_id))
    }
}

/// Whether what is appended of a run belongs to the thread.
pub open spec fn belongs_to_thread(body: RunBody) -> bool {
    body matches RunBody::Reported(event) && event.thread_scoped
}

/// Whether an event is this one: of a run at a time, with a type, a body and a verdict, in an
/// envelope of the thread's and the run's own.
pub open spec fn is_run_event(
    run: RunEvent,
    kind: Seq<char>,
    thread_scoped: bool,
    body: Seq<(Seq<char>, Tree)>,
    outcome: Option<RunOutcome>,
) -> bool {
    let typed = with_member(body, "type"@, Tree::Str(kind));
    &&& run.wf()
    &&& run.kind@ == kind
    &&& run.outcome == outcome
    &&& run.scope@ == turn_scope(thread_scoped, run.run_id@)
    &&& run.data@ == Tree::Object(typed)
    &&& run.value@ == Tree::Object(
        with_member(
            with_member(typed, "threadId"@, Tree::Str(run.thread_id@)),
            "scope"@,
            run.scope@,
        ),
    )
    &&& body_fits(kind, run.value@, run.body)
}

/// Puts an event into the envelope of its thread and its run.
fn enveloped(
    thread_id: String,
    project_id: String,
    run_id: String,
    at_ms: u64,
    kind: String,
    thread_scoped: bool,
    body: Fields,
    outcome: Option<RunOutcome>,
) -> (result: RunEvent)
    ensures
        result.thread_id@ == thread_id@,
        result.project_id@ == project_id@,
        result.run_id@ == run_id@,
        result.at_ms == at_ms,
        is_run_event(result, kind@, thread_scoped, body@, outcome),
{
    let scope: Json = if thread_scoped {
        Fields::new().with("kind", Json::text("thread")).object()
    } else {
        Fields::new().with("kind", Json::text("turn"))
            .with("turnId", Json::text(run_id.as_str()))
            .object()
    };
    let typed: Fields = body.set("type", Json::text(kind.as_str()));
    let ghost said = typed@;
    let data: Json = typed.object();
    let value: Json = match data.copy().into_fields() {
        Some(fields) => fields.set("threadId", Json::text(thread_id.as_str()))
            .set("scope", scope.copy())
            .object(),
        None => Json::Null,
    };
    proof {
        reveal_strlit("type");
        reveal_strlit("threadId");
        reveal_strlit("scope");
        assert("type"@.len() == 4 && "threadId"@.len() == 8 && "scope"@.len() == 5);
        let placed = with_member(said, "threadId"@, Tree::Str(thread_id@));
        lookup_without(said, "threadId"@, "type"@);
        lookup_without(placed, "scope"@, "type"@);
        assert(placed.drop_last() =~= without(said, "threadId"@));
        assert(with_member(placed, "scope"@, scope@).drop_last() =~= without(placed, "scope"@));
    }
    let shown: ProviderEvent = provider_event(kind.as_str(), &value);
    RunEvent {
        thread_id,
        project_id,
        run_id,
        at_ms,
        outcome,
        kind,
        scope,
        value,
        data,
        body: shown,
    }
}

/// What is appended of a run, as the log holds it: in an envelope of the run's own, whatever one a
/// host had put it in, with the verdict that ends the run.
pub fn run_event(append: RunAppend) -> (result: RunEvent)
    ensures
        result.thread_id@ == append.thread_id@,
        result.project_id@ == append.project_id@,
        result.run_id@ == append.run_id@,
        result.at_ms == append.at_ms,
        is_run_event(
            result,
            appended_kind(append.body),
            belongs_to_thread(append.body),
            appended_body(append.body),
            appended_outcome(append.body),
        ),
{
    let (kind, thread_scoped, body, outcome): (String, bool, Fields, Option<RunOutcome>) =
        match append.body {
        RunBody::Started { provider_thread_id } => (
            "turn/started".to_owned(),
            false,
            Fields::new().with("providerThreadId", Json::Str(provider_thread_id)),
            None,
        ),
        RunBody::ProviderError { provider_thread_id, message } => (
            "provider/error".to_owned(),
            false,
            Fields::new().with("providerThreadId", Json::Str(provider_thread_id)).with(
                "message",
                Json::Str(message),
            ),
            None,
        ),
        RunBody::Terminal { outcome, status, error } => {
            let problem: Option<Json> = match error {
                Some(message) => Some(
                    Fields::new().with("message", Json::Str(message)).object(),
                ),
                None => None,
            };
            (
                "turn/completed".to_owned(),
                false,
                Fields::new().with("status", Json::text(status.as_str())).maybe("error", problem),
                Some(outcome),
            )
        },
        RunBody::Reported(event) => {
            let members: Fields = match event.body.into_fields() {
                Some(fields) => fields,
                None => Fields::new(),
            };
            (
                event.kind,
                event.thread_scoped,
                members.without("threadId").without("scope"),
                event.outcome,
            )
        },
    };
    enveloped(
        append.thread_id,
        append.project_id,
        append.run_id,
        append.at_ms,
        kind,
        thread_scoped,
        body,
        outcome,
    )
}

/// The event that clears a thread's goal, as the log holds it.
pub fn goal_cleared_event(cleared: GoalCleared) -> (result: RunEvent)
    ensures
        result.thread_id@ == cleared.thread_id@,
        result.project_id@ == cleared.project_id@,
        result.run_id@ == cleared.run_id@,
        result.at_ms == cleared.at_ms,
        is_run_event(
            result,
            "thread/goal/cleared"@,
            true,
            object().field("providerThreadId"@, Tree::Str(cleared.provider_thread_id@))->Object_0,
            None,
        ),
{
    enveloped(
        cleared.thread_id,
        cleared.project_id,
        cleared.run_id,
        cleared.at_ms,
        "thread/goal/cleared".to_owned(),
        true,
        Fields::new().with("providerThreadId", Json::Str(cleared.provider_thread_id)),
        None,
    )
}

/// The kind of an event.
pub open spec fn kind_in(event: DomainEvent) -> EventKind {
    match event {
        DomainEvent::ProjectCreated { .. } => EventKind::ProjectCreated,
        DomainEvent::ProjectUpdated { .. } => EventKind::ProjectUpdated,
        DomainEvent::ThreadCreated { .. } => EventKind::ThreadCreated,
        DomainEvent::ThreadStatusChanged { .. } => EventKind::ThreadStatusChanged,
        DomainEvent::ThreadMessageAdded { .. } => EventKind::ThreadMessageAdded,
        DomainEvent::ThreadUpdated { .. } => EventKind::ThreadUpdated,
        DomainEvent::ThreadRunEvent { .. } => EventKind::ThreadRunEvent,
        DomainEvent::ThreadQueuedMessageChanged { .. } => EventKind::ThreadQueuedMessageChanged,
        DomainEvent::ThreadInteractionChanged { .. } => EventKind::ThreadInteractionChanged,
        DomainEvent::HostRegistered { .. } => EventKind::HostRegistered,
        DomainEvent::HostUpdated { .. } => EventKind::HostUpdated,
        DomainEvent::HostStatusChanged { .. } => EventKind::HostStatusChanged,
        DomainEvent::HostDeleted { .. } => EventKind::HostDeleted,
        DomainEvent::EnvironmentCreated { .. } => EventKind::EnvironmentCreated,
        DomainEvent::EnvironmentUpdated { .. } => EventKind::EnvironmentUpdated,
        DomainEvent::EnvironmentStatusChanged { .. } => EventKind::EnvironmentStatusChanged,
        DomainEvent::ThreadSectionCreated => EventKind::ThreadSectionCreated,
        DomainEvent::ThreadSectionUpdated => EventKind::ThreadSectionUpdated,
        DomainEvent::ThreadSectionDeleted => EventKind::ThreadSectionDeleted,
    }
}

/// Whether an event is one of the domain's: the type of a run's event is a known one, and its JSON
/// says what it is.
pub open spec fn well_typed(event: DomainEvent, known: Seq<Seq<char>>) -> bool {
    event matches DomainEvent::ThreadRunEvent { run } ==> run.wf() && known.contains(run.kind@)
}

/// The verdict that an event carries, where it ends a run with one.
pub open spec fn verdict_in(event: DomainEvent) -> Option<RunOutcome> {
    match event {
        DomainEvent::ThreadRunEvent { run } => run.outcome,
        _ => None,
    }
}

/// An event in the log, told apart by its type.
pub open spec fn event_value(event: DomainEvent) -> Tree {
    let base = object().field("type"@, Tree::Str(kind_in(event).word()));
    match event {
        DomainEvent::ProjectCreated { project_id } => base
            .field("project_id"@, Tree::Str(project_id@)),
        DomainEvent::ProjectUpdated { project_id, deleted_at_ms } => base
            .field("project_id"@, Tree::Str(project_id@))
            .field("deleted_at_ms"@, opt_uint_tree(deleted_at_ms)),
        DomainEvent::ThreadCreated { thread_id, project_id } => base
            .field("thread_id"@, Tree::Str(thread_id@))
            .field("project_id"@, Tree::Str(project_id@)),
        DomainEvent::ThreadStatusChanged { thread_id, project_id, from, to, at_ms } => base
            .field("thread_id"@, Tree::Str(thread_id@))
            .field("project_id"@, Tree::Str(project_id@))
            .field("from"@, Tree::Str(from.spec_as_str()))
            .field("to"@, Tree::Str(to.spec_as_str()))
            .field("at_ms"@, Tree::UInt(at_ms)),
        DomainEvent::ThreadMessageAdded { thread_id, message } => base
            .field("thread_id"@, Tree::Str(thread_id@))
            .field("message"@, message_value(message)),
        DomainEvent::ThreadUpdated { thread_id, project_id, deleted_at_ms } => base
            .field("thread_id"@, Tree::Str(thread_id@))
            .field("project_id"@, Tree::Str(project_id@))
            .field("deleted_at_ms"@, opt_uint_tree(deleted_at_ms)),
        DomainEvent::ThreadRunEvent { run } => base.field("thread_id"@, Tree::Str(run.thread_id@))
            .field("project_id"@, Tree::Str(run.project_id@))
            .field("run_id"@, Tree::Str(run.run_id@))
            .field("at_ms"@, Tree::UInt(run.at_ms))
            .field("outcome"@, outcome_tree(run.outcome))
            .field("event"@, run.value@),
        DomainEvent::ThreadQueuedMessageChanged { thread_id, project_id } => base
            .field("thread_id"@, Tree::Str(thread_id@))
            .field("project_id"@, opt_tree(opt_view(project_id))),
        DomainEvent::ThreadInteractionChanged { thread_id, project_id, open } => base
            .field("thread_id"@, Tree::Str(thread_id@))
            .field("project_id"@, opt_tree(opt_view(project_id)))
            .field("open"@, Tree::Bool(open)),
        DomainEvent::HostRegistered { host_id, status } => base
            .field("host_id"@, Tree::Str(host_id@))
            .field("connected"@, Tree::Bool(status is Connected)),
        DomainEvent::HostUpdated { host_id, status } => base.field("host_id"@, Tree::Str(host_id@))
            .field("connected"@, Tree::Bool(status is Connected)),
        DomainEvent::HostStatusChanged { host_id, to } => base
            .field("host_id"@, Tree::Str(host_id@))
            .field("connected"@, Tree::Bool(to is Connected)),
        DomainEvent::HostDeleted { host_id } => base.field("host_id"@, Tree::Str(host_id@)),
        DomainEvent::EnvironmentCreated { environment_id } => base
            .field("environment_id"@, Tree::Str(environment_id@)),
        DomainEvent::EnvironmentUpdated { environment_id } => base
            .field("environment_id"@, Tree::Str(environment_id@)),
        DomainEvent::EnvironmentStatusChanged { environment_id, to } => base
            .field("environment_id"@, Tree::Str(environment_id@))
            .field("to"@, Tree::Str(to@)),
        DomainEvent::ThreadSectionCreated => base,
        DomainEvent::ThreadSectionUpdated => base,
        DomainEvent::ThreadSectionDeleted => base,
    }
}

/// An event in the log.
pub fn event_json(event: &DomainEvent) -> (result: Json)
    ensures
        result@ == event_value(*event),
{
    match event {
        DomainEvent::ProjectCreated { project_id } => Fields::new()
            .with("type", Json::text(EventKind::ProjectCreated.as_str()))
            .with("project_id", Json::text(project_id.as_str()))
            .object(),
        DomainEvent::ProjectUpdated { project_id, deleted_at_ms } => Fields::new()
            .with("type", Json::text(EventKind::ProjectUpdated.as_str()))
            .with("project_id", Json::text(project_id.as_str()))
            .with("deleted_at_ms", Json::opt_uint(*deleted_at_ms))
            .object(),
        DomainEvent::ThreadCreated { thread_id, project_id } => Fields::new()
            .with("type", Json::text(EventKind::ThreadCreated.as_str()))
            .with("thread_id", Json::text(thread_id.as_str()))
            .with("project_id", Json::text(project_id.as_str()))
            .object(),
        DomainEvent::ThreadStatusChanged { thread_id, project_id, from, to, at_ms } => Fields::new()
            .with("type", Json::text(EventKind::ThreadStatusChanged.as_str()))
            .with("thread_id", Json::text(thread_id.as_str()))
            .with("project_id", Json::text(project_id.as_str()))
            .with("from", Json::text(from.as_str()))
            .with("to", Json::text(to.as_str()))
            .with("at_ms", Json::UInt(*at_ms))
            .object(),
        DomainEvent::ThreadMessageAdded { thread_id, message } => Fields::new()
            .with("type", Json::text(EventKind::ThreadMessageAdded.as_str()))
            .with("thread_id", Json::text(thread_id.as_str()))
            .with("message", message_json(message))
            .object(),
        DomainEvent::ThreadUpdated { thread_id, project_id, deleted_at_ms } => Fields::new()
            .with("type", Json::text(EventKind::ThreadUpdated.as_str()))
            .with("thread_id", Json::text(thread_id.as_str()))
            .with("project_id", Json::text(project_id.as_str()))
            .with("deleted_at_ms", Json::opt_uint(*deleted_at_ms))
            .object(),
        DomainEvent::ThreadRunEvent { run } => Fields::new()
            .with("type", Json::text(EventKind::ThreadRunEvent.as_str()))
            .with("thread_id", Json::text(run.thread_id.as_str()))
            .with("project_id", Json::text(run.project_id.as_str()))
            .with("run_id", Json::text(run.run_id.as_str()))
            .with("at_ms", Json::UInt(run.at_ms))
            .with("outcome", outcome_json(run.outcome))
            .with("event", run.value.copy())
            .object(),
        DomainEvent::ThreadQueuedMessageChanged { thread_id, project_id } => Fields::new()
            .with("type", Json::text(EventKind::ThreadQueuedMessageChanged.as_str()))
            .with("thread_id", Json::text(thread_id.as_str()))
            .with("project_id", Json::opt_text(project_id))
            .object(),
        DomainEvent::ThreadInteractionChanged { thread_id, project_id, open } => Fields::new()
            .with("type", Json::text(EventKind::ThreadInteractionChanged.as_str()))
            .with("thread_id", Json::text(thread_id.as_str()))
            .with("project_id", Json::opt_text(project_id))
            .with("open", Json::Bool(*open))
            .object(),
        DomainEvent::HostRegistered { host_id, status } => Fields::new()
            .with("type", Json::text(EventKind::HostRegistered.as_str()))
            .with("host_id", Json::text(host_id.as_str()))
            .with("connected", Json::Bool(matches!(status, HostStatus::Connected)))
            .object(),
        DomainEvent::HostUpdated { host_id, status } => Fields::new()
            .with("type", Json::text(EventKind::HostUpdated.as_str()))
            .with("host_id", Json::text(host_id.as_str()))
            .with("connected", Json::Bool(matches!(status, HostStatus::Connected)))
            .object(),
        DomainEvent::HostStatusChanged { host_id, to } => Fields::new()
            .with("type", Json::text(EventKind::HostStatusChanged.as_str()))
            .with("host_id", Json::text(host_id.as_str()))
            .with("connected", Json::Bool(matches!(to, HostStatus::Connected)))
            .object(),
        DomainEvent::HostDeleted { host_id } => Fields::new()
            .with("type", Json::text(EventKind::HostDeleted.as_str()))
            .with("host_id", Json::text(host_id.as_str()))
            .object(),
        DomainEvent::EnvironmentCreated { environment_id } => Fields::new()
            .with("type", Json::text(EventKind::EnvironmentCreated.as_str()))
            .with("environment_id", Json::text(environment_id.as_str()))
            .object(),
        DomainEvent::EnvironmentUpdated { environment_id } => Fields::new()
            .with("type", Json::text(EventKind::EnvironmentUpdated.as_str()))
            .with("environment_id", Json::text(environment_id.as_str()))
            .object(),
        DomainEvent::EnvironmentStatusChanged { environment_id, to } => Fields::new()
            .with("type", Json::text(EventKind::EnvironmentStatusChanged.as_str()))
            .with("environment_id", Json::text(environment_id.as_str()))
            .with("to", Json::text(to.as_str()))
            .object(),
        DomainEvent::ThreadSectionCreated => Fields::new()
            .with("type", Json::text(EventKind::ThreadSectionCreated.as_str()))
            .object(),
        DomainEvent::ThreadSectionUpdated => Fields::new()
            .with("type", Json::text(EventKind::ThreadSectionUpdated.as_str()))
            .object(),
        DomainEvent::ThreadSectionDeleted => Fields::new()
            .with("type", Json::text(EventKind::ThreadSectionDeleted.as_str()))
            .object(),
    }
}

/// The kind of event that a value says it is.
pub open spec fn kind_at(value: Tree) -> Option<EventKind> {
    match text_at(value, "type"@) {
        Some(word) => word_kind(word),
        None => None,
    }
}

/// Whether a value reads as an event, where these are the known types of run events.
pub open spec fn reads_as(value: Tree, known: Seq<Seq<char>>, event: DomainEvent) -> bool {
    kind_at(value) == Some(kind_in(event)) && match event {
        DomainEvent::ProjectCreated { project_id } => {
            text_at(value, "project_id"@) == Some(project_id@)
        },
        DomainEvent::ProjectUpdated { project_id, deleted_at_ms } => {
            &&& text_at(value, "project_id"@) == Some(project_id@)
            &&& opt_uint_at(value, "deleted_at_ms"@) == Some(deleted_at_ms)
        },
        DomainEvent::ThreadCreated { thread_id, project_id } => {
            &&& text_at(value, "thread_id"@) == Some(thread_id@)
            &&& text_at(value, "project_id"@) == Some(project_id@)
        },
        DomainEvent::ThreadStatusChanged { thread_id, project_id, from, to, at_ms } => {
            &&& text_at(value, "thread_id"@) == Some(thread_id@)
            &&& text_at(value, "project_id"@) == Some(project_id@)
            &&& status_at(value, "from"@) == Some(from)
            &&& status_at(value, "to"@) == Some(to)
            &&& uint_at(value, "at_ms"@) == Some(at_ms)
        },
        DomainEvent::ThreadMessageAdded { thread_id, message } => {
            &&& text_at(value, "thread_id"@) == Some(thread_id@)
            &&& (member(value, "message"@) matches Some(held) && reads_message(held, message))
        },
        DomainEvent::ThreadUpdated { thread_id, project_id, deleted_at_ms } => {
            &&& text_at(value, "thread_id"@) == Some(thread_id@)
            &&& text_at(value, "project_id"@) == Some(project_id@)
            &&& opt_uint_at(value, "deleted_at_ms"@) == Some(deleted_at_ms)
        },
        DomainEvent::ThreadRunEvent { run } => reads_run(value, known, run),
        DomainEvent::ThreadQueuedMessageChanged { thread_id, project_id } => {
            &&& text_at(value, "thread_id"@) == Some(thread_id@)
            &&& opt_text_at(value, "project_id"@) == Some(opt_view(project_id))
        },
        DomainEvent::ThreadInteractionChanged { thread_id, project_id, open } => {
            &&& text_at(value, "thread_id"@) == Some(thread_id@)
            &&& opt_text_at(value, "project_id"@) == Some(opt_view(project_id))
            &&& flag_at(value, "open"@) == Some(open)
        },
        DomainEvent::HostRegistered { host_id, status } => {
            &&& text_at(value, "host_id"@) == Some(host_id@)
            &&& attached_at(value) == Some(status)
        },
        DomainEvent::HostUpdated { host_id, status } => {
            &&& text_at(value, "host_id"@) == Some(host_id@)
            &&& attached_at(value) == Some(status)
        },
        DomainEvent::HostStatusChanged { host_id, to } => {
            &&& text_at(value, "host_id"@) == Some(host_id@)
            &&& attached_at(value) == Some(to)
        },
        DomainEvent::HostDeleted { host_id } => text_at(value, "host_id"@) == Some(host_id@),
        DomainEvent::EnvironmentCreated { environment_id } => {
            text_at(value, "environment_id"@) == Some(environment_id@)
        },
        DomainEvent::EnvironmentUpdated { environment_id } => {
            text_at(value, "environment_id"@) == Some(environment_id@)
        },
        DomainEvent::EnvironmentStatusChanged { environment_id, to } => {
            &&& text_at(value, "environment_id"@) == Some(environment_id@)
            &&& text_at(value, "to"@) == Some(to@)
        },
        DomainEvent::ThreadSectionCreated => true,
        DomainEvent::ThreadSectionUpdated => true,
        DomainEvent::ThreadSectionDeleted => true,
    }
}

/// Whether a value reads as some event, where these are the known types of run events.
pub open spec fn readable(value: Tree, known: Seq<Seq<char>>) -> bool {
    match kind_at(value) {
        None => false,
        Some(EventKind::ProjectCreated) => text_at(value, "project_id"@) is Some,
        Some(EventKind::ProjectUpdated) => {
            &&& text_at(value, "project_id"@) is Some
            &&& opt_uint_at(value, "deleted_at_ms"@) is Some
        },
        Some(EventKind::ThreadCreated) => {
            &&& text_at(value, "thread_id"@) is Some
            &&& text_at(value, "project_id"@) is Some
        },
        Some(EventKind::ThreadStatusChanged) => {
            &&& text_at(value, "thread_id"@) is Some
            &&& text_at(value, "project_id"@) is Some
            &&& status_at(value, "from"@) is Some
            &&& status_at(value, "to"@) is Some
            &&& uint_at(value, "at_ms"@) is Some
        },
        Some(EventKind::ThreadMessageAdded) => {
            &&& text_at(value, "thread_id"@) is Some
            &&& (member(value, "message"@) matches Some(held) && readable_message(held))
        },
        Some(EventKind::ThreadUpdated) => {
            &&& text_at(value, "thread_id"@) is Some
            &&& text_at(value, "project_id"@) is Some
            &&& opt_uint_at(value, "deleted_at_ms"@) is Some
        },
        Some(EventKind::ThreadRunEvent) => readable_run(value, known),
        Some(EventKind::ThreadQueuedMessageChanged) => {
            &&& text_at(value, "thread_id"@) is Some
            &&& opt_text_at(value, "project_id"@) is Some
        },
        Some(EventKind::ThreadInteractionChanged) => {
            &&& text_at(value, "thread_id"@) is Some
            &&& opt_text_at(value, "project_id"@) is Some
            &&& flag_at(value, "open"@) is Some
        },
        Some(EventKind::HostRegistered) => {
            &&& text_at(value, "host_id"@) is Some
            &&& attached_at(value) is Some
        },
        Some(EventKind::HostUpdated) => {
            &&& text_at(value, "host_id"@) is Some
            &&& attached_at(value) is Some
        },
        Some(EventKind::HostStatusChanged) => {
            &&& text_at(value, "host_id"@) is Some
            &&& attached_at(value) is Some
        },
        Some(EventKind::HostDeleted) => text_at(value, "host_id"@) is Some,
        Some(EventKind::EnvironmentCreated) => text_at(value, "environment_id"@) is Some,
        Some(EventKind::EnvironmentUpdated) => text_at(value, "environment_id"@) is Some,
        Some(EventKind::EnvironmentStatusChanged) => {
            &&& text_at(value, "environment_id"@) is Some
            &&& text_at(value, "to"@) is Some
        },
        Some(EventKind::ThreadSectionCreated) => true,
        Some(EventKind::ThreadSectionUpdated) => true,
        Some(EventKind::ThreadSectionDeleted) => true,
    }
}

/// The event that a value reads as, where these are the known types of run events.
pub fn event_of(value: &Json, known_types: &Vec<String>) -> (result: Option<DomainEvent>)
    ensures
        match result {
            Some(event) => reads_as(value@, texts(known_types@), event),
            None => !readable(value@, texts(known_types@)),
        },
{
    let word: String = text(value, "type")?;
    let kind: EventKind = kind_of(word.as_str())?;
    let event: DomainEvent = match kind {
        EventKind::ProjectCreated => DomainEvent::ProjectCreated {
            project_id: text(value, "project_id")?,
        },
        EventKind::ProjectUpdated => DomainEvent::ProjectUpdated {
            project_id: text(value, "project_id")?,
            deleted_at_ms: opt_uint(value, "deleted_at_ms")?,
        },
        EventKind::ThreadCreated => DomainEvent::ThreadCreated {
            thread_id: text(value, "thread_id")?,
            project_id: text(value, "project_id")?,
        },
        EventKind::ThreadStatusChanged => DomainEvent::ThreadStatusChanged {
            thread_id: text(value, "thread_id")?,
            project_id: text(value, "project_id")?,
            from: status(value, "from")?,
            to: status(value, "to")?,
            at_ms: uint(value, "at_ms")?,
        },
        EventKind::ThreadMessageAdded => DomainEvent::ThreadMessageAdded {
            thread_id: text(value, "thread_id")?,
            message: message_of(value.get("message")?)?,
        },
        EventKind::ThreadUpdated => DomainEvent::ThreadUpdated {
            thread_id: text(value, "thread_id")?,
            project_id: text(value, "project_id")?,
            deleted_at_ms: opt_uint(value, "deleted_at_ms")?,
        },
        EventKind::ThreadRunEvent => DomainEvent::ThreadRunEvent {
            run: run_of_json(value, known_types)?,
        },
        EventKind::ThreadQueuedMessageChanged => DomainEvent::ThreadQueuedMessageChanged {
            thread_id: text(value, "thread_id")?,
            project_id: opt_text(value, "project_id")?,
        },
        EventKind::ThreadInteractionChanged => DomainEvent::ThreadInteractionChanged {
            thread_id: text(value, "thread_id")?,
            project_id: opt_text(value, "project_id")?,
            open: flag(value, "open")?,
        },
        EventKind::HostRegistered => DomainEvent::HostRegistered {
            host_id: text(value, "host_id")?,
            status: attached(value)?,
        },
        EventKind::HostUpdated => DomainEvent::HostUpdated {
            host_id: text(value, "host_id")?,
            status: attached(value)?,
        },
        EventKind::HostStatusChanged => DomainEvent::HostStatusChanged {
            host_id: text(value, "host_id")?,
            to: attached(value)?,
        },
        EventKind::HostDeleted => DomainEvent::HostDeleted { host_id: text(value, "host_id")? },
        EventKind::EnvironmentCreated => DomainEvent::EnvironmentCreated {
            environment_id: text(value, "environment_id")?,
        },
        EventKind::EnvironmentUpdated => DomainEvent::EnvironmentUpdated {
            environment_id: text(value, "environment_id")?,
        },
        EventKind::EnvironmentStatusChanged => DomainEvent::EnvironmentStatusChanged {
            environment_id: text(value, "environment_id")?,
            to: text(value, "to")?,
        },
        EventKind::ThreadSectionCreated => DomainEvent::ThreadSectionCreated,
        EventKind::ThreadSectionUpdated => DomainEvent::ThreadSectionUpdated,
        EventKind::ThreadSectionDeleted => DomainEvent::ThreadSectionDeleted,
    };
    Some(event)
}

/// The JSON text of an event, which is read back, but for fractional numbers, wherever it is
/// [`plain`].
pub fn event_bytes(event: &DomainEvent) -> (result: Vec<u8>)
    ensures
        exists|t: Tree|
            #![trigger json_text(t)]
            canonical_form(event_value(*event), t) && result@ == json_text(t),
        plain(event_value(*event), 127) ==> (json_parse(result@) matches Some(read) && reading_of(
            event_value(*event),
            read,
        )),
        valid_utf8(result@),
{
    to_bytes(&event_json(event))
}

/// What a stored frame turned out to be.
#[derive(Debug, PartialEq, Eq)]
pub enum FrameReading {
    /// A worker frame around a domain event.
    Event(DomainEvent),
    /// A worker frame around something else, with what it is around.
    Payload(String),
    /// No worker frame around anything.
    Other,
}

/// Whether a value reads as some scope: everyone, or a kind with what it names.
pub open spec fn readable_scope(value: Tree) -> bool {
    match text_at(value, "kind"@) {
        Some(kind) => if kind == "global"@ {
            opt_text_at(value, "id"@) == Some(None::<Seq<char>>)
        } else {
            names_something(kind) && text_at(value, "id"@) is Some
        },
        None => false,
    }
}

/// Whether a value reads as some scope.
fn is_scope(value: &Json) -> (result: bool)
    ensures
        result == readable_scope(value@),
{
    match text(value, "kind") {
        Some(kind) => if same_text(kind.as_str(), "global") {
            matches!(opt_text(value, "id"), Some(None))
        } else {
            let known: bool = same_text(kind.as_str(), "project") || same_text(
                kind.as_str(),
                "thread",
            ) || same_text(kind.as_str(), "host") || same_text(kind.as_str(), "client")
                || same_text(kind.as_str(), "user");
            known && text(value, "id").is_some()
        },
        None => false,
    }
}

/// The payload of an event frame.
pub open spec fn payload_in(frame: Tree) -> Option<Seq<char>> {
    if text_at(frame, "type"@) == Some("event"@) && text_at(frame, "event_id"@) is Some && (member(
        frame,
        "scope"@,
    ) matches Some(scope) && readable_scope(scope)) && uint_at(frame, "created_at_ms"@) is Some {
        text_at(frame, "payload"@)
    } else {
        None
    }
}

/// The payload of a stored frame, where it is an event frame.
pub open spec fn stored_payload(frame: Seq<u8>) -> Option<Seq<char>> {
    match json_parse(frame) {
        Some(value) => payload_in(value),
        None => None,
    }
}

/// Whether a stored frame is read as this, where these are the known types of run events.
pub open spec fn frame_reads(
    frame: Seq<u8>,
    known: Seq<Seq<char>>,
    reading: FrameReading,
) -> bool {
    match stored_payload(frame) {
        None => reading is Other,
        Some(payload) => match json_parse(encode_utf8(payload)) {
            Some(value) => if readable(value, known) {
                reading matches FrameReading::Event(event) && reads_as(value, known, event)
            } else {
                reading matches FrameReading::Payload(text) && text@ == payload
            },
            None => reading matches FrameReading::Payload(text) && text@ == payload,
        },
    }
}

/// The payload of an event frame.
fn payload_of(frame: &Json) -> (result: Option<String>)
    ensures
        opt_view(result) == payload_in(frame@),
{
    let word: String = text(frame, "type")?;
    if !same_text(word.as_str(), "event") {
        return None;
    }
    let _ = text(frame, "event_id")?;
    if !is_scope(frame.get("scope")?) {
        return None;
    }
    let _ = uint(frame, "created_at_ms")?;
    text(frame, "payload")
}

/// Reads a stored frame, where these are the known types of run events.
pub fn read_frame(frame: &[u8], known_types: &Vec<String>) -> (result: FrameReading)
    ensures
        frame_reads(frame@, texts(known_types@), result),
{
    let value: Json = match parse(frame) {
        Some(value) => value,
        None => {
            return FrameReading::Other;
        },
    };
    let payload: String = match payload_of(&value) {
        Some(payload) => payload,
        None => {
            return FrameReading::Other;
        },
    };
    let held: Option<Json> = parse(payload.as_str().as_bytes());
    match held {
        Some(held) => match event_of(&held, known_types) {
            Some(event) => FrameReading::Event(event),
            None => FrameReading::Payload(payload),
        },
        None => FrameReading::Payload(payload),
    }
}

/// What a stored frame holds for the public: an event wherever it is one, else the public message
/// that its payload spells, and where it is no worker frame the public message that it spells
/// itself.
pub fn frame_content(
    reading: FrameReading,
    inner: Option<ServerMessage>,
    direct: Option<ServerMessage>,
) -> (result: FrameContent)
    ensures
        result == (match reading {
            FrameReading::Event(event) => FrameContent::Event(event),
            FrameReading::Payload(_) => match inner {
                Some(message) => FrameContent::Message(message),
                None => FrameContent::Nothing,
            },
            FrameReading::Other => match direct {
                Some(message) => FrameContent::Message(message),
                None => FrameContent::Nothing,
            },
        }),
{
    match reading {
        FrameReading::Event(event) => FrameContent::Event(event),
        FrameReading::Payload(_) => match inner {
            Some(message) => FrameContent::Message(message),
            None => FrameContent::Nothing,
        },
        FrameReading::Other => match direct {
            Some(message) => FrameContent::Message(message),
            None => FrameContent::Nothing,
        },
    }
}

/// The members of an object with a name each are found in a reading of it.
proof fn members_are_kept(fields: Seq<(Seq<char>, Tree)>, value: Tree)
    requires
        reading_of(Tree::Object(fields), value),
        forall|i: int, j: int|
            0 <= i < j < fields.len() ==> (#[trigger] fields[i]).0 != (#[trigger] fields[j]).0,
    ensures
        forall|i: int|
            0 <= i < fields.len() ==> (member(value, (#[trigger] fields[i]).0) matches Some(held)
                && reading_of(fields[i].1, held)),
{
    assert forall|i: int| 0 <= i < fields.len() implies (member(
        value,
        (#[trigger] fields[i]).0,
    ) matches Some(held) && reading_of(fields[i].1, held)) by {
        assert forall|j: int| i < j < fields.len() implies (#[trigger] fields[j]).0
            != fields[i].0 by {
            assert(fields[i].0 != fields[j].0);
        }
        lookup_last(fields, i);
    }
}

/// The word of a status stands for that status.
proof fn statuses_read_back(status: ThreadStatus)
    ensures
        word_status(status.spec_as_str()) == Some(status),
{
    reveal_strlit("idle");
    reveal_strlit("working");
    reveal_strlit("waiting");
    reveal_strlit("error");
    reveal_strlit("archived");
    assert("idle"@.len() == 4 && "error"@.len() == 5 && "archived"@.len() == 8);
    assert("working"@.len() == 7 && "working"@[1] == 'o');
    assert("waiting"@.len() == 7 && "waiting"@[1] == 'a');
}

/// The word of a role stands for that role.
proof fn roles_read_back(role: MessageRole)
    ensures
        word_role(role_word(role)) == Some(role),
{
    reveal_strlit("user");
    reveal_strlit("assistant");
    reveal_strlit("system");
    assert("user"@.len() == 4 && "assistant"@.len() == 9 && "system"@.len() == 6);
}

/// A message reads back, whoever it was.
proof fn messages_read_back(message: Message, value: Tree)
    requires
        reading_of(message_value(message), value),
    ensures
        reads_message(value, message),
        readable_message(value),
{
    let fields = message_value(message)->Object_0;

    reveal_strlit("id");
    reveal_strlit("project_id");
    reveal_strlit("role");
    reveal_strlit("content");
    reveal_strlit("created_at_ms");
    assert("id"@.len() == 2);
    assert("project_id"@.len() == 10);
    assert("role"@.len() == 4);
    assert("content"@.len() == 7);
    assert("created_at_ms"@.len() == 13);
    assert(fields[0].0 == "id"@);
    assert(fields[1].0 == "project_id"@);
    assert(fields[2].0 == "role"@);
    assert(fields[3].0 == "content"@);
    assert(fields[4].0 == "created_at_ms"@);
    members_are_kept(fields, value);
    assert(reading_of(fields[0].1, member(value, fields[0].0)->0));
    assert(reading_of(fields[1].1, member(value, fields[1].0)->0));
    assert(reading_of(fields[2].1, member(value, fields[2].0)->0));
    assert(reading_of(fields[3].1, member(value, fields[3].0)->0));
    assert(reading_of(fields[4].1, member(value, fields[4].0)->0));
    roles_read_back(message.role);
}

/// A member of a value is found in a reading of it.
proof fn member_is_kept(a: Tree, b: Tree, key: Seq<char>)
    requires
        reading_of(a, b),
        member(a, key) is Some,
    ensures
        member(b, key) matches Some(held) && reading_of(member(a, key)->0, held),
{
    let k = lookup_found(a->Object_0, key);
    assert(a->Object_0[k].0 == key);
}

/// The word of an outcome stands for that outcome, and so no two outcomes share one.
pub proof fn outcomes_stay_apart(outcome: RunOutcome)
    ensures
        RunOutcome::spec_of_word(outcome.spec_as_str()) == Some(outcome),
{
    reveal_strlit("completed");
    reveal_strlit("failed");
    reveal_strlit("timed_out");
    reveal_strlit("host_stale");
    reveal_strlit("cancelled");
    assert("completed"@.len() == 9 && "completed"@[1] == 'o');
    assert("failed"@.len() == 6);
    assert("timed_out"@.len() == 9 && "timed_out"@[1] == 'i');
    assert("host_stale"@.len() == 10);
    assert("cancelled"@.len() == 9 && "cancelled"@[1] == 'a');
}

/// An event reads back from a reading of what it is written as, and what it reads as is
/// projected like the event itself.
pub proof fn events_read_back(event: DomainEvent, known: Seq<Seq<char>>, value: Tree)
    requires
        reading_of(event_value(event), value),
        well_typed(event, known),
    ensures
        readable(value, known),
        forall|read: DomainEvent| #[trigger]
            reads_as(value, known, read) ==> projection(read) == projection(event) && verdict_in(
                read,
            ) == verdict_in(event),
{
    let fields = event_value(event)->Object_0;
    kinds_read_back(kind_in(event));
    reveal_strlit("type");
    reveal_strlit("project_id");
    reveal_strlit("deleted_at_ms");
    reveal_strlit("thread_id");
    reveal_strlit("from");
    reveal_strlit("to");
    reveal_strlit("at_ms");
    reveal_strlit("message");
    reveal_strlit("run_id");
    reveal_strlit("outcome");
    reveal_strlit("event");
    reveal_strlit("open");
    reveal_strlit("host_id");
    reveal_strlit("connected");
    reveal_strlit("environment_id");
    assert("type"@.len() == 4 && "type"@[0] == 't');
    assert("project_id"@.len() == 10);
    assert("deleted_at_ms"@.len() == 13);
    assert("thread_id"@.len() == 9 && "thread_id"@[0] == 't');
    assert("from"@.len() == 4 && "from"@[0] == 'f');
    assert("to"@.len() == 2);
    assert("at_ms"@.len() == 5 && "at_ms"@[0] == 'a');
    assert("message"@.len() == 7 && "message"@[0] == 'm');
    assert("run_id"@.len() == 6);
    assert("outcome"@.len() == 7 && "outcome"@[0] == 'o');
    assert("event"@.len() == 5 && "event"@[0] == 'e');
    assert("open"@.len() == 4 && "open"@[0] == 'o');
    assert("host_id"@.len() == 7 && "host_id"@[0] == 'h');
    assert("connected"@.len() == 9 && "connected"@[0] == 'c');
    assert("environment_id"@.len() == 14);
    assert(fields[0].0 == "type"@);
    match event {
        DomainEvent::ProjectCreated { .. } => {
            assert(fields[1].0 == "project_id"@);
            members_are_kept(fields, value);
            assert(reading_of(fields[0].1, member(value, fields[0].0)->0));
            assert(reading_of(fields[1].1, member(value, fields[1].0)->0));
        },
        DomainEvent::ProjectUpdated { .. } => {
            assert(fields[1].0 == "project_id"@ && fields[2].0 == "deleted_at_ms"@);
            members_are_kept(fields, value);
            assert(reading_of(fields[0].1, member(value, fields[0].0)->0));
            assert(reading_of(fields[1].1, member(value, fields[1].0)->0));
            assert(reading_of(fields[2].1, member(value, fields[2].0)->0));
        },
        DomainEvent::ThreadCreated { .. } => {
            assert(fields[1].0 == "thread_id"@ && fields[2].0 == "project_id"@);
            members_are_kept(fields, value);
            assert(reading_of(fields[0].1, member(value, fields[0].0)->0));
            assert(reading_of(fields[1].1, member(value, fields[1].0)->0));
            assert(reading_of(fields[2].1, member(value, fields[2].0)->0));
        },
        DomainEvent::ThreadStatusChanged { from, to, .. } => {
            assert(fields[1].0 == "thread_id"@);
            assert(fields[2].0 == "project_id"@);
            assert(fields[3].0 == "from"@);
            assert(fields[4].0 == "to"@);
            assert(fields[5].0 == "at_ms"@);
            members_are_kept(fields, value);
            assert(reading_of(fields[0].1, member(value, fields[0].0)->0));
            assert(reading_of(fields[1].1, member(value, fields[1].0)->0));
            assert(reading_of(fields[2].1, member(value, fields[2].0)->0));
            assert(reading_of(fields[3].1, member(value, fields[3].0)->0));
            assert(reading_of(fields[4].1, member(value, fields[4].0)->0));
            assert(reading_of(fields[5].1, member(value, fields[5].0)->0));
            statuses_read_back(from);
            statuses_read_back(to);
        },
        DomainEvent::ThreadMessageAdded { message, .. } => {
            assert(fields[1].0 == "thread_id"@ && fields[2].0 == "message"@);
            members_are_kept(fields, value);
            assert(reading_of(fields[0].1, member(value, fields[0].0)->0));
            assert(reading_of(fields[1].1, member(value, fields[1].0)->0));
            assert(reading_of(fields[2].1, member(value, fields[2].0)->0));
            messages_read_back(message, member(value, fields[2].0)->0);
        },
        DomainEvent::ThreadUpdated { .. } => {
            assert(fields[1].0 == "thread_id"@);
            assert(fields[2].0 == "project_id"@);
            assert(fields[3].0 == "deleted_at_ms"@);
            members_are_kept(fields, value);
            assert(reading_of(fields[0].1, member(value, fields[0].0)->0));
            assert(reading_of(fields[1].1, member(value, fields[1].0)->0));
            assert(reading_of(fields[2].1, member(value, fields[2].0)->0));
            assert(reading_of(fields[3].1, member(value, fields[3].0)->0));
        },
        DomainEvent::ThreadRunEvent { run, .. } => {
            assert(fields[1].0 == "thread_id"@);
            assert(fields[2].0 == "project_id"@);
            assert(fields[3].0 == "run_id"@);
            assert(fields[4].0 == "at_ms"@);
            assert(fields[5].0 == "outcome"@);
            assert(fields[6].0 == "event"@);
            members_are_kept(fields, value);
            assert(reading_of(fields[0].1, member(value, fields[0].0)->0));
            assert(reading_of(fields[1].1, member(value, fields[1].0)->0));
            assert(reading_of(fields[2].1, member(value, fields[2].0)->0));
            assert(reading_of(fields[3].1, member(value, fields[3].0)->0));
            assert(reading_of(fields[4].1, member(value, fields[4].0)->0));
            assert(reading_of(fields[5].1, member(value, fields[5].0)->0));
            assert(reading_of(fields[6].1, member(value, fields[6].0)->0));
            member_is_kept(run.value@, member(value, "event"@)->0, "type"@);
            member_is_kept(run.value@, member(value, "event"@)->0, "scope"@);
            if run.outcome is Some {
                outcomes_stay_apart(run.outcome->0);
            }
        },
        DomainEvent::ThreadQueuedMessageChanged { .. } => {
            assert(fields[1].0 == "thread_id"@ && fields[2].0 == "project_id"@);
            members_are_kept(fields, value);
            assert(reading_of(fields[0].1, member(value, fields[0].0)->0));
            assert(reading_of(fields[1].1, member(value, fields[1].0)->0));
            assert(reading_of(fields[2].1, member(value, fields[2].0)->0));
        },
        DomainEvent::ThreadInteractionChanged { .. } => {
            assert(fields[1].0 == "thread_id"@);
            assert(fields[2].0 == "project_id"@);
            assert(fields[3].0 == "open"@);
            members_are_kept(fields, value);
            assert(reading_of(fields[0].1, member(value, fields[0].0)->0));
            assert(reading_of(fields[1].1, member(value, fields[1].0)->0));
            assert(reading_of(fields[2].1, member(value, fields[2].0)->0));
            assert(reading_of(fields[3].1, member(value, fields[3].0)->0));
        },
        DomainEvent::HostRegistered { .. } => {
            assert(fields[1].0 == "host_id"@ && fields[2].0 == "connected"@);
            members_are_kept(fields, value);
            assert(reading_of(fields[0].1, member(value, fields[0].0)->0));
            assert(reading_of(fields[1].1, member(value, fields[1].0)->0));
            assert(reading_of(fields[2].1, member(value, fields[2].0)->0));
        },
        DomainEvent::HostUpdated { .. } => {
            assert(fields[1].0 == "host_id"@ && fields[2].0 == "connected"@);
            members_are_kept(fields, value);
            assert(reading_of(fields[0].1, member(value, fields[0].0)->0));
            assert(reading_of(fields[1].1, member(value, fields[1].0)->0));
            assert(reading_of(fields[2].1, member(value, fields[2].0)->0));
        },
        DomainEvent::HostStatusChanged { .. } => {
            assert(fields[1].0 == "host_id"@ && fields[2].0 == "connected"@);
            members_are_kept(fields, value);
            assert(reading_of(fields[0].1, member(value, fields[0].0)->0));
            assert(reading_of(fields[1].1, member(value, fields[1].0)->0));
            assert(reading_of(fields[2].1, member(value, fields[2].0)->0));
        },
        DomainEvent::HostDeleted { .. } => {
            assert(fields[1].0 == "host_id"@);
            members_are_kept(fields, value);
            assert(reading_of(fields[0].1, member(value, fields[0].0)->0));
            assert(reading_of(fields[1].1, member(value, fields[1].0)->0));
        },
        DomainEvent::EnvironmentCreated { .. } => {
            assert(fields[1].0 == "environment_id"@);
            members_are_kept(fields, value);
            assert(reading_of(fields[0].1, member(value, fields[0].0)->0));
            assert(reading_of(fields[1].1, member(value, fields[1].0)->0));
        },
        DomainEvent::EnvironmentUpdated { .. } => {
            assert(fields[1].0 == "environment_id"@);
            members_are_kept(fields, value);
            assert(reading_of(fields[0].1, member(value, fields[0].0)->0));
            assert(reading_of(fields[1].1, member(value, fields[1].0)->0));
        },
        DomainEvent::EnvironmentStatusChanged { .. } => {
            assert(fields[1].0 == "environment_id"@ && fields[2].0 == "to"@);
            members_are_kept(fields, value);
            assert(reading_of(fields[0].1, member(value, fields[0].0)->0));
            assert(reading_of(fields[1].1, member(value, fields[1].0)->0));
            assert(reading_of(fields[2].1, member(value, fields[2].0)->0));
        },
        DomainEvent::ThreadSectionCreated => {
            members_are_kept(fields, value);
            assert(reading_of(fields[0].1, member(value, fields[0].0)->0));
        },
        DomainEvent::ThreadSectionUpdated => {
            members_are_kept(fields, value);
            assert(reading_of(fields[0].1, member(value, fields[0].0)->0));
        },
        DomainEvent::ThreadSectionDeleted => {
            members_are_kept(fields, value);
            assert(reading_of(fields[0].1, member(value, fields[0].0)->0));
        },
    }
    assert forall|read: DomainEvent| #[trigger] reads_as(value, known, read) implies projection(
        read,
    ) == projection(event) && verdict_in(read) == verdict_in(event) by {
        assert(kind_in(read) == kind_in(event));
        assert(projection(read) =~~= projection(event));
    }
}

/// An event is plain, and so its JSON text is read back, wherever what a run's event says is.
pub proof fn events_are_plain(event: DomainEvent)
    requires
        event matches DomainEvent::ThreadRunEvent { run } ==> plain(run.value@, 126),
    ensures
        plain(event_value(event), 127),
{
    reveal_strlit("$serde_json::private::RawValue");
    assert("$serde_json::private::RawValue"@.len() == 30);
    reveal_strlit("type");
    reveal_strlit("project_id");
    reveal_strlit("deleted_at_ms");
    reveal_strlit("thread_id");
    reveal_strlit("from");
    reveal_strlit("to");
    reveal_strlit("at_ms");
    reveal_strlit("message");
    reveal_strlit("outcome");
    reveal_strlit("open");
    reveal_strlit("host_id");
    reveal_strlit("connected");
    reveal_strlit("environment_id");
    reveal_strlit("id");
    reveal_strlit("role");
    reveal_strlit("content");
    reveal_strlit("created_at_ms");
    reveal_strlit("run_id");
    reveal_strlit("event");
    assert("type"@.len() == 4);
    assert("project_id"@.len() == 10);
    assert("deleted_at_ms"@.len() == 13);
    assert("thread_id"@.len() == 9);
    assert("from"@.len() == 4);
    assert("to"@.len() == 2);
    assert("at_ms"@.len() == 5);
    assert("message"@.len() == 7);
    assert("outcome"@.len() == 7);
    assert("open"@.len() == 4);
    assert("host_id"@.len() == 7);
    assert("connected"@.len() == 9);
    assert("environment_id"@.len() == 14);
    assert("id"@.len() == 2);
    assert("role"@.len() == 4);
    assert("content"@.len() == 7);
    assert("created_at_ms"@.len() == 13);
    assert("run_id"@.len() == 6);
    assert("event"@.len() == 5);
    let fields = event_value(event)->Object_0;
    if let DomainEvent::ThreadMessageAdded { message, .. } = event {
        let inner = message_value(message)->Object_0;
        assert(plain(message_value(message), 126)) by {
            assert forall|i: int| 0 <= i < inner.len() implies plain((#[trigger] inner[i]).1, 125)
                && inner[i].0 != reserved_name() by {
                assert(i == 0 || i == 1 || i == 2 || i == 3 || i == 4);
            }
            begins_otherwise(inner);
        }
    }
    assert forall|i: int| 0 <= i < fields.len() implies plain((#[trigger] fields[i]).1, 126)
        && fields[i].0 != reserved_name() by {
        assert(i == 0 || i == 1 || i == 2 || i == 3 || i == 4 || i == 5 || i == 6);
    }
    begins_otherwise(fields);
}

/// A stored scope reads as a scope.
proof fn scopes_read_back(scope: Scope, value: Tree)
    requires
        reading_of(scope.tree(), value),
    ensures
        readable_scope(value),
{
    let fields = scope.tree()->Object_0;
    reveal_strlit("kind");
    reveal_strlit("id");
    reveal_strlit("global");
    reveal_strlit("project");
    reveal_strlit("thread");
    reveal_strlit("host");
    reveal_strlit("client");
    reveal_strlit("user");
    assert("kind"@.len() == 4 && "id"@.len() == 2);
    assert("global"@.len() == 6 && "global"@[0] == 'g');
    assert("thread"@.len() == 6 && "thread"@[0] == 't');
    assert("client"@.len() == 6 && "client"@[0] == 'c');
    assert("project"@.len() == 7 && "host"@.len() == 4 && "user"@.len() == 4);
    assert(fields[0].0 == "kind"@);
    if scope.named() is Some {
        assert(fields[1].0 == "id"@);
    }
    members_are_kept(fields, value);
    assert(reading_of(fields[0].1, member(value, fields[0].0)->0));
    if scope.named() is Some {
        assert(reading_of(fields[1].1, member(value, fields[1].0)->0));
    } else if member(value, "id"@) is Some {
        assert(lookup(fields, "id"@) is Some);
        let k = lookup_found(fields, "id"@);
        assert(k == 0);
    }
}

/// Wrapping an event in a stored frame and reading it back loses nothing, whatever scope, id and
/// time it is stored under: the frame is read as an event, and that event is projected to the
/// public messages of the one that was published and keeps its verdict. Left out is an event that
/// carries a value which the parser does not take: one with an object that begins with the reserved
/// name, or with more nesting than the parser's limit.
pub proof fn stored_events_project_alike(
    event: DomainEvent,
    known: Seq<Seq<char>>,
    written: Tree,
    payload: Seq<u8>,
    event_id: Seq<char>,
    scope: Scope,
    created_at_ms: u64,
    stored: Tree,
    frame: Seq<u8>,
    reading: FrameReading,
)
    requires
        well_typed(event, known),
        reading_of(event_value(event), written),
        json_parse(payload) == Some(written),
        valid_utf8(payload),
        canonical_form(
            event_tree(event_id, scope, decode_utf8(payload), created_at_ms),
            stored,
        ),
        json_parse(frame) == Some(stored),
        frame_reads(frame, known, reading),
    ensures
        reading matches FrameReading::Event(read) && projection(read) == projection(event)
            && verdict_in(read) == verdict_in(event),
{
    stored_frames_read_back(event_id, scope, decode_utf8(payload), created_at_ms, stored);
    decode_utf8_encode_utf8(payload);
    events_read_back(event, known, written);
    canonical_forms_are_readings(scope.tree(), member(stored, "scope"@)->0);
    scopes_read_back(scope, member(stored, "scope"@)->0);
    assert(payload_in(stored) == Some(decode_utf8(payload)));
}

/// Whatever event is read from the log, what is projected of it is valid: every message is one that
/// the public contract can express.
pub proof fn read_events_project_to_valid_messages(
    frame: Seq<u8>,
    known: Seq<Seq<char>>,
    event: DomainEvent,
)
    requires
        frame_reads(frame, known, FrameReading::Event(event)),
    ensures
        projection(event).len() >= 1,
        forall|i: int|
            0 <= i < projection(event).len() ==> message_valid(
                #[trigger] projection(event)[i],
                known,
            ),
{
    projections_are_valid(event, known);
}

// How events are written and read.

/// A kind of event is known by its word, and no other word is one.
#[verifier::rlimit(60)]
pub proof fn kinds_are_known_by_their_word(word: &str, answer: Option<EventKind>)
    requires
        call_ensures(kind_of, (word,), answer),
    ensures
        word@ == "project_created"@ ==> answer == Some(EventKind::ProjectCreated),
        word@ == "project_updated"@ ==> answer == Some(EventKind::ProjectUpdated),
        word@ == "thread_created"@ ==> answer == Some(EventKind::ThreadCreated),
        word@ == "thread_status_changed"@ ==> answer == Some(EventKind::ThreadStatusChanged),
        word@ == "thread_message_added"@ ==> answer == Some(EventKind::ThreadMessageAdded),
        word@ == "thread_updated"@ ==> answer == Some(EventKind::ThreadUpdated),
        word@ == "thread_run_event"@ ==> answer == Some(EventKind::ThreadRunEvent),
        word@ == "thread_queued_message_changed"@ ==> answer == Some(EventKind::ThreadQueuedMessageChanged),
        word@ == "thread_interaction_changed"@ ==> answer == Some(EventKind::ThreadInteractionChanged),
        word@ == "host_registered"@ ==> answer == Some(EventKind::HostRegistered),
        word@ == "host_updated"@ ==> answer == Some(EventKind::HostUpdated),
        word@ == "host_status_changed"@ ==> answer == Some(EventKind::HostStatusChanged),
        word@ == "host_deleted"@ ==> answer == Some(EventKind::HostDeleted),
        word@ == "environment_created"@ ==> answer == Some(EventKind::EnvironmentCreated),
        word@ == "environment_updated"@ ==> answer == Some(EventKind::EnvironmentUpdated),
        word@ == "environment_status_changed"@ ==> answer == Some(EventKind::EnvironmentStatusChanged),
        word@ == "thread_section_created"@ ==> answer == Some(EventKind::ThreadSectionCreated),
        word@ == "thread_section_updated"@ ==> answer == Some(EventKind::ThreadSectionUpdated),
        word@ == "thread_section_deleted"@ ==> answer == Some(EventKind::ThreadSectionDeleted),
        (word@ != "project_created"@ && word@ != "project_updated"@ && word@ != "thread_created"@ && word@ != "thread_status_changed"@ && word@ != "thread_message_added"@ && word@ != "thread_updated"@ && word@ != "thread_run_event"@ && word@ != "thread_queued_message_changed"@ && word@ != "thread_interaction_changed"@ && word@ != "host_registered"@ && word@ != "host_updated"@ && word@ != "host_status_changed"@ && word@ != "host_deleted"@ && word@ != "environment_created"@ && word@ != "environment_updated"@ && word@ != "environment_status_changed"@ && word@ != "thread_section_created"@ && word@ != "thread_section_updated"@ && word@ != "thread_section_deleted"@) ==> answer is None,
{
    reveal_strlit("host_deleted");
    reveal_strlit("host_updated");
    reveal_strlit("thread_created");
    reveal_strlit("thread_updated");
    reveal_strlit("host_registered");
    reveal_strlit("project_created");
    reveal_strlit("project_updated");
    reveal_strlit("thread_run_event");
    reveal_strlit("environment_created");
    reveal_strlit("environment_updated");
    reveal_strlit("host_status_changed");
    reveal_strlit("thread_message_added");
    reveal_strlit("thread_status_changed");
    reveal_strlit("thread_section_created");
    reveal_strlit("thread_section_deleted");
    reveal_strlit("thread_section_updated");
    reveal_strlit("environment_status_changed");
    reveal_strlit("thread_interaction_changed");
    reveal_strlit("thread_queued_message_changed");
    assert("host_deleted"@.len() == 12 && "host_deleted"@[5] == 'd');
    assert("host_updated"@.len() == 12 && "host_updated"@[5] == 'u');
    assert("thread_created"@.len() == 14 && "thread_created"@[7] == 'c');
    assert("thread_updated"@.len() == 14 && "thread_updated"@[7] == 'u');
    assert("host_registered"@.len() == 15 && "host_registered"@[8] == 'i');
    assert("project_created"@.len() == 15 && "project_created"@[8] == 'c');
    assert("project_updated"@.len() == 15 && "project_updated"@[8] == 'u');
    assert("thread_run_event"@.len() == 16);
    assert("environment_created"@.len() == 19 && "environment_created"@[13] == 'r');
    assert("environment_updated"@.len() == 19 && "environment_updated"@[13] == 'p');
    assert("host_status_changed"@.len() == 19 && "host_status_changed"@[13] == 'h');
    assert("thread_message_added"@.len() == 20);
    assert("thread_status_changed"@.len() == 21);
    assert("thread_section_created"@.len() == 22 && "thread_section_created"@[15] == 'c');
    assert("thread_section_deleted"@.len() == 22 && "thread_section_deleted"@[15] == 'd');
    assert("thread_section_updated"@.len() == 22 && "thread_section_updated"@[15] == 'u');
    assert("environment_status_changed"@.len() == 26 && "environment_status_changed"@[0] == 'e');
    assert("thread_interaction_changed"@.len() == 26 && "thread_interaction_changed"@[0] == 't');
    assert("thread_queued_message_changed"@.len() == 29);
}

/// An item is read by its type, with its own id; thinking is read with its texts, and what has no
/// id or another type is any other item.
pub proof fn items_are_known_by_their_type(value: Tree, item: ThreadEventItem)
    requires
        item_fits(value, item),
    ensures
        member(value, "type"@) == Some(Tree::Str("reasoning"@)) && (member(value, "id"@) matches Some(Tree::Str(_))) ==> (item matches ThreadEventItem::Reasoning { id, summary, content } && member(value, "id"@) == Some(Tree::Str(id@)) && texts(summary@) == pieces_at(value, "summary"@) && texts(content@) == pieces_at(value, "content"@)),
        member(value, "type"@) == Some(Tree::Str("agentMessage"@)) && (member(value, "id"@) matches Some(Tree::Str(_))) ==> (item matches ThreadEventItem::AgentMessage { id } && member(value, "id"@) == Some(Tree::Str(id@))),
        member(value, "type"@) == Some(Tree::Str("toolCall"@)) && (member(value, "id"@) matches Some(Tree::Str(_))) ==> (item matches ThreadEventItem::ToolCall { id } && member(value, "id"@) == Some(Tree::Str(id@))),
        member(value, "type"@) == Some(Tree::Str("commandExecution"@)) && (member(value, "id"@) matches Some(Tree::Str(_))) ==> (item matches ThreadEventItem::CommandExecution { id } && member(value, "id"@) == Some(Tree::Str(id@))),
        member(value, "type"@) == Some(Tree::Str("fileChange"@)) && (member(value, "id"@) matches Some(Tree::Str(_))) ==> (item matches ThreadEventItem::FileChange { id } && member(value, "id"@) == Some(Tree::Str(id@))),
        member(value, "type"@) == Some(Tree::Str("fileRead"@)) && (member(value, "id"@) matches Some(Tree::Str(_))) ==> (item matches ThreadEventItem::FileRead { id } && member(value, "id"@) == Some(Tree::Str(id@))),
        member(value, "type"@) == Some(Tree::Str("search"@)) && (member(value, "id"@) matches Some(Tree::Str(_))) ==> (item matches ThreadEventItem::Search { id } && member(value, "id"@) == Some(Tree::Str(id@))),
        member(value, "type"@) == Some(Tree::Str("webFetch"@)) && (member(value, "id"@) matches Some(Tree::Str(_))) ==> (item matches ThreadEventItem::WebFetch { id } && member(value, "id"@) == Some(Tree::Str(id@))),
        !(member(value, "id"@) matches Some(Tree::Str(_))) ==> item is Other,
        (member(value, "type"@) != Some(Tree::Str("reasoning"@)) && member(value, "type"@) != Some(Tree::Str("agentMessage"@)) && member(value, "type"@) != Some(Tree::Str("toolCall"@)) && member(value, "type"@) != Some(Tree::Str("commandExecution"@)) && member(value, "type"@) != Some(Tree::Str("fileChange"@)) && member(value, "type"@) != Some(Tree::Str("fileRead"@)) && member(value, "type"@) != Some(Tree::Str("search"@)) && member(value, "type"@) != Some(Tree::Str("webFetch"@))) ==> item is Other,
{
    reveal_strlit("search");
    reveal_strlit("fileRead");
    reveal_strlit("toolCall");
    reveal_strlit("webFetch");
    reveal_strlit("reasoning");
    reveal_strlit("fileChange");
    reveal_strlit("agentMessage");
    reveal_strlit("commandExecution");
    assert("search"@.len() == 6);
    assert("fileRead"@.len() == 8 && "fileRead"@[0] == 'f');
    assert("toolCall"@.len() == 8 && "toolCall"@[0] == 't');
    assert("webFetch"@.len() == 8 && "webFetch"@[0] == 'w');
    assert("reasoning"@.len() == 9);
    assert("fileChange"@.len() == 10);
    assert("agentMessage"@.len() == 12);
    assert("commandExecution"@.len() == 16);
}

/// The texts of a list are its members that are texts, in their order.
pub proof fn texts_are_gathered_in_order(
    items: Seq<Tree>,
)
    ensures
        strings_of(items) == items.filter(|item: Tree| item is Str).map_values(|item: Tree| item->Str_0),
    decreases items.len(),
{
    let kept = |item: Tree| item is Str;
    let row = |item: Tree| item->Str_0;
    reveal(Seq::filter);
    if items.len() == 0 {
        assert(items.filter(kept).map_values(row) =~= Seq::<Seq<char>>::empty());
    } else {
        let rest = items.drop_last();
        texts_are_gathered_in_order(rest);
        if kept(items.last()) {
            assert(rest.filter(kept).push(items.last()).map_values(row) =~= rest.filter(kept).map_values(row).push(row(items.last())));
        }
    }
}

/// What a provider reports is read by its type, with the item and the text that it is about; what
/// lacks them, and every other type, is any other event.
pub proof fn provider_events_are_known_by_their_type(
    kind: &str,
    value: Json,
    event: ProviderEvent,
)
    requires
        call_ensures(provider_event, (kind, &value), event),
    ensures
        kind@ == "item/reasoning/textDelta"@ && (member(value@, "itemId"@) matches Some(Tree::Str(_))) && (member(value@, "delta"@) matches Some(Tree::Str(_))) ==> (event matches ProviderEvent::ItemReasoningTextDelta { item_id, delta } && member(value@, "itemId"@) == Some(Tree::Str(item_id@)) && member(value@, "delta"@) == Some(Tree::Str(delta@))),
        kind@ == "item/reasoning/summaryTextDelta"@ && (member(value@, "itemId"@) matches Some(Tree::Str(_))) && (member(value@, "delta"@) matches Some(Tree::Str(_))) ==> (event matches ProviderEvent::ItemReasoningSummaryTextDelta { item_id, delta } && member(value@, "itemId"@) == Some(Tree::Str(item_id@)) && member(value@, "delta"@) == Some(Tree::Str(delta@))),
        kind@ == "item/agentMessage/delta"@ && (member(value@, "itemId"@) matches Some(Tree::Str(_))) && (member(value@, "delta"@) matches Some(Tree::Str(_))) ==> (event matches ProviderEvent::ItemAgentMessageDelta { item_id, delta } && member(value@, "itemId"@) == Some(Tree::Str(item_id@)) && member(value@, "delta"@) == Some(Tree::Str(delta@))),
        kind@ == "item/started"@ && member(value@, "item"@) is Some ==> (event matches ProviderEvent::ItemStarted { item } && item_fits(member(value@, "item"@)->0, item)),
        kind@ == "item/completed"@ && member(value@, "item"@) is Some ==> (event matches ProviderEvent::ItemCompleted { item } && item_fits(member(value@, "item"@)->0, item)),
        kind@ == "item/toolCall/progress"@ && (member(value@, "itemId"@) matches Some(Tree::Str(_))) ==> (event matches ProviderEvent::ItemToolCallProgress { item_id } && member(value@, "itemId"@) == Some(Tree::Str(item_id@))),
        kind@ == "provider/modelFallback"@ && (member(value@, "originalModel"@) matches Some(Tree::Str(_))) && (member(value@, "fallbackModel"@) matches Some(Tree::Str(_))) ==> (event matches ProviderEvent::ProviderModelFallback { original_model, fallback_model } && member(value@, "originalModel"@) == Some(Tree::Str(original_model@)) && member(value@, "fallbackModel"@) == Some(Tree::Str(fallback_model@))),
        (kind@ != "item/reasoning/textDelta"@ && kind@ != "item/reasoning/summaryTextDelta"@ && kind@ != "item/agentMessage/delta"@ && kind@ != "item/started"@ && kind@ != "item/completed"@ && kind@ != "item/toolCall/progress"@ && kind@ != "provider/modelFallback"@) ==> event is Other,
        (kind@ == "item/reasoning/textDelta"@ || kind@ == "item/reasoning/summaryTextDelta"@ || kind@ == "item/agentMessage/delta"@) && !((member(value@, "itemId"@) matches Some(Tree::Str(_))) && (member(value@, "delta"@) matches Some(Tree::Str(_)))) ==> event is Other,
{
    reveal_strlit("item/started");
    reveal_strlit("item/completed");
    reveal_strlit("item/toolCall/progress");
    reveal_strlit("provider/modelFallback");
    reveal_strlit("item/agentMessage/delta");
    reveal_strlit("item/reasoning/textDelta");
    reveal_strlit("item/reasoning/summaryTextDelta");
    assert("item/started"@.len() == 12);
    assert("item/completed"@.len() == 14);
    assert("item/toolCall/progress"@.len() == 22 && "item/toolCall/progress"@[0] == 'i');
    assert("provider/modelFallback"@.len() == 22 && "provider/modelFallback"@[0] == 'p');
    assert("item/agentMessage/delta"@.len() == 23);
    assert("item/reasoning/textDelta"@.len() == 24);
    assert("item/reasoning/summaryTextDelta"@.len() == 31);
}

/// What an envelope shows: the type it is of, its thread, what it belongs to, and beside these what
/// its body says.
proof fn envelopes_show_their_body(
    run: RunEvent,
    kind: Seq<char>,
    thread_scoped: bool,
    body: Seq<(Seq<char>, Tree)>,
    outcome: Option<RunOutcome>,
    key: Seq<char>,
)
    requires
        is_run_event(run, kind, thread_scoped, body, outcome),
    ensures
        member(run.value@, "type"@) == Some(Tree::Str(kind)),
        member(run.value@, "threadId"@) == Some(Tree::Str(run.thread_id@)),
        member(run.value@, "scope"@) == Some(run.scope@),
        member(run.data@, "type"@) == Some(Tree::Str(kind)),
        key != "type"@ && key != "threadId"@ && key != "scope"@ ==> member(run.value@, key)
            == lookup(body, key),
        key != "type"@ ==> member(run.data@, key) == lookup(body, key),
{
    let typed = with_member(body, "type"@, Tree::Str(kind));
    let threaded = with_member(typed, "threadId"@, Tree::Str(run.thread_id@));
    reveal_strlit("type");
    reveal_strlit("scope");
    reveal_strlit("threadId");
    assert("type"@.len() == 4);
    assert("scope"@.len() == 5);
    assert("threadId"@.len() == 8);
    member_of_replaced(body, "type"@, Tree::Str(kind), key);
    member_of_replaced(body, "type"@, Tree::Str(kind), "type"@);
    member_of_replaced(typed, "threadId"@, Tree::Str(run.thread_id@), key);
    member_of_replaced(typed, "threadId"@, Tree::Str(run.thread_id@), "type"@);
    member_of_replaced(typed, "threadId"@, Tree::Str(run.thread_id@), "threadId"@);
    member_of_replaced(threaded, "scope"@, run.scope@, key);
    member_of_replaced(threaded, "scope"@, run.scope@, "type"@);
    member_of_replaced(threaded, "scope"@, run.scope@, "threadId"@);
    member_of_replaced(threaded, "scope"@, run.scope@, "scope"@);
}

/// An event of a run is of its thread, project and run at its time, and says what happened: a start
/// names the conversation, an error also what went wrong, an end how it ended and why, and a report
/// what was reported.
#[verifier::rlimit(50)]
pub proof fn appended_events_say_what_happened(
    append: RunAppend,
    run: RunEvent,
    key: Seq<char>,
)
    requires
        call_ensures(run_event, (append,), run),
    ensures
        run.thread_id@ == append.thread_id@,
        run.project_id@ == append.project_id@,
        run.run_id@ == append.run_id@,
        run.at_ms == append.at_ms,
        member(run.value@, "type"@) == Some(Tree::Str(run.kind@)),
        member(run.value@, "threadId"@) == Some(Tree::Str(append.thread_id@)),
        member(run.value@, "scope"@) == Some(run.scope@),
        append.body matches RunBody::Started { provider_thread_id } ==> run.kind@ == "turn/started"@ && run.outcome is None && member(run.value@, "providerThreadId"@) == Some(Tree::Str(provider_thread_id@)),
        append.body matches RunBody::ProviderError { provider_thread_id, message } ==> run.kind@ == "provider/error"@ && run.outcome is None && member(run.value@, "providerThreadId"@) == Some(Tree::Str(provider_thread_id@)) && member(run.value@, "message"@) == Some(Tree::Str(message@)),
        append.body matches RunBody::Terminal { outcome, status, error } ==> run.kind@ == "turn/completed"@ && run.outcome == Some(outcome) && member(run.value@, "status"@) == Some(Tree::Str(status.spec_as_str())) && (error is None ==> member(run.value@, "error"@) is None) && (error is Some ==> (member(run.value@, "error"@) matches Some(told) && member(told, "message"@) == Some(Tree::Str(error->0@)))),
        append.body matches RunBody::Reported(event) ==> run.kind@ == event.kind@ && run.outcome == event.outcome && (event.body@ is Object && key != "type"@ && key != "threadId"@ && key != "scope"@ ==> member(run.value@, key) == member(event.body@, key)),
        (append.body matches RunBody::Reported(event) && event.thread_scoped) ==> member(run.scope@, "kind"@) == Some(Tree::Str("thread"@)),
        !(append.body matches RunBody::Reported(event) && event.thread_scoped) ==> member(run.scope@, "kind"@) == Some(Tree::Str("turn"@)) && member(run.scope@, "turnId"@) == Some(Tree::Str(append.run_id@)),
{
    broadcast use {crate::json::member_of_field, crate::reply::errors_say_what_is_wrong};

    reveal_strlit("kind");
    reveal_strlit("type");
    reveal_strlit("error");
    reveal_strlit("scope");
    reveal_strlit("status");
    reveal_strlit("turnId");
    reveal_strlit("message");
    reveal_strlit("threadId");
    reveal_strlit("providerThreadId");
    assert("kind"@.len() == 4 && "kind"@[0] == 'k');
    assert("type"@.len() == 4 && "type"@[0] == 't');
    assert("error"@.len() == 5 && "error"@[0] == 'e');
    assert("scope"@.len() == 5 && "scope"@[0] == 's');
    assert("status"@.len() == 6 && "status"@[0] == 's');
    assert("turnId"@.len() == 6 && "turnId"@[0] == 't');
    assert("message"@.len() == 7);
    assert("threadId"@.len() == 8);
    assert("providerThreadId"@.len() == 16);
    let kind = appended_kind(append.body);
    let scoped = belongs_to_thread(append.body);
    let body = appended_body(append.body);
    let outcome = appended_outcome(append.body);
    envelopes_show_their_body(run, kind, scoped, body, outcome, key);
    envelopes_show_their_body(run, kind, scoped, body, outcome, "providerThreadId"@);
    envelopes_show_their_body(run, kind, scoped, body, outcome, "message"@);
    envelopes_show_their_body(run, kind, scoped, body, outcome, "status"@);
    envelopes_show_their_body(run, kind, scoped, body, outcome, "error"@);
    if append.body is Started {
        let said = object().field(
            "providerThreadId"@,
            Tree::Str(append.body->Started_provider_thread_id@),
        );
        assert(body == said->Object_0);
        assert(member(said, "providerThreadId"@) == lookup(body, "providerThreadId"@));
    }
    if append.body is ProviderError {
        let said = object().field(
            "providerThreadId"@,
            Tree::Str(append.body->ProviderError_provider_thread_id@),
        ).field("message"@, Tree::Str(append.body->message@));
        assert(body == said->Object_0);
        assert(member(said, "providerThreadId"@) == lookup(body, "providerThreadId"@));
        assert(member(said, "message"@) == lookup(body, "message"@));
    }
    if append.body is Terminal {
        let said = object().field("status"@, Tree::Str(append.body->status.spec_as_str())).field_if(
            "error"@,
            error_tree(append.body->error),
        );
        assert(body == said->Object_0);
        assert(member(said, "status"@) == lookup(body, "status"@));
        assert(member(said, "error"@) == lookup(body, "error"@));
    }
    if append.body is Reported && append.body->Reported_0.body@ is Object && key != "threadId"@
        && key != "scope"@ {
        let fields = append.body->Reported_0.body@->Object_0;
        lookup_without(fields, "threadId"@, key);
        lookup_without(without(fields, "threadId"@), "scope"@, key);
    }
}

/// That a goal was cleared is told of its thread, under the run that it was cleared in.
pub proof fn cleared_goals_are_told(cleared: GoalCleared, run: RunEvent)
    requires
        call_ensures(goal_cleared_event, (cleared,), run),
    ensures
        run.thread_id@ == cleared.thread_id@,
        run.project_id@ == cleared.project_id@,
        run.run_id@ == cleared.run_id@,
        run.at_ms == cleared.at_ms,
        run.kind@ == "thread/goal/cleared"@,
        run.outcome is None,
        member(run.scope@, "kind"@) == Some(Tree::Str("thread"@)),
        member(run.value@, "providerThreadId"@) == Some(Tree::Str(cleared.provider_thread_id@)),
        member(run.value@, "type"@) == Some(Tree::Str("thread/goal/cleared"@)),
{
    broadcast use {crate::json::member_of_field, crate::reply::errors_say_what_is_wrong};

    reveal_strlit("kind");
    reveal_strlit("type");
    reveal_strlit("scope");
    reveal_strlit("turnId");
    reveal_strlit("threadId");
    reveal_strlit("providerThreadId");
    assert("kind"@.len() == 4 && "kind"@[0] == 'k');
    assert("type"@.len() == 4 && "type"@[0] == 't');
    assert("scope"@.len() == 5);
    assert("turnId"@.len() == 6);
    assert("threadId"@.len() == 8);
    assert("providerThreadId"@.len() == 16);
    let said = object().field("providerThreadId"@, Tree::Str(cleared.provider_thread_id@));
    envelopes_show_their_body(
        run,
        "thread/goal/cleared"@,
        true,
        said->Object_0,
        None,
        "providerThreadId"@,
    );
    assert(member(said, "providerThreadId"@) == lookup(said->Object_0, "providerThreadId"@));
}

/// An event is written with its type and everything that it says.
#[verifier::rlimit(100)]
pub proof fn events_are_written_whole(event: DomainEvent, value: Json)
    requires
        call_ensures(event_json, (&event,), value),
    ensures
        event matches DomainEvent::ProjectCreated { project_id } ==> member(value@, "type"@) == Some(Tree::Str("project_created"@)) && member(value@, "project_id"@) == Some(Tree::Str(project_id@)),
        event matches DomainEvent::ProjectUpdated { project_id, deleted_at_ms } ==> member(value@, "type"@) == Some(Tree::Str("project_updated"@)) && member(value@, "project_id"@) == Some(Tree::Str(project_id@)) && member(value@, "deleted_at_ms"@) == Some(opt_uint_tree(deleted_at_ms)),
        event matches DomainEvent::ThreadCreated { thread_id, project_id } ==> member(value@, "type"@) == Some(Tree::Str("thread_created"@)) && member(value@, "thread_id"@) == Some(Tree::Str(thread_id@)) && member(value@, "project_id"@) == Some(Tree::Str(project_id@)),
        event matches DomainEvent::ThreadStatusChanged { thread_id, project_id, from, to, at_ms } ==> member(value@, "type"@) == Some(Tree::Str("thread_status_changed"@)) && member(value@, "thread_id"@) == Some(Tree::Str(thread_id@)) && member(value@, "project_id"@) == Some(Tree::Str(project_id@)) && member(value@, "at_ms"@) == Some(Tree::UInt(at_ms)) && (from == ThreadStatus::Idle ==> member(value@, "from"@) == Some(Tree::Str("idle"@))) && (from == ThreadStatus::Working ==> member(value@, "from"@) == Some(Tree::Str("working"@))) && (from == ThreadStatus::Waiting ==> member(value@, "from"@) == Some(Tree::Str("waiting"@))) && (from == ThreadStatus::Error ==> member(value@, "from"@) == Some(Tree::Str("error"@))) && (from == ThreadStatus::Archived ==> member(value@, "from"@) == Some(Tree::Str("archived"@))) && (to == ThreadStatus::Idle ==> member(value@, "to"@) == Some(Tree::Str("idle"@))) && (to == ThreadStatus::Working ==> member(value@, "to"@) == Some(Tree::Str("working"@))) && (to == ThreadStatus::Waiting ==> member(value@, "to"@) == Some(Tree::Str("waiting"@))) && (to == ThreadStatus::Error ==> member(value@, "to"@) == Some(Tree::Str("error"@))) && (to == ThreadStatus::Archived ==> member(value@, "to"@) == Some(Tree::Str("archived"@))),
        event matches DomainEvent::ThreadMessageAdded { thread_id, message } ==> member(value@, "type"@) == Some(Tree::Str("thread_message_added"@)) && member(value@, "thread_id"@) == Some(Tree::Str(thread_id@)) && (member(value@, "message"@) matches Some(told) && member(told, "id"@) == Some(Tree::Str(message.id@)) && member(told, "content"@) == Some(Tree::Str(message.content@)) && member(told, "created_at_ms"@) == Some(Tree::UInt(message.created_at_ms)) && member(told, "project_id"@) == Some(opt_tree(opt_view(message.project_id))) && (message.role == MessageRole::User ==> member(told, "role"@) == Some(Tree::Str("user"@))) && (message.role == MessageRole::Assistant ==> member(told, "role"@) == Some(Tree::Str("assistant"@))) && (message.role == MessageRole::System ==> member(told, "role"@) == Some(Tree::Str("system"@)))),
        event matches DomainEvent::ThreadUpdated { thread_id, project_id, deleted_at_ms } ==> member(value@, "type"@) == Some(Tree::Str("thread_updated"@)) && member(value@, "thread_id"@) == Some(Tree::Str(thread_id@)) && member(value@, "project_id"@) == Some(Tree::Str(project_id@)) && member(value@, "deleted_at_ms"@) == Some(opt_uint_tree(deleted_at_ms)),
        event matches DomainEvent::ThreadRunEvent { run } ==> member(value@, "type"@) == Some(Tree::Str("thread_run_event"@)) && member(value@, "thread_id"@) == Some(Tree::Str(run.thread_id@)) && member(value@, "project_id"@) == Some(Tree::Str(run.project_id@)) && member(value@, "run_id"@) == Some(Tree::Str(run.run_id@)) && member(value@, "at_ms"@) == Some(Tree::UInt(run.at_ms)) && member(value@, "event"@) == Some(run.value@) && (run.outcome is None ==> member(value@, "outcome"@) == Some(Tree::Null)) && (run.outcome is Some ==> member(value@, "outcome"@) == Some(Tree::Str(run.outcome->0.spec_as_str()))),
        event matches DomainEvent::ThreadQueuedMessageChanged { thread_id, project_id } ==> member(value@, "type"@) == Some(Tree::Str("thread_queued_message_changed"@)) && member(value@, "thread_id"@) == Some(Tree::Str(thread_id@)) && member(value@, "project_id"@) == Some(opt_tree(opt_view(project_id))),
        event matches DomainEvent::ThreadInteractionChanged { thread_id, project_id, open } ==> member(value@, "type"@) == Some(Tree::Str("thread_interaction_changed"@)) && member(value@, "thread_id"@) == Some(Tree::Str(thread_id@)) && member(value@, "project_id"@) == Some(opt_tree(opt_view(project_id))) && member(value@, "open"@) == Some(Tree::Bool(open)),
        event matches DomainEvent::HostRegistered { host_id, status } ==> member(value@, "type"@) == Some(Tree::Str("host_registered"@)) && member(value@, "host_id"@) == Some(Tree::Str(host_id@)) && member(value@, "connected"@) == Some(Tree::Bool(status == HostStatus::Connected)),
        event matches DomainEvent::HostUpdated { host_id, status } ==> member(value@, "type"@) == Some(Tree::Str("host_updated"@)) && member(value@, "host_id"@) == Some(Tree::Str(host_id@)) && member(value@, "connected"@) == Some(Tree::Bool(status == HostStatus::Connected)),
        event matches DomainEvent::HostStatusChanged { host_id, to } ==> member(value@, "type"@) == Some(Tree::Str("host_status_changed"@)) && member(value@, "host_id"@) == Some(Tree::Str(host_id@)) && member(value@, "connected"@) == Some(Tree::Bool(to == HostStatus::Connected)),
        event matches DomainEvent::HostDeleted { host_id } ==> member(value@, "type"@) == Some(Tree::Str("host_deleted"@)) && member(value@, "host_id"@) == Some(Tree::Str(host_id@)),
        event matches DomainEvent::EnvironmentCreated { environment_id } ==> member(value@, "type"@) == Some(Tree::Str("environment_created"@)) && member(value@, "environment_id"@) == Some(Tree::Str(environment_id@)),
        event matches DomainEvent::EnvironmentUpdated { environment_id } ==> member(value@, "type"@) == Some(Tree::Str("environment_updated"@)) && member(value@, "environment_id"@) == Some(Tree::Str(environment_id@)),
        event matches DomainEvent::EnvironmentStatusChanged { environment_id, to } ==> member(value@, "type"@) == Some(Tree::Str("environment_status_changed"@)) && member(value@, "environment_id"@) == Some(Tree::Str(environment_id@)) && member(value@, "to"@) == Some(Tree::Str(to@)),
        event is ThreadSectionCreated ==> member(value@, "type"@) == Some(Tree::Str("thread_section_created"@)),
        event is ThreadSectionUpdated ==> member(value@, "type"@) == Some(Tree::Str("thread_section_updated"@)),
        event is ThreadSectionDeleted ==> member(value@, "type"@) == Some(Tree::Str("thread_section_deleted"@)),
{
    broadcast use {crate::json::member_of_field, crate::reply::errors_say_what_is_wrong};

    reveal_strlit("id");
    reveal_strlit("to");
    reveal_strlit("from");
    reveal_strlit("open");
    reveal_strlit("role");
    reveal_strlit("type");
    reveal_strlit("at_ms");
    reveal_strlit("event");
    reveal_strlit("run_id");
    reveal_strlit("content");
    reveal_strlit("host_id");
    reveal_strlit("message");
    reveal_strlit("outcome");
    reveal_strlit("connected");
    reveal_strlit("thread_id");
    reveal_strlit("project_id");
    reveal_strlit("created_at_ms");
    reveal_strlit("deleted_at_ms");
    reveal_strlit("environment_id");
    assert("id"@.len() == 2 && "id"@[0] == 'i');
    assert("to"@.len() == 2 && "to"@[0] == 't');
    assert("from"@.len() == 4 && "from"@[0] == 'f');
    assert("open"@.len() == 4 && "open"@[0] == 'o');
    assert("role"@.len() == 4 && "role"@[0] == 'r');
    assert("type"@.len() == 4 && "type"@[0] == 't');
    assert("at_ms"@.len() == 5 && "at_ms"@[0] == 'a');
    assert("event"@.len() == 5 && "event"@[0] == 'e');
    assert("run_id"@.len() == 6);
    assert("content"@.len() == 7 && "content"@[0] == 'c');
    assert("host_id"@.len() == 7 && "host_id"@[0] == 'h');
    assert("message"@.len() == 7 && "message"@[0] == 'm');
    assert("outcome"@.len() == 7 && "outcome"@[0] == 'o');
    assert("connected"@.len() == 9 && "connected"@[0] == 'c');
    assert("thread_id"@.len() == 9 && "thread_id"@[0] == 't');
    assert("project_id"@.len() == 10);
    assert("created_at_ms"@.len() == 13 && "created_at_ms"@[0] == 'c');
    assert("deleted_at_ms"@.len() == 13 && "deleted_at_ms"@[0] == 'd');
    assert("environment_id"@.len() == 14);
}

/// An event that is read is of the type that it says, and says what its members say.
#[verifier::rlimit(100)]
pub proof fn events_are_read_as_they_say(
    value: Json,
    known: Vec<String>,
    answer: Option<DomainEvent>,
)
    requires
        call_ensures(event_of, (&value, &known), answer),
    ensures
        answer matches Some(DomainEvent::ProjectCreated { project_id }) ==> member(value@, "type"@) == Some(Tree::Str("project_created"@)) && member(value@, "project_id"@) == Some(Tree::Str(project_id@)),
        answer matches Some(DomainEvent::ProjectUpdated { project_id, deleted_at_ms }) ==> member(value@, "type"@) == Some(Tree::Str("project_updated"@)) && member(value@, "project_id"@) == Some(Tree::Str(project_id@)) && ((member(value@, "deleted_at_ms"@) is None || member(value@, "deleted_at_ms"@) == Some(Tree::Null)) ==> deleted_at_ms is None) && (deleted_at_ms is Some ==> member(value@, "deleted_at_ms"@) == Some(Tree::UInt(deleted_at_ms->0))),
        answer matches Some(DomainEvent::ThreadCreated { thread_id, project_id }) ==> member(value@, "type"@) == Some(Tree::Str("thread_created"@)) && member(value@, "thread_id"@) == Some(Tree::Str(thread_id@)) && member(value@, "project_id"@) == Some(Tree::Str(project_id@)),
        answer matches Some(DomainEvent::ThreadStatusChanged { thread_id, project_id, from, to, at_ms }) ==> member(value@, "type"@) == Some(Tree::Str("thread_status_changed"@)) && member(value@, "thread_id"@) == Some(Tree::Str(thread_id@)) && member(value@, "project_id"@) == Some(Tree::Str(project_id@)) && member(value@, "at_ms"@) == Some(Tree::UInt(at_ms)) && (member(value@, "from"@) == Some(Tree::Str("idle"@)) ==> from == ThreadStatus::Idle) && (member(value@, "from"@) == Some(Tree::Str("working"@)) ==> from == ThreadStatus::Working) && (member(value@, "from"@) == Some(Tree::Str("waiting"@)) ==> from == ThreadStatus::Waiting) && (member(value@, "from"@) == Some(Tree::Str("error"@)) ==> from == ThreadStatus::Error) && (member(value@, "from"@) == Some(Tree::Str("archived"@)) ==> from == ThreadStatus::Archived) && (member(value@, "to"@) == Some(Tree::Str("idle"@)) ==> to == ThreadStatus::Idle) && (member(value@, "to"@) == Some(Tree::Str("working"@)) ==> to == ThreadStatus::Working) && (member(value@, "to"@) == Some(Tree::Str("waiting"@)) ==> to == ThreadStatus::Waiting) && (member(value@, "to"@) == Some(Tree::Str("error"@)) ==> to == ThreadStatus::Error) && (member(value@, "to"@) == Some(Tree::Str("archived"@)) ==> to == ThreadStatus::Archived),
        answer matches Some(DomainEvent::ThreadMessageAdded { thread_id, message }) ==> member(value@, "type"@) == Some(Tree::Str("thread_message_added"@)) && member(value@, "thread_id"@) == Some(Tree::Str(thread_id@)) && (member(value@, "message"@) matches Some(told) && member(told, "id"@) == Some(Tree::Str(message.id@)) && member(told, "content"@) == Some(Tree::Str(message.content@)) && member(told, "created_at_ms"@) == Some(Tree::UInt(message.created_at_ms)) && (member(told, "role"@) == Some(Tree::Str("user"@)) ==> message.role == MessageRole::User) && (member(told, "role"@) == Some(Tree::Str("assistant"@)) ==> message.role == MessageRole::Assistant) && (member(told, "role"@) == Some(Tree::Str("system"@)) ==> message.role == MessageRole::System)),
        answer matches Some(DomainEvent::ThreadUpdated { thread_id, project_id, deleted_at_ms }) ==> member(value@, "type"@) == Some(Tree::Str("thread_updated"@)) && member(value@, "thread_id"@) == Some(Tree::Str(thread_id@)) && member(value@, "project_id"@) == Some(Tree::Str(project_id@)) && ((member(value@, "deleted_at_ms"@) is None || member(value@, "deleted_at_ms"@) == Some(Tree::Null)) ==> deleted_at_ms is None) && (deleted_at_ms is Some ==> member(value@, "deleted_at_ms"@) == Some(Tree::UInt(deleted_at_ms->0))),
        answer matches Some(DomainEvent::ThreadRunEvent { run }) ==> member(value@, "type"@) == Some(Tree::Str("thread_run_event"@)) && member(value@, "thread_id"@) == Some(Tree::Str(run.thread_id@)) && member(value@, "project_id"@) == Some(Tree::Str(run.project_id@)) && member(value@, "run_id"@) == Some(Tree::Str(run.run_id@)) && member(value@, "at_ms"@) == Some(Tree::UInt(run.at_ms)) && member(value@, "event"@) == Some(run.value@) && member(run.value@, "type"@) == Some(Tree::Str(run.kind@)) && texts(known@).contains(run.kind@) && member(run.value@, "scope"@) == Some(run.scope@),
        answer matches Some(DomainEvent::ThreadQueuedMessageChanged { thread_id, project_id }) ==> member(value@, "type"@) == Some(Tree::Str("thread_queued_message_changed"@)) && member(value@, "thread_id"@) == Some(Tree::Str(thread_id@)) && ((member(value@, "project_id"@) is None || member(value@, "project_id"@) == Some(Tree::Null)) ==> project_id is None) && (project_id is Some ==> member(value@, "project_id"@) == Some(Tree::Str(project_id->0@))),
        answer matches Some(DomainEvent::ThreadInteractionChanged { thread_id, project_id, open }) ==> member(value@, "type"@) == Some(Tree::Str("thread_interaction_changed"@)) && member(value@, "thread_id"@) == Some(Tree::Str(thread_id@)) && member(value@, "open"@) == Some(Tree::Bool(open)) && ((member(value@, "project_id"@) is None || member(value@, "project_id"@) == Some(Tree::Null)) ==> project_id is None) && (project_id is Some ==> member(value@, "project_id"@) == Some(Tree::Str(project_id->0@))),
        answer matches Some(DomainEvent::HostRegistered { host_id, status }) ==> member(value@, "type"@) == Some(Tree::Str("host_registered"@)) && member(value@, "host_id"@) == Some(Tree::Str(host_id@)) && member(value@, "connected"@) == Some(Tree::Bool(status == HostStatus::Connected)),
        answer matches Some(DomainEvent::HostUpdated { host_id, status }) ==> member(value@, "type"@) == Some(Tree::Str("host_updated"@)) && member(value@, "host_id"@) == Some(Tree::Str(host_id@)) && member(value@, "connected"@) == Some(Tree::Bool(status == HostStatus::Connected)),
        answer matches Some(DomainEvent::HostStatusChanged { host_id, to }) ==> member(value@, "type"@) == Some(Tree::Str("host_status_changed"@)) && member(value@, "host_id"@) == Some(Tree::Str(host_id@)) && member(value@, "connected"@) == Some(Tree::Bool(to == HostStatus::Connected)),
        answer matches Some(DomainEvent::HostDeleted { host_id }) ==> member(value@, "type"@) == Some(Tree::Str("host_deleted"@)) && member(value@, "host_id"@) == Some(Tree::Str(host_id@)),
        answer matches Some(DomainEvent::EnvironmentCreated { environment_id }) ==> member(value@, "type"@) == Some(Tree::Str("environment_created"@)) && member(value@, "environment_id"@) == Some(Tree::Str(environment_id@)),
        answer matches Some(DomainEvent::EnvironmentUpdated { environment_id }) ==> member(value@, "type"@) == Some(Tree::Str("environment_updated"@)) && member(value@, "environment_id"@) == Some(Tree::Str(environment_id@)),
        answer matches Some(DomainEvent::EnvironmentStatusChanged { environment_id, to }) ==> member(value@, "type"@) == Some(Tree::Str("environment_status_changed"@)) && member(value@, "environment_id"@) == Some(Tree::Str(environment_id@)) && member(value@, "to"@) == Some(Tree::Str(to@)),
        (answer is Some && answer->0 is ThreadSectionCreated) ==> member(value@, "type"@) == Some(Tree::Str("thread_section_created"@)),
        (answer is Some && answer->0 is ThreadSectionUpdated) ==> member(value@, "type"@) == Some(Tree::Str("thread_section_updated"@)),
        (answer is Some && answer->0 is ThreadSectionDeleted) ==> member(value@, "type"@) == Some(Tree::Str("thread_section_deleted"@)),
{
    reveal_strlit("idle");
    reveal_strlit("user");
    reveal_strlit("error");
    reveal_strlit("system");
    reveal_strlit("waiting");
    reveal_strlit("working");
    reveal_strlit("archived");
    reveal_strlit("assistant");
    assert("idle"@.len() == 4 && "idle"@[0] == 'i');
    assert("user"@.len() == 4 && "user"@[0] == 'u');
    assert("error"@.len() == 5);
    assert("system"@.len() == 6);
    assert("waiting"@.len() == 7 && "waiting"@[1] == 'a');
    assert("working"@.len() == 7 && "working"@[1] == 'o');
    assert("archived"@.len() == 8);
    assert("assistant"@.len() == 9);
    reveal_strlit("host_deleted");
    reveal_strlit("host_updated");
    reveal_strlit("thread_created");
    reveal_strlit("thread_updated");
    reveal_strlit("host_registered");
    reveal_strlit("project_created");
    reveal_strlit("project_updated");
    reveal_strlit("thread_run_event");
    reveal_strlit("environment_created");
    reveal_strlit("environment_updated");
    reveal_strlit("host_status_changed");
    reveal_strlit("thread_message_added");
    reveal_strlit("thread_status_changed");
    reveal_strlit("thread_section_created");
    reveal_strlit("thread_section_deleted");
    reveal_strlit("thread_section_updated");
    reveal_strlit("environment_status_changed");
    reveal_strlit("thread_interaction_changed");
    reveal_strlit("thread_queued_message_changed");
    assert("host_deleted"@.len() == 12 && "host_deleted"@[5] == 'd');
    assert("host_updated"@.len() == 12 && "host_updated"@[5] == 'u');
    assert("thread_created"@.len() == 14 && "thread_created"@[7] == 'c');
    assert("thread_updated"@.len() == 14 && "thread_updated"@[7] == 'u');
    assert("host_registered"@.len() == 15 && "host_registered"@[8] == 'i');
    assert("project_created"@.len() == 15 && "project_created"@[8] == 'c');
    assert("project_updated"@.len() == 15 && "project_updated"@[8] == 'u');
    assert("thread_run_event"@.len() == 16);
    assert("environment_created"@.len() == 19 && "environment_created"@[13] == 'r');
    assert("environment_updated"@.len() == 19 && "environment_updated"@[13] == 'p');
    assert("host_status_changed"@.len() == 19 && "host_status_changed"@[13] == 'h');
    assert("thread_message_added"@.len() == 20);
    assert("thread_status_changed"@.len() == 21);
    assert("thread_section_created"@.len() == 22 && "thread_section_created"@[15] == 'c');
    assert("thread_section_deleted"@.len() == 22 && "thread_section_deleted"@[15] == 'd');
    assert("thread_section_updated"@.len() == 22 && "thread_section_updated"@[15] == 'u');
    assert("environment_status_changed"@.len() == 26 && "environment_status_changed"@[0] == 'e');
    assert("thread_interaction_changed"@.len() == 26 && "thread_interaction_changed"@[0] == 't');
    assert("thread_queued_message_changed"@.len() == 29);
    if answer is Some {
        kinds_read_back(kind_in(answer->0));
    }
}

/// What has no type, or none that is known, is not read.
#[verifier::rlimit(60)]
pub proof fn what_cannot_be_read_is_left(
    value: Json,
    known: Vec<String>,
    answer: Option<DomainEvent>,
)
    requires
        call_ensures(event_of, (&value, &known), answer),
    ensures
        !(member(value@, "type"@) matches Some(Tree::Str(_))) ==> answer is None,
        ((member(value@, "type"@) matches Some(Tree::Str(_))) && member(value@, "type"@) != Some(Tree::Str("project_created"@)) && member(value@, "type"@) != Some(Tree::Str("project_updated"@)) && member(value@, "type"@) != Some(Tree::Str("thread_created"@)) && member(value@, "type"@) != Some(Tree::Str("thread_status_changed"@)) && member(value@, "type"@) != Some(Tree::Str("thread_message_added"@)) && member(value@, "type"@) != Some(Tree::Str("thread_updated"@)) && member(value@, "type"@) != Some(Tree::Str("thread_run_event"@)) && member(value@, "type"@) != Some(Tree::Str("thread_queued_message_changed"@)) && member(value@, "type"@) != Some(Tree::Str("thread_interaction_changed"@)) && member(value@, "type"@) != Some(Tree::Str("host_registered"@)) && member(value@, "type"@) != Some(Tree::Str("host_updated"@)) && member(value@, "type"@) != Some(Tree::Str("host_status_changed"@)) && member(value@, "type"@) != Some(Tree::Str("host_deleted"@)) && member(value@, "type"@) != Some(Tree::Str("environment_created"@)) && member(value@, "type"@) != Some(Tree::Str("environment_updated"@)) && member(value@, "type"@) != Some(Tree::Str("environment_status_changed"@)) && member(value@, "type"@) != Some(Tree::Str("thread_section_created"@)) && member(value@, "type"@) != Some(Tree::Str("thread_section_updated"@)) && member(value@, "type"@) != Some(Tree::Str("thread_section_deleted"@))) ==> answer is None,
        member(value@, "type"@) == Some(Tree::Str("project_created"@)) && (member(value@, "project_id"@) matches Some(Tree::Str(_))) ==> answer is Some,
        member(value@, "type"@) == Some(Tree::Str("thread_created"@)) && (member(value@, "project_id"@) matches Some(Tree::Str(_))) && (member(value@, "thread_id"@) matches Some(Tree::Str(_))) ==> answer is Some,
        member(value@, "type"@) == Some(Tree::Str("host_deleted"@)) && (member(value@, "host_id"@) matches Some(Tree::Str(_))) ==> answer is Some,
        member(value@, "type"@) == Some(Tree::Str("thread_section_created"@)) ==> answer is Some,
{
    reveal_strlit("host_deleted");
    reveal_strlit("host_updated");
    reveal_strlit("thread_created");
    reveal_strlit("thread_updated");
    reveal_strlit("host_registered");
    reveal_strlit("project_created");
    reveal_strlit("project_updated");
    reveal_strlit("thread_run_event");
    reveal_strlit("environment_created");
    reveal_strlit("environment_updated");
    reveal_strlit("host_status_changed");
    reveal_strlit("thread_message_added");
    reveal_strlit("thread_status_changed");
    reveal_strlit("thread_section_created");
    reveal_strlit("thread_section_deleted");
    reveal_strlit("thread_section_updated");
    reveal_strlit("environment_status_changed");
    reveal_strlit("thread_interaction_changed");
    reveal_strlit("thread_queued_message_changed");
    assert("host_deleted"@.len() == 12 && "host_deleted"@[5] == 'd');
    assert("host_updated"@.len() == 12 && "host_updated"@[5] == 'u');
    assert("thread_created"@.len() == 14 && "thread_created"@[7] == 'c');
    assert("thread_updated"@.len() == 14 && "thread_updated"@[7] == 'u');
    assert("host_registered"@.len() == 15 && "host_registered"@[8] == 'i');
    assert("project_created"@.len() == 15 && "project_created"@[8] == 'c');
    assert("project_updated"@.len() == 15 && "project_updated"@[8] == 'u');
    assert("thread_run_event"@.len() == 16);
    assert("environment_created"@.len() == 19 && "environment_created"@[13] == 'r');
    assert("environment_updated"@.len() == 19 && "environment_updated"@[13] == 'p');
    assert("host_status_changed"@.len() == 19 && "host_status_changed"@[13] == 'h');
    assert("thread_message_added"@.len() == 20);
    assert("thread_status_changed"@.len() == 21);
    assert("thread_section_created"@.len() == 22 && "thread_section_created"@[15] == 'c');
    assert("thread_section_deleted"@.len() == 22 && "thread_section_deleted"@[15] == 'd');
    assert("thread_section_updated"@.len() == 22 && "thread_section_updated"@[15] == 'u');
    assert("environment_status_changed"@.len() == 26 && "environment_status_changed"@[0] == 'e');
    assert("thread_interaction_changed"@.len() == 26 && "thread_interaction_changed"@[0] == 't');
    assert("thread_queued_message_changed"@.len() == 29);
}

/// What a stored frame holds goes out as the event it is, else as the message that its payload or
/// the frame itself is, else as nothing.
pub proof fn frames_hold_an_event_or_a_message(
    reading: FrameReading,
    inner: Option<ServerMessage>,
    direct: Option<ServerMessage>,
    content: FrameContent,
)
    requires
        call_ensures(frame_content, (reading, inner, direct), content),
    ensures
        reading matches FrameReading::Event(event) ==> content == FrameContent::Event(event),
        reading is Payload && inner is Some ==> content == FrameContent::Message(inner->0),
        reading is Payload && inner is None ==> content is Nothing,
        reading is Other && direct is Some ==> content == FrameContent::Message(direct->0),
        reading is Other && direct is None ==> content is Nothing,
{
}

/// A frame is read where it is JSON and says that it carries an event, with its id, its scope, its
/// time and its payload. What the payload says is the event, where it can be read as one, and else
/// the payload's text.
pub proof fn frames_are_read_by_what_they_carry(
    frame: &[u8],
    known: Vec<String>,
    reading: FrameReading,
)
    requires
        call_ensures(read_frame, (frame, &known), reading),
    ensures
        json_parse(frame@) is None ==> reading is Other,
        json_parse(frame@) is Some && member(json_parse(frame@)->0, "type"@) != Some(Tree::Str("event"@)) ==> reading is Other,
        json_parse(frame@) is Some && !(member(json_parse(frame@)->0, "payload"@) matches Some(Tree::Str(_))) ==> reading is Other,
        reading matches FrameReading::Payload(said) ==> json_parse(frame@) is Some && member(json_parse(frame@)->0, "payload"@) == Some(Tree::Str(said@)),
        reading is Event ==> json_parse(frame@) is Some && (member(json_parse(frame@)->0, "payload"@) matches Some(Tree::Str(said)) && json_parse(encode_utf8(said)) is Some),
{
}

// What the words of an event mean.

/// A word says a status or a role exactly where it is its word: the words for a thread's status are
/// idle, working, waiting, error and archived, those for who wrote a message are user, assistant
/// and system.
pub proof fn words_of_events_say_what_they_mean(word: Seq<char>, role: MessageRole)
    ensures
        word_status(word) == Some(ThreadStatus::Idle) <==> word == "idle"@,
        word_status(word) == Some(ThreadStatus::Working) <==> word == "working"@,
        word_status(word) == Some(ThreadStatus::Waiting) <==> word == "waiting"@,
        word_status(word) == Some(ThreadStatus::Error) <==> word == "error"@,
        word_status(word) == Some(ThreadStatus::Archived) <==> word == "archived"@,
        word_role(word) == Some(MessageRole::User) <==> word == "user"@,
        word_role(word) == Some(MessageRole::Assistant) <==> word == "assistant"@,
        word_role(word) == Some(MessageRole::System) <==> word == "system"@,
        role is User ==> role_word(role) == "user"@,
        role is Assistant ==> role_word(role) == "assistant"@,
        role is System ==> role_word(role) == "system"@,
{
    reveal_strlit("idle");
    reveal_strlit("user");
    reveal_strlit("error");
    reveal_strlit("system");
    reveal_strlit("waiting");
    reveal_strlit("working");
    reveal_strlit("archived");
    reveal_strlit("assistant");
    assert("idle"@.len() == 4 && "idle"@[0] == 'i');
    assert("user"@.len() == 4 && "user"@[0] == 'u');
    assert("error"@.len() == 5);
    assert("system"@.len() == 6);
    assert("waiting"@.len() == 7 && "waiting"@[1] == 'a');
    assert("working"@.len() == 7 && "working"@[1] == 'o');
    assert("archived"@.len() == 8);
    assert("assistant"@.len() == 9);
}

} // verus!
