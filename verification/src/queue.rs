//! Queued messages: what a queue shows, and when a stored prompt becomes a turn.

use vstd::prelude::*;

use crate::domain::{ProviderSpec, ThreadStatus};
use crate::json::{member, object, opt_tree, opt_uint_tree, trees, Fields, Json, Tree};
use crate::providers::{
    configured_provider_id, default_provider, DEFAULT_PERMISSION_MODE, DEFAULT_REASONING_LEVEL,
};
use crate::reply::{
    coded_error, debug_quoted, error_response, error_response_with_code, ok, ok_view, parsed,
    plain_error, quoted, refuses, Reply, ReplyView,
};
use crate::text::{blank, is_blank, joined3, opt_view, same_text};
use crate::timeline::{empty_array, member_text, text_member};

verus! {

/// How fast a turn is served.
#[derive(Clone, Copy, Debug, PartialEq, Eq, Structural)]
pub enum ServiceTier {
    /// As usual.
    Default,
    /// Fast.
    Fast,
}

impl ServiceTier {
    /// The wire word.
    pub open spec fn spec_as_str(self) -> Seq<char> {
        match self {
            ServiceTier::Default => "default"@,
            ServiceTier::Fast => "fast"@,
        }
    }

    /// The wire word.
    pub fn as_str(self) -> (result: &'static str)
        ensures
            result@ == self.spec_as_str(),
    {
        match self {
            ServiceTier::Default => "default",
            ServiceTier::Fast => "fast",
        }
    }
}

/// Where a queued message is in its life.
#[derive(Clone, Copy, Debug, PartialEq, Eq, Structural)]
pub enum QueuedMessageStatus {
    /// It waits.
    Queued,
    /// It became a turn.
    Sent,
    /// It was taken back.
    Cancelled,
}

impl QueuedMessageStatus {
    /// The wire word.
    pub open spec fn spec_as_str(self) -> Seq<char> {
        match self {
            QueuedMessageStatus::Queued => "queued"@,
            QueuedMessageStatus::Sent => "sent"@,
            QueuedMessageStatus::Cancelled => "cancelled"@,
        }
    }

    /// The wire word.
    pub fn as_str(self) -> (result: &'static str)
        ensures
            result@ == self.spec_as_str(),
    {
        match self {
            QueuedMessageStatus::Queued => "queued",
            QueuedMessageStatus::Sent => "sent",
            QueuedMessageStatus::Cancelled => "cancelled",
        }
    }

    /// Whether a client can still change the message.
    pub fn is_open(self) -> (result: bool)
        ensures
            result == (self is Queued),
    {
        matches!(self, QueuedMessageStatus::Queued)
    }
}

/// What a queued message is.
#[derive(Clone, Debug, PartialEq, Eq)]
pub enum QueuedMessagePayload {
    /// A prompt that a client wrote.
    Inline,
    /// A repeat of an earlier turn.
    Retry {
        /// The client's id for the turn.
        retry_of_turn_request_id: String,
        /// Which repeat it is.
        attempt: u64,
        /// Why it is repeated.
        reason: String,
    },
}

/// A prompt that waits for its thread.
#[derive(Clone, Debug, PartialEq, Eq)]
pub struct QueuedMessage {
    /// Its identity.
    pub id: String,
    /// The thread that it waits for.
    pub thread_id: String,
    /// The thread that sent it, where one did.
    pub sender_thread_id: Option<String>,
    /// Who queued it.
    pub initiator: String,
    /// The prompt.
    pub text: String,
    /// The model that the client picked.
    pub model: Option<String>,
    /// The reasoning level that the client picked.
    pub reasoning_level: Option<String>,
    /// The permission mode that the client picked.
    pub permission_mode: Option<String>,
    /// How fast the turn is to be served.
    pub service_tier: ServiceTier,
    /// Whether it is sent together with the next.
    pub group_with_next: bool,
    /// When it is to be sent, where the client scheduled it.
    pub send_at: Option<u64>,
    /// Why the last attempt failed.
    pub failure_reason: Option<String>,
    /// What it is.
    pub payload: QueuedMessagePayload,
    /// Where it is in its life.
    pub status: QueuedMessageStatus,
    /// When it was queued.
    pub created_at_ms: u64,
    /// When it last changed.
    pub updated_at_ms: u64,
}

impl QueuedMessage {
    /// Whether its time has come: it was not scheduled, or for no later than now.
    pub open spec fn due(&self, now: u64) -> bool {
        self.send_at is None || self.send_at->0 <= now
    }

    /// Whether its time has come.
    pub fn is_due(&self, now: u64) -> (result: bool)
        ensures
            result == self.due(now),
    {
        match self.send_at {
            Some(at) => at <= now,
            None => true,
        }
    }
}

/// A prompt to be stored in a queue.
#[derive(Debug, PartialEq, Eq)]
pub struct NewQueuedMessage {
    /// The thread that it waits for.
    pub thread_id: String,
    /// The thread that sent it, where one did.
    pub sender_thread_id: Option<String>,
    /// The prompt.
    pub text: String,
    /// The model that the client picked.
    pub model: Option<String>,
    /// The reasoning level that the client picked.
    pub reasoning_level: Option<String>,
    /// The permission mode that the client picked.
    pub permission_mode: Option<String>,
    /// How fast the turn is to be served.
    pub service_tier: ServiceTier,
    /// When it is to be sent, where the client scheduled it.
    pub send_at: Option<u64>,
    /// What it is.
    pub payload: QueuedMessagePayload,
}

/// Why a queued message has not been delivered.
#[derive(Clone, Copy, Debug, PartialEq, Eq, Structural)]
pub enum WaitingOn {
    /// The thread has a turn in flight.
    ThreadBusy,
    /// The client scheduled it for later.
    Time,
}

impl WaitingOn {
    /// The stable wire word.
    pub open spec fn spec_kind(self) -> Seq<char> {
        match self {
            WaitingOn::ThreadBusy => "thread-busy"@,
            WaitingOn::Time => "time"@,
        }
    }

    /// The wire value.
    pub open spec fn tree(self) -> Tree {
        object().field("kind"@, Tree::Str(self.spec_kind()))
    }

    /// The stable wire word.
    pub fn kind(self) -> (result: &'static str)
        ensures
            result@ == self.spec_kind(),
    {
        match self {
            WaitingOn::ThreadBusy => "thread-busy",
            WaitingOn::Time => "time",
        }
    }

    /// The wire value.
    pub fn value(self) -> (result: Json)
        ensures
            result@ == self.tree(),
    {
        Fields::new().with("kind", Json::text(self.kind())).object()
    }
}

/// The text of one block of a prompt, or what is wrong with it: only text can be delivered.
pub open spec fn block_text(block: Tree) -> Result<Seq<char>, Seq<char>> {
    match member_text(block, "type"@) {
        Some(kind) => if kind == "text"@ {
            match member_text(block, "text"@) {
                Some(text) => Ok(text),
                None => Err("a text block needs a `text` string"@),
            }
        } else {
            Err(
                "loom's provider protocol delivers prompts as text; the `"@ + kind
                    + "` input block \n                     cannot be queued"@,
            )
        },
        None => Err("an input block needs a `type`"@),
    }
}

/// A text in front of the outcome of the rest.
pub open spec fn in_front(text: Seq<char>, rest: Result<Seq<char>, Seq<char>>) -> Result<
    Seq<char>,
    Seq<char>,
> {
    match rest {
        Ok(more) => Ok(text + more),
        Err(problem) => Err(problem),
    }
}

/// The texts of blocks joined, or what is wrong with the first that has none.
pub open spec fn blocks_text(blocks: Seq<Tree>) -> Result<Seq<char>, Seq<char>>
    decreases blocks.len(),
{
    if blocks.len() == 0 {
        Ok(Seq::empty())
    } else {
        match block_text(blocks[0]) {
            Ok(text) => in_front(text, blocks_text(blocks.drop_first())),
            Err(problem) => Err(problem),
        }
    }
}

/// The prompt of an input, or what is wrong with it.
pub open spec fn input_text(input: Tree) -> Result<Seq<char>, Seq<char>> {
    match input {
        Tree::Array(blocks) => if blocks.len() == 0 {
            Err("input must contain at least one block"@)
        } else {
            match blocks_text(blocks) {
                Ok(text) => if blank(text) {
                    Err("input must contain text"@)
                } else {
                    Ok(text)
                },
                Err(problem) => Err(problem),
            }
        },
        _ => Err("input must be an array"@),
    }
}

/// Either text of a result.
pub open spec fn text_result(result: Result<String, String>) -> Result<Seq<char>, Seq<char>> {
    match result {
        Ok(text) => Ok(text@),
        Err(problem) => Err(problem@),
    }
}

/// The text of one block of a prompt, or what is wrong with it.
fn text_of_block(block: &Json) -> (result: Result<String, String>)
    ensures
        text_result(result) == block_text(block@),
{
    match text_member(block, "type") {
        Some(kind) => if same_text(kind.as_str(), "text") {
            match text_member(block, "text") {
                Some(text) => Ok(text),
                None => Err("a text block needs a `text` string".to_owned()),
            }
        } else {
            Err(
                joined3(
                    "loom's provider protocol delivers prompts as text; the `",
                    kind.as_str(),
                    "` input block \n                     cannot be queued",
                ),
            )
        },
        None => Err("an input block needs a `type`".to_owned()),
    }
}

/// The prompt of an input, or what is wrong with it.
pub fn text_from_queued_input(input: &Json) -> (result: Result<String, String>)
    ensures
        text_result(result) == input_text(input@),
{
    let blocks: &Vec<Json> = match input.as_array() {
        Some(blocks) => blocks,
        None => {
            return Err("input must be an array".to_owned());
        },
    };
    let ghost all = trees(blocks@);
    if blocks.len() == 0 {
        return Err("input must contain at least one block".to_owned());
    }
    let mut text: String = String::new();
    assert(all.skip(0) =~= all);
    assert(in_front(text@, blocks_text(all)) == blocks_text(all)) by {
        if let Ok(more) = blocks_text(all) {
            assert(text@ + more =~= more);
        }
    }
    for i in 0..blocks.len()
        invariant
            all == trees(blocks@),
            all.len() > 0,
            input@ == Tree::Array(all),
            in_front(text@, blocks_text(all.skip(i as int))) == blocks_text(all),
    {
        let ghost rest = all.skip(i as int);
        let ghost before = text@;
        assert(rest[0] == blocks@[i as int]@);
        assert(rest.drop_first() =~= all.skip(i + 1));
        match text_of_block(&blocks[i]) {
            Ok(part) => {
                text.append(part.as_str());
                proof {
                    if let Ok(more) = blocks_text(all.skip(i + 1)) {
                        assert((before + part@) + more =~= before + (part@ + more));
                    }
                }
            },
            Err(problem) => {
                return Err(problem);
            },
        }
    }
    assert(all.skip(all.len() as int) =~= Seq::<Tree>::empty());
    assert(text@ + Seq::<char>::empty() =~= text@);
    if is_blank(text.as_str()) {
        return Err("input must contain text".to_owned());
    }
    Ok(text)
}

/// A stored prompt as the input that a client may send.
pub open spec fn content_tree(text: Seq<char>) -> Tree {
    Tree::Array(
        seq![
            object().field("type"@, Tree::Str("text"@))
                .field("text"@, Tree::Str(text))
                .field("mentions"@, Tree::Array(Seq::empty())),
        ],
    )
}

/// A stored prompt as the input that a client may send.
pub fn queued_message_content(text: &str) -> (result: Json)
    ensures
        result@ == content_tree(text@),
{
    let block: Json = Fields::new().with("type", Json::text("text"))
        .with("text", Json::text(text))
        .with("mentions", empty_array())
        .object();
    let mut blocks: Vec<Json> = Vec::new();
    blocks.push(block);
    assert(trees(blocks@) =~= seq![block@]);
    Json::array(blocks)
}

/// What a stored prompt shows is what a client could have sent: reading it back gives the prompt.
pub proof fn stored_prompts_read_back(text: Seq<char>)
    requires
        !blank(text),
    ensures
        input_text(content_tree(text)) == Ok::<Seq<char>, Seq<char>>(text),
{
    let block = object().field("type"@, Tree::Str("text"@))
        .field("text"@, Tree::Str(text))
        .field("mentions"@, Tree::Array(Seq::empty()));
    let fields = block->Object_0;
    reveal_strlit("type");
    reveal_strlit("text");
    reveal_strlit("mentions");
    assert("type"@[0] == 't' && "type"@[1] == 'y');
    assert("text"@[0] == 't' && "text"@[1] == 'e');
    assert("mentions"@[0] == 'm');
    crate::json::lookup_last(fields, 0);
    crate::json::lookup_last(fields, 1);
    assert(block_text(block) == Ok::<Seq<char>, Seq<char>>(text));
    let blocks = seq![block];
    assert(blocks.drop_first() =~= Seq::<Tree>::empty());
    assert(text + Seq::<char>::empty() =~= text);
    reveal_with_fuel(blocks_text, 2);
}

/// What a queued message is, on the wire.
pub open spec fn payload_tree(payload: QueuedMessagePayload) -> Tree {
    match payload {
        QueuedMessagePayload::Inline => object().field("kind"@, Tree::Str("inline"@)),
        QueuedMessagePayload::Retry { retry_of_turn_request_id, attempt, reason } => object().field(
            "kind"@,
            Tree::Str("retry"@),
        )
            .field("retryOfTurnRequestId"@, Tree::Str(retry_of_turn_request_id@))
            .field("attempt"@, Tree::UInt(attempt))
            .field("reason"@, Tree::Str(reason@)),
    }
}

/// What a queued message is, on the wire.
pub fn queued_message_payload_value(payload: &QueuedMessagePayload) -> (result: Json)
    ensures
        result@ == payload_tree(*payload),
{
    match payload {
        QueuedMessagePayload::Inline => Fields::new().with("kind", Json::text("inline")).object(),
        QueuedMessagePayload::Retry { retry_of_turn_request_id, attempt, reason } => {
            Fields::new().with("kind", Json::text("retry"))
                .with("retryOfTurnRequestId", Json::text(retry_of_turn_request_id.as_str()))
                .with("attempt", Json::UInt(*attempt))
                .with("reason", Json::text(reason.as_str()))
                .object()
        },
    }
}

/// A text, or another where there is none.
pub open spec fn text_or(value: Option<String>, other: Seq<char>) -> Seq<char> {
    match value {
        Some(text) => text@,
        None => other,
    }
}

/// A queued message with what it waits on.
pub open spec fn message_tree(
    message: QueuedMessage,
    waiting_on: Option<WaitingOn>,
    providers: Seq<ProviderSpec>,
) -> Tree {
    object().field("id"@, Tree::Str(message.id@))
        .field("initiator"@, Tree::Str(message.initiator@))
        .field("senderThreadId"@, opt_tree(opt_view(message.sender_thread_id)))
        .field("threadId"@, Tree::Str(message.thread_id@))
        .field("content"@, content_tree(message.text@))
        .field("model"@, Tree::Str(text_or(message.model, default_provider(providers))))
        .field(
            "reasoningLevel"@,
            Tree::Str(text_or(message.reasoning_level, DEFAULT_REASONING_LEVEL@)),
        )
        .field(
            "permissionMode"@,
            Tree::Str(text_or(message.permission_mode, DEFAULT_PERMISSION_MODE@)),
        )
        .field("serviceTier"@, Tree::Str(message.service_tier.spec_as_str()))
        .field("groupWithNext"@, Tree::Bool(message.group_with_next))
        .field("sendAt"@, opt_uint_tree(message.send_at))
        .field(
            "waitingOn"@,
            match waiting_on {
                Some(waiting_on) => waiting_on.tree(),
                None => Tree::Null,
            },
        )
        .field("failureReason"@, opt_tree(opt_view(message.failure_reason)))
        .field("payload"@, payload_tree(message.payload))
        .field("editable"@, Tree::Bool(message.status is Queued))
        .field("createdAt"@, Tree::UInt(message.created_at_ms))
        .field("updatedAt"@, Tree::UInt(message.updated_at_ms))
}

/// A text, or another where there is none.
fn or_text(value: &Option<String>, other: &str) -> (result: Json)
    ensures
        result@ == Tree::Str(text_or(*value, other@)),
{
    match value {
        Some(text) => Json::text(text.as_str()),
        None => Json::text(other),
    }
}

/// A queued message with what it waits on.
pub fn queued_message_value(
    message: &QueuedMessage,
    waiting_on: Option<WaitingOn>,
    providers: &Vec<ProviderSpec>,
) -> (result: Json)
    ensures
        result@ == message_tree(*message, waiting_on, providers@),
{
    let provider: String = configured_provider_id(providers);
    let waits: Json = match waiting_on {
        Some(waiting_on) => waiting_on.value(),
        None => Json::Null,
    };
    Fields::new().with("id", Json::text(message.id.as_str()))
        .with("initiator", Json::text(message.initiator.as_str()))
        .with("senderThreadId", Json::opt_text(&message.sender_thread_id))
        .with("threadId", Json::text(message.thread_id.as_str()))
        .with("content", queued_message_content(message.text.as_str()))
        .with("model", or_text(&message.model, provider.as_str()))
        .with("reasoningLevel", or_text(&message.reasoning_level, DEFAULT_REASONING_LEVEL))
        .with("permissionMode", or_text(&message.permission_mode, DEFAULT_PERMISSION_MODE))
        .with("serviceTier", Json::text(message.service_tier.as_str()))
        .with("groupWithNext", Json::Bool(message.group_with_next))
        .with("sendAt", Json::opt_uint(message.send_at))
        .with("waitingOn", waits)
        .with("failureReason", Json::opt_text(&message.failure_reason))
        .with("payload", queued_message_payload_value(&message.payload))
        .with("editable", Json::Bool(message.status.is_open()))
        .with("createdAt", Json::UInt(message.created_at_ms))
        .with("updatedAt", Json::UInt(message.updated_at_ms))
        .object()
}

/// A queued message, and whether its thread is known to take no work now.
#[derive(Debug, PartialEq, Eq)]
pub struct QueueEntry {
    /// The message.
    pub message: QueuedMessage,
    /// Whether its thread takes no work now.
    pub thread_busy: bool,
}

/// What holds a message back: its schedule, then its thread. Where neither does, it simply has not
/// been sent yet.
pub open spec fn held_by(entry: QueueEntry, now: u64) -> Option<WaitingOn> {
    if !(entry.message.status is Queued) {
        None
    } else if !entry.message.due(now) {
        Some(WaitingOn::Time)
    } else if entry.thread_busy {
        Some(WaitingOn::ThreadBusy)
    } else {
        None
    }
}

/// A queue's row.
pub open spec fn queue_row(entry: QueueEntry, now: u64, providers: Seq<ProviderSpec>) -> Tree {
    message_tree(entry.message, held_by(entry, now), providers)
}

/// A queue's row.
pub fn queued_message_row(entry: &QueueEntry, now: u64, providers: &Vec<ProviderSpec>) -> (result:
    Json)
    ensures
        result@ == queue_row(*entry, now, providers@),
{
    let waiting_on: Option<WaitingOn> = if !entry.message.status.is_open() {
        None
    } else if !entry.message.is_due(now) {
        Some(WaitingOn::Time)
    } else if entry.thread_busy {
        Some(WaitingOn::ThreadBusy)
    } else {
        None
    };
    queued_message_value(&entry.message, waiting_on, providers)
}

/// The rows of a queue, in its order; those of messages that no longer wait only where asked for.
pub open spec fn queue_rows(
    entries: Seq<QueueEntry>,
    settled_too: bool,
    now: u64,
    providers: Seq<ProviderSpec>,
) -> Seq<Tree>
    decreases entries.len(),
{
    if entries.len() == 0 {
        Seq::empty()
    } else {
        let before = queue_rows(entries.drop_last(), settled_too, now, providers);
        if settled_too || entries.last().message.status is Queued {
            before.push(queue_row(entries.last(), now, providers))
        } else {
            before
        }
    }
}

/// The rows of a queue, in its order.
fn rows_of(
    entries: &Vec<QueueEntry>,
    settled_too: bool,
    now: u64,
    providers: &Vec<ProviderSpec>,
) -> (result: Json)
    ensures
        result@ == Tree::Array(queue_rows(entries@, settled_too, now, providers@)),
{
    let mut rows: Vec<Json> = Vec::new();
    assert(entries@.take(0) =~= Seq::<QueueEntry>::empty());
    assert(trees(rows@) =~= Seq::<Tree>::empty());
    for i in 0..entries.len()
        invariant
            trees(rows@) == queue_rows(entries@.take(i as int), settled_too, now, providers@),
    {
        let ghost before = trees(rows@);
        assert(entries@.take(i + 1).drop_last() =~= entries@.take(i as int));
        assert(entries@.take(i + 1).last() == entries@[i as int]);
        if settled_too || entries[i].message.status.is_open() {
            rows.push(queued_message_row(&entries[i], now, providers));
            assert(trees(rows@) =~= before.push(queue_row(entries@[i as int], now, providers@)));
        }
    }
    assert(entries@.take(entries@.len() as int) =~= entries@);
    Json::array(rows)
}

/// The messages that still wait, oldest first.
pub fn list_queued_messages(entries: &Vec<QueueEntry>, now: u64, providers: &Vec<ProviderSpec>) -> (result:
    Reply)
    ensures
        result@ == ok_view(Tree::Array(queue_rows(entries@, false, now, providers@))),
{
    ok(rows_of(entries, false, now, providers))
}

/// The rows that a change of a queue's order or grouping answers with.
pub fn queue_rearranged(entries: &Vec<QueueEntry>, now: u64, providers: &Vec<ProviderSpec>) -> (result:
    Reply)
    ensures
        result@ == ok_view(Tree::Array(queue_rows(entries@, true, now, providers@))),
{
    ok(rows_of(entries, true, now, providers))
}

/// The service tier that a request names.
pub open spec fn tier_of(raw: Option<Seq<char>>) -> Result<ServiceTier, ReplyView> {
    match raw {
        None => Ok(ServiceTier::Default),
        Some(word) => if word == "default"@ {
            Ok(ServiceTier::Default)
        } else if word == "fast"@ {
            Ok(ServiceTier::Fast)
        } else {
            Err(
                coded_error(
                    400,
                    "invalid_request"@,
                    "serviceTier must be `fast` or `default`, got "@ + debug_quoted(word),
                ),
            )
        },
    }
}

/// The service tier that a request names.
pub fn parse_service_tier(raw: &Option<String>) -> (result: Result<ServiceTier, Reply>)
    ensures
        parsed(result) == tier_of(opt_view(*raw)),
{
    match raw {
        None => Ok(ServiceTier::Default),
        Some(word) => if same_text(word.as_str(), "default") {
            Ok(ServiceTier::Default)
        } else if same_text(word.as_str(), "fast") {
            Ok(ServiceTier::Fast)
        } else {
            let shown: String = quoted(word.as_str());
            Err(
                error_response_with_code(
                    400,
                    "invalid_request",
                    crate::text::joined(
                        "serviceTier must be `fast` or `default`, got ",
                        shown.as_str(),
                    ),
                ),
            )
        },
    }
}

/// A request to store a prompt, its sender's id already read or refused.
pub struct CreateQueuedMessageRequest {
    /// The prompt as it came.
    pub input: Json,
    /// The sending thread, where one is named; else why that is no id.
    pub sender: Result<Option<String>, String>,
    /// The model.
    pub model: Option<String>,
    /// The reasoning level.
    pub reasoning_level: Option<String>,
    /// The permission mode.
    pub permission_mode: Option<String>,
    /// The service tier as it came.
    pub service_tier: Option<String>,
}

/// Stores a prompt for a busy thread, or says why the request is refused: the input first, then
/// the sender, then the tier.
pub fn create_queued_message(thread_id: String, request: CreateQueuedMessageRequest) -> (result:
    Result<NewQueuedMessage, Reply>)
    ensures
        match input_text(request.input@) {
            Err(problem) => result matches Err(reply) && reply@ == coded_error(
                400,
                "invalid_request"@,
                problem,
            ),
            Ok(text) => match request.sender {
                Err(problem) => result matches Err(reply) && reply@ == plain_error(400, problem@),
                Ok(sender) => match tier_of(opt_view(request.service_tier)) {
                    Err(refusal) => result matches Err(reply) && reply@ == refusal,
                    Ok(tier) => result matches Ok(message) && message.text@ == text && message == (
                    NewQueuedMessage {
                        thread_id,
                        sender_thread_id: sender,
                        text: message.text,
                        model: request.model,
                        reasoning_level: request.reasoning_level,
                        permission_mode: request.permission_mode,
                        service_tier: tier,
                        send_at: None,
                        payload: QueuedMessagePayload::Inline,
                    }),
                },
            },
        },
{
    let text: String = match text_from_queued_input(&request.input) {
        Ok(text) => text,
        Err(problem) => {
            return Err(error_response_with_code(400, "invalid_request", problem));
        },
    };
    let sender_thread_id: Option<String> = match request.sender {
        Ok(sender) => sender,
        Err(problem) => {
            return Err(error_response(400, problem));
        },
    };
    let service_tier: ServiceTier = match parse_service_tier(&request.service_tier) {
        Ok(tier) => tier,
        Err(reply) => {
            return Err(reply);
        },
    };
    Ok(
        NewQueuedMessage {
            thread_id,
            sender_thread_id,
            text,
            model: request.model,
            reasoning_level: request.reasoning_level,
            permission_mode: request.permission_mode,
            service_tier,
            send_at: None,
            payload: QueuedMessagePayload::Inline,
        },
    )
}

/// The answer to a prompt that was stored.
pub fn queued_message_created(entry: &QueueEntry, now: u64, providers: &Vec<ProviderSpec>) -> (result:
    Reply)
    ensures
        result@ == (ReplyView { status: 201, body: queue_row(*entry, now, providers@) }),
{
    Reply { status: 201, body: queued_message_row(entry, now, providers) }
}

/// Why a message is not one of a thread's queue.
pub open spec fn message_refusal(
    message: Option<QueuedMessage>,
    thread_id: Seq<char>,
    message_id: Seq<char>,
) -> Option<ReplyView> {
    match message {
        None => Some(plain_error(404, "queued message "@ + message_id + " is not known"@)),
        Some(message) => if message.thread_id@ != thread_id {
            Some(
                plain_error(404, "queued message "@ + message_id + " belongs to another thread"@),
            )
        } else {
            None
        },
    }
}

/// A message of a thread's queue, or why it is none.
pub fn queued_message_for_thread(
    message: Option<QueuedMessage>,
    thread_id: &str,
    message_id: &str,
) -> (result: Result<QueuedMessage, Reply>)
    ensures
        match message_refusal(message, thread_id@, message_id@) {
            Some(refusal) => result matches Err(reply) && reply@ == refusal,
            None => result is Ok && Some(result->Ok_0) == message,
        },
{
    match message {
        None => Err(
            error_response(404, joined3("queued message ", message_id, " is not known")),
        ),
        Some(message) => if !same_text(message.thread_id.as_str(), thread_id) {
            Err(
                error_response(
                    404,
                    joined3("queued message ", message_id, " belongs to another thread"),
                ),
            )
        } else {
            Ok(message)
        },
    }
}

/// Why a message of a thread's queue cannot be changed: it has left the queue.
pub open spec fn change_refusal(
    message: Option<QueuedMessage>,
    thread_id: Seq<char>,
    message_id: Seq<char>,
) -> Option<ReplyView> {
    match message_refusal(message, thread_id, message_id) {
        Some(refusal) => Some(refusal),
        None => if message->0.status is Queued {
            None
        } else {
            Some(
                coded_error(
                    409,
                    "queued_message_claim_lost"@,
                    "queued message "@ + message_id + " is already "@
                        + message->0.status.spec_as_str(),
                ),
            )
        },
    }
}

/// A message of a thread's queue that can still be changed, or why it cannot.
fn open_message(message: Option<QueuedMessage>, thread_id: &str, message_id: &str) -> (result:
    Result<QueuedMessage, Reply>)
    ensures
        match change_refusal(message, thread_id@, message_id@) {
            Some(refusal) => result matches Err(reply) && reply@ == refusal,
            None => result is Ok && Some(result->Ok_0) == message,
        },
{
    let message: QueuedMessage = match queued_message_for_thread(message, thread_id, message_id) {
        Ok(message) => message,
        Err(reply) => {
            return Err(reply);
        },
    };
    if !message.status.is_open() {
        let mut problem: String = joined3("queued message ", message_id, " is already ");
        problem.append(message.status.as_str());
        return Err(error_response_with_code(409, "queued_message_claim_lost", problem));
    }
    Ok(message)
}

/// Whether a message may be taken back, or why not.
pub fn delete_queued_message(message: Option<QueuedMessage>, thread_id: &str, message_id: &str) -> (result:
    Result<(), Reply>)
    ensures
        match change_refusal(message, thread_id@, message_id@) {
            Some(refusal) => result matches Err(reply) && reply@ == refusal,
            None => result is Ok,
        },
{
    match open_message(message, thread_id, message_id) {
        Ok(_) => Ok(()),
        Err(reply) => Err(reply),
    }
}

/// The new prompt of a message that is to be changed, or why it may not be.
pub fn update_queued_message(
    message: Option<QueuedMessage>,
    thread_id: &str,
    message_id: &str,
    input: &Json,
) -> (result: Result<String, Reply>)
    ensures
        match change_refusal(message, thread_id@, message_id@) {
            Some(refusal) => result matches Err(reply) && reply@ == refusal,
            None => match input_text(input@) {
                Ok(text) => result matches Ok(new_text) && new_text@ == text,
                Err(problem) => result matches Err(reply) && reply@ == coded_error(
                    400,
                    "invalid_request"@,
                    problem,
                ),
            },
        },
{
    match open_message(message, thread_id, message_id) {
        Ok(_) => match text_from_queued_input(input) {
            Ok(text) => Ok(text),
            Err(problem) => Err(error_response_with_code(400, "invalid_request", problem)),
        },
        Err(reply) => Err(reply),
    }
}

/// How a queued message is to be sent.
#[derive(Clone, Copy, Debug, PartialEq, Eq, Structural)]
pub enum SendQueuedMessageMode {
    /// As a turn, or it stays queued where the thread is busy.
    Auto,
    /// Into the running turn.
    Steer,
}

/// Whether a queued message may be sent, or why not: no frame injects input into a running turn.
pub fn send_queued_message(
    message: Option<QueuedMessage>,
    thread_id: &str,
    message_id: &str,
    mode: SendQueuedMessageMode,
) -> (result: Result<(), Reply>)
    ensures
        match message_refusal(message, thread_id@, message_id@) {
            Some(refusal) => result matches Err(reply) && reply@ == refusal,
            None => match mode {
                SendQueuedMessageMode::Steer => result matches Err(reply) && reply@ == coded_error(
                    501,
                    "not_configured"@,
                    "loom's provider protocol has no frame that injects input into a running turn; queued message "@
                        + message_id@ + " cannot be steered"@,
                ),
                SendQueuedMessageMode::Auto => result is Ok,
            },
        },
{
    if let Err(reply) = queued_message_for_thread(message, thread_id, message_id) {
        return Err(reply);
    }
    match mode {
        SendQueuedMessageMode::Steer => Err(
            error_response_with_code(
                501,
                "not_configured",
                joined3(
                    "loom's provider protocol has no frame that injects input into a running turn; queued message ",
                    message_id,
                    " cannot be steered",
                ),
            ),
        ),
        SendQueuedMessageMode::Auto => Ok(()),
    }
}

/// What an attempt to deliver a message did.
#[derive(Debug, PartialEq, Eq)]
pub enum DeliveryOutcome {
    /// The message was appended to the thread and its run dispatched.
    Sent(QueuedMessage),
    /// The thread cannot take the message yet; it stays queued.
    StillQueued {
        /// The message, with any recorded failure cleared.
        message: QueuedMessage,
        /// Why it is still queued.
        waiting_on: WaitingOn,
    },
    /// The attempt failed; the message stays queued with the reason recorded.
    Failed {
        /// The message, with the failure recorded.
        message: QueuedMessage,
        /// Why the attempt failed.
        reason: String,
    },
    /// The message is not in the queue.
    Unknown,
}

/// The answer to an attempt to send a message: `sent` only where it became a turn.
pub open spec fn sent_view(
    outcome: DeliveryOutcome,
    thread_busy: bool,
    message_id: Seq<char>,
    now: u64,
    providers: Seq<ProviderSpec>,
) -> ReplyView {
    match outcome {
        DeliveryOutcome::Sent(message) => ok_view(
            object().field("ok"@, Tree::Bool(true)).field("delivery"@, Tree::Str("sent"@)).field(
                "queuedMessage"@,
                queue_row(QueueEntry { message, thread_busy }, now, providers),
            ),
        ),
        DeliveryOutcome::StillQueued { message, waiting_on } => still_queued_view(
            message_tree(message, Some(waiting_on), providers),
        ),
        DeliveryOutcome::Failed { message, .. } => still_queued_view(
            queue_row(QueueEntry { message, thread_busy }, now, providers),
        ),
        DeliveryOutcome::Unknown => coded_error(
            409,
            "queued_message_claim_lost"@,
            "queued message "@ + message_id + " is no longer queued"@,
        ),
    }
}

/// The answer that a message is in the queue.
pub open spec fn still_queued_view(row: Tree) -> ReplyView {
    ok_view(
        object().field("ok"@, Tree::Bool(true)).field("delivery"@, Tree::Str("queued"@)).field(
            "queuedMessage"@,
            row,
        ),
    )
}

/// The answer that a message is in the queue.
pub fn still_queued(row: Json) -> (result: Reply)
    ensures
        result@ == still_queued_view(row@),
{
    ok(
        Fields::new().with("ok", Json::Bool(true)).with("delivery", Json::text("queued")).with(
            "queuedMessage",
            row,
        ).object(),
    )
}

/// The answer to an attempt to send a message.
pub fn send_queued_outcome(
    outcome: DeliveryOutcome,
    thread_busy: bool,
    message_id: &str,
    now: u64,
    providers: &Vec<ProviderSpec>,
) -> (result: Reply)
    ensures
        result@ == sent_view(outcome, thread_busy, message_id@, now, providers@),
{
    match outcome {
        DeliveryOutcome::Sent(message) => {
            let row: Json = queued_message_row(
                &QueueEntry { message, thread_busy },
                now,
                providers,
            );
            ok(
                Fields::new().with("ok", Json::Bool(true)).with(
                    "delivery",
                    Json::text("sent"),
                ).with("queuedMessage", row).object(),
            )
        },
        DeliveryOutcome::StillQueued { message, waiting_on } => still_queued(
            queued_message_value(&message, Some(waiting_on), providers),
        ),
        DeliveryOutcome::Failed { message, .. } => still_queued(
            queued_message_row(&QueueEntry { message, thread_busy }, now, providers),
        ),
        DeliveryOutcome::Unknown => error_response_with_code(
            409,
            "queued_message_claim_lost",
            joined3("queued message ", message_id, " is no longer queued"),
        ),
    }
}

/// The thread that a message waits for.
#[derive(Clone, Copy, Debug, PartialEq, Eq, Structural)]
pub struct QueueThread {
    /// Where it is in its life.
    pub status: ThreadStatus,
    /// Whether it takes a message in that status.
    pub accepts_work: bool,
}

/// What is to be done next to deliver a message.
#[derive(Debug, PartialEq, Eq)]
pub enum DeliveryStep {
    /// Nothing: the attempt is over.
    Done(DeliveryOutcome),
    /// Record why it could not be delivered.
    Fail {
        /// The message.
        message: QueuedMessage,
        /// Why.
        reason: String,
    },
    /// Append its prompt to the thread as a user's message.
    Post(QueuedMessage),
    /// Mark it sent.
    Mark {
        /// The message.
        message: QueuedMessage,
        /// Whether the append started a turn, which is to be dispatched once it is marked.
        started: bool,
    },
    /// Dispatch the turn that its append started; it is then sent.
    Dispatch(QueuedMessage),
}

/// A message with any recorded failure cleared.
pub open spec fn cleared(message: QueuedMessage) -> QueuedMessage {
    QueuedMessage { failure_reason: None, ..message }
}

/// The first step of a delivery. A message that has to wait is handed back with any recorded
/// failure cleared. A client that asks for a message may have it before its time; a
/// busy thread is never overridden.
pub open spec fn first_step(
    message: Option<QueuedMessage>,
    thread: Option<QueueThread>,
    force: bool,
    now: u64,
    step: DeliveryStep,
) -> bool {
    match message {
        None => step == DeliveryStep::Done(DeliveryOutcome::Unknown),
        Some(message) => if !(message.status is Queued) || thread is None {
            step == DeliveryStep::Done(DeliveryOutcome::Unknown)
        } else if !force && !message.due(now) {
            step == DeliveryStep::Done(
                DeliveryOutcome::StillQueued {
                    message: cleared(message),
                    waiting_on: WaitingOn::Time,
                },
            )
        } else if thread->0.status is Archived {
            step is Fail && step->Fail_message == message && step->reason@
                == "the thread is archived"@
        } else if !thread->0.accepts_work {
            step == DeliveryStep::Done(
                DeliveryOutcome::StillQueued {
                    message: cleared(message),
                    waiting_on: WaitingOn::ThreadBusy,
                },
            )
        } else {
            step == DeliveryStep::Post(message)
        },
    }
}

/// The first step of a delivery.
pub fn deliver_queued_message(
    message: Option<QueuedMessage>,
    thread: Option<QueueThread>,
    force: bool,
    now: u64,
) -> (result: DeliveryStep)
    ensures
        first_step(message, thread, force, now, result),
{
    let message: QueuedMessage = match message {
        Some(message) => message,
        None => {
            return DeliveryStep::Done(DeliveryOutcome::Unknown);
        },
    };
    if !message.status.is_open() {
        return DeliveryStep::Done(DeliveryOutcome::Unknown);
    }
    let thread: QueueThread = match thread {
        Some(thread) => thread,
        None => {
            return DeliveryStep::Done(DeliveryOutcome::Unknown);
        },
    };
    if !force && !message.is_due(now) {
        return DeliveryStep::Done(
            DeliveryOutcome::StillQueued {
                message: QueuedMessage { failure_reason: None, ..message },
                waiting_on: WaitingOn::Time,
            },
        );
    }
    if matches!(thread.status, ThreadStatus::Archived) {
        return DeliveryStep::Fail { message, reason: "the thread is archived".to_owned() };
    }
    if !thread.accepts_work {
        return DeliveryStep::Done(
            DeliveryOutcome::StillQueued {
                message: QueuedMessage { failure_reason: None, ..message },
                waiting_on: WaitingOn::ThreadBusy,
            },
        );
    }
    DeliveryStep::Post(message)
}

/// The step after the append: whether it started a turn, or why it failed.
pub fn message_posted(message: QueuedMessage, posted: Result<bool, String>) -> (result: DeliveryStep)
    ensures
        result == (match posted {
            Ok(started) => DeliveryStep::Mark { message, started },
            Err(reason) => DeliveryStep::Fail { message, reason },
        }),
{
    match posted {
        Ok(started) => DeliveryStep::Mark { message, started },
        Err(reason) => DeliveryStep::Fail { message, reason },
    }
}

/// The step after the message was marked sent, or could not be.
pub fn message_marked(message: QueuedMessage, started: bool, marked: Option<QueuedMessage>) -> (result:
    DeliveryStep)
    ensures
        match marked {
            Some(sent) => result == (if started {
                DeliveryStep::Dispatch(sent)
            } else {
                DeliveryStep::Done(DeliveryOutcome::Sent(sent))
            }),
            None => result is Fail && result->Fail_message == message && result->reason@
                == "the queue row could not be marked sent"@,
        },
{
    match marked {
        Some(sent) => if started {
            DeliveryStep::Dispatch(sent)
        } else {
            DeliveryStep::Done(DeliveryOutcome::Sent(sent))
        },
        None => DeliveryStep::Fail {
            message,
            reason: "the queue row could not be marked sent".to_owned(),
        },
    }
}

/// How a delivery ends whose failure was recorded, or whose message had gone by then.
pub fn failure_recorded(reason: String, recorded: Option<QueuedMessage>) -> (result: DeliveryOutcome)
    ensures
        result == (match recorded {
            Some(message) => DeliveryOutcome::Failed { message, reason },
            None => DeliveryOutcome::Unknown,
        }),
{
    match recorded {
        Some(message) => DeliveryOutcome::Failed { message, reason },
        None => DeliveryOutcome::Unknown,
    }
}

/// A message becomes a turn only where it waits, its thread takes work and is not archived, and
/// its time has come or a client asked for it.
pub proof fn deliveries_respect_the_queue(
    message: Option<QueuedMessage>,
    thread: Option<QueueThread>,
    force: bool,
    now: u64,
    step: DeliveryStep,
)
    requires
        first_step(message, thread, force, now, step),
    ensures
        step is Post ==> message is Some && message->0.status is Queued && (force || message->0.due(
            now,
        )) && thread is Some && thread->0.accepts_work && !(thread->0.status is Archived),
{
}

/// A walk through a thread's queue that stops at the first message that cannot be sent.
pub struct QueueDrain {
    queue: Vec<QueuedMessage>,
    at: usize,
    sent: u64,
    stopped: bool,
}

/// A walk, as mathematics: what is still ahead, how many were sent, and whether one could not be.
pub ghost struct DrainView {
    /// What is still ahead.
    pub rest: Seq<QueuedMessage>,
    /// How many were sent.
    pub sent: nat,
    /// Whether one could not be sent.
    pub stopped: bool,
}

impl View for QueueDrain {
    type V = DrainView;

    closed spec fn view(&self) -> DrainView {
        DrainView {
            rest: self.queue@.skip(self.at as int),
            sent: self.sent as nat,
            stopped: self.stopped,
        }
    }
}

/// What is ahead from the first message that waits on.
pub open spec fn from_waiting(rest: Seq<QueuedMessage>) -> Seq<QueuedMessage>
    decreases rest.len(),
{
    if rest.len() == 0 || rest[0].status is Queued {
        rest
    } else {
        from_waiting(rest.drop_first())
    }
}

/// The walk after its next message was taken.
pub open spec fn after_next(walk: DrainView) -> DrainView {
    if walk.stopped {
        walk
    } else {
        let ahead = from_waiting(walk.rest);
        DrainView {
            rest: if ahead.len() == 0 {
                ahead
            } else {
                ahead.drop_first()
            },
            ..walk
        }
    }
}

/// The next message of a walk.
pub open spec fn next_of(walk: DrainView) -> Option<Seq<char>> {
    if walk.stopped || from_waiting(walk.rest).len() == 0 {
        None
    } else {
        Some(from_waiting(walk.rest)[0].id@)
    }
}

/// The walk after it is known whether a message was sent.
pub open spec fn after_attempt(walk: DrainView, sent: bool) -> DrainView {
    if sent {
        DrainView { sent: walk.sent + 1, ..walk }
    } else {
        DrainView { stopped: true, ..walk }
    }
}

impl QueueDrain {
    /// The walk stands inside its queue and has counted no more than it passed.
    pub closed spec fn wf(&self) -> bool {
        self.at <= self.queue@.len() && self.sent <= self.at
    }

    /// Whether the message that was taken last is still to be counted.
    pub closed spec fn owes(&self) -> bool {
        self.sent < self.at
    }

    /// A walk through a queue.
    pub fn new(queue: Vec<QueuedMessage>) -> (result: QueueDrain)
        ensures
            result.wf(),
            result@ == (DrainView { rest: queue@, sent: 0, stopped: false }),
    {
        assert(queue@.skip(0) =~= queue@);
        QueueDrain { queue, at: 0, sent: 0, stopped: false }
    }

    /// Takes the next message that waits, unless one could not be sent.
    pub fn next(&mut self) -> (result: Option<String>)
        requires
            old(self).wf(),
        ensures
            final(self).wf(),
            final(self)@ == after_next(old(self)@),
            opt_view(result) == next_of(old(self)@),
            result is Some ==> final(self).owes(),
    {
        if self.stopped {
            return None;
        }
        let ghost start = self.queue@.skip(self.at as int);
        while self.at < self.queue.len()
            invariant
                self.wf(),
                !self.stopped,
                self.queue == old(self).queue,
                self.sent == old(self).sent,
                start == old(self)@.rest,
                !old(self)@.stopped,
                from_waiting(self.queue@.skip(self.at as int)) == from_waiting(start),
            decreases self.queue.len() - self.at,
        {
            let ghost rest = self.queue@.skip(self.at as int);
            assert(rest[0] == self.queue@[self.at as int]);
            assert(rest.drop_first() =~= self.queue@.skip(self.at + 1));
            let id: Option<String> = if self.queue[self.at].status.is_open() {
                Some(self.queue[self.at].id.clone())
            } else {
                None
            };
            self.at = self.at + 1;
            if id.is_some() {
                return id;
            }
        }
        assert(self.queue@.skip(self.at as int) =~= Seq::<QueuedMessage>::empty());
        None
    }

    /// Counts the message that was taken last, or stops the walk.
    pub fn attempted(&mut self, outcome: &DeliveryOutcome)
        requires
            old(self).wf(),
            old(self).owes(),
        ensures
            final(self).wf(),
            final(self)@ == after_attempt(old(self)@, *outcome is Sent),
    {
        match outcome {
            DeliveryOutcome::Sent(_) => {
                self.sent = self.sent + 1;
            },
            _ => {
                self.stopped = true;
            },
        }
    }

    /// How many messages were sent.
    pub fn sent(&self) -> (result: u64)
        ensures
            result == self@.sent,
    {
        self.sent
    }
}

/// The ids of the messages of a queue that wait, in its order.
pub open spec fn waiting_ids(queue: Seq<QueuedMessage>) -> Seq<Seq<char>>
    decreases queue.len(),
{
    if queue.len() == 0 {
        Seq::empty()
    } else if queue[0].status is Queued {
        seq![queue[0].id@] + waiting_ids(queue.drop_first())
    } else {
        waiting_ids(queue.drop_first())
    }
}

/// The messages that a walk attempts, given which of the attempts succeed.
pub open spec fn attempts(walk: DrainView, outcomes: Seq<bool>) -> Seq<Seq<char>>
    decreases outcomes.len(),
{
    if outcomes.len() == 0 {
        Seq::empty()
    } else {
        match next_of(walk) {
            None => Seq::empty(),
            Some(id) => seq![id] + attempts(
                after_attempt(after_next(walk), outcomes[0]),
                outcomes.drop_first(),
            ),
        }
    }
}

/// The messages that wait are those from the first one on.
proof fn waiting_from_the_first(rest: Seq<QueuedMessage>)
    ensures
        waiting_ids(rest) == waiting_ids(from_waiting(rest)),
        from_waiting(rest).len() > 0 ==> from_waiting(rest)[0].status is Queued,
    decreases rest.len(),
{
    if rest.len() > 0 && !(rest[0].status is Queued) {
        waiting_from_the_first(rest.drop_first());
    }
}

/// A queue is delivered in its order: a walk attempts the messages that wait from the front, none
/// is left out, and none is attempted behind one that could not be sent.
pub proof fn queues_keep_their_order(walk: DrainView, outcomes: Seq<bool>)
    requires
        !walk.stopped,
    ensures
        attempts(walk, outcomes).len() <= waiting_ids(walk.rest).len(),
        attempts(walk, outcomes) == waiting_ids(walk.rest).take(attempts(walk, outcomes).len() as int),
        forall|i: int| 0 <= i < attempts(walk, outcomes).len() - 1 ==> #[trigger] outcomes[i],
        attempts(walk, outcomes).len() <= outcomes.len(),
    decreases outcomes.len(),
{
    let tried = attempts(walk, outcomes);
    waiting_from_the_first(walk.rest);
    let ids = waiting_ids(walk.rest);
    if outcomes.len() > 0 && next_of(walk) is Some {
        let ahead = from_waiting(walk.rest);
        let next = after_attempt(after_next(walk), outcomes[0]);
        let more = attempts(next, outcomes.drop_first());
        assert(ids =~= seq![ahead[0].id@] + waiting_ids(ahead.drop_first()));
        if outcomes[0] {
            queues_keep_their_order(next, outcomes.drop_first());
            assert(next.rest == ahead.drop_first());
            assert(tried =~= ids.take(tried.len() as int)) by {
                assert(more =~= waiting_ids(ahead.drop_first()).take(more.len() as int));
            }
            assert forall|i: int| 0 <= i < tried.len() - 1 implies #[trigger] outcomes[i] by {
                if i > 0 {
                    assert(outcomes.drop_first()[i - 1] == outcomes[i]);
                }
            }
        } else {
            assert(more =~= Seq::<Seq<char>>::empty());
            assert(tried =~= seq![ahead[0].id@]);
            assert(tried =~= ids.take(1));
        }
    } else {
        assert(tried =~= ids.take(0));
    }
}

/// The threads that have a message whose time has come, each once, in the order in which the
/// messages stand.
pub open spec fn due_threads(messages: Seq<QueuedMessage>, now: u64) -> Seq<Seq<char>>
    decreases messages.len(),
{
    if messages.len() == 0 {
        Seq::empty()
    } else {
        let before = due_threads(messages.drop_last(), now);
        let last = messages.last();
        if last.status is Queued && last.due(now) && !before.contains(last.thread_id@) {
            before.push(last.thread_id@)
        } else {
            before
        }
    }
}

/// The threads whose queues a sweep of the clock walks.
pub fn drain_due_queued_messages(messages: &Vec<QueuedMessage>, now: u64) -> (result: Vec<String>)
    ensures
        crate::text::texts(result@) == due_threads(messages@, now),
{
    let mut threads: Vec<String> = Vec::new();
    assert(messages@.take(0) =~= Seq::<QueuedMessage>::empty());
    assert(crate::text::texts(threads@) =~= Seq::<Seq<char>>::empty());
    for i in 0..messages.len()
        invariant
            crate::text::texts(threads@) == due_threads(messages@.take(i as int), now),
    {
        let message: &QueuedMessage = &messages[i];
        let ghost before = crate::text::texts(threads@);
        assert(messages@.take(i + 1).drop_last() =~= messages@.take(i as int));
        assert(messages@.take(i + 1).last() == *message);
        if message.status.is_open() && message.is_due(now) && !crate::text::list_holds(
            &threads,
            message.thread_id.as_str(),
        ) {
            threads.push(message.thread_id.clone());
            assert(crate::text::texts(threads@) =~= before.push(message.thread_id@));
        }
    }
    assert(messages@.take(messages@.len() as int) =~= messages@);
    threads
}

/// A sweep walks every thread that has a message whose time has come, and none twice.
pub proof fn sweeps_reach_every_due_thread(messages: Seq<QueuedMessage>, now: u64)
    ensures
        due_threads(messages, now).no_duplicates(),
        forall|i: int|
            0 <= i < messages.len() && (#[trigger] messages[i]).status is Queued
                && messages[i].due(now) ==> due_threads(messages, now).contains(
                messages[i].thread_id@,
            ),
    decreases messages.len(),
{
    if messages.len() > 0 {
        let rest = messages.drop_last();
        let before = due_threads(rest, now);
        sweeps_reach_every_due_thread(rest, now);
        assert forall|i: int|
            0 <= i < messages.len() && (#[trigger] messages[i]).status is Queued
                && messages[i].due(now) implies due_threads(messages, now).contains(
            messages[i].thread_id@,
        ) by {
            let after = due_threads(messages, now);
            if i < rest.len() {
                assert(rest[i] == messages[i]);
                let k = choose|k: int|
                    0 <= k < before.len() && before[k] == messages[i].thread_id@;
                assert(after[k] == messages[i].thread_id@);
            } else if !before.contains(messages[i].thread_id@) {
                assert(after[before.len() as int] == messages[i].thread_id@);
            }
        }
    }
}

// What a queue promises.

/// A row of a queue shows the stored message: its prompt as one block of text, the settings that
/// its turn will run with, what it waits on, and whether it can still be changed.
#[verifier::rlimit(50)]
pub proof fn queue_rows_show_the_message(
    entry: QueueEntry,
    now: u64,
    providers: Vec<ProviderSpec>,
    row: Json,
)
    requires
        call_ensures(queued_message_row, (&entry, now, &providers), row),
    ensures
        member(row@, "id"@) == Some(Tree::Str(entry.message.id@)),
        member(row@, "initiator"@) == Some(Tree::Str(entry.message.initiator@)),
        member(row@, "threadId"@) == Some(Tree::Str(entry.message.thread_id@)),
        member(row@, "groupWithNext"@) == Some(Tree::Bool(entry.message.group_with_next)),
        member(row@, "editable"@) == Some(Tree::Bool(entry.message.status == QueuedMessageStatus::Queued)),
        member(row@, "createdAt"@) == Some(Tree::UInt(entry.message.created_at_ms)),
        member(row@, "updatedAt"@) == Some(Tree::UInt(entry.message.updated_at_ms)),
        entry.message.sender_thread_id is None ==> member(row@, "senderThreadId"@) == Some(Tree::Null),
        entry.message.sender_thread_id matches Some(sender) ==> member(row@, "senderThreadId"@) == Some(Tree::Str(sender@)),
        member(row@, "content"@) matches Some(Tree::Array(blocks)) && blocks.len() == 1 && member(blocks[0], "type"@) == Some(Tree::Str("text"@)) && member(blocks[0], "text"@) == Some(Tree::Str(entry.message.text@)) && member(blocks[0], "mentions"@) == Some(Tree::Array(Seq::empty())),
        entry.message.model matches Some(model) ==> member(row@, "model"@) == Some(Tree::Str(model@)),
        entry.message.model is None && providers@.len() > 0 ==> member(row@, "model"@) == Some(Tree::Str(providers@[0].name@)),
        entry.message.reasoning_level matches Some(level) ==> member(row@, "reasoningLevel"@) == Some(Tree::Str(level@)),
        entry.message.reasoning_level is None ==> member(row@, "reasoningLevel"@) == Some(Tree::Str("medium"@)),
        entry.message.permission_mode matches Some(mode) ==> member(row@, "permissionMode"@) == Some(Tree::Str(mode@)),
        entry.message.permission_mode is None ==> member(row@, "permissionMode"@) == Some(Tree::Str("full"@)),
        entry.message.service_tier == ServiceTier::Default ==> member(row@, "serviceTier"@) == Some(Tree::Str("default"@)),
        entry.message.service_tier == ServiceTier::Fast ==> member(row@, "serviceTier"@) == Some(Tree::Str("fast"@)),
        entry.message.send_at is None ==> member(row@, "sendAt"@) == Some(Tree::Null),
        entry.message.send_at matches Some(at) ==> member(row@, "sendAt"@) == Some(Tree::UInt(at)),
        entry.message.failure_reason is None ==> member(row@, "failureReason"@) == Some(Tree::Null),
        entry.message.failure_reason matches Some(why) ==> member(row@, "failureReason"@) == Some(Tree::Str(why@)),
        member(row@, "waitingOn"@) is Some,
        (entry.message.status == QueuedMessageStatus::Queued && entry.message.send_at is Some && entry.message.send_at->0 > now) ==> member(member(row@, "waitingOn"@)->0, "kind"@) == Some(Tree::Str("time"@)),
        (entry.message.status == QueuedMessageStatus::Queued && (entry.message.send_at is None || entry.message.send_at->0 <= now) && entry.thread_busy) ==> member(member(row@, "waitingOn"@)->0, "kind"@) == Some(Tree::Str("thread-busy"@)),
        (entry.message.status != QueuedMessageStatus::Queued || ((entry.message.send_at is None || entry.message.send_at->0 <= now) && !entry.thread_busy)) ==> member(row@, "waitingOn"@) == Some(Tree::Null),
        member(row@, "payload"@) is Some,
        entry.message.payload is Inline ==> member(member(row@, "payload"@)->0, "kind"@) == Some(Tree::Str("inline"@)),
        entry.message.payload matches QueuedMessagePayload::Retry { retry_of_turn_request_id, attempt, reason } ==> member(member(row@, "payload"@)->0, "kind"@) == Some(Tree::Str("retry"@)) && member(member(row@, "payload"@)->0, "retryOfTurnRequestId"@) == Some(Tree::Str(retry_of_turn_request_id@)) && member(member(row@, "payload"@)->0, "attempt"@) == Some(Tree::UInt(attempt)) && member(member(row@, "payload"@)->0, "reason"@) == Some(Tree::Str(reason@)),
{
    broadcast use {crate::json::member_of_field, crate::reply::errors_say_what_is_wrong};

    reveal_strlit("id");
    reveal_strlit("kind");
    reveal_strlit("text");
    reveal_strlit("type");
    reveal_strlit("model");
    reveal_strlit("reason");
    reveal_strlit("sendAt");
    reveal_strlit("attempt");
    reveal_strlit("content");
    reveal_strlit("payload");
    reveal_strlit("editable");
    reveal_strlit("mentions");
    reveal_strlit("threadId");
    reveal_strlit("createdAt");
    reveal_strlit("initiator");
    reveal_strlit("updatedAt");
    reveal_strlit("waitingOn");
    reveal_strlit("serviceTier");
    reveal_strlit("failureReason");
    reveal_strlit("groupWithNext");
    reveal_strlit("permissionMode");
    reveal_strlit("reasoningLevel");
    reveal_strlit("senderThreadId");
    reveal_strlit("retryOfTurnRequestId");
    assert("id"@.len() == 2);
    assert("kind"@.len() == 4 && "kind"@[1] == 'i');
    assert("text"@.len() == 4 && "text"@[1] == 'e');
    assert("type"@.len() == 4 && "type"@[1] == 'y');
    assert("model"@.len() == 5);
    assert("reason"@.len() == 6 && "reason"@[0] == 'r');
    assert("sendAt"@.len() == 6 && "sendAt"@[0] == 's');
    assert("attempt"@.len() == 7 && "attempt"@[0] == 'a');
    assert("content"@.len() == 7 && "content"@[0] == 'c');
    assert("payload"@.len() == 7 && "payload"@[0] == 'p');
    assert("editable"@.len() == 8 && "editable"@[0] == 'e');
    assert("mentions"@.len() == 8 && "mentions"@[0] == 'm');
    assert("threadId"@.len() == 8 && "threadId"@[0] == 't');
    assert("createdAt"@.len() == 9 && "createdAt"@[0] == 'c');
    assert("initiator"@.len() == 9 && "initiator"@[0] == 'i');
    assert("updatedAt"@.len() == 9 && "updatedAt"@[0] == 'u');
    assert("waitingOn"@.len() == 9 && "waitingOn"@[0] == 'w');
    assert("serviceTier"@.len() == 11);
    assert("failureReason"@.len() == 13 && "failureReason"@[0] == 'f');
    assert("groupWithNext"@.len() == 13 && "groupWithNext"@[0] == 'g');
    assert("permissionMode"@.len() == 14 && "permissionMode"@[0] == 'p');
    assert("reasoningLevel"@.len() == 14 && "reasoningLevel"@[0] == 'r');
    assert("senderThreadId"@.len() == 14 && "senderThreadId"@[0] == 's');
    assert("retryOfTurnRequestId"@.len() == 20);
}

/// A queue lists the rows of the messages that still wait, and of no others, in their order;
/// rearranged, it lists all of them.
pub proof fn queues_list_what_waits(
    entries: Vec<QueueEntry>,
    now: u64,
    providers: Vec<ProviderSpec>,
    listed: Reply,
    rearranged: Reply,
)
    requires
        call_ensures(list_queued_messages, (&entries, now, &providers), listed),
        call_ensures(queue_rearranged, (&entries, now, &providers), rearranged),
    ensures
        listed@.status == 200,
        rearranged@.status == 200,
        listed@.body == Tree::Array(entries@.filter(|entry: QueueEntry| entry.message.status == QueuedMessageStatus::Queued).map_values(|entry: QueueEntry| queue_row(entry, now, providers@))),
        rearranged@.body == Tree::Array(entries@.map_values(|entry: QueueEntry| queue_row(entry, now, providers@))),
{
    waiting_rows_are_filtered(entries@, now, providers@);
    all_rows_are_kept(entries@, now, providers@);
}

/// The rows of what waits are those of the entries that wait.
proof fn waiting_rows_are_filtered(
    entries: Seq<QueueEntry>,
    now: u64,
    providers: Seq<ProviderSpec>,
)
    ensures
        queue_rows(entries, false, now, providers) == entries.filter(
            |entry: QueueEntry| entry.message.status == QueuedMessageStatus::Queued,
        ).map_values(|entry: QueueEntry| queue_row(entry, now, providers)),
    decreases entries.len(),
{
    let waits = |entry: QueueEntry| entry.message.status == QueuedMessageStatus::Queued;
    let row = |entry: QueueEntry| queue_row(entry, now, providers);
    reveal(Seq::filter);
    if entries.len() == 0 {
        assert(entries.filter(waits).map_values(row) =~= Seq::<Tree>::empty());
    } else {
        let rest = entries.drop_last();
        waiting_rows_are_filtered(rest, now, providers);
        if waits(entries.last()) {
            assert(rest.filter(waits).push(entries.last()).map_values(row) =~= rest.filter(
                waits,
            ).map_values(row).push(row(entries.last())));
        }
    }
}

/// All rows are those of all entries.
proof fn all_rows_are_kept(entries: Seq<QueueEntry>, now: u64, providers: Seq<ProviderSpec>)
    ensures
        queue_rows(entries, true, now, providers) == entries.map_values(
            |entry: QueueEntry| queue_row(entry, now, providers),
        ),
    decreases entries.len(),
{
    let row = |entry: QueueEntry| queue_row(entry, now, providers);
    if entries.len() == 0 {
        assert(entries.map_values(row) =~= Seq::<Tree>::empty());
    } else {
        all_rows_are_kept(entries.drop_last(), now, providers);
        assert(entries.drop_last().map_values(row).push(row(entries.last()))
            =~= entries.map_values(row));
    }
}

/// A block of input gives its text, and one that is no text is refused for what it is.
pub proof fn only_text_can_be_queued(block: Tree)
    ensures
        member(block, "type"@) == Some(Tree::Str("text"@)) && (member(block, "text"@) matches Some(Tree::Str(_))) ==> block_text(block) == Ok::<Seq<char>, Seq<char>>(member(block, "text"@)->0->Str_0),
        member(block, "type"@) == Some(Tree::Str("text"@)) && !(member(block, "text"@) matches Some(Tree::Str(_))) ==> block_text(block) == Err::<Seq<char>, Seq<char>>("a text block needs a `text` string"@),
        !(member(block, "type"@) matches Some(Tree::Str(_))) ==> block_text(block) == Err::<Seq<char>, Seq<char>>("an input block needs a `type`"@),
        (member(block, "type"@) matches Some(Tree::Str(kind)) && kind != "text"@) ==> block_text(block) is Err,
{
}

/// The texts of blocks, one behind the other.
pub open spec fn spoken(blocks: Seq<Tree>) -> Seq<char> {
    blocks.map_values(|block: Tree| member(block, "text"@)->0->Str_0).flatten()
}

/// Whether every block is a text.
pub open spec fn all_text(blocks: Seq<Tree>) -> bool {
    forall|i: int|
        0 <= i < blocks.len() ==> {
            &&& member(#[trigger] blocks[i], "type"@) == Some(Tree::Str("text"@))
            &&& member(blocks[i], "text"@) matches Some(Tree::Str(_))
        }
}

/// Blocks give their texts one behind the other exactly where all of them are texts.
proof fn blocks_are_read_in_order(blocks: Seq<Tree>)
    ensures
        blocks_text(blocks) is Ok <==> all_text(blocks),
        blocks_text(blocks) is Ok ==> blocks_text(blocks)->Ok_0 == spoken(blocks),
    decreases blocks.len(),
{
    let said = |block: Tree| member(block, "text"@)->0->Str_0;
    if blocks.len() == 0 {
        assert(blocks.map_values(said) =~= Seq::<Seq<char>>::empty());
        assert(spoken(blocks) =~= Seq::<char>::empty());
    } else {
        let rest = blocks.drop_first();
        blocks_are_read_in_order(rest);
        only_text_can_be_queued(blocks[0]);
        assert(blocks.map_values(said).drop_first() =~= rest.map_values(said));
        assert(blocks.map_values(said).first() == said(blocks[0]));
        if all_text(blocks) {
            assert forall|i: int| 0 <= i < rest.len() implies {
                &&& member(#[trigger] rest[i], "type"@) == Some(Tree::Str("text"@))
                &&& member(rest[i], "text"@) matches Some(Tree::Str(_))
            } by {
                assert(rest[i] == blocks[i + 1]);
            }
        } else if blocks_text(blocks) is Ok {
            assert forall|i: int| 0 <= i < blocks.len() implies {
                &&& member(#[trigger] blocks[i], "type"@) == Some(Tree::Str("text"@))
                &&& member(blocks[i], "text"@) matches Some(Tree::Str(_))
            } by {
                if i > 0 {
                    assert(rest[i - 1] == blocks[i]);
                }
            }
        }
    }
}

/// Queued input is the texts of its blocks one behind the other. It must be an array, have a block,
/// hold nothing but texts and say something.
pub proof fn prompts_are_the_texts_in_order(input: Json, answer: Result<String, String>)
    requires
        call_ensures(text_from_queued_input, (&input,), answer),
    ensures
        answer is Ok <==> (input@ matches Tree::Array(blocks) && blocks.len() > 0 && all_text(blocks) && !blank(spoken(blocks))),
        answer is Ok ==> answer->Ok_0@ == spoken(input@->Array_0),
        !(input@ is Array) ==> answer is Err && answer->Err_0@ == "input must be an array"@,
        input@ is Array && input@->Array_0.len() == 0 ==> answer is Err && answer->Err_0@ == "input must contain at least one block"@,
        input@ is Array && input@->Array_0.len() > 0 && all_text(input@->Array_0) && blank(spoken(input@->Array_0)) ==> answer is Err && answer->Err_0@ == "input must contain text"@,
{
    if input@ is Array {
        blocks_are_read_in_order(input@->Array_0);
    }
}

/// A service tier is one of two words, and none means the usual one.
pub proof fn tiers_are_named_or_refused(raw: Option<String>, answer: Result<ServiceTier, Reply>)
    requires
        call_ensures(parse_service_tier, (&raw,), answer),
    ensures
        raw is None ==> answer is Ok && answer->Ok_0 == ServiceTier::Default,
        raw is Some && raw->0@ == "default"@ ==> answer is Ok && answer->Ok_0 == ServiceTier::Default,
        raw is Some && raw->0@ == "fast"@ ==> answer is Ok && answer->Ok_0 == ServiceTier::Fast,
        raw is Some && raw->0@ != "default"@ && raw->0@ != "fast"@ ==> answer is Err && refuses(answer->Err_0@, 400, "invalid_request"@, "serviceTier must be `fast` or `default`, got "@ + debug_quoted(raw->0@)),
{
    broadcast use {crate::json::member_of_field, crate::reply::errors_say_what_is_wrong};

    reveal_strlit("fast");
    reveal_strlit("default");
    assert("fast"@.len() == 4);
    assert("default"@.len() == 7);
}

/// A message is queued as it was asked for: to its thread, from its sender, with its prompt and its
/// settings, to be sent as soon as it can be.
pub proof fn queued_messages_are_what_was_asked_for(
    thread_id: String,
    request: CreateQueuedMessageRequest,
    answer: Result<NewQueuedMessage, Reply>,
)
    requires
        call_ensures(create_queued_message, (thread_id, request), answer),
    ensures
        answer matches Ok(message) ==> message.thread_id == thread_id && request.sender == Ok::<Option<String>, String>(message.sender_thread_id) && input_text(request.input@) == Ok::<Seq<char>, Seq<char>>(message.text@) && message.model == request.model && message.reasoning_level == request.reasoning_level && message.permission_mode == request.permission_mode && message.send_at is None && message.payload is Inline,
        answer matches Ok(message) ==> (message.service_tier == ServiceTier::Fast <==> request.service_tier is Some && request.service_tier->0@ == "fast"@),
        answer is Ok <==> input_text(request.input@) is Ok && request.sender is Ok && (request.service_tier is None || request.service_tier->0@ == "fast"@ || request.service_tier->0@ == "default"@),
        input_text(request.input@) is Err ==> refuses(answer->Err_0@, 400, "invalid_request"@, input_text(request.input@)->Err_0),
        input_text(request.input@) is Ok && request.sender is Err ==> refuses(answer->Err_0@, 400, "invalid_request"@, request.sender->Err_0@),
{
    broadcast use {crate::json::member_of_field, crate::reply::errors_say_what_is_wrong};

    reveal_strlit("fast");
    reveal_strlit("default");
    assert("fast"@.len() == 4);
    assert("default"@.len() == 7);
}

/// A message that was put in a queue is answered with its row, as created.
pub proof fn new_rows_are_created(
    entry: QueueEntry,
    now: u64,
    providers: Vec<ProviderSpec>,
    answer: Reply,
    row: Json,
)
    requires
        call_ensures(queued_message_created, (&entry, now, &providers), answer),
        call_ensures(queued_message_row, (&entry, now, &providers), row),
    ensures
        answer@.status == 201,
        answer@.body == row@,
{
}

/// A queued message is found through its own thread alone.
pub proof fn queued_messages_belong_to_their_thread(
    message: Option<QueuedMessage>,
    thread_id: &str,
    message_id: &str,
    answer: Result<QueuedMessage, Reply>,
)
    requires
        call_ensures(queued_message_for_thread, (message, thread_id, message_id), answer),
    ensures
        answer is Ok <==> message is Some && message->0.thread_id@ == thread_id@,
        answer is Ok ==> message == Some(answer->Ok_0),
        message is None ==> answer is Err && refuses(answer->Err_0@, 404, "not_found"@, "queued message "@ + message_id@ + " is not known"@),
        message is Some && message->0.thread_id@ != thread_id@ ==> answer is Err && refuses(answer->Err_0@, 404, "not_found"@, "queued message "@ + message_id@ + " belongs to another thread"@),
{
    broadcast use {crate::json::member_of_field, crate::reply::errors_say_what_is_wrong};

}

/// A queued message is deleted exactly where it is the thread's and still waits.
pub proof fn only_waiting_messages_are_deleted(
    message: Option<QueuedMessage>,
    thread_id: &str,
    message_id: &str,
    answer: Result<(), Reply>,
)
    requires
        call_ensures(delete_queued_message, (message, thread_id, message_id), answer),
    ensures
        answer is Ok <==> message is Some && message->0.thread_id@ == thread_id@ && message->0.status == QueuedMessageStatus::Queued,
        message is None ==> answer is Err && refuses(answer->Err_0@, 404, "not_found"@, "queued message "@ + message_id@ + " is not known"@),
        message is Some && message->0.thread_id@ != thread_id@ ==> answer is Err && refuses(answer->Err_0@, 404, "not_found"@, "queued message "@ + message_id@ + " belongs to another thread"@),
        (message is Some && message->0.thread_id@ == thread_id@ && message->0.status == QueuedMessageStatus::Sent) ==> answer is Err && refuses(answer->Err_0@, 409, "queued_message_claim_lost"@, "queued message "@ + message_id@ + " is already "@ + "sent"@),
        (message is Some && message->0.thread_id@ == thread_id@ && message->0.status == QueuedMessageStatus::Cancelled) ==> answer is Err && refuses(answer->Err_0@, 409, "queued_message_claim_lost"@, "queued message "@ + message_id@ + " is already "@ + "cancelled"@),
{
    broadcast use {crate::json::member_of_field, crate::reply::errors_say_what_is_wrong};

}

/// A queued message is rewritten exactly where it is the thread's, still waits and the new input
/// can be queued; it then says what the input says.
pub proof fn only_waiting_messages_are_rewritten(
    message: Option<QueuedMessage>,
    thread_id: &str,
    message_id: &str,
    input: Json,
    answer: Result<String, Reply>,
)
    requires
        call_ensures(update_queued_message, (message, thread_id, message_id, &input), answer),
    ensures
        answer is Ok <==> message is Some && message->0.thread_id@ == thread_id@ && message->0.status == QueuedMessageStatus::Queued && input_text(input@) is Ok,
        answer is Ok ==> answer->Ok_0@ == input_text(input@)->Ok_0,
        (message is Some && message->0.thread_id@ == thread_id@ && message->0.status == QueuedMessageStatus::Queued && input_text(input@) is Err) ==> refuses(answer->Err_0@, 400, "invalid_request"@, input_text(input@)->Err_0),
        message is None ==> answer is Err && refuses(answer->Err_0@, 404, "not_found"@, "queued message "@ + message_id@ + " is not known"@),
        message is Some && message->0.thread_id@ != thread_id@ ==> answer is Err && refuses(answer->Err_0@, 404, "not_found"@, "queued message "@ + message_id@ + " belongs to another thread"@),
        (message is Some && message->0.thread_id@ == thread_id@ && message->0.status == QueuedMessageStatus::Sent) ==> answer is Err && refuses(answer->Err_0@, 409, "queued_message_claim_lost"@, "queued message "@ + message_id@ + " is already "@ + "sent"@),
        (message is Some && message->0.thread_id@ == thread_id@ && message->0.status == QueuedMessageStatus::Cancelled) ==> answer is Err && refuses(answer->Err_0@, 409, "queued_message_claim_lost"@, "queued message "@ + message_id@ + " is already "@ + "cancelled"@),
{
    broadcast use {crate::json::member_of_field, crate::reply::errors_say_what_is_wrong};

}

/// A queued message may be sent but not steered into a turn that runs.
pub proof fn nothing_is_steered(
    message: Option<QueuedMessage>,
    thread_id: &str,
    message_id: &str,
    mode: SendQueuedMessageMode,
    answer: Result<(), Reply>,
)
    requires
        call_ensures(send_queued_message, (message, thread_id, message_id, mode), answer),
    ensures
        answer is Ok <==> message is Some && message->0.thread_id@ == thread_id@ && mode is Auto,
        (message is Some && message->0.thread_id@ == thread_id@ && mode is Steer) ==> refuses(answer->Err_0@, 501, "not_configured"@, "loom's provider protocol has no frame that injects input into a running turn; queued message "@ + message_id@ + " cannot be steered"@),
        message is None ==> answer is Err && refuses(answer->Err_0@, 404, "not_found"@, "queued message "@ + message_id@ + " is not known"@),
        message is Some && message->0.thread_id@ != thread_id@ ==> answer is Err && refuses(answer->Err_0@, 404, "not_found"@, "queued message "@ + message_id@ + " belongs to another thread"@),
{
    broadcast use {crate::json::member_of_field, crate::reply::errors_say_what_is_wrong};

}

/// What became of a queued message decides the answer: sent with its row, still queued with its
/// row, or a lost claim.
#[verifier::rlimit(30)]
pub proof fn sends_are_answered_by_their_outcome(
    outcome: DeliveryOutcome,
    thread_busy: bool,
    message_id: &str,
    now: u64,
    providers: Vec<ProviderSpec>,
    answer: Reply,
)
    requires
        call_ensures(send_queued_outcome, (outcome, thread_busy, message_id, now, &providers), answer),
    ensures
        outcome is Unknown ==> refuses(answer@, 409, "queued_message_claim_lost"@, "queued message "@ + message_id@ + " is no longer queued"@),
        !(outcome is Unknown) ==> answer@.status == 200 && member(answer@.body, "ok"@) == Some(Tree::Bool(true)),
        outcome matches DeliveryOutcome::Sent(message) ==> member(answer@.body, "delivery"@) == Some(Tree::Str("sent"@)) && member(answer@.body, "queuedMessage"@) == Some(queue_row(QueueEntry { message, thread_busy }, now, providers@)),
        outcome matches DeliveryOutcome::StillQueued { message, waiting_on } ==> member(answer@.body, "delivery"@) == Some(Tree::Str("queued"@)) && member(answer@.body, "queuedMessage"@) == Some(message_tree(message, Some(waiting_on), providers@)),
        outcome matches DeliveryOutcome::Failed { message, reason } ==> member(answer@.body, "delivery"@) == Some(Tree::Str("queued"@)) && member(answer@.body, "queuedMessage"@) == Some(queue_row(QueueEntry { message, thread_busy }, now, providers@)),
{
    broadcast use {crate::json::member_of_field, crate::reply::errors_say_what_is_wrong};

    reveal_strlit("ok");
    reveal_strlit("delivery");
    reveal_strlit("queuedMessage");
    assert("ok"@.len() == 2);
    assert("delivery"@.len() == 8);
    assert("queuedMessage"@.len() == 13);
}

/// A queued message is posted exactly where it still waits, its thread is there, it is due or
/// forced, and the thread is not archived and accepts work. It fails where the thread is archived,
/// and otherwise stays queued for what it waits on.
pub proof fn deliveries_wait_their_turn(
    message: Option<QueuedMessage>,
    thread: Option<QueueThread>,
    force: bool,
    now: u64,
    step: DeliveryStep,
)
    requires
        call_ensures(deliver_queued_message, (message, thread, force, now), step),
    ensures
        message is None || message->0.status != QueuedMessageStatus::Queued || thread is None ==> step == DeliveryStep::Done(DeliveryOutcome::Unknown),
        message is Some && message->0.status == QueuedMessageStatus::Queued && thread is Some ==> {
            let held = message->0;
            let due = force || held.send_at is None || held.send_at->0 <= now;
            &&& step is Post <==> due && thread->0.status != ThreadStatus::Archived && thread->0.accepts_work
            &&& step is Post ==> step->Post_0 == held
            &&& step is Fail <==> due && thread->0.status == ThreadStatus::Archived
            &&& step is Fail ==> step->Fail_message == held && step->reason@ == "the thread is archived"@
            &&& !due ==> (step matches DeliveryStep::Done(DeliveryOutcome::StillQueued { message: kept, waiting_on }) && waiting_on == WaitingOn::Time && kept.failure_reason is None && kept.id == held.id && kept.text == held.text && kept.thread_id == held.thread_id && kept.send_at == held.send_at && kept.status == held.status)
            &&& (due && thread->0.status != ThreadStatus::Archived && !thread->0.accepts_work) ==> (step matches DeliveryStep::Done(DeliveryOutcome::StillQueued { message: kept, waiting_on }) && waiting_on == WaitingOn::ThreadBusy && kept.failure_reason is None && kept.id == held.id && kept.text == held.text && kept.thread_id == held.thread_id && kept.send_at == held.send_at && kept.status == held.status)
        },
{
}

/// A posted message is marked, and one that could not be posted fails for the reason given.
pub proof fn posted_messages_are_marked(
    message: QueuedMessage,
    posted: Result<bool, String>,
    step: DeliveryStep,
)
    requires
        call_ensures(message_posted, (message, posted), step),
    ensures
        posted matches Ok(started) ==> step == (DeliveryStep::Mark { message, started }),
        posted matches Err(reason) ==> step == (DeliveryStep::Fail { message, reason }),
{
}

/// A marked message is sent: its thread is dispatched where it started a turn. One that could not
/// be marked fails.
pub proof fn marked_messages_are_sent(
    message: QueuedMessage,
    started: bool,
    marked: Option<QueuedMessage>,
    step: DeliveryStep,
)
    requires
        call_ensures(message_marked, (message, started, marked), step),
    ensures
        marked is Some && started ==> step == DeliveryStep::Dispatch(marked->0),
        marked is Some && !started ==> step == DeliveryStep::Done(DeliveryOutcome::Sent(marked->0)),
        marked is None ==> step is Fail && step->Fail_message == message && step->reason@ == "the queue row could not be marked sent"@,
{
}

/// A failure that was recorded is the outcome, with its reason; one that could not be is unknown.
pub proof fn failures_are_kept_with_the_message(
    reason: String,
    recorded: Option<QueuedMessage>,
    outcome: DeliveryOutcome,
)
    requires
        call_ensures(failure_recorded, (reason, recorded), outcome),
    ensures
        recorded matches Some(message) ==> outcome == (DeliveryOutcome::Failed { message, reason }),
        recorded is None ==> outcome is Unknown,
{
}

/// A queue is walked from its first message that waits: that one is next, whatever stands before it
/// is passed over, and the walk goes on behind it. A walk that stopped, or has nothing left that
/// waits, has no next.
pub proof fn walks_take_the_first_that_waits(walk: DrainView)
    ensures
        walk.stopped ==> next_of(walk) is None && after_next(walk) == walk,
        next_of(walk) is None <==> walk.stopped || forall|i: int|
            0 <= i < walk.rest.len() ==> (#[trigger] walk.rest[i]).status
                != QueuedMessageStatus::Queued,
        next_of(walk) is Some ==> exists|k: int| #[trigger]
            is_first_waiting(walk.rest, k) && next_of(walk) == Some(walk.rest[k].id@)
                && after_next(walk).rest == walk.rest.skip(k + 1),
        after_next(walk).sent == walk.sent,
        after_next(walk).stopped == walk.stopped,
        after_attempt(walk, true).sent == walk.sent + 1,
        after_attempt(walk, true).stopped == walk.stopped,
        after_attempt(walk, false).sent == walk.sent,
        after_attempt(walk, false).stopped,
        after_attempt(walk, true).rest == walk.rest,
        after_attempt(walk, false).rest == walk.rest,
{
    if !walk.stopped {
        let k = waiting_begins(walk.rest);
        if k < walk.rest.len() {
            assert(is_first_waiting(walk.rest, k));
            assert(walk.rest.skip(k)[0] == walk.rest[k]);
            assert(walk.rest.skip(k).drop_first() =~= walk.rest.skip(k + 1));
        } else {
            assert(walk.rest.skip(k).len() == 0);
        }
    }
}

/// Whether a message is the first of a queue that waits.
pub open spec fn is_first_waiting(queue: Seq<QueuedMessage>, k: int) -> bool {
    &&& 0 <= k < queue.len()
    &&& queue[k].status == QueuedMessageStatus::Queued
    &&& forall|i: int| 0 <= i < k ==> (#[trigger] queue[i]).status != QueuedMessageStatus::Queued
}

/// Where the first message that waits stands.
proof fn waiting_begins(rest: Seq<QueuedMessage>) -> (k: int)
    ensures
        0 <= k <= rest.len(),
        from_waiting(rest) == rest.skip(k),
        k < rest.len() ==> is_first_waiting(rest, k),
        k == rest.len() ==> forall|i: int|
            0 <= i < rest.len() ==> (#[trigger] rest[i]).status != QueuedMessageStatus::Queued,
    decreases rest.len(),
{
    if rest.len() == 0 || rest[0].status is Queued {
        assert(rest.skip(0) =~= rest);
        0
    } else {
        let tail = rest.drop_first();
        let k = waiting_begins(tail);
        assert(tail.skip(k) =~= rest.skip(k + 1));
        assert forall|i: int| 0 <= i <= k && i < rest.len() implies (#[trigger] rest[i]).status
            != QueuedMessageStatus::Queued || i == k + 1 by {
            if i > 0 {
                assert(tail[i - 1] == rest[i]);
            }
        }
        if k < tail.len() {
            assert(tail[k] == rest[k + 1]);
        }
        k + 1
    }
}

/// The words that clients know the states of a queue by.
pub proof fn words_of_the_queue()
    ensures
        QueuedMessageStatus::Queued.spec_as_str() == "queued"@,
        QueuedMessageStatus::Sent.spec_as_str() == "sent"@,
        QueuedMessageStatus::Cancelled.spec_as_str() == "cancelled"@,
        ServiceTier::Default.spec_as_str() == "default"@,
        ServiceTier::Fast.spec_as_str() == "fast"@,
        WaitingOn::ThreadBusy.spec_kind() == "thread-busy"@,
        WaitingOn::Time.spec_kind() == "time"@,
{
}

/// A message is due from the time on that it is to be sent at, and at once where it has none.
pub proof fn messages_are_due_in_time(
    message: QueuedMessage,
    now: u64,
    answer: bool,
)
    requires
        call_ensures(QueuedMessage::is_due, (&message, now), answer),
    ensures
        answer <==> message.send_at is None || message.send_at->0 <= now,
{
}

/// Only threads that have a message which waits and is due are drained.
pub proof fn sweeps_reach_only_due_threads(messages: Seq<QueuedMessage>, now: u64, id: Seq<char>)
    requires
        due_threads(messages, now).contains(id),
    ensures
        exists|i: int|
            0 <= i < messages.len() && (#[trigger] messages[i]).thread_id@ == id
                && messages[i].status == QueuedMessageStatus::Queued && (messages[i].send_at is None
                || messages[i].send_at->0 <= now),
    decreases messages.len(),
{
    if messages.len() > 0 {
        let rest = messages.drop_last();
        let before = due_threads(rest, now);
        if before.contains(id) {
            sweeps_reach_only_due_threads(rest, now, id);
            let i = choose|i: int|
                0 <= i < rest.len() && (#[trigger] rest[i]).thread_id@ == id && rest[i].status
                    == QueuedMessageStatus::Queued && (rest[i].send_at is None
                    || rest[i].send_at->0 <= now);
            assert(messages[i] == rest[i]);
        } else {
            assert(messages[messages.len() - 1].thread_id@ == id);
        }
    }
}

} // verus!
