//! Turns: sending a prompt, repeating one, and the requests about a thread that are refused.

use vstd::prelude::*;

use crate::dispatch::DispatchOutcome;
use crate::domain::{
    DomainEvent, Message, MessageRole, ProviderSpec, Thread, ThreadStatus, ThreadTrigger,
};
use crate::json::{member, object, opt_tree, opt_uint_tree, Fields, Json, Tree};
use crate::overview::{apply_execution_options, ExecutionUpdate};
use crate::projections::{bb_thread_status, status_word};
use crate::queue::{
    input_text, message_tree, parse_service_tier, queued_message_value, still_queued,
    still_queued_view, text_from_queued_input, tier_of, NewQueuedMessage, QueuedMessage,
    QueuedMessagePayload, QueuedMessageStatus, ServiceTier, WaitingOn,
};
use crate::reply::{
    coded_error, command_error_response, debug_quoted, error_response, error_response_with_code,
    error_response_with_details, error_tree, ok, ok_view, plain_error, quoted, refuses,
    CommandError, Reply, ReplyView,
};
use crate::text::{
    blank, copy_opt, decimal, decimal_text, is_blank, joined, joined3, opt_view, same_text,
};
use crate::timeline::{current_goal, run_of, switched_on, ThreadEntry};

verus! {

/// One part of a prompt: only text can be delivered.
#[derive(Debug, PartialEq, Eq)]
pub enum SendInput {
    /// A plain text.
    Text {
        /// The text.
        text: String,
    },
}

/// The texts of a prompt's parts joined.
pub open spec fn parts_text(input: Seq<SendInput>) -> Seq<char>
    decreases input.len(),
{
    if input.len() == 0 {
        Seq::empty()
    } else {
        parts_text(input.drop_last()) + input.last()->text@
    }
}

/// The prompt of a request: none where it has no text but white space.
pub open spec fn prompt_text(input: Seq<SendInput>) -> Option<Seq<char>> {
    if blank(parts_text(input)) {
        None
    } else {
        Some(parts_text(input))
    }
}

/// The prompt of a request.
pub fn text_from_send_input(input: &[SendInput]) -> (result: Option<String>)
    ensures
        opt_view(result) == prompt_text(input@),
{
    let mut text: String = String::new();
    assert(input@.take(0) =~= Seq::<SendInput>::empty());
    for i in 0..input.len()
        invariant
            text@ == parts_text(input@.take(i as int)),
    {
        assert(input@.take(i + 1).drop_last() =~= input@.take(i as int));
        assert(input@.take(i + 1).last() == input@[i as int]);
        match &input[i] {
            SendInput::Text { text: value } => {
                text.append(value.as_str());
            },
        }
    }
    assert(input@.take(input@.len() as int) =~= input@);
    if is_blank(text.as_str()) {
        None
    } else {
        Some(text)
    }
}

/// What a client wants of a send to a thread that may be busy.
#[derive(Clone, Copy, Debug, PartialEq, Eq, Structural)]
pub enum SendMode {
    /// Queue where the thread is busy.
    QueueIfActive,
    /// Steer where the thread is busy.
    SteerIfActive,
    /// Whatever fits.
    Auto,
    /// A turn now.
    Start,
    /// Into the running turn.
    Steer,
}

impl SendMode {
    /// Whether it asks for input into a running turn.
    pub open spec fn steers(self) -> bool {
        self is Steer || self is SteerIfActive
    }

    /// Whether a busy thread may queue it.
    pub open spec fn queues(self) -> bool {
        self is Auto || self is QueueIfActive
    }
}

/// A request to send a prompt, its sender's id already read or refused.
pub struct SendThreadRequest {
    /// The prompt's parts.
    pub input: Vec<SendInput>,
    /// What is wanted where the thread is busy.
    pub mode: SendMode,
    /// When the turn is to run.
    pub send_at: Option<u64>,
    /// The model.
    pub model: Option<String>,
    /// The reasoning level.
    pub reasoning_level: Option<String>,
    /// The permission mode.
    pub permission_mode: Option<String>,
    /// The service tier as it came.
    pub service_tier: Option<String>,
    /// The sending thread, where one is named; else why that is no id.
    pub sender: Result<Option<String>, String>,
}

/// What becomes of a send.
#[derive(Debug, PartialEq, Eq)]
pub enum SendStep {
    /// It is refused.
    Refuse(Reply),
    /// It is stored, and waits.
    Queue {
        /// What is stored.
        message: NewQueuedMessage,
        /// What it waits on.
        waiting_on: WaitingOn,
    },
    /// It becomes a turn, once the options that it carried are recorded.
    Send {
        /// The prompt.
        content: String,
        /// What it changes on the thread.
        options: Option<ExecutionUpdate>,
    },
}

/// Whether a schedule names a time to come.
pub open spec fn later(send_at: Option<u64>, now: u64) -> bool {
    send_at is Some && send_at->0 > now
}

/// Why a send is refused: an empty prompt, then a busy thread that the mode does not queue for,
/// then, where it is to be stored, a service tier or a sender that is none.
pub open spec fn send_refusal(
    thread: Thread,
    run_in_flight: bool,
    request: SendThreadRequest,
    now: u64,
) -> Option<ReplyView> {
    let busy = !(thread.status is Idle) || run_in_flight;
    if prompt_text(request.input@) is None {
        Some(plain_error(400, "loom currently accepts text prompt inputs only"@))
    } else if busy && request.mode.steers() {
        Some(
            coded_error(
                501,
                "not_configured"@,
                "loom's provider protocol cannot steer a running turn; thread "@ + thread.id@
                    + " is "@ + thread.status.spec_as_str(),
            ),
        )
    } else if busy && !request.mode.queues() {
        Some(
            coded_error(
                501,
                "not_configured"@,
                "thread "@ + thread.id@ + " is "@ + thread.status.spec_as_str()
                    + "; a `start` send needs the queue, which this client did not ask for"@,
            ),
        )
    } else if busy || later(request.send_at, now) {
        match tier_of(opt_view(request.service_tier)) {
            Err(refusal) => Some(refusal),
            Ok(_) => match request.sender {
                Err(problem) => Some(plain_error(400, problem@)),
                Ok(_) => None,
            },
        }
    } else {
        None
    }
}

/// What becomes of a send: a prompt for a busy thread, or for a time to come, is stored; every
/// other becomes a turn.
pub open spec fn send_decides(
    thread: Thread,
    run_in_flight: bool,
    request: SendThreadRequest,
    now: u64,
    step: SendStep,
) -> bool {
    let busy = !(thread.status is Idle) || run_in_flight;
    match send_refusal(thread, run_in_flight, request, now) {
        Some(refusal) => step matches SendStep::Refuse(reply) && reply@ == refusal,
        None => if busy || later(request.send_at, now) {
            step matches SendStep::Queue { message, waiting_on } && waiting_on == (if later(
                request.send_at,
                now,
            ) {
                WaitingOn::Time
            } else {
                WaitingOn::ThreadBusy
            }) && Some(message.text@) == prompt_text(request.input@) && message == (
            NewQueuedMessage {
                thread_id: message.thread_id,
                sender_thread_id: request.sender->Ok_0,
                text: message.text,
                model: request.model,
                reasoning_level: request.reasoning_level,
                permission_mode: request.permission_mode,
                service_tier: tier_of(opt_view(request.service_tier))->Ok_0,
                send_at: request.send_at,
                payload: QueuedMessagePayload::Inline,
            }) && message.thread_id@ == thread.id@
        } else {
            step matches SendStep::Send { content, options } && Some(content@) == prompt_text(
                request.input@,
            ) && options == (if request.model is None && request.reasoning_level is None {
                None::<ExecutionUpdate>
            } else {
                Some(
                    ExecutionUpdate {
                        provider_id: None,
                        model: request.model,
                        reasoning_level: request.reasoning_level,
                    },
                )
            })
        },
    }
}

/// What becomes of a send.
pub fn send_thread(thread: &Thread, run_in_flight: bool, request: SendThreadRequest, now: u64) -> (result:
    SendStep)
    ensures
        send_decides(*thread, run_in_flight, request, now, result),
{
    let content: String = match text_from_send_input(request.input.as_slice()) {
        Some(content) => content,
        None => {
            return SendStep::Refuse(
                error_response(400, "loom currently accepts text prompt inputs only".to_owned()),
            );
        },
    };
    let busy: bool = !matches!(thread.status, ThreadStatus::Idle) || run_in_flight;
    let scheduled: bool = match request.send_at {
        Some(at) => at > now,
        None => false,
    };
    let steers: bool = matches!(request.mode, SendMode::Steer | SendMode::SteerIfActive);
    let queues_when_busy: bool = matches!(request.mode, SendMode::Auto | SendMode::QueueIfActive);
    if busy && steers {
        let mut problem: String = joined3(
            "loom's provider protocol cannot steer a running turn; thread ",
            thread.id.as_str(),
            " is ",
        );
        problem.append(thread.status.as_str());
        return SendStep::Refuse(error_response_with_code(501, "not_configured", problem));
    }
    if busy && !queues_when_busy {
        let mut problem: String = joined3("thread ", thread.id.as_str(), " is ");
        problem.append(thread.status.as_str());
        problem.append("; a `start` send needs the queue, which this client did not ask for");
        return SendStep::Refuse(error_response_with_code(501, "not_configured", problem));
    }
    if busy || scheduled {
        let service_tier: ServiceTier = match parse_service_tier(&request.service_tier) {
            Ok(tier) => tier,
            Err(reply) => {
                return SendStep::Refuse(reply);
            },
        };
        let sender_thread_id: Option<String> = match request.sender {
            Ok(sender) => sender,
            Err(problem) => {
                return SendStep::Refuse(error_response(400, problem));
            },
        };
        let waiting_on: WaitingOn = if scheduled {
            WaitingOn::Time
        } else {
            WaitingOn::ThreadBusy
        };
        return SendStep::Queue {
            message: NewQueuedMessage {
                thread_id: thread.id.clone(),
                sender_thread_id,
                text: content,
                model: request.model,
                reasoning_level: request.reasoning_level,
                permission_mode: request.permission_mode,
                service_tier,
                send_at: request.send_at,
                payload: QueuedMessagePayload::Inline,
            },
            waiting_on,
        };
    }
    SendStep::Send {
        content,
        options: apply_execution_options(None, request.model, request.reasoning_level),
    }
}

/// The answer to a send that was stored.
pub fn send_queued(message: &QueuedMessage, waiting_on: WaitingOn, providers: &Vec<ProviderSpec>) -> (result:
    Reply)
    ensures
        result@ == still_queued_view(message_tree(*message, Some(waiting_on), providers@)),
{
    still_queued(queued_message_value(message, Some(waiting_on), providers))
}

/// The answer to a send that became a turn.
pub fn send_delivered() -> (result: Reply)
    ensures
        result@ == ok_view(
            object().field("ok"@, Tree::Bool(true)).field("delivery"@, Tree::Str("sent"@)),
        ),
{
    ok(Fields::new().with("ok", Json::Bool(true)).with("delivery", Json::text("sent")).object())
}

/// A send never makes a second turn: only an idle thread with no run in flight gets one, at a time
/// that is not still to come.
pub proof fn sends_make_one_turn(
    thread: Thread,
    run_in_flight: bool,
    request: SendThreadRequest,
    now: u64,
    step: SendStep,
)
    requires
        send_decides(thread, run_in_flight, request, now, step),
    ensures
        step is Send ==> thread.status is Idle && !run_in_flight && !later(request.send_at, now),
        step is Queue ==> !request.mode.steers() || !(!(thread.status is Idle) || run_in_flight),
        (request.mode.queues() && prompt_text(request.input@) is Some && tier_of(
            opt_view(request.service_tier),
        ) is Ok && request.sender is Ok) ==> !(step is Refuse),
{
}

/// A request to repeat a thread's last turn.
pub struct RetryThreadRequest {
    /// Why, as the client put it.
    pub reason: Option<String>,
    /// When the repeat is to run.
    pub send_at: Option<u64>,
    /// The client's own id for the turn, or one that was minted for it.
    pub turn_request_id: String,
    /// Whether that id has the shape of a turn request's.
    pub well_formed_id: bool,
}

/// What becomes of a retry.
#[derive(Debug, PartialEq, Eq)]
pub enum RetryStep {
    /// It is refused.
    Refuse(Reply),
    /// It is stored, and waits.
    Queue {
        /// What is stored.
        message: NewQueuedMessage,
        /// What it waits on.
        waiting_on: WaitingOn,
        /// Which repeat it is.
        attempt: u64,
    },
    /// The thread is to be moved, and its last prompt dispatched again.
    Run {
        /// What moves the thread.
        trigger: ThreadTrigger,
        /// The prompt.
        prompt: String,
        /// Which repeat it is.
        attempt: u64,
    },
}

/// The last prompt of a log.
pub open spec fn last_prompt(entries: Seq<ThreadEntry>) -> Option<Seq<char>>
    decreases entries.len(),
{
    if entries.len() == 0 {
        None
    } else {
        match entries.last().event {
            DomainEvent::ThreadMessageAdded { message, .. } => if message.role is User {
                Some(message.content@)
            } else {
                last_prompt(entries.drop_last())
            },
            _ => last_prompt(entries.drop_last()),
        }
    }
}

/// Whether a message of a log is the delivery of a repeat that was queued, and no new prompt.
pub open spec fn redelivered(message: Message, queue: Seq<QueuedMessage>) -> bool {
    exists|i: int|
        0 <= i < queue.len() && (#[trigger] queue[i]).payload is Retry && queue[i].status is Sent
            && queue[i].text@ == message.content@ && queue[i].updated_at_ms
            == message.created_at_ms
}

/// Whether an entry begins a turn: a prompt of the user that repeats no earlier one.
pub open spec fn begins_turn(entry: ThreadEntry, queue: Seq<QueuedMessage>) -> bool {
    entry.event matches DomainEvent::ThreadMessageAdded { message, .. } && message.role is User
        && !redelivered(message, queue)
}

/// When the last turn of a log began.
pub open spec fn turn_began(entries: Seq<ThreadEntry>, queue: Seq<QueuedMessage>) -> u64
    decreases entries.len(),
{
    if entries.len() == 0 {
        0
    } else if begins_turn(entries.last(), queue) {
        entries.last().event->message.created_at_ms
    } else {
        turn_began(entries.drop_last(), queue)
    }
}

/// How often the thread went to work in the last turn of a log: each is one run, whoever caused it.
pub open spec fn turn_runs(entries: Seq<ThreadEntry>, queue: Seq<QueuedMessage>) -> nat
    decreases entries.len(),
{
    if entries.len() == 0 || begins_turn(entries.last(), queue) {
        0
    } else {
        let before = turn_runs(entries.drop_last(), queue);
        match entries.last().event {
            DomainEvent::ThreadStatusChanged { to, .. } => if to is Working {
                before + 1
            } else {
                before
            },
            _ => before,
        }
    }
}

/// How many repeats that were queued were delivered in the last turn of a log.
pub open spec fn turn_redeliveries(entries: Seq<ThreadEntry>, queue: Seq<QueuedMessage>) -> nat
    decreases entries.len(),
{
    if entries.len() == 0 || begins_turn(entries.last(), queue) {
        0
    } else {
        let before = turn_redeliveries(entries.drop_last(), queue);
        match entries.last().event {
            DomainEvent::ThreadMessageAdded { message, .. } => if message.role is User {
                before + 1
            } else {
                before
            },
            _ => before,
        }
    }
}

/// How many repeats of a turn its thread's queue holds or held: those that were queued since it
/// began.
pub open spec fn turn_retries(queue: Seq<QueuedMessage>, began: u64) -> nat
    decreases queue.len(),
{
    if queue.len() == 0 {
        0
    } else {
        turn_retries(queue.drop_last(), began) + if queue.last().payload is Retry
            && queue.last().created_at_ms >= began {
            1nat
        } else {
            0nat
        }
    }
}

/// How many repeats of its last turn a log shows that were never queued: the runs of the turn but
/// for its first, and but for those of repeats that were delivered from the queue.
pub open spec fn runs_again(entries: Seq<ThreadEntry>, queue: Seq<QueuedMessage>) -> nat {
    let known = 1 + turn_redeliveries(entries, queue);
    if turn_runs(entries, queue) > known {
        (turn_runs(entries, queue) - known) as nat
    } else {
        0
    }
}

/// Which repeat of the last turn a retry would be: the repeats that ran at once, and those that
/// were queued, come before it.
pub open spec fn next_attempt(entries: Seq<ThreadEntry>, queue: Seq<QueuedMessage>) -> nat {
    runs_again(entries, queue) + turn_retries(queue, turn_began(entries, queue)) + 1
}

/// A queue holds no more repeats than messages.
proof fn retries_are_messages(queue: Seq<QueuedMessage>, began: u64)
    ensures
        turn_retries(queue, began) <= queue.len(),
    decreases queue.len(),
{
    if queue.len() > 0 {
        retries_are_messages(queue.drop_last(), began);
    }
}

/// Whether a message of a log is the delivery of a repeat that was queued.
fn was_redelivered(message: &Message, queue: &Vec<QueuedMessage>) -> (result: bool)
    ensures
        result == redelivered(*message, queue@),
{
    for i in 0..queue.len()
        invariant
            forall|j: int|
                0 <= j < i ==> !((#[trigger] queue@[j]).payload is Retry && queue@[j].status is Sent
                    && queue@[j].text@ == message.content@ && queue@[j].updated_at_ms
                    == message.created_at_ms),
    {
        let held: &QueuedMessage = &queue[i];
        let sent_retry: bool = matches!(held.payload, QueuedMessagePayload::Retry { .. })
            && matches!(held.status, QueuedMessageStatus::Sent);
        if sent_retry && held.updated_at_ms == message.created_at_ms && same_text(
            held.text.as_str(),
            message.content.as_str(),
        ) {
            assert(queue@[i as int] == *held);
            return true;
        }
    }
    false
}

/// What a log says of its last prompt and of its last turn.
struct LastTurn {
    prompt: Option<String>,
    began: u64,
    runs: u64,
    redeliveries: u64,
}

/// What a log says of its last prompt and of its last turn.
fn read_turns(entries: &Vec<ThreadEntry>, queue: &Vec<QueuedMessage>) -> (result: LastTurn)
    ensures
        opt_view(result.prompt) == last_prompt(entries@),
        result.began == turn_began(entries@, queue@),
        result.runs == turn_runs(entries@, queue@),
        result.redeliveries == turn_redeliveries(entries@, queue@),
        result.runs + result.redeliveries <= entries@.len(),
{
    let mut prompt: Option<String> = None;
    let mut began: u64 = 0;
    let mut runs: u64 = 0;
    let mut redeliveries: u64 = 0;
    assert(entries@.take(0) =~= Seq::<ThreadEntry>::empty());
    for i in 0..entries.len()
        invariant
            opt_view(prompt) == last_prompt(entries@.take(i as int)),
            began == turn_began(entries@.take(i as int), queue@),
            runs == turn_runs(entries@.take(i as int), queue@),
            redeliveries == turn_redeliveries(entries@.take(i as int), queue@),
            runs + redeliveries <= i,
    {
        assert(entries@.take(i + 1).drop_last() =~= entries@.take(i as int));
        assert(entries@.take(i + 1).last() == entries@[i as int]);
        match &entries[i].event {
            DomainEvent::ThreadMessageAdded { message, .. } => {
                if matches!(message.role, MessageRole::User) {
                    prompt = Some(message.content.clone());
                    if was_redelivered(message, queue) {
                        redeliveries = redeliveries + 1;
                    } else {
                        began = message.created_at_ms;
                        runs = 0;
                        redeliveries = 0;
                    }
                }
            },
            DomainEvent::ThreadStatusChanged { to, .. } => {
                if matches!(to, ThreadStatus::Working) {
                    runs = runs + 1;
                }
            },
            _ => {},
        }
    }
    assert(entries@.take(entries@.len() as int) =~= entries@);
    LastTurn { prompt, began, runs, redeliveries }
}

/// How many repeats of a turn its thread's queue holds or held.
fn count_retries(queue: &Vec<QueuedMessage>, began: u64) -> (result: u64)
    ensures
        result == turn_retries(queue@, began),
{
    let mut count: u64 = 0;
    assert(queue@.take(0) =~= Seq::<QueuedMessage>::empty());
    for i in 0..queue.len()
        invariant
            count == turn_retries(queue@.take(i as int), began),
            count <= i,
    {
        assert(queue@.take(i + 1).drop_last() =~= queue@.take(i as int));
        assert(queue@.take(i + 1).last() == queue@[i as int]);
        if matches!(queue[i].payload, QueuedMessagePayload::Retry { .. }) && queue[i].created_at_ms
            >= began {
            count = count + 1;
        }
    }
    assert(queue@.take(queue@.len() as int) =~= queue@);
    count
}

/// Why a retry is refused: an archived thread, then a turn id of another shape, then a thread with
/// no turn to repeat.
pub open spec fn retry_refusal(
    thread: Thread,
    request: RetryThreadRequest,
    entries: Seq<ThreadEntry>,
) -> Option<ReplyView> {
    if thread.status is Archived {
        Some(
            coded_error(
                409,
                "thread_not_writable"@,
                "thread "@ + thread.id@ + " is archived"@,
            ),
        )
    } else if !request.well_formed_id {
        Some(
            coded_error(
                400,
                "invalid_request"@,
                "turnRequestId "@ + debug_quoted(request.turn_request_id@)
                    + " is not a creq_ id"@,
            ),
        )
    } else if last_prompt(entries) is None {
        Some(
            coded_error(
                409,
                "no_failed_turn"@,
                "thread "@ + thread.id@ + " has no user turn to retry"@,
            ),
        )
    } else {
        None
    }
}

/// What becomes of a retry: one for a busy thread, or for a time to come, is stored; every other
/// goes through the lifecycle of a first attempt.
pub open spec fn retry_decides(
    thread: Thread,
    request: RetryThreadRequest,
    entries: Seq<ThreadEntry>,
    queue: Seq<QueuedMessage>,
    run_in_flight: bool,
    now: u64,
    step: RetryStep,
) -> bool {
    let busy = thread.status is Working || thread.status is Waiting || run_in_flight;
    match retry_refusal(thread, request, entries) {
        Some(refusal) => step matches RetryStep::Refuse(reply) && reply@ == refusal,
        None => if busy || later(request.send_at, now) {
            step matches RetryStep::Queue { message, waiting_on, attempt } && attempt
                == next_attempt(entries, queue) && waiting_on == (if later(request.send_at, now) {
                WaitingOn::Time
            } else {
                WaitingOn::ThreadBusy
            }) && Some(message.text@) == last_prompt(entries) && message.thread_id@ == thread.id@
                && message == (NewQueuedMessage {
                thread_id: message.thread_id,
                sender_thread_id: None,
                text: message.text,
                model: thread.model,
                reasoning_level: thread.reasoning_level,
                permission_mode: None,
                service_tier: ServiceTier::Default,
                send_at: request.send_at,
                payload: QueuedMessagePayload::Retry {
                    retry_of_turn_request_id: request.turn_request_id,
                    attempt,
                    reason: message.payload->reason,
                },
            }) && message.payload->reason@ == (match request.reason {
                Some(reason) => reason@,
                None => "Retry"@,
            })
        } else {
            step matches RetryStep::Run { trigger, prompt, attempt } && attempt == next_attempt(
                entries,
                queue,
            ) && Some(prompt@) == last_prompt(entries) && trigger == (if thread.status is Idle {
                ThreadTrigger::RunStarted
            } else {
                ThreadTrigger::Retry
            })
        },
    }
}

/// What becomes of a retry.
pub fn retry_thread(
    thread: &Thread,
    request: &RetryThreadRequest,
    entries: &Vec<ThreadEntry>,
    queue: &Vec<QueuedMessage>,
    run_in_flight: bool,
    now: u64,
) -> (result: RetryStep)
    requires
        entries@.len() + queue@.len() < u64::MAX,
    ensures
        retry_decides(*thread, *request, entries@, queue@, run_in_flight, now, result),
{
    if matches!(thread.status, ThreadStatus::Archived) {
        return RetryStep::Refuse(
            error_response_with_code(
                409,
                "thread_not_writable",
                joined3("thread ", thread.id.as_str(), " is archived"),
            ),
        );
    }
    if !request.well_formed_id {
        let shown: String = quoted(request.turn_request_id.as_str());
        return RetryStep::Refuse(
            error_response_with_code(
                400,
                "invalid_request",
                joined3("turnRequestId ", shown.as_str(), " is not a creq_ id"),
            ),
        );
    }
    let turn: LastTurn = read_turns(entries, queue);
    let queued: u64 = count_retries(queue, turn.began);
    proof {
        retries_are_messages(queue@, turn.began);
    }
    let known: u64 = turn.redeliveries + 1;
    let again: u64 = if turn.runs > known {
        turn.runs - known
    } else {
        0
    };
    let attempt: u64 = again + queued + 1;
    let prompt: String = match turn.prompt {
        Some(prompt) => prompt,
        None => {
            return RetryStep::Refuse(
                error_response_with_code(
                    409,
                    "no_failed_turn",
                    joined3("thread ", thread.id.as_str(), " has no user turn to retry"),
                ),
            );
        },
    };
    let busy: bool = matches!(thread.status, ThreadStatus::Working | ThreadStatus::Waiting)
        || run_in_flight;
    let scheduled: bool = match request.send_at {
        Some(at) => at > now,
        None => false,
    };
    if busy || scheduled {
        let reason: String = match &request.reason {
            Some(reason) => reason.clone(),
            None => "Retry".to_owned(),
        };
        let waiting_on: WaitingOn = if scheduled {
            WaitingOn::Time
        } else {
            WaitingOn::ThreadBusy
        };
        return RetryStep::Queue {
            message: NewQueuedMessage {
                thread_id: thread.id.clone(),
                sender_thread_id: None,
                text: prompt,
                model: copy_opt(&thread.model),
                reasoning_level: copy_opt(&thread.reasoning_level),
                permission_mode: None,
                service_tier: ServiceTier::Default,
                send_at: request.send_at,
                payload: QueuedMessagePayload::Retry {
                    retry_of_turn_request_id: request.turn_request_id.clone(),
                    attempt,
                    reason,
                },
            },
            waiting_on,
            attempt,
        };
    }
    let trigger: ThreadTrigger = match thread.status {
        ThreadStatus::Idle => ThreadTrigger::RunStarted,
        _ => ThreadTrigger::Retry,
    };
    RetryStep::Run { trigger, prompt, attempt }
}

/// The answer to a retry that was stored.
pub fn retry_queued(
    turn_request_id: &str,
    attempt: u64,
    message: &QueuedMessage,
    waiting_on: WaitingOn,
) -> (result: Reply)
    ensures
        result@ == ok_view(
            object().field("ok"@, Tree::Bool(true))
                .field("delivery"@, Tree::Str("queued"@))
                .field("turnRequestId"@, Tree::Str(turn_request_id@))
                .field("attempt"@, Tree::UInt(attempt))
                .field("queuedMessageId"@, Tree::Str(message.id@))
                .field("waitingOn"@, waiting_on.tree())
                .field("sendAt"@, opt_uint_tree(message.send_at)),
        ),
{
    ok(
        Fields::new().with("ok", Json::Bool(true))
            .with("delivery", Json::text("queued"))
            .with("turnRequestId", Json::text(turn_request_id))
            .with("attempt", Json::UInt(attempt))
            .with("queuedMessageId", Json::text(message.id.as_str()))
            .with("waitingOn", waiting_on.value())
            .with("sendAt", Json::opt_uint(message.send_at))
            .object(),
    )
}

/// Whether a retry's thread was moved, or why the retry is refused then.
pub fn retry_moved(thread_id: &str, moved: Result<bool, CommandError>) -> (result: Option<Reply>)
    ensures
        match moved {
            Ok(true) => result is None,
            Ok(false) => result matches Some(reply) && reply@ == coded_error(
                409,
                "conflict"@,
                "thread "@ + thread_id@ + " is not in a status a retry applies to"@,
            ),
            Err(CommandError::NotFound(message)) => result matches Some(reply) && reply@
                == plain_error(404, message@),
            Err(CommandError::Conflict(message)) => result matches Some(reply) && reply@
                == plain_error(409, message@),
            Err(CommandError::Invalid(message)) => result matches Some(reply) && reply@
                == plain_error(400, message@),
            Err(CommandError::Domain(message)) => result matches Some(reply) && reply@
                == plain_error(409, message@),
        },
{
    match moved {
        Ok(moved) => if moved {
            None
        } else {
            Some(
                error_response_with_code(
                    409,
                    "conflict",
                    joined3("thread ", thread_id, " is not in a status a retry applies to"),
                ),
            )
        },
        Err(error) => Some(command_error_response(error)),
    }
}

/// The answer to a retry whose turn was dispatched, or could not be.
pub open spec fn retry_view(
    thread_id: Seq<char>,
    turn_request_id: Seq<char>,
    attempt: u64,
    outcome: DispatchOutcome,
) -> ReplyView {
    match outcome {
        DispatchOutcome::Dispatched(_) => ok_view(
            object().field("ok"@, Tree::Bool(true))
                .field("delivery"@, Tree::Str("sent"@))
                .field("turnRequestId"@, Tree::Str(turn_request_id))
                .field("attempt"@, Tree::UInt(attempt)),
        ),
        DispatchOutcome::NoEnvironment { .. } => coded_error(
            409,
            "thread_environment_unavailable"@,
            "thread "@ + thread_id + " has no environment that can run a provider"@,
        ),
        DispatchOutcome::NoHost { .. } => coded_error(
            502,
            "host_unavailable"@,
            "no connected host owns thread "@ + thread_id + "'s workspace"@,
        ),
        DispatchOutcome::AlreadyInFlight { run_id } => coded_error(
            409,
            "run_in_flight"@,
            "thread "@ + thread_id + " already has run "@ + run_id@ + " in flight"@,
        ),
        DispatchOutcome::PublishFailed { error, .. } => plain_error(500, error@),
    }
}

/// The answer to a retry whose turn was dispatched, or could not be.
pub fn retry_dispatched(
    thread_id: &str,
    turn_request_id: &str,
    attempt: u64,
    outcome: DispatchOutcome,
) -> (result: Reply)
    ensures
        result@ == retry_view(thread_id@, turn_request_id@, attempt, outcome),
{
    match outcome {
        DispatchOutcome::Dispatched(_) => ok(
            Fields::new().with("ok", Json::Bool(true))
                .with("delivery", Json::text("sent"))
                .with("turnRequestId", Json::text(turn_request_id))
                .with("attempt", Json::UInt(attempt))
                .object(),
        ),
        DispatchOutcome::NoEnvironment { .. } => error_response_with_code(
            409,
            "thread_environment_unavailable",
            joined3("thread ", thread_id, " has no environment that can run a provider"),
        ),
        DispatchOutcome::NoHost { .. } => error_response_with_code(
            502,
            "host_unavailable",
            joined3("no connected host owns thread ", thread_id, "'s workspace"),
        ),
        DispatchOutcome::AlreadyInFlight { run_id } => {
            let mut problem: String = joined3("thread ", thread_id, " already has run ");
            problem.append(run_id.as_str());
            problem.append(" in flight");
            error_response_with_code(409, "run_in_flight", problem)
        },
        DispatchOutcome::PublishFailed { error, .. } => error_response(500, error),
    }
}

/// Repeats are numbered turn by turn: the first retry of a turn is the first, whatever came before
/// the turn began; and each run that started since and was delivered from no queue, and each repeat
/// that was queued since, makes the next one greater by one.
pub proof fn retries_are_numbered(
    entries: Seq<ThreadEntry>,
    queue: Seq<QueuedMessage>,
    entry: ThreadEntry,
    message: QueuedMessage,
)
    ensures
        turn_runs(entries, queue) <= 1 && turn_retries(queue, turn_began(entries, queue)) == 0
            ==> next_attempt(entries, queue) == 1,
        begins_turn(entry, queue) && turn_retries(queue, entry.event->message.created_at_ms) == 0
            ==> next_attempt(entries.push(entry), queue) == 1,
        turn_runs(entries, queue) > turn_redeliveries(entries, queue) && (
        entry.event matches DomainEvent::ThreadStatusChanged { to, .. } && to is Working)
            ==> next_attempt(entries.push(entry), queue) == next_attempt(entries, queue) + 1,
        message.payload is Retry && !(message.status is Sent) && message.created_at_ms
            >= turn_began(entries, queue) ==> next_attempt(entries, queue.push(message))
            == next_attempt(entries, queue) + 1,
{
    assert(entries.push(entry).drop_last() =~= entries);
    if message.payload is Retry && !(message.status is Sent) {
        assert(queue.push(message).drop_last() =~= queue);
        unsent_repeats_redeliver_nothing(entries, queue, message);
    }
}

/// A repeat that was not sent yet makes no message of a log a delivery.
proof fn unsent_repeats_redeliver_nothing(
    entries: Seq<ThreadEntry>,
    queue: Seq<QueuedMessage>,
    message: QueuedMessage,
)
    requires
        !(message.status is Sent),
    ensures
        turn_began(entries, queue.push(message)) == turn_began(entries, queue),
        turn_runs(entries, queue.push(message)) == turn_runs(entries, queue),
        turn_redeliveries(entries, queue.push(message)) == turn_redeliveries(entries, queue),
    decreases entries.len(),
{
    let more = queue.push(message);
    assert forall|m: Message| #[trigger] redelivered(m, more) == redelivered(m, queue) by {
        if redelivered(m, queue) {
            let i = choose|i: int|
                0 <= i < queue.len() && (#[trigger] queue[i]).payload is Retry
                    && queue[i].status is Sent && queue[i].text@ == m.content@
                    && queue[i].updated_at_ms == m.created_at_ms;
            assert(more[i] == queue[i]);
        }
        if redelivered(m, more) {
            let i = choose|i: int|
                0 <= i < more.len() && (#[trigger] more[i]).payload is Retry
                    && more[i].status is Sent && more[i].text@ == m.content@
                    && more[i].updated_at_ms == m.created_at_ms;
            assert(more[i] == queue[i]);
        }
    }
    if entries.len() > 0 {
        unsent_repeats_redeliver_nothing(entries.drop_last(), queue, message);
        assert(begins_turn(entries.last(), more) == begins_turn(entries.last(), queue));
    }
}

/// Why a turn could not be appended.
#[derive(Debug, PartialEq, Eq)]
pub enum TurnError {
    /// The domain refused the message.
    Command(CommandError),
    /// The events could not be published.
    Publish(String),
}

/// What a refused command says.
pub open spec fn command_message(error: CommandError) -> Seq<char> {
    match error {
        CommandError::NotFound(message) => message@,
        CommandError::Conflict(message) => message@,
        CommandError::Invalid(message) => message@,
        CommandError::Domain(message) => message@,
    }
}

impl TurnError {
    /// The reason, for a caller that has no client to answer.
    pub fn reason(&self) -> (result: String)
        ensures
            result@ == (match *self {
                TurnError::Command(error) => command_message(error),
                TurnError::Publish(message) => message@,
            }),
    {
        match self {
            TurnError::Command(error) => match error {
                CommandError::NotFound(message) => message.clone(),
                CommandError::Conflict(message) => message.clone(),
                CommandError::Invalid(message) => message.clone(),
                CommandError::Domain(message) => message.clone(),
            },
            TurnError::Publish(message) => message.clone(),
        }
    }

    /// The answer to a client.
    pub fn into_response(self) -> (result: Reply)
        ensures
            result@ == (match self {
                TurnError::Command(CommandError::NotFound(message)) => plain_error(404, message@),
                TurnError::Command(CommandError::Conflict(message)) => plain_error(409, message@),
                TurnError::Command(CommandError::Invalid(message)) => plain_error(400, message@),
                TurnError::Command(CommandError::Domain(message)) => plain_error(409, message@),
                TurnError::Publish(message) => plain_error(500, message@),
            }),
    {
        match self {
            TurnError::Command(error) => command_error_response(error),
            TurnError::Publish(message) => error_response(500, message),
        }
    }
}

/// What is to be done once a message was added and its events published.
#[derive(Debug, PartialEq, Eq)]
pub enum TurnStep {
    /// The append failed.
    Failed(TurnError),
    /// The message is there, and no turn started.
    Appended,
    /// The message started a turn, which is to be dispatched.
    Dispatch,
}

/// Whether events hold a change of a thread's status: that is what starts a turn.
pub open spec fn starts_turn(events: Seq<DomainEvent>) -> bool {
    exists|i: int| 0 <= i < events.len() && #[trigger] events[i] is ThreadStatusChanged
}

/// What is to be done once a message was added and its events published, or either failed.
pub fn append_thread_message(
    posted: Result<Vec<DomainEvent>, CommandError>,
    published: Result<(), String>,
) -> (result: TurnStep)
    ensures
        result == (match posted {
            Err(error) => TurnStep::Failed(TurnError::Command(error)),
            Ok(events) => match published {
                Err(problem) => TurnStep::Failed(TurnError::Publish(problem)),
                Ok(_) => if starts_turn(events@) {
                    TurnStep::Dispatch
                } else {
                    TurnStep::Appended
                },
            },
        }),
{
    let events: Vec<DomainEvent> = match posted {
        Ok(events) => events,
        Err(error) => {
            return TurnStep::Failed(TurnError::Command(error));
        },
    };
    if let Err(problem) = published {
        return TurnStep::Failed(TurnError::Publish(problem));
    }
    for i in 0..events.len()
        invariant
            forall|k: int| 0 <= k < i ==> !(#[trigger] events@[k] is ThreadStatusChanged),
            posted == Ok::<Vec<DomainEvent>, CommandError>(events),
            published is Ok,
    {
        if matches!(events[i], DomainEvent::ThreadStatusChanged { .. }) {
            assert(events@[i as int] is ThreadStatusChanged);
            return TurnStep::Dispatch;
        }
    }
    TurnStep::Appended
}

/// Where a request to create a thread came from.
#[derive(Clone, Copy, Debug, PartialEq, Eq, Structural)]
pub enum CreateThreadOrigin {
    /// The app.
    App,
    /// The command line.
    Cli,
    /// A program.
    Sdk,
    /// A plugin.
    Plugin,
}

/// The workspace that a new thread is to run in.
#[derive(Debug, PartialEq, Eq)]
pub enum CreateThreadEnvironment {
    /// One that exists.
    Reuse {
        /// The workspace.
        environment_id: String,
    },
    /// Whatever the project decides: the thread stays unbound until its first turn.
    ProjectDefault,
}

/// A request to create a thread.
pub struct CreateThreadRequest {
    /// The project that it belongs to.
    pub project_id: String,
    /// Where the request came from.
    pub origin: CreateThreadOrigin,
    /// The first prompt's blocks.
    pub input: Vec<Json>,
    /// The workspace.
    pub environment: CreateThreadEnvironment,
    /// A title.
    pub title: Option<String>,
    /// The agent that the client picked.
    pub provider_id: Option<String>,
    /// The model that the client picked.
    pub model: Option<String>,
    /// The reasoning level that the client picked.
    pub reasoning_level: Option<String>,
}

impl CreateThreadRequest {
    /// The workspace that the thread binds, if any.
    pub fn environment_id(&self) -> (result: Option<String>)
        ensures
            result == (match self.environment {
                CreateThreadEnvironment::Reuse { environment_id } => Some(environment_id),
                CreateThreadEnvironment::ProjectDefault => None,
            }),
    {
        match &self.environment {
            CreateThreadEnvironment::Reuse { environment_id } => Some(environment_id.clone()),
            CreateThreadEnvironment::ProjectDefault => None,
        }
    }
}

/// The first prompt of a new thread: none where its input is empty.
pub fn create_thread_input_text(input: Vec<Json>) -> (result: Result<Option<String>, String>)
    ensures
        if input@.len() == 0 {
            result == Ok::<Option<String>, String>(None)
        } else {
            match input_text(Tree::Array(crate::json::trees(input@))) {
                Ok(text) => result matches Ok(Some(prompt)) && prompt@ == text,
                Err(problem) => result matches Err(message) && message@ == problem,
            }
        },
{
    if input.len() == 0 {
        return Ok(None);
    }
    match text_from_queued_input(&Json::array(input)) {
        Ok(text) => Ok(Some(text)),
        Err(problem) => Err(problem),
    }
}

/// Why a deletion waits for a confirmation: the thread has children and they were not confirmed.
pub fn delete_thread(thread_id: &str, child_count: u64, confirmed: bool) -> (result: Option<Reply>)
    ensures
        match result {
            None => child_count == 0 || confirmed,
            Some(reply) => child_count > 0 && !confirmed && reply@ == (ReplyView {
                status: 409,
                body: error_tree(
                    "child_threads_confirmation_required"@,
                    "thread "@ + thread_id@ + " has "@ + decimal(child_count as nat)
                        + " child thread(s); confirm deletion"@,
                ).field(
                    "details"@,
                    object().field("childThreadCount"@, Tree::UInt(child_count)),
                ),
            }),
        },
{
    if child_count > 0 && !confirmed {
        let count: String = decimal_text(child_count);
        let mut problem: String = joined3("thread ", thread_id, " has ");
        problem.append(count.as_str());
        problem.append(" child thread(s); confirm deletion");
        return Some(
            error_response_with_details(
                409,
                "child_threads_confirmation_required",
                problem,
                Fields::new().with("childThreadCount", Json::UInt(child_count)).object(),
            ),
        );
    }
    None
}

/// Why a thread cannot be forked: it is archived, or has no session to fork, or else no machine
/// can do it.
pub open spec fn fork_refusal(source: Thread) -> ReplyView {
    if source.status is Archived {
        ReplyView {
            status: 409,
            body: error_tree(
                "thread_not_writable"@,
                "thread "@ + source.id@ + " is archived and cannot be forked"@,
            ).field(
                "details"@,
                object().field("reason"@, Tree::Str("archived"@))
                    .field("archivedAt"@, opt_uint_tree(source.archived_at_ms))
                    .field("threadStatus"@, Tree::Str(status_word(source.status))),
            ),
        }
    } else if source.provider_session_id is None {
        coded_error(
            400,
            "fork_source_session_unavailable"@,
            "thread "@ + source.id@ + " has no provider session to use as a fork source"@,
        )
    } else {
        coded_error(
            501,
            "not_configured"@,
            "ACP session/fork is not configured for source thread "@ + source.id@,
        )
    }
}

/// Why a thread cannot be forked.
pub fn fork_thread(source: &Thread) -> (result: Reply)
    ensures
        result@ == fork_refusal(*source),
{
    if matches!(source.status, ThreadStatus::Archived) {
        let details: Json = Fields::new().with("reason", Json::text("archived"))
            .with("archivedAt", Json::opt_uint(source.archived_at_ms))
            .with("threadStatus", Json::text(bb_thread_status(source.status)))
            .object();
        return error_response_with_details(
            409,
            "thread_not_writable",
            joined3("thread ", source.id.as_str(), " is archived and cannot be forked"),
            details,
        );
    }
    if source.provider_session_id.is_none() {
        return error_response_with_code(
            400,
            "fork_source_session_unavailable",
            joined3(
                "thread ",
                source.id.as_str(),
                " has no provider session to use as a fork source",
            ),
        );
    }
    error_response_with_code(
        501,
        "not_configured",
        joined("ACP session/fork is not configured for source thread ", source.id.as_str()),
    )
}

/// The answer that a thread's context cannot be compacted.
pub fn compact_thread(thread_id: &str) -> (result: Reply)
    ensures
        result@ == coded_error(
            501,
            "not_configured"@,
            "loom's provider protocol has no compaction frame; thread "@ + thread_id@
                + " cannot be compacted"@,
        ),
{
    error_response_with_code(
        501,
        "not_configured",
        joined3(
            "loom's provider protocol has no compaction frame; thread ",
            thread_id,
            " cannot be compacted",
        ),
    )
}

/// The answer that a message that was sent cannot be rewritten.
pub fn edit_thread_message(thread_id: &str) -> (result: Reply)
    ensures
        result@ == coded_error(
            501,
            "not_configured"@,
            "loom's provider protocol cannot rewrite a sent turn; message editing is not available for thread "@
                + thread_id@,
        ),
{
    error_response_with_code(
        501,
        "not_configured",
        joined(
            "loom's provider protocol cannot rewrite a sent turn; message editing is not available for thread ",
            thread_id,
        ),
    )
}

/// The answer that a thread's context cannot be cleared.
pub fn clear_thread_context(thread_id: &str) -> (result: Reply)
    ensures
        result@ == coded_error(
            501,
            "not_configured"@,
            "loom's provider protocol has no frame that clears a provider session's context; thread "@
                + thread_id@ + " keeps its context"@,
        ),
{
    error_response_with_code(
        501,
        "not_configured",
        joined3(
            "loom's provider protocol has no frame that clears a provider session's context; thread ",
            thread_id,
            " keeps its context",
        ),
    )
}

/// The answer that a running plan cannot be cancelled.
pub fn cancel_thread_plan(thread_id: &str) -> (result: Reply)
    ensures
        result@ == coded_error(
            501,
            "not_configured"@,
            "loom's provider protocol cannot cancel a running plan; stop the thread's turn instead (thread "@
                + thread_id@ + ")"@,
        ),
{
    error_response_with_code(
        501,
        "not_configured",
        joined3(
            "loom's provider protocol cannot cancel a running plan; stop the thread's turn instead (thread ",
            thread_id,
            ")",
        ),
    )
}

/// The event that clears a thread's goal.
#[derive(Debug, PartialEq, Eq)]
pub struct GoalCleared {
    /// The thread.
    pub thread_id: String,
    /// Its project.
    pub project_id: String,
    /// The run that the event is scoped to.
    pub run_id: String,
    /// When.
    pub at_ms: u64,
    /// The identity that it is reported under.
    pub provider_thread_id: String,
}

/// The event that clears a thread's goal: a goal needs no run, so a settled thread clears it under
/// a run of its own.
pub fn clear_thread_goal(thread: &Thread, active_run: Option<String>, minted: String, now_ms: u64) -> (result:
    GoalCleared)
    ensures
        result == (GoalCleared {
            thread_id: thread.id,
            project_id: thread.project_id,
            run_id: match active_run {
                Some(run) => run,
                None => minted,
            },
            at_ms: now_ms,
            provider_thread_id: thread.id,
        }),
{
    GoalCleared {
        thread_id: thread.id.clone(),
        project_id: thread.project_id.clone(),
        run_id: match active_run {
            Some(run) => run,
            None => minted,
        },
        at_ms: now_ms,
        provider_thread_id: thread.id.clone(),
    }
}

/// Once a goal was cleared, neither the timeline nor the sidebar shows one.
pub proof fn cleared_goals_are_gone(entries: Seq<ThreadEntry>, entry: ThreadEntry)
    requires
        run_of(entry) is Some,
        run_of(entry)->0.kind@ == "thread/goal/cleared"@,
    ensures
        current_goal(entries.push(entry)) is None,
        !switched_on(entries.push(entry), "thread/goal/updated"@, "thread/goal/cleared"@),
{
    assert(entries.push(entry).drop_last() =~= entries);
    reveal_strlit("thread/goal/updated");
    reveal_strlit("thread/goal/cleared");
    assert("thread/goal/updated"@[12] == 'u');
    assert("thread/goal/cleared"@[12] == 'c');
    crate::timeline::goals_are_shown(entries.push(entry));
}

/// A file that viewers of a thread are to open.
#[derive(Debug, PartialEq, Eq)]
pub struct OpenThreadFile {
    /// Where it comes from.
    pub source: String,
    /// Its path.
    pub path: String,
    /// The line to show.
    pub line_number: Option<u64>,
}

/// The frame that tells a thread's viewers to open a file.
pub open spec fn open_frame(
    thread_id: Seq<char>,
    file: Option<OpenThreadFile>,
    split: Option<Seq<char>>,
    now_ms: u64,
) -> Tree {
    object().field("type"@, Tree::Str("thread_open_requested"@))
        .field("threadId"@, Tree::Str(thread_id))
        .field(
            "file"@,
            match file {
                Some(file) => object().field("source"@, Tree::Str(file.source@))
                    .field("path"@, Tree::Str(file.path@))
                    .field("lineNumber"@, opt_uint_tree(file.line_number)),
                None => Tree::Null,
            },
        )
        .field("split"@, opt_tree(split))
        .field("atMs"@, Tree::UInt(now_ms))
}

/// The frame that tells a thread's viewers to open a file.
pub fn open_thread(
    thread_id: &str,
    file: &Option<OpenThreadFile>,
    split: &Option<String>,
    now_ms: u64,
) -> (result: Json)
    ensures
        result@ == open_frame(thread_id@, *file, opt_view(*split), now_ms),
{
    let file: Json = match file {
        Some(file) => Fields::new().with("source", Json::text(file.source.as_str()))
            .with("path", Json::text(file.path.as_str()))
            .with("lineNumber", Json::opt_uint(file.line_number))
            .object(),
        None => Json::Null,
    };
    Fields::new().with("type", Json::text("thread_open_requested"))
        .with("threadId", Json::text(thread_id))
        .with("file", file)
        .with("split", Json::opt_text(split))
        .with("atMs", Json::UInt(now_ms))
        .object()
}

/// How many local viewers an open request reached.
pub fn open_delivered(count: u64) -> (result: Reply)
    ensures
        result@ == ok_view(object().field("delivered"@, Tree::UInt(count))),
{
    ok(Fields::new().with("delivered", Json::UInt(count)).object())
}

/// A thread as a mention in a prompt.
pub open spec fn mention_tree(thread: Thread) -> Tree {
    object().field("threadId"@, Tree::Str(thread.id@))
        .field("projectId"@, Tree::Str(thread.project_id@))
        .field(
            "label"@,
            Tree::Str(
                match thread.title {
                    Some(title) => title@,
                    None => "Thread "@ + thread.id@,
                },
            ),
        )
}

/// Threads as mentions in a prompt.
pub fn resolve_thread_mentions(threads: &Vec<Thread>) -> (result: Reply)
    ensures
        result@ == ok_view(
            Tree::Array(Seq::new(threads@.len(), |i: int| mention_tree(threads@[i]))),
        ),
{
    let mut rows: Vec<Json> = Vec::new();
    for i in 0..threads.len()
        invariant
            rows@.len() == i,
            forall|k: int| 0 <= k < i ==> (#[trigger] rows@[k])@ == mention_tree(threads@[k]),
    {
        let thread: &Thread = &threads[i];
        let label: Json = match &thread.title {
            Some(title) => Json::text(title.as_str()),
            None => Json::Str(joined("Thread ", thread.id.as_str())),
        };
        rows.push(
            Fields::new().with("threadId", Json::text(thread.id.as_str()))
                .with("projectId", Json::text(thread.project_id.as_str()))
                .with("label", label)
                .object(),
        );
    }
    assert(crate::json::trees(rows@) =~= Seq::new(
        threads@.len(),
        |i: int| mention_tree(threads@[i]),
    ));
    ok(Json::array(rows))
}

/// The threads that were archived together.
pub fn archived_together(thread_ids: &Vec<String>) -> (result: Reply)
    ensures
        result@ == ok_view(
            object().field("ok"@, Tree::Bool(true)).field(
                "archivedThreadIds"@,
                crate::json::text_array(crate::text::texts(thread_ids@)),
            ),
        ),
{
    ok(
        Fields::new().with("ok", Json::Bool(true)).with(
            "archivedThreadIds",
            Json::texts(thread_ids),
        ).object(),
    )
}

// What turns promise.

/// The texts of a prompt's parts, one behind the other.
pub open spec fn parts_said(input: Seq<SendInput>) -> Seq<char> {
    input.map_values(|part: SendInput| part->text@).flatten()
}

/// A prompt is the texts of its parts, one behind the other, where that says something.
pub proof fn prompts_are_their_parts(input: Seq<SendInput>)
    ensures
        blank(parts_said(input)) ==> prompt_text(input) is None,
        !blank(parts_said(input)) ==> prompt_text(input) == Some(parts_said(input)),
{
    parts_follow_one_another(input);
}

/// The text of a prompt's parts is their texts one behind the other.
proof fn parts_follow_one_another(input: Seq<SendInput>)
    ensures
        parts_text(input) == parts_said(input),
    decreases input.len(),
{
    let said = |part: SendInput| part->text@;
    if input.len() == 0 {
        assert(input.map_values(said) =~= Seq::<Seq<char>>::empty());
        assert(parts_said(input) =~= Seq::<char>::empty());
    } else {
        let rest = input.drop_last();
        parts_follow_one_another(rest);
        let texts = rest.map_values(said);
        assert(input.map_values(said) =~= texts.push(said(input.last())));
        flattened_with_last(texts, said(input.last()));
    }
}

/// One text more is put behind all others.
proof fn flattened_with_last(texts: Seq<Seq<char>>, last: Seq<char>)
    ensures
        texts.push(last).flatten() == texts.flatten() + last,
    decreases texts.len(),
{
    if texts.len() == 0 {
        let one = texts.push(last);
        assert(one.drop_first() =~= Seq::<Seq<char>>::empty());
        assert(one.first() == last);
        assert(one.drop_first().flatten() =~= Seq::<char>::empty());
        assert(texts.flatten() =~= Seq::<char>::empty());
        assert(one.flatten() =~= last);
    } else {
        let more = texts.push(last);
        assert(more.drop_first() =~= texts.drop_first().push(last));
        flattened_with_last(texts.drop_first(), last);
        assert(more.flatten() =~= more.first() + more.drop_first().flatten());
        assert(texts.flatten() =~= texts.first() + texts.drop_first().flatten());
    }
}

/// A prompt is sent at once exactly where its thread is idle, no run is in flight and it is not for
/// later. It waits in the queue where the thread is busy and the sender lets it, or where it is for
/// later; a turn that runs is never steered.
#[verifier::rlimit(30)]
pub proof fn sends_go_out_or_wait(
    thread: Thread,
    run_in_flight: bool,
    request: SendThreadRequest,
    now: u64,
    step: SendStep,
)
    requires
        call_ensures(send_thread, (&thread, run_in_flight, request, now), step),
    ensures
        ({
            let says = !blank(parts_said(request.input@));
            let busy = thread.status != ThreadStatus::Idle || run_in_flight;
            let later = request.send_at is Some && request.send_at->0 > now;
            let may_wait = request.mode is Auto || request.mode is QueueIfActive;
            let tier_known = request.service_tier is None || request.service_tier->0@ == "default"@ || request.service_tier->0@ == "fast"@;
            &&& step is Send <==> says && !busy && !later
            &&& step matches SendStep::Send { content, options } ==> {
                &&& content@ == parts_said(request.input@)
                &&& options is None <==> request.model is None && request.reasoning_level is None
                &&& options matches Some(update) ==> update.provider_id is None && update.model == request.model && update.reasoning_level == request.reasoning_level
            }
            &&& step is Queue <==> says && (busy || later) && (busy ==> may_wait) && tier_known && request.sender is Ok
            &&& step matches SendStep::Queue { message, waiting_on } ==> {
                &&& waiting_on == WaitingOn::Time <==> later
                &&& waiting_on == WaitingOn::ThreadBusy <==> !later
                &&& message.text@ == parts_said(request.input@)
                &&& message.thread_id@ == thread.id@
                &&& message.sender_thread_id == request.sender->Ok_0
                &&& message.model == request.model
                &&& message.reasoning_level == request.reasoning_level
                &&& message.permission_mode == request.permission_mode
                &&& message.service_tier == ServiceTier::Fast <==> request.service_tier is Some && request.service_tier->0@ == "fast"@
                &&& message.send_at == request.send_at
                &&& message.payload is Inline
            }
            &&& !says ==> step is Refuse && refuses(step->Refuse_0@, 400, "invalid_request"@, "loom currently accepts text prompt inputs only"@)
            &&& (says && busy && (request.mode is Steer || request.mode is SteerIfActive)) ==> step is Refuse && refuses(step->Refuse_0@, 501, "not_configured"@, "loom's provider protocol cannot steer a running turn; thread "@ + thread.id@ + " is "@ + thread.status.spec_as_str())
            &&& (says && busy && request.mode is Start) ==> step is Refuse && refuses(step->Refuse_0@, 501, "not_configured"@, "thread "@ + thread.id@ + " is "@ + thread.status.spec_as_str() + "; a `start` send needs the queue, which this client did not ask for"@)
        }),
{
    broadcast use {crate::json::member_of_field, crate::reply::errors_say_what_is_wrong};

    reveal_strlit("fast");
    reveal_strlit("default");
    assert("fast"@.len() == 4);
    assert("default"@.len() == 7);
    prompts_are_their_parts(request.input@);
}

/// A prompt that went out is answered as sent; one that waits is answered as queued, with its row.
pub proof fn sends_are_answered_plainly(
    message: QueuedMessage,
    waiting_on: WaitingOn,
    providers: Vec<ProviderSpec>,
    queued: Reply,
    sent: Reply,
)
    requires
        call_ensures(send_queued, (&message, waiting_on, &providers), queued),
        call_ensures(send_delivered, (), sent),
    ensures
        queued@.status == 200,
        sent@.status == 200,
        member(queued@.body, "ok"@) == Some(Tree::Bool(true)),
        member(queued@.body, "delivery"@) == Some(Tree::Str("queued"@)),
        member(queued@.body, "queuedMessage"@) == Some(message_tree(message, Some(waiting_on), providers@)),
        member(sent@.body, "ok"@) == Some(Tree::Bool(true)),
        member(sent@.body, "delivery"@) == Some(Tree::Str("sent"@)),
{
    broadcast use {crate::json::member_of_field, crate::reply::errors_say_what_is_wrong};

    reveal_strlit("ok");
    reveal_strlit("delivery");
    reveal_strlit("queuedMessage");
    assert("ok"@.len() == 2);
    assert("delivery"@.len() == 8);
    assert("queuedMessage"@.len() == 13);
}

/// A retry repeats what the user last said: the last message of the log that is a user's.
pub proof fn retries_repeat_the_last_prompt(entries: Seq<ThreadEntry>)
    ensures
        last_prompt(entries) is None <==> forall|i: int|
            0 <= i < entries.len() ==> !is_prompt(#[trigger] entries[i]),
        last_prompt(entries) is Some ==> exists|i: int| #[trigger]
            is_last_prompt(entries, i) && last_prompt(entries) == Some(
                entries[i].event->ThreadMessageAdded_message.content@,
            ),
    decreases entries.len(),
{
    if entries.len() > 0 {
        let rest = entries.drop_last();
        let n = entries.len() - 1;
        retries_repeat_the_last_prompt(rest);
        assert(entries[n] == entries.last());
        if is_prompt(entries[n]) {
            assert(is_last_prompt(entries, n));
        } else {
            if last_prompt(rest) is Some {
                let i = choose|i: int| #[trigger]
                    is_last_prompt(rest, i) && last_prompt(rest) == Some(
                        rest[i].event->ThreadMessageAdded_message.content@,
                    );
                assert(entries[i] == rest[i]);
                assert forall|j: int| i < j < entries.len() implies !is_prompt(
                    #[trigger] entries[j],
                ) by {
                    if j < n {
                        assert(rest[j] == entries[j]);
                    }
                }
                assert(is_last_prompt(entries, i));
            } else {
                assert forall|i: int| 0 <= i < entries.len() implies !is_prompt(
                    #[trigger] entries[i],
                ) by {
                    if i < n {
                        assert(rest[i] == entries[i]);
                    }
                }
            }
        }
    }
}

/// Whether an entry is what the user said.
pub open spec fn is_prompt(entry: ThreadEntry) -> bool {
    entry.event is ThreadMessageAdded && entry.event->ThreadMessageAdded_message.role
        == MessageRole::User
}

/// Whether an entry is the last thing that the user said.
pub open spec fn is_last_prompt(entries: Seq<ThreadEntry>, i: int) -> bool {
    &&& 0 <= i < entries.len()
    &&& is_prompt(entries[i])
    &&& forall|j: int| i < j < entries.len() ==> !is_prompt(#[trigger] entries[j])
}

/// How an attempt is counted. What the user says begins a turn unless a repeat of the queue said it
/// again; a turn counts how often its thread went to work and how often it was said again.
pub proof fn attempts_count_from_what_was_said(
    entries: Seq<ThreadEntry>,
    queue: Seq<QueuedMessage>,
    entry: ThreadEntry,
)
    ensures
        ({
            let more = entries.push(entry);
            let message = entry.event->ThreadMessageAdded_message;
            let again = exists|i: int|
                0 <= i < queue.len() && (#[trigger] queue[i]).payload is Retry && queue[i].status
                    == QueuedMessageStatus::Sent && queue[i].text@ == message.content@
                    && queue[i].updated_at_ms == message.created_at_ms;
            let worked = entry.event matches DomainEvent::ThreadStatusChanged { to, .. } && to
                == ThreadStatus::Working;
            &&& is_prompt(entry) && !again ==> {
                &&& turn_began(more, queue) == message.created_at_ms
                &&& turn_runs(more, queue) == 0
                &&& turn_redeliveries(more, queue) == 0
            }
            &&& is_prompt(entry) && again ==> {
                &&& turn_began(more, queue) == turn_began(entries, queue)
                &&& turn_runs(more, queue) == turn_runs(entries, queue)
                &&& turn_redeliveries(more, queue) == turn_redeliveries(entries, queue) + 1
            }
            &&& !is_prompt(entry) ==> {
                &&& turn_began(more, queue) == turn_began(entries, queue)
                &&& turn_redeliveries(more, queue) == turn_redeliveries(entries, queue)
                &&& worked ==> turn_runs(more, queue) == turn_runs(entries, queue) + 1
                &&& !worked ==> turn_runs(more, queue) == turn_runs(entries, queue)
            }
        }),
        turn_began(Seq::empty(), queue) == 0,
        turn_runs(Seq::empty(), queue) == 0,
        turn_redeliveries(Seq::empty(), queue) == 0,
{
    let more = entries.push(entry);
    assert(more.drop_last() =~= entries);
    assert(more.last() == entry);
    let message = entry.event->ThreadMessageAdded_message;
    assert(redelivered(message, queue) == exists|i: int|
        0 <= i < queue.len() && (#[trigger] queue[i]).payload is Retry && queue[i].status
            == QueuedMessageStatus::Sent && queue[i].text@ == message.content@
            && queue[i].updated_at_ms == message.created_at_ms);
}

/// The repeats of a turn are those of the queue that were made since it began.
pub proof fn repeats_count_from_the_turn(queue: Seq<QueuedMessage>, began: u64)
    ensures
        turn_retries(queue, began) == queue.filter(
            |message: QueuedMessage| message.payload is Retry && message.created_at_ms >= began,
        ).len(),
    decreases queue.len(),
{
    reveal(Seq::filter);
    if queue.len() > 0 {
        repeats_count_from_the_turn(queue.drop_last(), began);
    }
}

/// A thread's last turn is repeated at once exactly where no turn runs or is awaited and the repeat
/// is not for later; otherwise it waits in the queue. It has the number behind every run and repeat
/// of that turn. An archived thread is not written to, and one without a turn has nothing to
/// repeat.
#[verifier::rlimit(30)]
pub proof fn retries_run_or_wait(
    thread: Thread,
    request: RetryThreadRequest,
    entries: Vec<ThreadEntry>,
    queue: Vec<QueuedMessage>,
    run_in_flight: bool,
    now: u64,
    step: RetryStep,
)
    requires
        call_ensures(retry_thread, (&thread, &request, &entries, &queue, run_in_flight, now), step),
    ensures
        ({
            let busy = thread.status == ThreadStatus::Working || thread.status == ThreadStatus::Waiting || run_in_flight;
            let later = request.send_at is Some && request.send_at->0 > now;
            let fit = thread.status != ThreadStatus::Archived && request.well_formed_id && last_prompt(entries@) is Some;
            let ran = turn_runs(entries@, queue@);
            let said = 1 + turn_redeliveries(entries@, queue@);
            let repeats = turn_retries(queue@, turn_began(entries@, queue@));
            let number: int = if ran > said { 1 + repeats + ran - said } else { 1 + repeats as int };
            &&& step is Refuse <==> !fit
            &&& step is Run <==> fit && !busy && !later
            &&& step is Queue <==> fit && (busy || later)
            &&& step matches RetryStep::Run { trigger, prompt, attempt } ==> {
                &&& last_prompt(entries@) == Some(prompt@)
                &&& attempt == number
                &&& thread.status == ThreadStatus::Idle ==> trigger == ThreadTrigger::RunStarted
                &&& thread.status != ThreadStatus::Idle ==> trigger == ThreadTrigger::Retry
            }
            &&& step matches RetryStep::Queue { message, waiting_on, attempt } ==> {
                &&& later ==> waiting_on == WaitingOn::Time
                &&& !later ==> waiting_on == WaitingOn::ThreadBusy
                &&& attempt == number
                &&& last_prompt(entries@) == Some(message.text@)
                &&& message.thread_id@ == thread.id@
                &&& message.sender_thread_id is None
                &&& message.model == thread.model
                &&& message.reasoning_level == thread.reasoning_level
                &&& message.permission_mode is None
                &&& message.service_tier == ServiceTier::Default
                &&& message.send_at == request.send_at
                &&& message.payload is Retry
                &&& message.payload->retry_of_turn_request_id == request.turn_request_id
                &&& message.payload->attempt == number
                &&& request.reason is None ==> message.payload->reason@ == "Retry"@
                &&& request.reason matches Some(reason) ==> message.payload->reason@ == reason@
            }
            &&& thread.status == ThreadStatus::Archived ==> refuses(step->Refuse_0@, 409, "thread_not_writable"@, "thread "@ + thread.id@ + " is archived"@)
            &&& (thread.status != ThreadStatus::Archived && !request.well_formed_id) ==> refuses(step->Refuse_0@, 400, "invalid_request"@, "turnRequestId "@ + debug_quoted(request.turn_request_id@) + " is not a creq_ id"@)
            &&& (thread.status != ThreadStatus::Archived && request.well_formed_id && last_prompt(entries@) is None) ==> refuses(step->Refuse_0@, 409, "no_failed_turn"@, "thread "@ + thread.id@ + " has no user turn to retry"@)
        }),
{
    broadcast use {crate::json::member_of_field, crate::reply::errors_say_what_is_wrong};

}

/// A repeat that waits is answered with its number, its row's id and what it waits on.
pub proof fn queued_retries_are_announced(
    turn_request_id: &str,
    attempt: u64,
    message: QueuedMessage,
    waiting_on: WaitingOn,
    answer: Reply,
)
    requires
        call_ensures(retry_queued, (turn_request_id, attempt, &message, waiting_on), answer),
    ensures
        answer@.status == 200,
        member(answer@.body, "ok"@) == Some(Tree::Bool(true)),
        member(answer@.body, "delivery"@) == Some(Tree::Str("queued"@)),
        member(answer@.body, "turnRequestId"@) == Some(Tree::Str(turn_request_id@)),
        member(answer@.body, "attempt"@) == Some(Tree::UInt(attempt)),
        member(answer@.body, "queuedMessageId"@) == Some(Tree::Str(message.id@)),
        member(answer@.body, "waitingOn"@) is Some,
        waiting_on == WaitingOn::Time ==> member(member(answer@.body, "waitingOn"@)->0, "kind"@) == Some(Tree::Str("time"@)),
        waiting_on == WaitingOn::ThreadBusy ==> member(member(answer@.body, "waitingOn"@)->0, "kind"@) == Some(Tree::Str("thread-busy"@)),
        message.send_at is None ==> member(answer@.body, "sendAt"@) == Some(Tree::Null),
        message.send_at matches Some(at) ==> member(answer@.body, "sendAt"@) == Some(Tree::UInt(at)),
{
    broadcast use {crate::json::member_of_field, crate::reply::errors_say_what_is_wrong};

    reveal_strlit("ok");
    reveal_strlit("kind");
    reveal_strlit("sendAt");
    reveal_strlit("attempt");
    reveal_strlit("delivery");
    reveal_strlit("waitingOn");
    reveal_strlit("turnRequestId");
    reveal_strlit("queuedMessageId");
    assert("ok"@.len() == 2);
    assert("kind"@.len() == 4);
    assert("sendAt"@.len() == 6);
    assert("attempt"@.len() == 7);
    assert("delivery"@.len() == 8);
    assert("waitingOn"@.len() == 9);
    assert("turnRequestId"@.len() == 13);
    assert("queuedMessageId"@.len() == 15);
}

/// A repeat goes on where its thread moved; otherwise the answer says why it did not.
pub proof fn retries_need_a_thread_that_moves(
    thread_id: &str,
    moved: Result<bool, CommandError>,
    answer: Option<Reply>,
)
    requires
        call_ensures(retry_moved, (thread_id, moved), answer),
    ensures
        answer is None <==> moved == Ok::<bool, CommandError>(true),
        moved == Ok::<bool, CommandError>(false) ==> refuses(answer->0@, 409, "conflict"@, "thread "@ + thread_id@ + " is not in a status a retry applies to"@),
        moved matches Err(CommandError::NotFound(message)) ==> refuses(answer->0@, 404, "not_found"@, message@),
        moved matches Err(CommandError::Conflict(message)) ==> refuses(answer->0@, 409, "conflict"@, message@),
        moved matches Err(CommandError::Domain(message)) ==> refuses(answer->0@, 409, "conflict"@, message@),
        moved matches Err(CommandError::Invalid(message)) ==> refuses(answer->0@, 400, "invalid_request"@, message@),
{
    broadcast use {crate::json::member_of_field, crate::reply::errors_say_what_is_wrong};

}

/// A repeat that was dispatched is answered as sent, with its number; any other is refused for what
/// stood in its way.
pub proof fn retries_answer_what_became_of_them(
    thread_id: &str,
    turn_request_id: &str,
    attempt: u64,
    outcome: DispatchOutcome,
    answer: Reply,
)
    requires
        call_ensures(retry_dispatched, (thread_id, turn_request_id, attempt, outcome), answer),
    ensures
        outcome is Dispatched ==> answer@.status == 200 && member(answer@.body, "ok"@) == Some(Tree::Bool(true)) && member(answer@.body, "delivery"@) == Some(Tree::Str("sent"@)) && member(answer@.body, "turnRequestId"@) == Some(Tree::Str(turn_request_id@)) && member(answer@.body, "attempt"@) == Some(Tree::UInt(attempt)),
        outcome is NoEnvironment ==> refuses(answer@, 409, "thread_environment_unavailable"@, "thread "@ + thread_id@ + " has no environment that can run a provider"@),
        outcome is NoHost ==> refuses(answer@, 502, "host_unavailable"@, "no connected host owns thread "@ + thread_id@ + "'s workspace"@),
        outcome matches DispatchOutcome::AlreadyInFlight { run_id } ==> refuses(answer@, 409, "run_in_flight"@, "thread "@ + thread_id@ + " already has run "@ + run_id@ + " in flight"@),
        outcome is PublishFailed ==> refuses(answer@, 500, "internal_error"@, outcome->error@),
{
    broadcast use {crate::json::member_of_field, crate::reply::errors_say_what_is_wrong};

    reveal_strlit("ok");
    reveal_strlit("attempt");
    reveal_strlit("delivery");
    reveal_strlit("turnRequestId");
    assert("ok"@.len() == 2);
    assert("attempt"@.len() == 7);
    assert("delivery"@.len() == 8);
    assert("turnRequestId"@.len() == 13);
}

/// A turn that could not be made says why, and is answered with the status of what went wrong.
pub proof fn failed_turns_say_why(
    error: TurnError,
    reason: String,
    answer: Reply,
)
    requires
        call_ensures(TurnError::reason, (&error,), reason),
        call_ensures(TurnError::into_response, (error,), answer),
    ensures
        error matches TurnError::Publish(message) ==> reason@ == message@ && refuses(answer@, 500, "internal_error"@, message@),
        error matches TurnError::Command(CommandError::NotFound(message)) ==> reason@ == message@ && refuses(answer@, 404, "not_found"@, message@),
        error matches TurnError::Command(CommandError::Conflict(message)) ==> reason@ == message@ && refuses(answer@, 409, "conflict"@, message@),
        error matches TurnError::Command(CommandError::Domain(message)) ==> reason@ == message@ && refuses(answer@, 409, "conflict"@, message@),
        error matches TurnError::Command(CommandError::Invalid(message)) ==> reason@ == message@ && refuses(answer@, 400, "invalid_request"@, message@),
{
    broadcast use {crate::json::member_of_field, crate::reply::errors_say_what_is_wrong};

}

/// A posted message dispatches its thread exactly where posting it moved the thread; what could not
/// be posted or published failed for that reason.
pub proof fn messages_dispatch_where_the_thread_moved(
    posted: Result<Vec<DomainEvent>, CommandError>,
    published: Result<(), String>,
    step: TurnStep,
)
    requires
        call_ensures(append_thread_message, (posted, published), step),
    ensures
        posted matches Err(error) ==> step == TurnStep::Failed(TurnError::Command(error)),
        posted is Ok && published is Err ==> step == TurnStep::Failed(TurnError::Publish(published->Err_0)),
        posted is Ok && published is Ok ==> !(step is Failed) && (step is Dispatch <==> exists|i: int| 0 <= i < posted->Ok_0@.len() && (#[trigger] posted->Ok_0@[i]) is ThreadStatusChanged),
{
    if posted is Ok {
        assert(starts_turn(posted->Ok_0@) == exists|i: int|
            0 <= i < posted->Ok_0@.len() && (#[trigger] posted->Ok_0@[i]) is ThreadStatusChanged);
    }
}

/// A new thread may begin without a prompt; with input, it begins with what the input says.
pub proof fn new_threads_begin_with_their_input(input: Vec<Json>, answer: Result<Option<String>, String>)
    requires
        call_ensures(create_thread_input_text, (input,), answer),
    ensures
        input@.len() == 0 ==> answer is Ok && answer->Ok_0 is None,
        input@.len() > 0 && answer is Ok ==> answer->Ok_0 is Some && input_text(Tree::Array(crate::json::trees(input@))) == Ok::<Seq<char>, Seq<char>>(answer->Ok_0->0@),
        input@.len() > 0 && answer is Err ==> input_text(Tree::Array(crate::json::trees(input@))) == Err::<Seq<char>, Seq<char>>(answer->Err_0@),
{
}

/// A new thread reuses the environment that its request names, and none where it names none.
pub proof fn new_threads_reuse_the_environment_named(request: CreateThreadRequest, answer: Option<String>)
    requires
        call_ensures(CreateThreadRequest::environment_id, (&request,), answer),
    ensures
        request.environment matches CreateThreadEnvironment::Reuse { environment_id } ==> answer == Some(environment_id),
        request.environment is ProjectDefault ==> answer is None,
{
}

/// A thread with children is deleted only when that was confirmed; the refusal says how many there
/// are.
pub proof fn children_are_not_deleted_unasked(
    thread_id: &str,
    child_count: u64,
    confirmed: bool,
    answer: Option<Reply>,
)
    requires
        call_ensures(delete_thread, (thread_id, child_count, confirmed), answer),
    ensures
        answer is None <==> child_count == 0 || confirmed,
        answer is Some ==> refuses(answer->0@, 409, "child_threads_confirmation_required"@, "thread "@ + thread_id@ + " has "@ + decimal(child_count as nat) + " child thread(s); confirm deletion"@) && (member(answer->0@.body, "details"@) matches Some(details) && member(details, "childThreadCount"@) == Some(Tree::UInt(child_count))),
{
    broadcast use {crate::json::member_of_field, crate::reply::errors_say_what_is_wrong};

    reveal_strlit("code");
    reveal_strlit("details");
    reveal_strlit("message");
    reveal_strlit("childThreadCount");
    assert("code"@.len() == 4);
    assert("details"@.len() == 7 && "details"@[0] == 'd');
    assert("message"@.len() == 7 && "message"@[0] == 'm');
    assert("childThreadCount"@.len() == 16);
}

/// A thread cannot be forked: because it is archived, because it has no conversation to fork, or
/// because forking is not configured.
pub proof fn forks_are_refused_for_what_stands_in_the_way(source: Thread, answer: Reply)
    requires
        call_ensures(fork_thread, (&source,), answer),
    ensures
        source.status == ThreadStatus::Archived ==> refuses(answer@, 409, "thread_not_writable"@, "thread "@ + source.id@ + " is archived and cannot be forked"@) && (member(answer@.body, "details"@) matches Some(details) && member(details, "reason"@) == Some(Tree::Str("archived"@)) && member(details, "archivedAt"@) == Some(opt_uint_tree(source.archived_at_ms))),
        source.status != ThreadStatus::Archived && source.provider_session_id is None ==> refuses(answer@, 400, "fork_source_session_unavailable"@, "thread "@ + source.id@ + " has no provider session to use as a fork source"@),
        source.status != ThreadStatus::Archived && source.provider_session_id is Some ==> refuses(answer@, 501, "not_configured"@, "ACP session/fork is not configured for source thread "@ + source.id@),
{
    broadcast use {crate::json::member_of_field, crate::reply::errors_say_what_is_wrong};

    reveal_strlit("code");
    reveal_strlit("reason");
    reveal_strlit("details");
    reveal_strlit("message");
    reveal_strlit("archivedAt");
    reveal_strlit("threadStatus");
    assert("code"@.len() == 4);
    assert("reason"@.len() == 6);
    assert("details"@.len() == 7 && "details"@[0] == 'd');
    assert("message"@.len() == 7 && "message"@[0] == 'm');
    assert("archivedAt"@.len() == 10);
    assert("threadStatus"@.len() == 12);
}

/// What no provider can be asked for is refused as not configured, by the thread it was asked of.
pub proof fn what_providers_cannot_do_is_refused(
    thread_id: &str,
    compacted: Reply,
    edited: Reply,
    context: Reply,
    plan: Reply,
)
    requires
        call_ensures(compact_thread, (thread_id,), compacted),
        call_ensures(edit_thread_message, (thread_id,), edited),
        call_ensures(clear_thread_context, (thread_id,), context),
        call_ensures(cancel_thread_plan, (thread_id,), plan),
    ensures
        refuses(compacted@, 501, "not_configured"@, "loom's provider protocol has no compaction frame; thread "@ + thread_id@ + " cannot be compacted"@),
        refuses(edited@, 501, "not_configured"@, "loom's provider protocol cannot rewrite a sent turn; message editing is not available for thread "@ + thread_id@),
        refuses(context@, 501, "not_configured"@, "loom's provider protocol has no frame that clears a provider session's context; thread "@ + thread_id@ + " keeps its context"@),
        refuses(plan@, 501, "not_configured"@, "loom's provider protocol cannot cancel a running plan; stop the thread's turn instead (thread "@ + thread_id@ + ")"@),
{
    broadcast use {crate::json::member_of_field, crate::reply::errors_say_what_is_wrong};

}

/// A goal is cleared on its own thread and project, under the run that is active or else under a
/// new one, at the time given.
pub proof fn goals_are_cleared_on_the_thread(
    thread: Thread,
    active_run: Option<String>,
    minted: String,
    now_ms: u64,
    cleared: GoalCleared,
)
    requires
        call_ensures(clear_thread_goal, (&thread, active_run, minted, now_ms), cleared),
    ensures
        cleared.thread_id == thread.id,
        cleared.project_id == thread.project_id,
        cleared.provider_thread_id == thread.id,
        cleared.at_ms == now_ms,
        active_run matches Some(run) ==> cleared.run_id == run,
        active_run is None ==> cleared.run_id == minted,
{
}

/// A request to open a thread names the thread, the file with its line, the side, and the time.
pub proof fn opened_threads_are_named(
    thread_id: &str,
    file: Option<OpenThreadFile>,
    split: Option<String>,
    now_ms: u64,
    frame: Json,
)
    requires
        call_ensures(open_thread, (thread_id, &file, &split, now_ms), frame),
    ensures
        member(frame@, "type"@) == Some(Tree::Str("thread_open_requested"@)),
        member(frame@, "threadId"@) == Some(Tree::Str(thread_id@)),
        member(frame@, "atMs"@) == Some(Tree::UInt(now_ms)),
        file is None ==> member(frame@, "file"@) == Some(Tree::Null),
        file matches Some(opened) ==> (member(frame@, "file"@) matches Some(shown) && member(shown, "source"@) == Some(Tree::Str(opened.source@)) && member(shown, "path"@) == Some(Tree::Str(opened.path@)) && member(shown, "lineNumber"@) == Some(opt_uint_tree(opened.line_number))),
        split is None ==> member(frame@, "split"@) == Some(Tree::Null),
        split matches Some(side) ==> member(frame@, "split"@) == Some(Tree::Str(side@)),
{
    broadcast use {crate::json::member_of_field, crate::reply::errors_say_what_is_wrong};

    reveal_strlit("atMs");
    reveal_strlit("file");
    reveal_strlit("path");
    reveal_strlit("type");
    reveal_strlit("split");
    reveal_strlit("source");
    reveal_strlit("threadId");
    reveal_strlit("lineNumber");
    assert("atMs"@.len() == 4 && "atMs"@[0] == 'a');
    assert("file"@.len() == 4 && "file"@[0] == 'f');
    assert("path"@.len() == 4 && "path"@[0] == 'p');
    assert("type"@.len() == 4 && "type"@[0] == 't');
    assert("split"@.len() == 5);
    assert("source"@.len() == 6);
    assert("threadId"@.len() == 8);
    assert("lineNumber"@.len() == 10);
}

/// Who a request to open a thread reached is answered as a count.
pub proof fn deliveries_are_counted(count: u64, answer: Reply)
    requires
        call_ensures(open_delivered, (count,), answer),
    ensures
        answer@.status == 200,
        member(answer@.body, "delivered"@) == Some(Tree::UInt(count)),
{
    broadcast use {crate::json::member_of_field, crate::reply::errors_say_what_is_wrong};

    reveal_strlit("delivered");
    assert("delivered"@.len() == 9);
}

/// A mention has its thread's id and project, and is labelled by the thread's title or, where it
/// has none, by its id.
pub proof fn mentions_are_of_their_threads(
    threads: Vec<Thread>,
    answer: Reply,
    i: int,
)
    requires
        call_ensures(resolve_thread_mentions, (&threads,), answer),
        0 <= i < threads@.len(),
    ensures
        answer@.status == 200,
        answer@.body is Array,
        answer@.body->Array_0.len() == threads@.len(),
        member(answer@.body->Array_0[i], "threadId"@) == Some(Tree::Str(threads@[i].id@)),
        member(answer@.body->Array_0[i], "projectId"@) == Some(Tree::Str(threads@[i].project_id@)),
        threads@[i].title matches Some(title) ==> member(answer@.body->Array_0[i], "label"@) == Some(Tree::Str(title@)),
        threads@[i].title is None ==> member(answer@.body->Array_0[i], "label"@) == Some(Tree::Str("Thread "@ + threads@[i].id@)),
{
    broadcast use {crate::json::member_of_field, crate::reply::errors_say_what_is_wrong};

    reveal_strlit("label");
    reveal_strlit("threadId");
    reveal_strlit("projectId");
    assert("label"@.len() == 5);
    assert("threadId"@.len() == 8);
    assert("projectId"@.len() == 9);
}

/// Threads that were archived together are named in their order.
pub proof fn archived_threads_are_named(thread_ids: Vec<String>, answer: Reply)
    requires
        call_ensures(archived_together, (&thread_ids,), answer),
    ensures
        answer@.status == 200,
        member(answer@.body, "ok"@) == Some(Tree::Bool(true)),
        member(answer@.body, "archivedThreadIds"@) matches Some(Tree::Array(named)) && named.len() == thread_ids@.len() && forall|i: int| 0 <= i < named.len() ==> #[trigger] named[i] == Tree::Str(thread_ids@[i]@),
{
    broadcast use {crate::json::member_of_field, crate::reply::errors_say_what_is_wrong};

    reveal_strlit("ok");
    reveal_strlit("archivedThreadIds");
    assert("ok"@.len() == 2);
    assert("archivedThreadIds"@.len() == 17);
}

} // verus!
