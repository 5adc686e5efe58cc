//! Interactions: an agent's question, the row that it becomes, and how an answer settles it.

use vstd::prelude::*;

use crate::domain::ProviderSpec;
use crate::json::{member, object, opt_tree, opt_uint_tree, trees, Fields, Json, Tree};
use crate::providers::{configured_provider_id, default_provider};
use crate::reply::{
    coded_error, debug_quoted, error_response, error_response_with_code, ok, ok_view, plain_error,
    quoted, refuses, Reply, ReplyView,
};
use crate::reports::{standing, Ownership, Standing};
use crate::runs::{RunRecord, RunRegistry};
use crate::text::{chars_of, joined, joined3, opt_view, same_text, text_from};

verus! {

/// Why an open question settles without an answer when its turn ends.
pub const TURN_ENDED: &'static str = "the turn ended before the interaction was answered";

/// Who asks.
#[allow(inconsistent_fields)]
#[derive(Clone, Debug, PartialEq, Eq)]
pub enum InteractionOrigin {
    /// An agent, which may be blocked on the answer.
    Provider {
        /// The agent.
        provider_id: String,
        /// Its own id for the question.
        provider_request_id: String,
    },
    /// A plugin.
    Plugin {
        /// The plugin.
        plugin_id: String,
        /// What shows the question.
        renderer_id: String,
    },
}

/// A question that a thread raised.
#[derive(Clone, Debug, PartialEq, Eq)]
pub struct Interaction {
    /// Its identity.
    pub id: String,
    /// The thread.
    pub thread_id: String,
    /// The turn: for an agent's question, the run.
    pub turn_id: String,
    /// Its kind word; `approval` is the one that an agent is blocked on.
    pub kind: String,
    /// Who asks.
    pub origin: InteractionOrigin,
    /// What is asked.
    pub payload: Json,
    /// Its status word.
    pub status: String,
    /// Whether it still waits for an answer.
    pub open: bool,
    /// Why it has that status.
    pub status_reason: Option<String>,
    /// The answer, once there is one.
    pub resolution: Option<Json>,
    /// The agent's own conversation, where it named one.
    pub provider_thread_id: Option<String>,
    /// When it was asked.
    pub created_at_ms: u64,
    /// When it was settled.
    pub resolved_at_ms: Option<u64>,
    /// When it expires.
    pub expires_at_ms: Option<u64>,
}

/// The offset of the hash.
pub const FNV_OFFSET: u64 = 0xcbf2_9ce4_8422_2325;

/// The prime of the hash.
pub const FNV_PRIME: u64 = 0x0000_0100_0000_01b3;

/// The 64-bit FNV-1a hash of bytes.
pub open spec fn fnv(bytes: Seq<u8>) -> u64
    decreases bytes.len(),
{
    if bytes.len() == 0 {
        FNV_OFFSET
    } else {
        (fnv(bytes.drop_last()) ^ (bytes.last() as u64)).wrapping_mul(FNV_PRIME)
    }
}

/// The 64-bit FNV-1a hash of bytes.
pub fn fnv_hash(bytes: &[u8]) -> (result: u64)
    ensures
        result == fnv(bytes@),
{
    let mut hash: u64 = FNV_OFFSET;
    assert(bytes@.take(0) =~= Seq::<u8>::empty());
    for i in 0..bytes.len()
        invariant
            hash == fnv(bytes@.take(i as int)),
    {
        assert(bytes@.take(i + 1).drop_last() =~= bytes@.take(i as int));
        assert(bytes@.take(i + 1).last() == bytes@[i as int]);
        hash = (hash ^ (bytes[i] as u64)).wrapping_mul(FNV_PRIME);
    }
    assert(bytes@.take(bytes@.len() as int) =~= bytes@);
    hash
}

/// The digits of Crockford's base 32: no I, L, O or U.
pub open spec fn base32_digit(n: nat) -> char {
    if n < 10 {
        (48 + n) as char
    } else if n < 18 {
        (65 + n - 10) as char
    } else if n < 20 {
        (74 + n - 18) as char
    } else if n < 22 {
        (77 + n - 20) as char
    } else if n < 27 {
        (80 + n - 22) as char
    } else {
        (86 + n - 27) as char
    }
}

/// What a digit of base 32 stands for, where it is one.
pub open spec fn base32_value(c: char) -> Option<nat> {
    let n = c as nat;
    if 48 <= n <= 57 {
        Some((n - 48) as nat)
    } else if 65 <= n <= 72 {
        Some((n - 55) as nat)
    } else if 74 <= n <= 75 {
        Some((n - 56) as nat)
    } else if 77 <= n <= 78 {
        Some((n - 57) as nat)
    } else if 80 <= n <= 84 {
        Some((n - 58) as nat)
    } else if 86 <= n <= 90 {
        Some((n - 59) as nat)
    } else {
        None
    }
}

/// A number in base 32, to so many digits.
pub open spec fn base32(value: nat, width: nat) -> Seq<char>
    decreases width,
{
    if width == 0 {
        Seq::empty()
    } else {
        base32(value / 32, (width - 1) as nat).push(base32_digit(value % 32))
    }
}

/// A digit of base 32.
fn base32_char(n: u64) -> (result: char)
    requires
        n < 32,
    ensures
        result == base32_digit(n as nat),
{
    let code: u8 = if n < 10 {
        48 + n as u8
    } else if n < 18 {
        55 + n as u8
    } else if n < 20 {
        56 + n as u8
    } else if n < 22 {
        57 + n as u8
    } else if n < 27 {
        58 + n as u8
    } else {
        59 + n as u8
    };
    code as char
}

/// A number in base 32, to so many digits.
fn base32_text(value: u64, width: usize) -> (result: String)
    ensures
        result@ == base32(value as nat, width as nat),
{
    let mut digits: Vec<char> = Vec::new();
    let mut rest: u64 = value;
    assert(base32(value as nat, width as nat) + digits@.reverse() =~= base32(
        value as nat,
        width as nat,
    ));
    for i in 0..width
        invariant
            base32(value as nat, width as nat) == base32(rest as nat, (width - i) as nat)
                + digits@.reverse(),
    {
        let ghost before = digits@;
        let ghost shorter = base32(rest as nat / 32, (width - i - 1) as nat);
        let digit: char = base32_char(rest % 32);
        digits.push(digit);
        assert(digits@.reverse() =~= seq![digit] + before.reverse());
        assert(base32(rest as nat, (width - i) as nat) == shorter.push(digit));
        assert(shorter.push(digit) + before.reverse() =~= shorter + digits@.reverse());
        rest = rest / 32;
    }
    assert(base32(rest as nat, 0) + digits@.reverse() =~= digits@.reverse());
    let mut chars: Vec<char> = Vec::new();
    let mut i: usize = digits.len();
    while i > 0
        invariant
            i <= digits@.len(),
            chars@ =~= digits@.reverse().take(digits@.len() - i),
        decreases i,
    {
        i -= 1;
        chars.push(digits[i]);
    }
    assert(chars@ =~= digits@.reverse());
    text_from(chars.as_slice())
}

/// The row id of a question under an agent's own id for it.
pub open spec fn interaction_id_of(request: Seq<char>) -> Seq<char> {
    "intr_"@ + base32(fnv(vstd::utf8::encode_utf8(request)) as nat, 26)
}

/// The row id of a question under an agent's own id for it: the same id always names the same row,
/// so a question that is delivered again is not asked twice.
pub fn deterministic_interaction_id(provider_request_id: &str) -> (result: String)
    ensures
        result@ == interaction_id_of(provider_request_id@),
{
    let hash: u64 = fnv_hash(provider_request_id.as_bytes());
    let body: String = base32_text(hash, 26);
    joined("intr_", body.as_str())
}

/// Whether a text has the shape of a row id: the prefix, then 26 digits of base 32 that spell a
/// number of 128 bits.
pub open spec fn interaction_id_shape(text: Seq<char>) -> bool {
    &&& text.len() == 31
    &&& text.take(5) == "intr_"@
    &&& base32_value(text[5]) is Some && base32_value(text[5])->0 < 8
    &&& forall|i: int| 5 <= i < 31 ==> base32_value(#[trigger] text[i]) is Some
}

/// Whether a character is a digit of base 32, and which.
fn base32_read(c: char) -> (result: Option<u64>)
    ensures
        match result {
            Some(n) => base32_value(c) == Some(n as nat),
            None => base32_value(c) is None,
        },
{
    let n: u64 = c as u64;
    if 48 <= n && n <= 57 {
        Some(n - 48)
    } else if 65 <= n && n <= 72 {
        Some(n - 55)
    } else if 74 <= n && n <= 75 {
        Some(n - 56)
    } else if 77 <= n && n <= 78 {
        Some(n - 57)
    } else if 80 <= n && n <= 84 {
        Some(n - 58)
    } else if 86 <= n && n <= 90 {
        Some(n - 59)
    } else {
        None
    }
}

/// Whether a text has the shape of a row id.
pub fn is_interaction_id(text: &str) -> (result: bool)
    ensures
        result == interaction_id_shape(text@),
{
    let chars: Vec<char> = chars_of(text);
    if chars.len() != 31 {
        return false;
    }
    let prefix: Vec<char> = chars_of("intr_");
    proof {
        reveal_strlit("intr_");
    }
    for i in 0..5
        invariant
            chars@ == text@,
            chars@.len() == 31,
            prefix@ == "intr_"@,
            prefix@.len() == 5,
            forall|k: int| 0 <= k < i ==> chars@[k] == #[trigger] prefix@[k],
    {
        if chars[i] != prefix[i] {
            assert(text@.take(5)[i as int] != "intr_"@[i as int]);
            return false;
        }
    }
    assert(text@.take(5) =~= "intr_"@);
    match base32_read(chars[5]) {
        Some(n) => {
            if n >= 8 {
                return false;
            }
        },
        None => {
            return false;
        },
    }
    for i in 5..31
        invariant
            chars@ == text@,
            chars@.len() == 31,
            forall|k: int| 5 <= k < i ==> base32_value(#[trigger] text@[k]) is Some,
    {
        if base32_read(chars[i]).is_none() {
            assert(base32_value(text@[i as int]) is None);
            return false;
        }
    }
    true
}

/// A digit reads back.
proof fn digits_read_back(n: nat)
    requires
        n < 32,
    ensures
        base32_value(base32_digit(n)) == Some(n),
{
}

/// A number in base 32 is as long as asked and made of digits.
proof fn base32_is_digits(value: nat, width: nat)
    ensures
        base32(value, width).len() == width,
        forall|i: int| 0 <= i < width ==> base32_value(#[trigger] base32(value, width)[i]) is Some,
    decreases width,
{
    if width > 0 {
        base32_is_digits(value / 32, (width - 1) as nat);
        digits_read_back(value % 32);
        assert forall|i: int| 0 <= i < width implies base32_value(
            #[trigger] base32(value, width)[i],
        ) is Some by {
            if i < width - 1 {
                assert(base32(value, width)[i] == base32(value / 32, (width - 1) as nat)[i]);
            }
        }
    }
}

/// A number of fewer digits than asked begins with a zero.
proof fn base32_begins_with_zero(value: nat, width: nat)
    requires
        width > 0,
        value < vstd::arithmetic::power::pow(32, (width - 1) as nat),
    ensures
        base32(value, width)[0] == '0',
    decreases width,
{
    base32_is_digits(value, width);
    if width == 1 {
        vstd::arithmetic::power::lemma_pow0(32);
        assert(base32(value, 1) =~= seq!['0']) by {
            assert(base32(0, 0) =~= Seq::<char>::empty());
        }
    } else {
        let shorter = (width - 1) as nat;
        let power = vstd::arithmetic::power::pow(32, (shorter - 1) as nat);
        assert(vstd::arithmetic::power::pow(32, shorter) == 32 * power) by {
            reveal(vstd::arithmetic::power::pow);
        }
        assert(value / 32 < power);
        base32_begins_with_zero(value / 32, shorter);
        base32_is_digits(value / 32, shorter);
    }
}

/// Whatever an agent sends as its id, the row id that it gives has the shape of one.
pub proof fn derived_ids_are_valid(request: Seq<char>)
    ensures
        interaction_id_shape(interaction_id_of(request)),
{
    let hash = fnv(vstd::utf8::encode_utf8(request)) as nat;
    let id = interaction_id_of(request);
    reveal_strlit("intr_");
    base32_is_digits(hash, 26);
    assert(vstd::arithmetic::power::pow(32, 25) > u64::MAX) by {
        reveal_with_fuel(vstd::arithmetic::power::pow, 27);
    }
    base32_begins_with_zero(hash, 26);
    assert(id.take(5) =~= "intr_"@);
    assert(id[5] == base32(hash, 26)[0]);
    assert forall|i: int| 5 <= i < 31 implies base32_value(#[trigger] id[i]) is Some by {
        assert(id[i] == base32(hash, 26)[i - 5]);
    }
}

/// Equal digits are of equal numbers.
proof fn base32_is_injective(a: nat, b: nat, width: nat)
    requires
        a < vstd::arithmetic::power::pow(32, width),
        b < vstd::arithmetic::power::pow(32, width),
        base32(a, width) == base32(b, width),
    ensures
        a == b,
    decreases width,
{
    if width == 0 {
        vstd::arithmetic::power::lemma_pow0(32);
    } else {
        let shorter = (width - 1) as nat;
        let power = vstd::arithmetic::power::pow(32, shorter);
        assert(vstd::arithmetic::power::pow(32, width) == 32 * power) by {
            reveal(vstd::arithmetic::power::pow);
        }
        let x = base32(a / 32, shorter);
        let y = base32(b / 32, shorter);
        base32_is_digits(a / 32, shorter);
        base32_is_digits(b / 32, shorter);
        let whole_a = base32(a, width);
        let whole_b = base32(b, width);
        assert(x =~= whole_a.drop_last());
        assert(y =~= whole_b.drop_last());
        assert(whole_a.last() == whole_b.last());
        digits_read_back(a % 32);
        digits_read_back(b % 32);
        assert(a / 32 < power);
        assert(b / 32 < power);
        base32_is_injective(a / 32, b / 32, shorter);
    }
}

/// A question that is asked again is the row that it was: its id depends on nothing but its run
/// and the agent's own id.
pub proof fn repeated_questions_are_one_row(first: InteractionRequest, again: InteractionRequest)
    requires
        again.run_id@ == first.run_id@,
        again.request_id@ == first.request_id@,
    ensures
        row_id(again) == row_id(first),
{
}

/// Row ids differ wherever the hashes of the agents' ids do.
pub proof fn derived_ids_name_their_hash(a: Seq<char>, b: Seq<char>)
    requires
        interaction_id_of(a) == interaction_id_of(b),
    ensures
        fnv(vstd::utf8::encode_utf8(a)) == fnv(vstd::utf8::encode_utf8(b)),
{
    let x = fnv(vstd::utf8::encode_utf8(a)) as nat;
    let y = fnv(vstd::utf8::encode_utf8(b)) as nat;
    reveal_strlit("intr_");
    assert(interaction_id_of(a).skip(5) =~= base32(x, 26));
    assert(interaction_id_of(b).skip(5) =~= base32(y, 26));
    assert(vstd::arithmetic::power::pow(32, 26) > u64::MAX) by {
        reveal_with_fuel(vstd::arithmetic::power::pow, 28);
    }
    base32_is_injective(x, y, 26);
}

/// A question that an agent asks through its machine.
#[derive(Debug, PartialEq, Eq)]
pub struct InteractionRequest {
    /// The machine.
    pub host_id: String,
    /// The run.
    pub run_id: String,
    /// The thread.
    pub thread_id: String,
    /// The agent's own id for the question.
    pub request_id: String,
    /// The agent's own conversation.
    pub provider_thread_id: Option<String>,
    /// Its kind word.
    pub kind: String,
    /// What is asked.
    pub payload: Json,
    /// When it expires.
    pub expires_at_ms: Option<u64>,
}

/// A question to be stored.
#[derive(Debug, PartialEq, Eq)]
pub struct NewInteraction {
    /// Its identity.
    pub id: String,
    /// The thread.
    pub thread_id: String,
    /// The turn: the run.
    pub turn_id: String,
    /// Its kind word.
    pub kind: String,
    /// Who asks.
    pub origin: InteractionOrigin,
    /// What is asked.
    pub payload: Json,
    /// The agent's own conversation.
    pub provider_thread_id: Option<String>,
    /// When it expires.
    pub expires_at_ms: Option<u64>,
}

/// What happened when a machine reported a question.
#[derive(Debug, PartialEq, Eq)]
pub enum RecordOutcome {
    /// The question was recorded, or was known already.
    Recorded(Interaction),
    /// The request named a run that is not in flight, or not this machine's: nothing was recorded.
    Unknown(String),
}

/// The id of the row that a question becomes.
pub open spec fn row_id(request: InteractionRequest) -> Seq<char> {
    interaction_id_of(request.run_id@ + "/"@ + request.request_id@)
}

impl RunRegistry {
    /// The row that an agent's question becomes, or why none is made: its run must be in flight,
    /// and its machine's and its thread's own. The row id is derived from the run and the agent's
    /// id together, since an agent's ids are unique only within its session.
    pub fn record_interaction_request(
        &self,
        request: InteractionRequest,
        providers: &Vec<ProviderSpec>,
    ) -> (result: Result<NewInteraction, RecordOutcome>)
        requires
            self.wf(),
        ensures
            match standing(
                self@.records,
                request.host_id@,
                request.run_id@,
                request.thread_id@,
            ) {
                Standing::Unknown => result matches Err(RecordOutcome::Unknown(reason)) && reason@
                    == "run "@ + request.run_id@ + " is not in flight"@,
                Standing::Mismatch(problem) => result matches Err(RecordOutcome::Unknown(reason))
                    && reason@ == problem,
                Standing::Own(_) => result matches Ok(row) && row.id@ == row_id(request) && row == (
                NewInteraction {
                    id: row.id,
                    thread_id: request.thread_id,
                    turn_id: request.run_id,
                    kind: request.kind,
                    origin: InteractionOrigin::Provider {
                        provider_id: row.origin->provider_id,
                        provider_request_id: request.request_id,
                    },
                    payload: request.payload,
                    provider_thread_id: request.provider_thread_id,
                    expires_at_ms: request.expires_at_ms,
                }) && row.origin->provider_id@ == default_provider(providers@),
            },
    {
        match self.ownership(
            request.host_id.as_str(),
            request.run_id.as_str(),
            request.thread_id.as_str(),
        ) {
            Ownership::Unknown => {
                return Err(
                    RecordOutcome::Unknown(
                        joined3("run ", request.run_id.as_str(), " is not in flight"),
                    ),
                );
            },
            Ownership::Mismatch(reason) => {
                return Err(RecordOutcome::Unknown(reason));
            },
            Ownership::Own(_) => {},
        }
        let scoped: String = joined3(request.run_id.as_str(), "/", request.request_id.as_str());
        Ok(
            NewInteraction {
                id: deterministic_interaction_id(scoped.as_str()),
                thread_id: request.thread_id,
                turn_id: request.run_id,
                kind: request.kind,
                origin: InteractionOrigin::Provider {
                    provider_id: configured_provider_id(providers),
                    provider_request_id: request.request_id,
                },
                payload: request.payload,
                provider_thread_id: request.provider_thread_id,
                expires_at_ms: request.expires_at_ms,
            },
        )
    }

    /// The frame that tells a machine the answer its agent is blocked on, where there is one: only
    /// a decided approval of an agent whose run is still in flight makes one.
    pub fn resolution_frame(&self, interaction: &Interaction, resolution: &Resolution, now_ms: u64) -> (result:
        Option<InteractionResolutionFrame>)
        requires
            self.wf(),
        ensures
            match answer_for(*interaction, *resolution, self@.records) {
                None => result is None,
                Some((record, decision)) => result == Some(
                    InteractionResolutionFrame {
                        host_id: record.host_id,
                        run_id: record.run_id,
                        thread_id: record.thread_id,
                        request_id: interaction.origin->provider_request_id,
                        interaction_id: interaction.id,
                        decision,
                        created_at_ms: now_ms,
                    },
                ),
            },
    {
        if !same_text(interaction.kind.as_str(), "approval") {
            return None;
        }
        let request_id: String = match &interaction.origin {
            InteractionOrigin::Provider { provider_request_id, .. } => provider_request_id.clone(),
            InteractionOrigin::Plugin { .. } => {
                return None;
            },
        };
        let record: RunRecord = match self.get(interaction.turn_id.as_str()) {
            Some(record) => record,
            None => {
                return None;
            },
        };
        let decision: PermissionDecision = match resolution {
            Resolution::Decision { decision, .. } => permission_decision(decision.as_str()),
            _ => {
                return None;
            },
        };
        Some(
            InteractionResolutionFrame {
                host_id: record.host_id,
                run_id: record.run_id,
                thread_id: record.thread_id,
                request_id,
                interaction_id: interaction.id.clone(),
                decision,
                created_at_ms: now_ms,
            },
        )
    }
}

/// An answer.
#[allow(inconsistent_fields)]
pub enum Resolution {
    /// A decision on a permission.
    Decision {
        /// The decision word.
        decision: String,
        /// What was granted, where the request said so.
        granted_permissions: Option<Json>,
    },
    /// Answers to a question.
    UserAnswer {
        /// The answers.
        answers: Json,
    },
    /// A plugin took the submission.
    PluginSubmitted,
    /// An opaque value.
    RequestAnswer {
        /// The value.
        value: Json,
    },
}

/// What an agent may do.
#[derive(Clone, Copy, Debug, PartialEq, Eq, Structural)]
pub enum PermissionDecision {
    /// This once.
    AllowOnce,
    /// For its session.
    AllowForSession,
    /// Not at all.
    Deny,
}

impl PermissionDecision {
    /// The wire word.
    pub open spec fn spec_as_str(self) -> Seq<char> {
        match self {
            PermissionDecision::AllowOnce => "allow_once"@,
            PermissionDecision::AllowForSession => "allow_for_session"@,
            PermissionDecision::Deny => "deny"@,
        }
    }

    /// The wire word.
    pub fn as_str(self) -> (result: &'static str)
        ensures
            result@ == self.spec_as_str(),
    {
        match self {
            PermissionDecision::AllowOnce => "allow_once",
            PermissionDecision::AllowForSession => "allow_for_session",
            PermissionDecision::Deny => "deny",
        }
    }
}

/// The decision that a word stands for: one that is not known allows nothing.
pub open spec fn decision_of(word: Seq<char>) -> PermissionDecision {
    if word == "allow_once"@ {
        PermissionDecision::AllowOnce
    } else if word == "allow_for_session"@ {
        PermissionDecision::AllowForSession
    } else {
        PermissionDecision::Deny
    }
}

/// The decision that a word stands for.
pub fn permission_decision(word: &str) -> (result: PermissionDecision)
    ensures
        result == decision_of(word@),
{
    if same_text(word, "allow_once") {
        PermissionDecision::AllowOnce
    } else if same_text(word, "allow_for_session") {
        PermissionDecision::AllowForSession
    } else {
        PermissionDecision::Deny
    }
}

/// The run that an answer unblocks and what it may do, where it unblocks one.
pub open spec fn answer_for(
    interaction: Interaction,
    resolution: Resolution,
    records: Map<Seq<char>, RunRecord>,
) -> Option<(RunRecord, PermissionDecision)> {
    if interaction.kind@ == "approval"@ && interaction.origin is Provider && records.dom().contains(
        interaction.turn_id@,
    ) && resolution is Decision {
        Some((records[interaction.turn_id@], decision_of(resolution->decision@)))
    } else {
        None
    }
}

/// A machine is told that something is allowed only where a client's answer says so, word for
/// word.
pub proof fn nothing_is_allowed_unasked(
    interaction: Interaction,
    resolution: Resolution,
    records: Map<Seq<char>, RunRecord>,
)
    ensures
        answer_for(interaction, resolution, records) matches Some(found) ==> (found.1 is Deny || (
        resolution is Decision && resolution->decision@ == found.1.spec_as_str())),
        !records.dom().contains(interaction.turn_id@) ==> answer_for(
            interaction,
            resolution,
            records,
        ) is None,
{
}

/// The answer to an agent's question, for its machine.
#[derive(Debug, PartialEq, Eq)]
pub struct InteractionResolutionFrame {
    /// The machine.
    pub host_id: String,
    /// The run.
    pub run_id: String,
    /// The thread.
    pub thread_id: String,
    /// The agent's own id for the question.
    pub request_id: String,
    /// The row.
    pub interaction_id: String,
    /// What it may do.
    pub decision: PermissionDecision,
    /// When it was answered.
    pub created_at_ms: u64,
}

impl InteractionResolutionFrame {
    /// The frame as JSON.
    pub fn to_json(&self) -> (result: Json)
        ensures
            result@ == object().field("host_id"@, Tree::Str(self.host_id@))
                .field("run_id"@, Tree::Str(self.run_id@))
                .field("thread_id"@, Tree::Str(self.thread_id@))
                .field("request_id"@, Tree::Str(self.request_id@))
                .field("interaction_id"@, Tree::Str(self.interaction_id@))
                .field(
                    "answer"@,
                    object().field("kind"@, Tree::Str("decision"@)).field(
                        "decision"@,
                        Tree::Str(self.decision.spec_as_str()),
                    ),
                )
                .field("created_at_ms"@, Tree::UInt(self.created_at_ms)),
    {
        let answer: Json = Fields::new().with("kind", Json::text("decision")).with(
            "decision",
            Json::text(self.decision.as_str()),
        ).object();
        Fields::new().with("host_id", Json::text(self.host_id.as_str()))
            .with("run_id", Json::text(self.run_id.as_str()))
            .with("thread_id", Json::text(self.thread_id.as_str()))
            .with("request_id", Json::text(self.request_id.as_str()))
            .with("interaction_id", Json::text(self.interaction_id.as_str()))
            .with("answer", answer)
            .with("created_at_ms", Json::UInt(self.created_at_ms))
            .object()
    }
}

/// What happened when an answer was delivered.
#[derive(Debug, PartialEq, Eq)]
pub enum DeliverOutcome {
    /// The question is answered and its change was published.
    Delivered(Interaction),
    /// The change could not be published yet.
    DeliveryFailed {
        /// The question.
        interaction: Interaction,
        /// Why.
        error: String,
    },
    /// There is no such question.
    Unknown,
    /// Someone else settled it.
    Settled(Interaction),
}

/// Whether a question may be answered, or how the delivery ends without: one that is not there, or
/// is settled already, takes no answer.
pub fn deliver_interaction_resolution(existing: Option<Interaction>) -> (result: Result<
    Interaction,
    DeliverOutcome,
>)
    ensures
        result == (match existing {
            None => Err::<Interaction, DeliverOutcome>(DeliverOutcome::Unknown),
            Some(interaction) => if interaction.open {
                Ok::<Interaction, DeliverOutcome>(interaction)
            } else {
                Err::<Interaction, DeliverOutcome>(DeliverOutcome::Settled(interaction))
            },
        }),
{
    match existing {
        None => Err(DeliverOutcome::Unknown),
        Some(interaction) => if interaction.open {
            Ok(interaction)
        } else {
            Err(DeliverOutcome::Settled(interaction))
        },
    }
}

/// How a delivery ends: the answer took, or the question is what it was found to be afterwards.
pub fn interaction_resolved(resolved: Option<Interaction>, current: Option<Interaction>) -> (result:
    DeliverOutcome)
    ensures
        result == (match resolved {
            Some(interaction) => DeliverOutcome::Delivered(interaction),
            None => match current {
                Some(interaction) => DeliverOutcome::Settled(interaction),
                None => DeliverOutcome::Unknown,
            },
        }),
{
    match resolved {
        Some(interaction) => DeliverOutcome::Delivered(interaction),
        None => match current {
            Some(interaction) => DeliverOutcome::Settled(interaction),
            None => DeliverOutcome::Unknown,
        },
    }
}

/// The conversation that a question is shown under: the agent's own, else the thread.
pub open spec fn shown_conversation(interaction: Interaction) -> Seq<char> {
    match interaction.provider_thread_id {
        Some(id) => id@,
        None => interaction.thread_id@,
    }
}

/// Who asks, on the wire.
pub open spec fn origin_tree(interaction: Interaction) -> Tree {
    match interaction.origin {
        InteractionOrigin::Provider { provider_id, provider_request_id } => object().field(
            "kind"@,
            Tree::Str("provider"@),
        )
            .field("providerId"@, Tree::Str(provider_id@))
            .field("providerThreadId"@, Tree::Str(shown_conversation(interaction)))
            .field("providerRequestId"@, Tree::Str(provider_request_id@)),
        InteractionOrigin::Plugin { plugin_id, renderer_id } => object().field(
            "kind"@,
            Tree::Str("plugin"@),
        ).field("pluginId"@, Tree::Str(plugin_id@)).field("rendererId"@, Tree::Str(renderer_id@)),
    }
}

/// A text, where there is one to be shown.
pub open spec fn shown_if(shown: bool, text: Seq<char>) -> Option<Tree> {
    if shown {
        Some(Tree::Str(text))
    } else {
        None
    }
}

/// A question as a client sees it: one of a plugin has no agent.
pub open spec fn interaction_tree(interaction: Interaction, providers: Seq<ProviderSpec>) -> Tree {
    let agent = interaction.origin is Provider;
    object().field("id"@, Tree::Str(interaction.id@))
        .field("threadId"@, Tree::Str(interaction.thread_id@))
        .field("status"@, Tree::Str(interaction.status@))
        .field("statusReason"@, opt_tree(opt_view(interaction.status_reason)))
        .field("createdAt"@, Tree::UInt(interaction.created_at_ms))
        .field("resolvedAt"@, opt_uint_tree(interaction.resolved_at_ms))
        .field("turnId"@, Tree::Str(interaction.turn_id@))
        .field_if("providerId"@, shown_if(agent, default_provider(providers)))
        .field_if("providerThreadId"@, shown_if(agent, shown_conversation(interaction)))
        .field_if(
            "providerRequestId"@,
            shown_if(agent, interaction.origin->provider_request_id@),
        )
        .field("payload"@, interaction.payload@)
        .field(
            "resolution"@,
            match interaction.resolution {
                Some(resolution) => resolution@,
                None => Tree::Null,
            },
        )
        .field("expiresAt"@, opt_uint_tree(interaction.expires_at_ms))
        .field("origin"@, origin_tree(interaction))
}

/// A question as a client sees it.
pub fn interaction_value(interaction: &Interaction, providers: &Vec<ProviderSpec>) -> (result: Json)
    ensures
        result@ == interaction_tree(*interaction, providers@),
{
    let conversation: String = match &interaction.provider_thread_id {
        Some(id) => id.clone(),
        None => interaction.thread_id.clone(),
    };
    let provider: String = configured_provider_id(providers);
    let (origin, agent, session, request): (Json, Option<Json>, Option<Json>, Option<Json>) =
        match &interaction.origin {
        InteractionOrigin::Provider { provider_id, provider_request_id } => {
            let origin: Json = Fields::new().with("kind", Json::text("provider"))
                .with("providerId", Json::text(provider_id.as_str()))
                .with("providerThreadId", Json::text(conversation.as_str()))
                .with("providerRequestId", Json::text(provider_request_id.as_str()))
                .object();
            (
                origin,
                Some(Json::Str(provider)),
                Some(Json::text(conversation.as_str())),
                Some(Json::text(provider_request_id.as_str())),
            )
        },
        InteractionOrigin::Plugin { plugin_id, renderer_id } => {
            let origin: Json = Fields::new().with("kind", Json::text("plugin"))
                .with("pluginId", Json::text(plugin_id.as_str()))
                .with("rendererId", Json::text(renderer_id.as_str()))
                .object();
            (origin, None, None, None)
        },
    };
    let resolution: Json = match &interaction.resolution {
        Some(resolution) => resolution.copy(),
        None => Json::Null,
    };
    Fields::new().with("id", Json::text(interaction.id.as_str()))
        .with("threadId", Json::text(interaction.thread_id.as_str()))
        .with("status", Json::text(interaction.status.as_str()))
        .with("statusReason", Json::opt_text(&interaction.status_reason))
        .with("createdAt", Json::UInt(interaction.created_at_ms))
        .with("resolvedAt", Json::opt_uint(interaction.resolved_at_ms))
        .with("turnId", Json::text(interaction.turn_id.as_str()))
        .maybe("providerId", agent)
        .maybe("providerThreadId", session)
        .maybe("providerRequestId", request)
        .with("payload", interaction.payload.copy())
        .with("resolution", resolution)
        .with("expiresAt", Json::opt_uint(interaction.expires_at_ms))
        .with("origin", origin)
        .object()
}

/// Every question that a thread raised, oldest first.
pub fn thread_interactions(interactions: &Vec<Interaction>, providers: &Vec<ProviderSpec>) -> (result:
    Reply)
    ensures
        result@ == ok_view(
            Tree::Array(
                Seq::new(
                    interactions@.len(),
                    |i: int| interaction_tree(interactions@[i], providers@),
                ),
            ),
        ),
{
    let mut rows: Vec<Json> = Vec::new();
    for i in 0..interactions.len()
        invariant
            rows@.len() == i,
            forall|k: int|
                0 <= k < i ==> (#[trigger] rows@[k])@ == interaction_tree(
                    interactions@[k],
                    providers@,
                ),
    {
        rows.push(interaction_value(&interactions[i], providers));
    }
    assert(trees(rows@) =~= Seq::new(
        interactions@.len(),
        |i: int| interaction_tree(interactions@[i], providers@),
    ));
    ok(Json::array(rows))
}

/// Why a question is none of a thread's.
pub open spec fn interaction_refusal(
    interaction: Option<Interaction>,
    thread_id: Seq<char>,
    interaction_id: Seq<char>,
) -> Option<ReplyView> {
    match interaction {
        None => Some(plain_error(404, "interaction "@ + interaction_id + " is not known"@)),
        Some(interaction) => if interaction.thread_id@ != thread_id {
            Some(
                plain_error(404, "interaction "@ + interaction_id + " belongs to another thread"@),
            )
        } else {
            None
        },
    }
}

/// A question of a thread, or why it is none.
pub fn interaction_in_thread(
    interaction: Option<Interaction>,
    thread_id: &str,
    interaction_id: &str,
) -> (result: Result<Interaction, Reply>)
    ensures
        match interaction_refusal(interaction, thread_id@, interaction_id@) {
            Some(refusal) => result matches Err(reply) && reply@ == refusal,
            None => result is Ok && Some(result->Ok_0) == interaction,
        },
{
    match interaction {
        None => Err(
            error_response(404, joined3("interaction ", interaction_id, " is not known")),
        ),
        Some(interaction) => if !same_text(interaction.thread_id.as_str(), thread_id) {
            Err(
                error_response(
                    404,
                    joined3("interaction ", interaction_id, " belongs to another thread"),
                ),
            )
        } else {
            Ok(interaction)
        },
    }
}

/// Why an opaque value does not answer a question: it takes a typed resolution.
pub fn respond_refusal(interaction: &Interaction, answers: bool) -> (result: Option<Reply>)
    ensures
        match result {
            None => answers,
            Some(reply) => !answers && reply@ == coded_error(
                400,
                "invalid_request"@,
                "interaction "@ + interaction.id@ + " is a "@ + interaction.kind@
                    + " and takes a typed resolution, not an opaque value"@,
            ),
        },
{
    if answers {
        return None;
    }
    let mut problem: String = joined3("interaction ", interaction.id.as_str(), " is a ");
    problem.append(interaction.kind.as_str());
    problem.append(" and takes a typed resolution, not an opaque value");
    Some(error_response_with_code(400, "invalid_request", problem))
}

/// A typed answer as it came.
#[allow(inconsistent_fields)]
pub enum ResolveInteractionRequest {
    /// A decision on a permission.
    Decision {
        /// The decision word.
        decision: String,
        /// What was granted: absent and `null` differ.
        granted_permissions: Option<Json>,
    },
    /// Answers to a question.
    UserAnswer {
        /// The kind word that it carried.
        kind: String,
        /// The answers.
        answers: Json,
    },
    /// A plugin took the submission.
    PluginSubmitted {
        /// The kind word that it carried.
        kind: String,
    },
    /// An opaque value.
    RequestAnswer {
        /// The kind word that it carried.
        kind: String,
        /// The value.
        value: Json,
    },
}

/// What is wrong with a kind word, where it is not the one that its branch carries.
pub open spec fn kind_problem(kind: Seq<char>, expected: Seq<char>) -> Option<Seq<char>> {
    if kind == expected {
        None
    } else {
        Some("unknown resolution kind "@ + debug_quoted(kind))
    }
}

/// What is wrong with a typed answer: an allowance says what is granted, a denial grants nothing,
/// and every other branch carries its own kind word.
pub open spec fn request_problem(request: ResolveInteractionRequest) -> Option<Seq<char>> {
    match request {
        ResolveInteractionRequest::Decision { decision, granted_permissions } => if decision@
            == "allow_once"@ || decision@ == "allow_for_session"@ {
            if granted_permissions is None {
                Some("decision `"@ + decision@ + "` needs `grantedPermissions`"@)
            } else {
                None
            }
        } else if decision@ == "deny"@ {
            if granted_permissions is Some {
                Some("a `deny` decision must not carry `grantedPermissions`"@)
            } else {
                None
            }
        } else {
            Some(
                "decision must be `allow_once`, `allow_for_session` or `deny`, got "@
                    + debug_quoted(decision@),
            )
        },
        ResolveInteractionRequest::UserAnswer { kind, .. } => kind_problem(kind@, "user_answer"@),
        ResolveInteractionRequest::PluginSubmitted { kind } => kind_problem(
            kind@,
            "plugin_submitted"@,
        ),
        ResolveInteractionRequest::RequestAnswer { kind, .. } => kind_problem(
            kind@,
            "request_answer"@,
        ),
    }
}

/// Whether a branch carries its own kind word, or what is wrong with it.
fn check_kind(kind: &str, expected: &str) -> (result: Result<(), String>)
    ensures
        match kind_problem(kind@, expected@) {
            None => result is Ok,
            Some(problem) => result matches Err(message) && message@ == problem,
        },
{
    if same_text(kind, expected) {
        Ok(())
    } else {
        let shown: String = quoted(kind);
        Err(joined("unknown resolution kind ", shown.as_str()))
    }
}

impl ResolveInteractionRequest {
    /// Whether the answer makes sense, or what is wrong with it.
    pub fn is_coherent(&self) -> (result: Result<(), String>)
        ensures
            match request_problem(*self) {
                None => result is Ok,
                Some(problem) => result matches Err(message) && message@ == problem,
            },
    {
        match self {
            ResolveInteractionRequest::Decision { decision, granted_permissions } => {
                if same_text(decision.as_str(), "allow_once") || same_text(
                    decision.as_str(),
                    "allow_for_session",
                ) {
                    if granted_permissions.is_none() {
                        return Err(
                            joined3(
                                "decision `",
                                decision.as_str(),
                                "` needs `grantedPermissions`",
                            ),
                        );
                    }
                    Ok(())
                } else if same_text(decision.as_str(), "deny") {
                    if granted_permissions.is_some() {
                        return Err(
                            "a `deny` decision must not carry `grantedPermissions`".to_owned(),
                        );
                    }
                    Ok(())
                } else {
                    let shown: String = quoted(decision.as_str());
                    Err(
                        joined(
                            "decision must be `allow_once`, `allow_for_session` or `deny`, got ",
                            shown.as_str(),
                        ),
                    )
                }
            },
            ResolveInteractionRequest::UserAnswer { kind, .. } => check_kind(
                kind.as_str(),
                "user_answer",
            ),
            ResolveInteractionRequest::PluginSubmitted { kind } => check_kind(
                kind.as_str(),
                "plugin_submitted",
            ),
            ResolveInteractionRequest::RequestAnswer { kind, .. } => check_kind(
                kind.as_str(),
                "request_answer",
            ),
        }
    }

    /// The answer that the request names.
    pub fn resolution(self) -> (result: Resolution)
        ensures
            result == (match self {
                ResolveInteractionRequest::Decision { decision, granted_permissions } =>
                    Resolution::Decision { decision, granted_permissions },
                ResolveInteractionRequest::UserAnswer { answers, .. } => Resolution::UserAnswer {
                    answers,
                },
                ResolveInteractionRequest::PluginSubmitted { .. } => Resolution::PluginSubmitted,
                ResolveInteractionRequest::RequestAnswer { value, .. } =>
                    Resolution::RequestAnswer { value },
            }),
    {
        match self {
            ResolveInteractionRequest::Decision { decision, granted_permissions } => {
                Resolution::Decision { decision, granted_permissions }
            },
            ResolveInteractionRequest::UserAnswer { answers, .. } => Resolution::UserAnswer {
                answers,
            },
            ResolveInteractionRequest::PluginSubmitted { .. } => Resolution::PluginSubmitted,
            ResolveInteractionRequest::RequestAnswer { value, .. } => Resolution::RequestAnswer {
                value,
            },
        }
    }
}

/// Why a typed answer is refused: it makes no sense, or is of another kind than the question.
pub fn resolve_refusal(
    interaction: &Interaction,
    request: &ResolveInteractionRequest,
    answers: bool,
    resolution_kind: &str,
) -> (result: Option<Reply>)
    ensures
        match request_problem(*request) {
            Some(problem) => result matches Some(reply) && reply@ == coded_error(
                400,
                "invalid_request"@,
                problem,
            ),
            None => if answers {
                result is None
            } else {
                result matches Some(reply) && reply@ == coded_error(
                    400,
                    "invalid_request"@,
                    "interaction "@ + interaction.id@ + " is a "@ + interaction.kind@ + "; a "@
                        + resolution_kind@ + " cannot answer it"@,
                )
            },
        },
{
    if let Err(problem) = request.is_coherent() {
        return Some(error_response_with_code(400, "invalid_request", problem));
    }
    if answers {
        return None;
    }
    let mut problem: String = joined3("interaction ", interaction.id.as_str(), " is a ");
    problem.append(interaction.kind.as_str());
    problem.append("; a ");
    problem.append(resolution_kind);
    problem.append(" cannot answer it");
    Some(error_response_with_code(400, "invalid_request", problem))
}

/// Which of the two verbs that settle a question was used.
#[derive(Clone, Copy, Debug, PartialEq, Eq, Structural)]
pub enum SettleVerb {
    /// It was answered.
    Answer,
    /// It was taken back.
    Cancel,
}

/// What a client is told of an attempt to settle a question.
pub open spec fn settled_view(
    verb: SettleVerb,
    outcome: DeliverOutcome,
    interaction_id: Seq<char>,
    providers: Seq<ProviderSpec>,
) -> ReplyView {
    match outcome {
        DeliverOutcome::Delivered(interaction) => ok_view(interaction_tree(interaction, providers)),
        DeliverOutcome::DeliveryFailed { interaction, error } => coded_error(
            500,
            "internal_error"@,
            "interaction "@ + interaction.id@ + (if verb is Answer {
                " answer is queued for retry: "@
            } else {
                " cancellation is queued for retry: "@
            }) + error@,
        ),
        DeliverOutcome::Settled(interaction) => coded_error(
            409,
            "awaiting_user_interaction"@,
            "interaction "@ + interaction.id@ + (if verb is Answer {
                " was already settled as "@
            } else {
                " is already "@
            }) + interaction.status@,
        ),
        DeliverOutcome::Unknown => plain_error(
            404,
            "interaction "@ + interaction_id + " is not known"@,
        ),
    }
}

/// What a client is told of an attempt to settle a question.
pub fn deliver_interaction_response(
    verb: SettleVerb,
    outcome: DeliverOutcome,
    interaction_id: &str,
    providers: &Vec<ProviderSpec>,
) -> (result: Reply)
    ensures
        result@ == settled_view(verb, outcome, interaction_id@, providers@),
{
    match outcome {
        DeliverOutcome::Delivered(interaction) => ok(interaction_value(&interaction, providers)),
        DeliverOutcome::DeliveryFailed { interaction, error } => {
            let middle: &str = match verb {
                SettleVerb::Answer => " answer is queued for retry: ",
                SettleVerb::Cancel => " cancellation is queued for retry: ",
            };
            let mut problem: String = joined3("interaction ", interaction.id.as_str(), middle);
            problem.append(error.as_str());
            error_response_with_code(500, "internal_error", problem)
        },
        DeliverOutcome::Settled(interaction) => {
            let middle: &str = match verb {
                SettleVerb::Answer => " was already settled as ",
                SettleVerb::Cancel => " is already ",
            };
            let mut problem: String = joined3("interaction ", interaction.id.as_str(), middle);
            problem.append(interaction.status.as_str());
            error_response_with_code(409, "awaiting_user_interaction", problem)
        },
        DeliverOutcome::Unknown => error_response(
            404,
            joined3("interaction ", interaction_id, " is not known"),
        ),
    }
}

// What interactions promise.

/// The hash begins at its offset, and each byte is mixed in before the product with the prime is
/// taken.
pub proof fn hashes_fold_byte_by_byte(bytes: Seq<u8>, byte: u8)
    ensures
        fnv(Seq::empty()) == 0xcbf2_9ce4_8422_2325,
        fnv(bytes.push(byte)) == (fnv(bytes) ^ (byte as u64)).wrapping_mul(0x0000_0100_0000_01b3),
{
    assert(bytes.push(byte).drop_last() =~= bytes);
}

/// A digit of an id is the character of the alphabet at its value, and is read back as that value.
/// Nothing else is read.
pub proof fn digits_are_of_the_alphabet(n: nat, c: char)
    requires
        n < 32,
    ensures
        base32_digit(n) == "0123456789ABCDEFGHJKMNPQRSTVWXYZ"@[n as int],
        base32_value(base32_digit(n)) == Some(n),
        base32_value(c) is Some ==> base32_value(c)->0 < 32 && base32_digit(base32_value(c)->0) == c,
{
    reveal_strlit("0123456789ABCDEFGHJKMNPQRSTVWXYZ");
    assert("0123456789ABCDEFGHJKMNPQRSTVWXYZ"@[0] == '0');
    assert("0123456789ABCDEFGHJKMNPQRSTVWXYZ"@[1] == '1');
    assert("0123456789ABCDEFGHJKMNPQRSTVWXYZ"@[2] == '2');
    assert("0123456789ABCDEFGHJKMNPQRSTVWXYZ"@[3] == '3');
    assert("0123456789ABCDEFGHJKMNPQRSTVWXYZ"@[4] == '4');
    assert("0123456789ABCDEFGHJKMNPQRSTVWXYZ"@[5] == '5');
    assert("0123456789ABCDEFGHJKMNPQRSTVWXYZ"@[6] == '6');
    assert("0123456789ABCDEFGHJKMNPQRSTVWXYZ"@[7] == '7');
    assert("0123456789ABCDEFGHJKMNPQRSTVWXYZ"@[8] == '8');
    assert("0123456789ABCDEFGHJKMNPQRSTVWXYZ"@[9] == '9');
    assert("0123456789ABCDEFGHJKMNPQRSTVWXYZ"@[10] == 'A');
    assert("0123456789ABCDEFGHJKMNPQRSTVWXYZ"@[11] == 'B');
    assert("0123456789ABCDEFGHJKMNPQRSTVWXYZ"@[12] == 'C');
    assert("0123456789ABCDEFGHJKMNPQRSTVWXYZ"@[13] == 'D');
    assert("0123456789ABCDEFGHJKMNPQRSTVWXYZ"@[14] == 'E');
    assert("0123456789ABCDEFGHJKMNPQRSTVWXYZ"@[15] == 'F');
    assert("0123456789ABCDEFGHJKMNPQRSTVWXYZ"@[16] == 'G');
    assert("0123456789ABCDEFGHJKMNPQRSTVWXYZ"@[17] == 'H');
    assert("0123456789ABCDEFGHJKMNPQRSTVWXYZ"@[18] == 'J');
    assert("0123456789ABCDEFGHJKMNPQRSTVWXYZ"@[19] == 'K');
    assert("0123456789ABCDEFGHJKMNPQRSTVWXYZ"@[20] == 'M');
    assert("0123456789ABCDEFGHJKMNPQRSTVWXYZ"@[21] == 'N');
    assert("0123456789ABCDEFGHJKMNPQRSTVWXYZ"@[22] == 'P');
    assert("0123456789ABCDEFGHJKMNPQRSTVWXYZ"@[23] == 'Q');
    assert("0123456789ABCDEFGHJKMNPQRSTVWXYZ"@[24] == 'R');
    assert("0123456789ABCDEFGHJKMNPQRSTVWXYZ"@[25] == 'S');
    assert("0123456789ABCDEFGHJKMNPQRSTVWXYZ"@[26] == 'T');
    assert("0123456789ABCDEFGHJKMNPQRSTVWXYZ"@[27] == 'V');
    assert("0123456789ABCDEFGHJKMNPQRSTVWXYZ"@[28] == 'W');
    assert("0123456789ABCDEFGHJKMNPQRSTVWXYZ"@[29] == 'X');
    assert("0123456789ABCDEFGHJKMNPQRSTVWXYZ"@[30] == 'Y');
    assert("0123456789ABCDEFGHJKMNPQRSTVWXYZ"@[31] == 'Z');
    digits_read_back(n);
    if base32_value(c) is Some {
        digits_read_back(base32_value(c)->0);
    }
}

/// An id is its prefix and the hash of what was asked, in twenty-six digits of which each counts
/// thirty-two times the one behind it.
pub proof fn ids_spell_their_hash(
    request: &str,
    id: String,
    value: nat,
    width: nat,
)
    requires
        call_ensures(deterministic_interaction_id, (request,), id),
    ensures
        id@ == "intr_"@ + base32(fnv(vstd::utf8::encode_utf8(request@)) as nat, 26),
        base32(value, 0) == Seq::<char>::empty(),
        base32(value, width + 1) == base32(value / 32, width).push(base32_digit(value % 32)),
{
}

/// A text is an id where it is the prefix and twenty-six digits, the first of them below eight.
pub proof fn ids_are_told_by_their_shape(text: &str, answer: bool)
    requires
        call_ensures(is_interaction_id, (text,), answer),
    ensures
        answer ==> text@.len() == 31 && text@.take(5) == "intr_"@ && base32_value(text@[5]) is Some && base32_value(text@[5])->0 < 8 && forall|i: int| 5 <= i < 31 ==> base32_value(#[trigger] text@[i]) is Some,
        (text@.len() == 31 && text@.take(5) == "intr_"@ && base32_value(text@[5]) is Some && base32_value(text@[5])->0 < 8 && forall|i: int| 5 <= i < 31 ==> base32_value(#[trigger] text@[i]) is Some) ==> answer,
{
}

/// A question is recorded exactly where its run is in flight on that machine and for that thread.
/// The row is the run's and the thread's, holds what was asked, and has the id of the run and the
/// request.
pub proof fn questions_become_rows_of_their_run(
    registry: RunRegistry,
    request: InteractionRequest,
    providers: Vec<ProviderSpec>,
    answer: Result<NewInteraction, RecordOutcome>,
)
    requires
        call_ensures(RunRegistry::record_interaction_request, (&registry, request, &providers), answer),
    ensures
        ({
            let records = registry@.records;
            let known = records.dom().contains(request.run_id@);
            let record = records[request.run_id@];
            &&& answer is Ok <==> known && record.host_id@ == request.host_id@ && record.thread_id@ == request.thread_id@
            &&& answer matches Ok(row) ==> {
                &&& row.id@ == interaction_id_of(request.run_id@ + "/"@ + request.request_id@)
                &&& row.thread_id == request.thread_id
                &&& row.turn_id == request.run_id
                &&& row.kind == request.kind
                &&& row.payload == request.payload
                &&& row.provider_thread_id == request.provider_thread_id
                &&& row.expires_at_ms == request.expires_at_ms
                &&& row.origin is Provider
                &&& row.origin->provider_request_id == request.request_id
                &&& providers@.len() > 0 ==> row.origin->provider_id@ == providers@[0].name@
            }
            &&& !known ==> (answer matches Err(RecordOutcome::Unknown(reason)) && reason@ == "run "@ + request.run_id@ + " is not in flight"@)
            &&& (known && record.host_id@ != request.host_id@) ==> (answer matches Err(RecordOutcome::Unknown(reason)) && reason@ == "run "@ + request.run_id@ + " is owned by host "@ + record.host_id@ + ", not "@ + request.host_id@)
            &&& (known && record.host_id@ == request.host_id@ && record.thread_id@ != request.thread_id@) ==> (answer matches Err(RecordOutcome::Unknown(reason)) && reason@ == "run "@ + request.run_id@ + " belongs to thread "@ + record.thread_id@ + ", not "@ + request.thread_id@)
        }),
{
}

/// A decision is sent back exactly where it decides an agent's approval whose run is still in
/// flight: to the run's machine, for the request that was asked. It allows only what the decision's
/// word allows.
pub proof fn decisions_go_back_to_their_run(
    registry: RunRegistry,
    interaction: Interaction,
    resolution: Resolution,
    now_ms: u64,
    answer: Option<InteractionResolutionFrame>,
)
    requires
        call_ensures(RunRegistry::resolution_frame, (&registry, &interaction, &resolution, now_ms), answer),
    ensures
        ({
            let records = registry@.records;
            &&& answer is Some <==> interaction.kind@ == "approval"@ && interaction.origin is Provider && resolution is Decision && records.dom().contains(interaction.turn_id@)
            &&& answer matches Some(frame) ==> {
                let record = records[interaction.turn_id@];
                &&& frame.host_id == record.host_id
                &&& frame.run_id == record.run_id
                &&& frame.thread_id == record.thread_id
                &&& frame.request_id == interaction.origin->provider_request_id
                &&& frame.interaction_id == interaction.id
                &&& frame.created_at_ms == now_ms
                &&& frame.decision == PermissionDecision::AllowOnce <==> resolution->decision@ == "allow_once"@
                &&& frame.decision == PermissionDecision::AllowForSession <==> resolution->decision@ == "allow_for_session"@
                &&& frame.decision == PermissionDecision::Deny <==> resolution->decision@ != "allow_once"@ && resolution->decision@ != "allow_for_session"@
            }
        }),
{
    reveal_strlit("allow_once");
    reveal_strlit("allow_for_session");
    assert("allow_once"@.len() == 10);
    assert("allow_for_session"@.len() == 17);
}

/// A word is a decision to allow only where it says so; every other word denies.
pub proof fn decisions_are_words(word: &str, answer: PermissionDecision)
    requires
        call_ensures(permission_decision, (word,), answer),
    ensures
        answer == PermissionDecision::AllowOnce <==> word@ == "allow_once"@,
        answer == PermissionDecision::AllowForSession <==> word@ == "allow_for_session"@,
        PermissionDecision::AllowOnce.spec_as_str() == "allow_once"@,
        PermissionDecision::AllowForSession.spec_as_str() == "allow_for_session"@,
        PermissionDecision::Deny.spec_as_str() == "deny"@,
{
    reveal_strlit("allow_once");
    reveal_strlit("allow_for_session");
    assert("allow_once"@.len() == 10);
    assert("allow_for_session"@.len() == 17);
}

/// The frame of a decision names the machine, the run, the thread, the request and the interaction,
/// and says the decision by its word.
pub proof fn decisions_are_framed(frame: InteractionResolutionFrame, value: Json)
    requires
        call_ensures(InteractionResolutionFrame::to_json, (&frame,), value),
    ensures
        member(value@, "host_id"@) == Some(Tree::Str(frame.host_id@)),
        member(value@, "run_id"@) == Some(Tree::Str(frame.run_id@)),
        member(value@, "thread_id"@) == Some(Tree::Str(frame.thread_id@)),
        member(value@, "request_id"@) == Some(Tree::Str(frame.request_id@)),
        member(value@, "interaction_id"@) == Some(Tree::Str(frame.interaction_id@)),
        member(value@, "created_at_ms"@) == Some(Tree::UInt(frame.created_at_ms)),
        member(value@, "answer"@) is Some,
        member(member(value@, "answer"@)->0, "kind"@) == Some(Tree::Str("decision"@)),
        frame.decision == PermissionDecision::AllowOnce ==> member(member(value@, "answer"@)->0, "decision"@) == Some(Tree::Str("allow_once"@)),
        frame.decision == PermissionDecision::AllowForSession ==> member(member(value@, "answer"@)->0, "decision"@) == Some(Tree::Str("allow_for_session"@)),
        frame.decision == PermissionDecision::Deny ==> member(member(value@, "answer"@)->0, "decision"@) == Some(Tree::Str("deny"@)),
{
    broadcast use {crate::json::member_of_field, crate::reply::errors_say_what_is_wrong};

    reveal_strlit("kind");
    reveal_strlit("answer");
    reveal_strlit("run_id");
    reveal_strlit("host_id");
    reveal_strlit("decision");
    reveal_strlit("thread_id");
    reveal_strlit("request_id");
    reveal_strlit("created_at_ms");
    reveal_strlit("interaction_id");
    assert("kind"@.len() == 4);
    assert("answer"@.len() == 6 && "answer"@[0] == 'a');
    assert("run_id"@.len() == 6 && "run_id"@[0] == 'r');
    assert("host_id"@.len() == 7);
    assert("decision"@.len() == 8);
    assert("thread_id"@.len() == 9);
    assert("request_id"@.len() == 10);
    assert("created_at_ms"@.len() == 13);
    assert("interaction_id"@.len() == 14);
}

/// Only an open interaction takes an answer: one that is settled stays as it is, and one that is
/// gone is unknown.
pub proof fn settled_questions_stay_settled(existing: Option<Interaction>, answer: Result<Interaction, DeliverOutcome>)
    requires
        call_ensures(deliver_interaction_resolution, (existing,), answer),
    ensures
        answer is Ok <==> existing is Some && existing->0.open,
        answer is Ok ==> existing == Some(answer->Ok_0),
        existing is None ==> answer is Err && answer->Err_0 is Unknown,
        existing is Some && !existing->0.open ==> answer is Err && answer->Err_0 == DeliverOutcome::Settled(existing->0),
{
}

/// What was resolved is delivered; what someone else settled first is settled; what is gone is
/// unknown.
pub proof fn answers_are_delivered_once(
    resolved: Option<Interaction>,
    current: Option<Interaction>,
    outcome: DeliverOutcome,
)
    requires
        call_ensures(interaction_resolved, (resolved, current), outcome),
    ensures
        resolved matches Some(interaction) ==> outcome == DeliverOutcome::Delivered(interaction),
        resolved is None && current is Some ==> outcome == DeliverOutcome::Settled(current->0),
        resolved is None && current is None ==> outcome is Unknown,
{
}

/// An interaction shows what is asked, of which thread and turn, how it stands and how it was
/// resolved; an agent's also shows the agent, its conversation and its request.
#[verifier::rlimit(50)]
pub proof fn interactions_show_who_asks_what(
    interaction: Interaction,
    providers: Vec<ProviderSpec>,
    value: Json,
)
    requires
        call_ensures(interaction_value, (&interaction, &providers), value),
    ensures
        member(value@, "id"@) == Some(Tree::Str(interaction.id@)),
        member(value@, "threadId"@) == Some(Tree::Str(interaction.thread_id@)),
        member(value@, "status"@) == Some(Tree::Str(interaction.status@)),
        member(value@, "statusReason"@) == Some(opt_tree(opt_view(interaction.status_reason))),
        member(value@, "createdAt"@) == Some(Tree::UInt(interaction.created_at_ms)),
        member(value@, "resolvedAt"@) == Some(opt_uint_tree(interaction.resolved_at_ms)),
        member(value@, "turnId"@) == Some(Tree::Str(interaction.turn_id@)),
        member(value@, "payload"@) == Some(interaction.payload@),
        member(value@, "expiresAt"@) == Some(opt_uint_tree(interaction.expires_at_ms)),
        interaction.resolution is None ==> member(value@, "resolution"@) == Some(Tree::Null),
        interaction.resolution matches Some(resolution) ==> member(value@, "resolution"@) == Some(resolution@),
        interaction.origin is Plugin ==> member(value@, "providerId"@) is None && member(value@, "providerThreadId"@) is None && member(value@, "providerRequestId"@) is None,
        interaction.origin matches InteractionOrigin::Plugin { plugin_id, renderer_id } ==> (member(value@, "origin"@) matches Some(origin) && member(origin, "kind"@) == Some(Tree::Str("plugin"@)) && member(origin, "pluginId"@) == Some(Tree::Str(plugin_id@)) && member(origin, "rendererId"@) == Some(Tree::Str(renderer_id@))),
        interaction.origin matches InteractionOrigin::Provider { provider_id, provider_request_id } ==> {
            let conversation = if interaction.provider_thread_id is Some { interaction.provider_thread_id->0@ } else { interaction.thread_id@ };
            &&& providers@.len() > 0 ==> member(value@, "providerId"@) == Some(Tree::Str(providers@[0].name@))
            &&& member(value@, "providerThreadId"@) == Some(Tree::Str(conversation))
            &&& member(value@, "providerRequestId"@) == Some(Tree::Str(provider_request_id@))
            &&& (member(value@, "origin"@) matches Some(origin) && member(origin, "kind"@) == Some(Tree::Str("provider"@)) && member(origin, "providerId"@) == Some(Tree::Str(provider_id@)) && member(origin, "providerThreadId"@) == Some(Tree::Str(conversation)) && member(origin, "providerRequestId"@) == Some(Tree::Str(provider_request_id@)))
        },
{
    broadcast use {crate::json::member_of_field, crate::reply::errors_say_what_is_wrong};

    reveal_strlit("id");
    reveal_strlit("kind");
    reveal_strlit("origin");
    reveal_strlit("status");
    reveal_strlit("turnId");
    reveal_strlit("payload");
    reveal_strlit("pluginId");
    reveal_strlit("threadId");
    reveal_strlit("createdAt");
    reveal_strlit("expiresAt");
    reveal_strlit("providerId");
    reveal_strlit("rendererId");
    reveal_strlit("resolution");
    reveal_strlit("resolvedAt");
    reveal_strlit("statusReason");
    reveal_strlit("providerThreadId");
    reveal_strlit("providerRequestId");
    assert("id"@.len() == 2);
    assert("kind"@.len() == 4);
    assert("origin"@.len() == 6 && "origin"@[0] == 'o');
    assert("status"@.len() == 6 && "status"@[0] == 's');
    assert("turnId"@.len() == 6 && "turnId"@[0] == 't');
    assert("payload"@.len() == 7);
    assert("pluginId"@.len() == 8 && "pluginId"@[0] == 'p');
    assert("threadId"@.len() == 8 && "threadId"@[0] == 't');
    assert("createdAt"@.len() == 9 && "createdAt"@[0] == 'c');
    assert("expiresAt"@.len() == 9 && "expiresAt"@[0] == 'e');
    assert("providerId"@.len() == 10 && "providerId"@[5] == 'd');
    assert("rendererId"@.len() == 10 && "rendererId"@[5] == 'r');
    assert("resolution"@.len() == 10 && "resolution"@[5] == 'u');
    assert("resolvedAt"@.len() == 10 && "resolvedAt"@[5] == 'v');
    assert("statusReason"@.len() == 12);
    assert("providerThreadId"@.len() == 16);
    assert("providerRequestId"@.len() == 17);
}

/// The interactions of a thread are listed in their order, each as it is shown.
pub proof fn interactions_are_listed_in_order(
    interactions: Vec<Interaction>,
    providers: Vec<ProviderSpec>,
    answer: Reply,
)
    requires
        call_ensures(thread_interactions, (&interactions, &providers), answer),
    ensures
        answer@.status == 200,
        answer@.body == Tree::Array(interactions@.map_values(|interaction: Interaction| interaction_tree(interaction, providers@))),
{
    assert(answer@.body->Array_0 =~= interactions@.map_values(
        |interaction: Interaction| interaction_tree(interaction, providers@),
    ));
}

/// An interaction is found through its own thread alone.
pub proof fn interactions_belong_to_their_thread(
    interaction: Option<Interaction>,
    thread_id: &str,
    interaction_id: &str,
    answer: Result<Interaction, Reply>,
)
    requires
        call_ensures(interaction_in_thread, (interaction, thread_id, interaction_id), answer),
    ensures
        answer is Ok <==> interaction is Some && interaction->0.thread_id@ == thread_id@,
        answer is Ok ==> interaction == Some(answer->Ok_0),
        interaction is None ==> refuses(answer->Err_0@, 404, "not_found"@, "interaction "@ + interaction_id@ + " is not known"@),
        interaction is Some && interaction->0.thread_id@ != thread_id@ ==> refuses(answer->Err_0@, 404, "not_found"@, "interaction "@ + interaction_id@ + " belongs to another thread"@),
{
    broadcast use {crate::json::member_of_field, crate::reply::errors_say_what_is_wrong};

}

/// An answer is refused exactly where it does not fit the question.
pub proof fn answers_fit_the_question(
    interaction: Interaction,
    answers: bool,
    answer: Option<Reply>,
)
    requires
        call_ensures(respond_refusal, (&interaction, answers), answer),
    ensures
        answer is None <==> answers,
        answer is Some ==> refuses(answer->0@, 400, "invalid_request"@, "interaction "@ + interaction.id@ + " is a "@ + interaction.kind@ + " and takes a typed resolution, not an opaque value"@),
{
    broadcast use {crate::json::member_of_field, crate::reply::errors_say_what_is_wrong};

}

/// A request to resolve is coherent where an allowing decision says what it grants, a denial grants
/// nothing, and every other resolution says its own kind.
pub proof fn requests_say_one_coherent_thing(request: ResolveInteractionRequest, answer: Result<(), String>)
    requires
        call_ensures(ResolveInteractionRequest::is_coherent, (&request,), answer),
    ensures
        request matches ResolveInteractionRequest::Decision { decision, granted_permissions } ==> {
            let allows = decision@ == "allow_once"@ || decision@ == "allow_for_session"@;
            &&& answer is Ok <==> (allows && granted_permissions is Some) || (decision@ == "deny"@ && granted_permissions is None)
            &&& (allows && granted_permissions is None) ==> answer->Err_0@ == "decision `"@ + decision@ + "` needs `grantedPermissions`"@
            &&& (decision@ == "deny"@ && granted_permissions is Some) ==> answer->Err_0@ == "a `deny` decision must not carry `grantedPermissions`"@
            &&& (!allows && decision@ != "deny"@) ==> answer->Err_0@ == "decision must be `allow_once`, `allow_for_session` or `deny`, got "@ + debug_quoted(decision@)
        },
        request matches ResolveInteractionRequest::UserAnswer { kind, .. } ==> (answer is Ok <==> kind@ == "user_answer"@) && (answer is Err ==> answer->Err_0@ == "unknown resolution kind "@ + debug_quoted(kind@)),
        request matches ResolveInteractionRequest::PluginSubmitted { kind } ==> (answer is Ok <==> kind@ == "plugin_submitted"@) && (answer is Err ==> answer->Err_0@ == "unknown resolution kind "@ + debug_quoted(kind@)),
        request matches ResolveInteractionRequest::RequestAnswer { kind, .. } ==> (answer is Ok <==> kind@ == "request_answer"@) && (answer is Err ==> answer->Err_0@ == "unknown resolution kind "@ + debug_quoted(kind@)),
{
    reveal_strlit("deny");
    reveal_strlit("allow_once");
    reveal_strlit("allow_for_session");
    assert("deny"@.len() == 4);
    assert("allow_once"@.len() == 10);
    assert("allow_for_session"@.len() == 17);
}

/// A request resolves an interaction as it says: with its decision, its answers or its value.
pub proof fn requests_resolve_as_they_say(request: ResolveInteractionRequest, answer: Resolution)
    requires
        call_ensures(ResolveInteractionRequest::resolution, (request,), answer),
    ensures
        request matches ResolveInteractionRequest::Decision { decision, granted_permissions } ==> answer == (Resolution::Decision { decision, granted_permissions }),
        request matches ResolveInteractionRequest::UserAnswer { answers, .. } ==> answer == (Resolution::UserAnswer { answers }),
        request is PluginSubmitted ==> answer is PluginSubmitted,
        request matches ResolveInteractionRequest::RequestAnswer { value, .. } ==> answer == (Resolution::RequestAnswer { value }),
{
}

/// A resolution is taken exactly where it is coherent and can answer the question.
pub proof fn resolutions_fit_the_question(
    interaction: Interaction,
    request: ResolveInteractionRequest,
    answers: bool,
    resolution_kind: &str,
    answer: Option<Reply>,
    coherent: Result<(), String>,
)
    requires
        call_ensures(resolve_refusal, (&interaction, &request, answers, resolution_kind), answer),
        call_ensures(ResolveInteractionRequest::is_coherent, (&request,), coherent),
    ensures
        answer is None <==> coherent is Ok && answers,
        coherent is Err ==> refuses(answer->0@, 400, "invalid_request"@, coherent->Err_0@),
        coherent is Ok && !answers ==> refuses(answer->0@, 400, "invalid_request"@, "interaction "@ + interaction.id@ + " is a "@ + interaction.kind@ + "; a "@ + resolution_kind@ + " cannot answer it"@),
{
    broadcast use {crate::json::member_of_field, crate::reply::errors_say_what_is_wrong};

}

/// What became of an answer or a cancellation decides the reply: the interaction where it was
/// delivered, that it will be tried again where it was not, how it was settled before, or that it
/// is unknown.
pub proof fn settling_is_answered_by_its_outcome(
    verb: SettleVerb,
    outcome: DeliverOutcome,
    interaction_id: &str,
    providers: Vec<ProviderSpec>,
    answer: Reply,
)
    requires
        call_ensures(deliver_interaction_response, (verb, outcome, interaction_id, &providers), answer),
    ensures
        outcome matches DeliverOutcome::Delivered(interaction) ==> answer@.status == 200 && answer@.body == interaction_tree(interaction, providers@),
        outcome is Unknown ==> refuses(answer@, 404, "not_found"@, "interaction "@ + interaction_id@ + " is not known"@),
        verb is Answer ==> (outcome matches DeliverOutcome::DeliveryFailed { interaction, error } ==> refuses(answer@, 500, "internal_error"@, "interaction "@ + interaction.id@ + " answer is queued for retry: "@ + error@)),
        verb is Cancel ==> (outcome matches DeliverOutcome::DeliveryFailed { interaction, error } ==> refuses(answer@, 500, "internal_error"@, "interaction "@ + interaction.id@ + " cancellation is queued for retry: "@ + error@)),
        verb is Answer ==> (outcome matches DeliverOutcome::Settled(interaction) ==> refuses(answer@, 409, "awaiting_user_interaction"@, "interaction "@ + interaction.id@ + " was already settled as "@ + interaction.status@)),
        verb is Cancel ==> (outcome matches DeliverOutcome::Settled(interaction) ==> refuses(answer@, 409, "awaiting_user_interaction"@, "interaction "@ + interaction.id@ + " is already "@ + interaction.status@)),
{
    broadcast use {crate::json::member_of_field, crate::reply::errors_say_what_is_wrong};

}

} // verus!
