//! Where a thread runs, and what is told to the machine that runs it.

use vstd::prelude::*;

use crate::domain::{
    by_id, find_by_id, found_by_id, missed_by_id, Environment, Host, HostStatus,
    Identified, ProviderSpec, RunOutcome, Thread,
};
use crate::lifecycle::{FinishRequest, FinishRunResult};
use crate::runs::{RunRecord, RunRegistry, RunTable};
use crate::text::{copy_opt, joined3, opt_view};

verus! {

/// What happened when a dispatch was attempted.
#[derive(Debug, PartialEq, Eq)]
pub enum DispatchOutcome {
    /// The dispatch was appended to the host's scope and the run is in flight.
    Dispatched(RunRecord),
    /// Another dispatch already owns this thread.
    AlreadyInFlight {
        /// The run currently claiming the thread.
        run_id: String,
    },
    /// The thread has no usable environment, so there is no workspace to run the provider in. The
    /// run was failed on the spot.
    NoEnvironment {
        /// The run id reported in the terminal event.
        run_id: String,
        /// Why the thread could not run.
        reason: String,
    },
    /// The machine that holds the workspace is not there. The run was failed on the spot.
    NoHost {
        /// The run id reported in the terminal event.
        run_id: String,
        /// Why the thread could not run.
        reason: String,
    },
    /// The relay rejected an append.
    PublishFailed {
        /// The run whose lifecycle could not be published.
        run_id: String,
        /// Why the append failed.
        error: String,
    },
}

/// What a host is told to run.
#[derive(Debug, PartialEq, Eq)]
pub struct RunDispatch {
    /// The run.
    pub run_id: String,
    /// The thread that it advances.
    pub thread_id: String,
    /// The agent's conversation to continue, where there is one to continue.
    pub provider_session_id: Option<String>,
    /// The thread's project.
    pub project_id: String,
    /// The host.
    pub host_id: String,
    /// What to tell the agent.
    pub prompt: String,
    /// The agent, and the directory to start it in.
    pub provider: ProviderSpec,
    /// The most that the run may do.
    pub permission_ceiling: String,
    /// When the run must be terminal.
    pub deadline_ms: u64,
    /// When the dispatch was made.
    pub created_at_ms: u64,
}

/// Which of the two ways a dispatch failed before it was made.
#[derive(Clone, Copy, Debug, PartialEq, Eq, Structural)]
pub enum Preflight {
    /// There is no workspace.
    NoEnvironment,
    /// There is no machine.
    NoHost,
}

/// What to do next with a dispatch.
#[derive(Debug, PartialEq, Eq)]
pub enum DispatchStep {
    /// Nothing: this is the outcome.
    Done(DispatchOutcome),
    /// The thread cannot run. Its run is on record; finish it.
    Fail {
        /// How it failed.
        preflight: Preflight,
        /// Why.
        reason: String,
        /// What to finish.
        request: FinishRequest,
    },
    /// The run is on record. Publish the dispatch to its host.
    Publish {
        /// The record.
        record: RunRecord,
        /// The dispatch.
        dispatch: RunDispatch,
    },
}

/// Where a thread runs.
pub ghost enum Route {
    /// Nowhere, for want of a workspace.
    NoEnvironment(Seq<char>),
    /// Nowhere, for want of a machine.
    NoHost(Seq<char>),
    /// On the machine that holds its workspace, in that workspace.
    Run {
        /// The machine.
        host: Host,
        /// The directory.
        workspace: String,
    },
}

/// Where a thread runs: in its own environment, once that is ready and has a path, and on that
/// environment's host, while it is connected. Never anywhere else.
pub open spec fn route(thread: Thread, environments: Seq<Environment>, hosts: Seq<Host>) -> Route {
    match thread.environment_id {
        None => Route::NoEnvironment(
            "thread has no environment bound; bind one before dispatching"@,
        ),
        Some(id) => match by_id(environments, id@) {
            None => Route::NoEnvironment("environment "@ + id@ + " is not known"@),
            Some(environment) => if !environment.spec_is_ready() {
                Route::NoEnvironment(
                    "environment "@ + id@ + " is "@ + environment.status@ + " and not ready to run"@,
                )
            } else {
                match environment.path {
                    None => Route::NoEnvironment(
                        "environment "@ + id@ + " has no workspace path"@,
                    ),
                    Some(workspace) => match by_id(hosts, environment.host_id@) {
                        None => Route::NoHost(
                            "host "@ + environment.host_id@ + " is not known"@,
                        ),
                        Some(host) => if host.status != HostStatus::Connected {
                            Route::NoHost(
                                "host "@ + host.id@
                                    + " owns this thread's workspace but is not connected"@,
                            )
                        } else {
                            Route::Run { host, workspace }
                        },
                    },
                }
            },
        },
    }
}

/// Where a thread runs, found.
enum Found<'a> {
    NoEnvironment(String),
    NoHost(String),
    Run { host: &'a Host, workspace: &'a String },
}

/// Finds where a thread runs.
fn resolve_route<'a>(
    thread: &Thread,
    environments: &'a Vec<Environment>,
    hosts: &'a Vec<Host>,
) -> (result: Found<'a>)
    ensures
        match route(*thread, environments@, hosts@) {
            Route::NoEnvironment(reason) => result matches Found::NoEnvironment(text) && text@
                == reason,
            Route::NoHost(reason) => result matches Found::NoHost(text) && text@ == reason,
            Route::Run { host, workspace } => result matches Found::Run { host: h, workspace: w }
                && *h == host && *w == workspace,
        },
{
    let environment_id: &String = match &thread.environment_id {
        Some(id) => id,
        None => {
            return Found::NoEnvironment(
                "thread has no environment bound; bind one before dispatching".to_owned(),
            );
        },
    };
    let environment: &Environment = match find_by_id(environments, environment_id.as_str()) {
        Some(environment) => environment,
        None => {
            return Found::NoEnvironment(
                joined3("environment ", environment_id.as_str(), " is not known"),
            );
        },
    };
    if !environment.is_ready() {
        let mut reason: String = joined3("environment ", environment_id.as_str(), " is ");
        reason.append(environment.status.as_str());
        reason.append(" and not ready to run");
        return Found::NoEnvironment(reason);
    }
    let workspace: &String = match &environment.path {
        Some(path) => path,
        None => {
            return Found::NoEnvironment(
                joined3("environment ", environment_id.as_str(), " has no workspace path"),
            );
        },
    };
    match find_by_id(hosts, environment.host_id.as_str()) {
        None => Found::NoHost(joined3("host ", environment.host_id.as_str(), " is not known")),
        Some(host) => {
            if host.status != HostStatus::Connected {
                Found::NoHost(
                    joined3(
                        "host ",
                        host.id.as_str(),
                        " owns this thread's workspace but is not connected",
                    ),
                )
            } else {
                Found::Run { host, workspace }
            }
        },
    }
}

/// The deadline of a run that starts now, as late as the clock can say.
pub open spec fn deadline(now_ms: u64, timeout_ms: u64) -> u64 {
    if now_ms + timeout_ms > u64::MAX {
        u64::MAX
    } else {
        (now_ms + timeout_ms) as u64
    }
}

/// Whether a record is that of a fresh run of a thread on a host.
pub open spec fn fresh_record(
    record: RunRecord,
    thread: Thread,
    run_id: Seq<char>,
    host_id: Seq<char>,
    cwd: Seq<char>,
    now_ms: u64,
    deadline_ms: u64,
) -> bool {
    &&& record.run_id@ == run_id
    &&& record.thread_id@ == thread.id@
    &&& record.project_id@ == thread.project_id@
    &&& record.host_id@ == host_id
    &&& record.cwd@ == cwd
    &&& record.started_at_ms == now_ms
    &&& record.deadline_ms == deadline_ms
    &&& !record.turn_started
    &&& !record.provider_error_reported
    &&& !record.terminal_published
    &&& record.terminal_outcome is None
    &&& record.pending_status_event is None
}

/// Whether a dispatch tells a host what a run's record and the server's configuration say: to
/// start the agent in the run's own workspace and to continue only a session of that agent in
/// that workspace.
pub open spec fn dispatch_fits(
    dispatch: RunDispatch,
    record: RunRecord,
    thread: Thread,
    host: Host,
    provider: ProviderSpec,
    prompt: Seq<char>,
) -> bool {
    &&& dispatch.run_id@ == record.run_id@
    &&& dispatch.thread_id@ == record.thread_id@
    &&& dispatch.project_id@ == record.project_id@
    &&& dispatch.host_id@ == record.host_id@
    &&& opt_view(dispatch.provider_session_id) == opt_view(
        thread.spec_resumable(provider.name@, record.cwd@),
    )
    &&& opt_view(record.provider_thread_id) == opt_view(dispatch.provider_session_id)
    &&& dispatch.prompt@ == prompt
    &&& dispatch.provider.name@ == provider.name@
    &&& opt_view(dispatch.provider.cwd) == Some(record.cwd@)
    &&& dispatch.provider.launch@ == provider.launch@
    &&& dispatch.permission_ceiling@ == host.max_permission_mode@
    &&& dispatch.deadline_ms == record.deadline_ms
    &&& dispatch.created_at_ms == record.started_at_ms
}

/// Whether a request finishes a run as failed before it was dispatched.
pub open spec fn preflight_request(
    request: FinishRequest,
    run_id: Seq<char>,
    reason: Seq<char>,
    synthetic: Seq<char>,
    now_ms: u64,
) -> bool {
    &&& request.run_id@ == run_id
    &&& request.outcome == RunOutcome::Failed
    &&& opt_view(request.error) == Some(reason)
    &&& request.event is None
    &&& request.synthetic_identity@ == synthetic
    &&& request.now_ms == now_ms
}

/// The table once a thread is claimed by a run.
pub open spec fn claimed(table: RunTable, thread: Seq<char>, run: Seq<char>) -> RunTable {
    RunTable { records: table.records, claims: table.claims.insert(thread, run) }
}

/// What a dispatch is made from.
pub struct DispatchContext {
    /// The freshly minted run id.
    pub run_id: String,
    /// A host id of no host, for the record of a run that is failed before it has one.
    pub preflight_host_id: String,
    /// The stand-in identity to start the turn under, where none is known.
    pub synthetic_identity: String,
    /// The agent that the server is configured with.
    pub provider: ProviderSpec,
    /// How long a run may take.
    pub run_timeout_ms: u64,
    /// The time.
    pub now_ms: u64,
}

/// Whether a record is that of a run that was failed before it was dispatched.
pub open spec fn failed_record(
    record: RunRecord,
    thread: Thread,
    context: DispatchContext,
    reason: Seq<char>,
) -> bool {
    &&& fresh_record(
        record,
        thread,
        context.run_id@,
        context.preflight_host_id@,
        ""@,
        context.now_ms,
        context.now_ms,
    )
    &&& record.provider_thread_id is None
    &&& opt_view(record.failure_reason) == Some(reason)
}

/// Whether a dispatch failed before it was made, and its run is on record to be finished.
pub open spec fn fails_on_record(
    held: RunTable,
    thread: Thread,
    context: DispatchContext,
    kind: Preflight,
    why: Seq<char>,
    result: DispatchStep,
    after: RunTable,
) -> bool {
    &&& result matches DispatchStep::Fail { preflight, reason, request } && preflight == kind
        && reason@ == why && preflight_request(
        request,
        context.run_id@,
        why,
        context.synthetic_identity@,
        context.now_ms,
    )
    &&& exists|record: RunRecord|
        #![trigger held.with_record(record)]
        after == held.with_record(record) && failed_record(record, thread, context, why)
}

/// Whether beginning a dispatch decides this and leaves the runs in flight so.
pub open spec fn dispatch_decides(
    before: RunTable,
    thread: Thread,
    prompt: Seq<char>,
    environments: Seq<Environment>,
    hosts: Seq<Host>,
    context: DispatchContext,
    result: DispatchStep,
    after: RunTable,
) -> bool {
    if before.claims.dom().contains(thread.id@) {
        &&& after == before
        &&& result matches DispatchStep::Done(DispatchOutcome::AlreadyInFlight { run_id })
            && run_id@ == before.claims[thread.id@]
    } else {
        let held = claimed(before, thread.id@, context.run_id@);
        match route(thread, environments, hosts) {
            Route::NoEnvironment(reason) => fails_on_record(
                held,
                thread,
                context,
                Preflight::NoEnvironment,
                reason,
                result,
                after,
            ),
            Route::NoHost(reason) => fails_on_record(
                held,
                thread,
                context,
                Preflight::NoHost,
                reason,
                result,
                after,
            ),
            Route::Run { host, workspace } => {
                result matches DispatchStep::Publish { record, dispatch } && after
                    == held.with_record(record) && fresh_record(
                    record,
                    thread,
                    context.run_id@,
                    host.id@,
                    workspace@,
                    context.now_ms,
                    deadline(context.now_ms, context.run_timeout_ms),
                ) && record.failure_reason is None && dispatch_fits(
                    dispatch,
                    record,
                    thread,
                    host,
                    context.provider,
                    prompt,
                )
            },
        }
    }
}

impl RunRegistry {
    /// Records a run that cannot be dispatched and says how to finish it.
    fn fail_preflight(
        &mut self,
        thread: &Thread,
        context: &DispatchContext,
        preflight: Preflight,
        reason: String,
    ) -> (result: DispatchStep)
        requires
            old(self).wf(),
        ensures
            final(self).wf(),
            result matches DispatchStep::Fail { preflight: p, reason: r, request } && p
                == preflight && r@ == reason@ && preflight_request(
                request,
                context.run_id@,
                reason@,
                context.synthetic_identity@,
                context.now_ms,
            ),
            exists|record: RunRecord|
                #![trigger old(self)@.with_record(record)]
                final(self)@ == old(self)@.with_record(record) && failed_record(
                    record,
                    *thread,
                    *context,
                    reason@,
                ),
    {
        let record = RunRecord {
            run_id: context.run_id.clone(),
            thread_id: thread.id.clone(),
            project_id: thread.project_id.clone(),
            host_id: context.preflight_host_id.clone(),
            cwd: "".to_owned(),
            started_at_ms: context.now_ms,
            deadline_ms: context.now_ms,
            turn_started: false,
            provider_thread_id: None,
            provider_error_reported: false,
            failure_reason: Some(reason.clone()),
            terminal_published: false,
            terminal_outcome: None,
            pending_status_event: None,
        };
        let _ = self.insert(record);
        let request = FinishRequest {
            run_id: context.run_id.clone(),
            outcome: RunOutcome::Failed,
            error: Some(reason.clone()),
            event: None,
            synthetic_identity: context.synthetic_identity.clone(),
            now_ms: context.now_ms,
        };
        DispatchStep::Fail { preflight, reason, request }
    }

    /// Begins a dispatch: claims the thread for the run, decides where it runs, and records it.
    /// A thread that is claimed already is left alone; one that cannot run is put on record to be
    /// failed on the spot.
    pub fn dispatch_thread(
        &mut self,
        thread: &Thread,
        prompt: &str,
        environments: &Vec<Environment>,
        hosts: &Vec<Host>,
        context: DispatchContext,
    ) -> (result: DispatchStep)
        requires
            old(self).wf(),
        ensures
            final(self).wf(),
            dispatch_decides(
                old(self)@,
                *thread,
                prompt@,
                environments@,
                hosts@,
                context,
                result,
                final(self)@,
            ),
    {
        match self.claim_thread(thread.id.as_str(), context.run_id.clone()) {
            Ok(_) => {},
            Err(existing) => {
                return DispatchStep::Done(DispatchOutcome::AlreadyInFlight { run_id: existing });
            },
        }
        match resolve_route(thread, environments, hosts) {
            Found::NoEnvironment(reason) => self.fail_preflight(
                thread,
                &context,
                Preflight::NoEnvironment,
                reason,
            ),
            Found::NoHost(reason) => self.fail_preflight(
                thread,
                &context,
                Preflight::NoHost,
                reason,
            ),
            Found::Run { host, workspace } => {
                let deadline_ms: u64 = if context.run_timeout_ms > u64::MAX - context.now_ms {
                    u64::MAX
                } else {
                    context.now_ms + context.run_timeout_ms
                };
                let session: Option<String> = thread.resumable_session_id(
                    context.provider.name.as_str(),
                    workspace.as_str(),
                );
                let record = RunRecord {
                    run_id: context.run_id.clone(),
                    thread_id: thread.id.clone(),
                    project_id: thread.project_id.clone(),
                    host_id: host.id.clone(),
                    cwd: workspace.clone(),
                    started_at_ms: context.now_ms,
                    deadline_ms,
                    turn_started: false,
                    provider_thread_id: copy_opt(&session),
                    provider_error_reported: false,
                    failure_reason: None,
                    terminal_published: false,
                    terminal_outcome: None,
                    pending_status_event: None,
                };
                let dispatch = RunDispatch {
                    run_id: context.run_id.clone(),
                    thread_id: thread.id.clone(),
                    provider_session_id: session,
                    project_id: thread.project_id.clone(),
                    host_id: host.id.clone(),
                    prompt: prompt.to_owned(),
                    provider: ProviderSpec {
                        name: context.provider.name.clone(),
                        cwd: Some(workspace.clone()),
                        launch: context.provider.launch.copy(),
                    },
                    permission_ceiling: host.max_permission_mode.clone(),
                    deadline_ms,
                    created_at_ms: context.now_ms,
                };
                let _ = self.insert(record.clone());
                DispatchStep::Publish { record, dispatch }
            },
        }
    }
}

/// What a dispatch came to, once its run was finished on the spot.
pub fn preflight_outcome(
    preflight: Preflight,
    run_id: String,
    reason: String,
    result: FinishRunResult,
) -> (outcome: DispatchOutcome)
    ensures
        outcome == (match result {
            FinishRunResult::PublishFailed(error) => DispatchOutcome::PublishFailed {
                run_id,
                error,
            },
            _ => match preflight {
                Preflight::NoEnvironment => DispatchOutcome::NoEnvironment { run_id, reason },
                Preflight::NoHost => DispatchOutcome::NoHost { run_id, reason },
            },
        }),
{
    match result {
        FinishRunResult::PublishFailed(error) => DispatchOutcome::PublishFailed { run_id, error },
        _ => match preflight {
            Preflight::NoEnvironment => DispatchOutcome::NoEnvironment { run_id, reason },
            Preflight::NoHost => DispatchOutcome::NoHost { run_id, reason },
        },
    }
}

/// What a dispatch came to, once its publication was attempted, and what to finish where it was
/// rejected: a run that never reached the log can never be reported, so it is failed at once.
pub fn publish_outcome(
    record: RunRecord,
    published: Result<(), String>,
    synthetic_identity: &str,
    now_ms: u64,
) -> (result: (DispatchOutcome, Option<FinishRequest>))
    ensures
        match published {
            Ok(_) => result.0 == DispatchOutcome::Dispatched(record) && result.1 is None,
            Err(error) => {
                &&& result.0 matches DispatchOutcome::PublishFailed { run_id, error: e } && run_id
                    == record.run_id && e == error
                &&& result.1 matches Some(request) && preflight_request(
                    request,
                    record.run_id@,
                    error@,
                    synthetic_identity@,
                    now_ms,
                )
            },
        },
{
    match published {
        Ok(_) => (DispatchOutcome::Dispatched(record), None),
        Err(error) => {
            let request = FinishRequest {
                run_id: record.run_id.clone(),
                outcome: RunOutcome::Failed,
                error: Some(error.clone()),
                event: None,
                synthetic_identity: synthetic_identity.to_owned(),
                now_ms,
            };
            (DispatchOutcome::PublishFailed { run_id: record.run_id, error }, Some(request))
        },
    }
}

/// A run goes to the machine that holds its thread's workspace and to no other: wherever a thread
/// is dispatched, its own environment is ready, is on that host, and has that directory.
pub proof fn runs_stay_with_their_workspace(
    thread: Thread,
    environments: Seq<Environment>,
    hosts: Seq<Host>,
    host: Host,
    workspace: String,
)
    requires
        route(thread, environments, hosts) == (Route::Run { host, workspace }),
    ensures
        host.status == HostStatus::Connected,
        thread.environment_id is Some,
        by_id(environments, thread.environment_id->0@) matches Some(environment)
            && environment.spec_is_ready() && environment.path == Some(workspace) && by_id(
            hosts,
            environment.host_id@,
        ) == Some(host),
{
}

/// An agent's conversation is continued exactly where it belongs. A dispatch names a session only
/// where its thread learned that session from the configured agent in the very directory that the
/// run starts in; and where the thread did, the dispatch names it, and the run is recorded under it.
pub proof fn conversations_go_on_where_they_belong(
    before: RunTable,
    thread: Thread,
    prompt: Seq<char>,
    environments: Seq<Environment>,
    hosts: Seq<Host>,
    context: DispatchContext,
    record: RunRecord,
    dispatch: RunDispatch,
    after: RunTable,
)
    requires
        dispatch_decides(
            before,
            thread,
            prompt,
            environments,
            hosts,
            context,
            (DispatchStep::Publish { record, dispatch }),
            after,
        ),
    ensures
        dispatch.provider_session_id matches Some(named) ==> {
            &&& thread.provider_session_id matches Some(session) && session@ == named@
            &&& thread.provider_session_binding matches Some(binding) && binding.agent@
                == context.provider.name@ && binding.agent@ == dispatch.provider.name@ && (
            dispatch.provider.cwd matches Some(cwd) && binding.cwd@ == cwd@)
        },
        (thread.provider_session_id is Some && (thread.provider_session_binding matches Some(
            binding,
        ) && binding.agent@ == context.provider.name@ && (dispatch.provider.cwd matches Some(cwd)
            && binding.cwd@ == cwd@))) ==> dispatch.provider_session_id is Some
            && dispatch.provider_session_id->0@ == thread.provider_session_id->0@,
        dispatch.provider_session_id is Some <==> record.provider_thread_id is Some,
        dispatch.provider_session_id is Some ==> record.provider_thread_id->0@
            == dispatch.provider_session_id->0@,
{
}

/// Whether a thread can run: its environment is known, is ready and has a directory, and the
/// machine of that environment is known and attached. Of two of the same id the first counts.
pub open spec fn can_run(
    thread: Thread,
    environments: Seq<Environment>,
    hosts: Seq<Host>,
    e: int,
    h: int,
) -> bool {
    &&& 0 <= e < environments.len() && 0 <= h < hosts.len()
    &&& thread.environment_id matches Some(id) && environments[e].id@ == id@ && forall|i: int|
        0 <= i < e ==> (#[trigger] environments[i]).id@ != id@
    &&& environments[e].status@ == "ready"@
    &&& environments[e].path is Some
    &&& hosts[h].id@ == environments[e].host_id@ && forall|i: int|
        0 <= i < h ==> (#[trigger] hosts[i]).id@ != environments[e].host_id@
    &&& hosts[h].status == HostStatus::Connected
}

/// A turn is dispatched exactly where its thread can run: to the machine of its own environment, to
/// start the configured agent in that environment's directory with this prompt, under what that
/// machine allows and with the time that a run is given. The run is then in flight and holds its
/// thread.
pub proof fn turns_run_in_their_own_workspace(
    before: RunTable,
    thread: Thread,
    prompt: Seq<char>,
    environments: Seq<Environment>,
    hosts: Seq<Host>,
    context: DispatchContext,
    result: DispatchStep,
    after: RunTable,
)
    requires
        dispatch_decides(before, thread, prompt, environments, hosts, context, result, after),
    ensures
        result matches DispatchStep::Publish { record, dispatch } ==> {
            &&& !before.claims.dom().contains(thread.id@)
            &&& exists|e: int, h: int| #[trigger]
                can_run(thread, environments, hosts, e, h) && dispatch.host_id@ == hosts[h].id@
                    && dispatch.permission_ceiling@ == hosts[h].max_permission_mode@ && (
                dispatch.provider.cwd matches Some(cwd) && cwd@ == environments[e].path->0@)
                    && record.cwd@ == environments[e].path->0@ && record.host_id@ == hosts[h].id@
            &&& dispatch.prompt@ == prompt
            &&& dispatch.provider.name@ == context.provider.name@
            &&& dispatch.provider.launch@ == context.provider.launch@
            &&& dispatch.thread_id@ == thread.id@ && dispatch.project_id@ == thread.project_id@
            &&& dispatch.run_id@ == context.run_id@ && dispatch.created_at_ms == context.now_ms
            &&& context.now_ms + context.run_timeout_ms <= u64::MAX ==> dispatch.deadline_ms
                == context.now_ms + context.run_timeout_ms
            &&& context.now_ms + context.run_timeout_ms > u64::MAX ==> dispatch.deadline_ms
                == u64::MAX
            &&& record.deadline_ms == dispatch.deadline_ms && record.started_at_ms
                == context.now_ms && !record.turn_started && !record.terminal_published
                && record.failure_reason is None
            &&& after.records.dom().contains(context.run_id@) && after.records[context.run_id@]
                == record
            &&& after.claims.dom().contains(thread.id@) && after.claims[thread.id@]
                == context.run_id@
        },
        !before.claims.dom().contains(thread.id@) && (exists|e: int, h: int| #[trigger]
            can_run(thread, environments, hosts, e, h)) ==> result is Publish,
{
    if let DispatchStep::Publish { record, dispatch } = result {
        let id = thread.environment_id->0@;
        let e = found_by_id(environments, id);
        let h = found_by_id(hosts, environments[e].host_id@);
        assert forall|i: int| 0 <= i < e implies (#[trigger] environments[i]).id@ != id by {
            assert(environments[i].key() != id);
        }
        assert forall|i: int| 0 <= i < h implies (#[trigger] hosts[i]).id@
            != environments[e].host_id@ by {
            assert(hosts[i].key() != environments[e].host_id@);
        }
        assert(can_run(thread, environments, hosts, e, h));
    }
    if exists|e: int, h: int| #[trigger] can_run(thread, environments, hosts, e, h) {
        let (e, h) = choose|e: int, h: int| #[trigger] can_run(thread, environments, hosts, e, h);
        let id = thread.environment_id->0@;
        if by_id(environments, id) is None {
            missed_by_id(environments, id, e);
        }
        let first = found_by_id(environments, id);
        assert(environments[e].key() == id);
        assert(environments[first].id@ == id);
        assert(first == e);
        let held = environments[e].host_id@;
        if by_id(hosts, held) is None {
            missed_by_id(hosts, held, h);
        }
        let other = found_by_id(hosts, held);
        assert(hosts[h].key() == held);
        assert(hosts[other].id@ == held);
        assert(other == h);
    }
}

/// A thread that cannot run is failed on the spot, under a run of its own: what is finished says
/// that it failed and why, and so does the record, on which nothing has happened yet. A machine is
/// at fault only where the workspace is not.
pub proof fn threads_that_cannot_run_are_failed(
    before: RunTable,
    thread: Thread,
    prompt: Seq<char>,
    environments: Seq<Environment>,
    hosts: Seq<Host>,
    context: DispatchContext,
    preflight: Preflight,
    reason: String,
    request: FinishRequest,
    after: RunTable,
)
    requires
        dispatch_decides(
            before,
            thread,
            prompt,
            environments,
            hosts,
            context,
            (DispatchStep::Fail { preflight, reason, request }),
            after,
        ),
    ensures
        request.run_id@ == context.run_id@,
        request.outcome == RunOutcome::Failed,
        request.error is Some && request.error->0@ == reason@,
        request.event is None,
        reason@.len() > 0,
        after.records.dom().contains(context.run_id@),
        after.records[context.run_id@].failure_reason is Some
            && after.records[context.run_id@].failure_reason->0@ == reason@,
        after.records[context.run_id@].thread_id@ == thread.id@,
        !after.records[context.run_id@].turn_started,
        !after.records[context.run_id@].terminal_published,
        after.claims.dom().contains(thread.id@) && after.claims[thread.id@] == context.run_id@,
        thread.environment_id is None ==> reason@
            == "thread has no environment bound; bind one before dispatching"@,
        thread.environment_id is Some && (forall|i: int|
            0 <= i < environments.len() ==> (#[trigger] environments[i]).id@
                != thread.environment_id->0@) ==> reason@ == "environment "@
            + thread.environment_id->0@ + " is not known"@ && preflight
            == Preflight::NoEnvironment,
        forall|e: int|
            0 <= e < environments.len() && (thread.environment_id matches Some(id) && (
            #[trigger] environments[e]).id@ == id@) && environments[e].status@ != "ready"@ && (
            forall|i: int| 0 <= i < e ==> (#[trigger] environments[i]).id@ != environments[e].id@)
                ==> reason@ == "environment "@ + environments[e].id@ + " is "@
                + environments[e].status@ + " and not ready to run"@ && preflight
                == Preflight::NoEnvironment,
        preflight == Preflight::NoHost ==> exists|e: int|
            0 <= e < environments.len() && (#[trigger] environments[e]).status@ == "ready"@
                && environments[e].path is Some && (thread.environment_id matches Some(id)
                && environments[e].id@ == id@) && forall|h: int|
                0 <= h < hosts.len() && (#[trigger] hosts[h]).id@ == environments[e].host_id@
                    && (forall|i: int| 0 <= i < h ==> (#[trigger] hosts[i]).id@ != hosts[h].id@)
                    ==> hosts[h].status != HostStatus::Connected,
{
    reveal_strlit("thread has no environment bound; bind one before dispatching");
    reveal_strlit("environment ");
    reveal_strlit("host ");
    assert("thread has no environment bound; bind one before dispatching"@.len() == 60);
    assert("environment "@.len() == 12);
    assert("host "@.len() == 5);
    let held = claimed(before, thread.id@, context.run_id@);
    let record = choose|record: RunRecord|
        #![trigger held.with_record(record)]
        after == held.with_record(record) && failed_record(record, thread, context, reason@);
    assert(after == held.with_record(record));
    if thread.environment_id is Some {
        let id = thread.environment_id->0@;
        if by_id(environments, id) is Some {
            let first = found_by_id(environments, id);
            assert(environments[first].key() == environments[first].id@);
            assert forall|e: int|
                0 <= e < environments.len() && (#[trigger] environments[e]).id@ == id && (forall|
                    i: int,
                |
                    0 <= i < e ==> (#[trigger] environments[i]).id@ != environments[e].id@) implies e
                == first by {
                assert(environments[e].key() == id);
            }
        } else {
            assert forall|e: int| 0 <= e < environments.len() implies (#[trigger] environments[e]).id@
                != id by {
                missed_by_id(environments, id, e);
                assert(environments[e].key() == environments[e].id@);
            }
        }
    }
    if preflight == Preflight::NoHost {
        let e = found_by_id(environments, thread.environment_id->0@);
        assert(environments[e].key() == environments[e].id@);
        let wanted = environments[e].host_id@;
        assert forall|h: int|
            0 <= h < hosts.len() && (#[trigger] hosts[h]).id@ == wanted && (forall|i: int|
                0 <= i < h ==> (#[trigger] hosts[i]).id@ != hosts[h].id@) implies hosts[h].status
            != HostStatus::Connected by {
            assert(hosts[h].key() == wanted);
            if by_id(hosts, wanted) is None {
                missed_by_id(hosts, wanted, h);
            }
            let first = found_by_id(hosts, wanted);
            assert(hosts[first].id@ == wanted);
            assert(first == h);
        }
    }
}

/// A thread runs one turn at a time: while a run holds it, a dispatch makes no other and changes
/// nothing, and says which run it is.
pub proof fn a_held_thread_is_left_alone(
    before: RunTable,
    thread: Thread,
    prompt: Seq<char>,
    environments: Seq<Environment>,
    hosts: Seq<Host>,
    context: DispatchContext,
    result: DispatchStep,
    after: RunTable,
)
    requires
        dispatch_decides(before, thread, prompt, environments, hosts, context, result, after),
    ensures
        before.claims.dom().contains(thread.id@) <==> result is Done,
        result is Done ==> after == before && (result matches DispatchStep::Done(
            DispatchOutcome::AlreadyInFlight { run_id },
        ) && run_id@ == before.claims[thread.id@]),
{
}

// What a dispatch comes to.

/// A thread that could not run ends for what was missing, or for the append that failed.
pub proof fn preflights_end_as_they_failed(
    preflight: Preflight,
    run_id: String,
    reason: String,
    result: FinishRunResult,
    outcome: DispatchOutcome,
)
    requires
        call_ensures(preflight_outcome, (preflight, run_id, reason, result), outcome),
    ensures
        result matches FinishRunResult::PublishFailed(why) ==> outcome == (DispatchOutcome::PublishFailed { run_id, error: why }),
        !(result is PublishFailed) && preflight is NoEnvironment ==> outcome == (DispatchOutcome::NoEnvironment { run_id, reason }),
        !(result is PublishFailed) && preflight is NoHost ==> outcome == (DispatchOutcome::NoHost { run_id, reason }),
{
}

/// A dispatch that was published is in flight; one that was not fails its run for that reason.
pub proof fn published_dispatches_are_in_flight(
    record: RunRecord,
    published: Result<(), String>,
    synthetic: &str,
    now_ms: u64,
    answer: (DispatchOutcome, Option<FinishRequest>),
)
    requires
        call_ensures(publish_outcome, (record, published, synthetic, now_ms), answer),
    ensures
        published is Ok ==> answer.0 == DispatchOutcome::Dispatched(record) && answer.1 is None,
        published matches Err(why) ==> answer.0 == (DispatchOutcome::PublishFailed { run_id: record.run_id, error: why }) && (answer.1 matches Some(request) && request.run_id@ == record.run_id@ && request.outcome == RunOutcome::Failed && request.error is Some && request.error->0@ == why@ && request.event is None && request.now_ms == now_ms && request.synthetic_identity@ == synthetic@),
{
}

// What is on record of a dispatch.

/// A thread that nothing holds is held by the run that is dispatched for it. The run is on record
/// as begun now, with nothing said of it yet, and no other run changes.
pub proof fn dispatched_runs_begin_fresh(
    registry: &mut RunRegistry,
    thread: Thread,
    prompt: &str,
    environments: Vec<Environment>,
    hosts: Vec<Host>,
    context: DispatchContext,
    step: DispatchStep,
    other: Seq<char>,
)
    requires
        call_ensures(RunRegistry::dispatch_thread, (registry, &thread, prompt, &environments, &hosts, context), step),
        !old(registry)@.claims.dom().contains(thread.id@),
    ensures
        final(registry)@.records.dom().contains(context.run_id@),
        final(registry)@.claims.dom().contains(thread.id@),
        final(registry)@.claims[thread.id@] == context.run_id@,
        final(registry)@.records[context.run_id@].run_id@ == context.run_id@,
        final(registry)@.records[context.run_id@].thread_id@ == thread.id@,
        final(registry)@.records[context.run_id@].project_id@ == thread.project_id@,
        final(registry)@.records[context.run_id@].started_at_ms == context.now_ms,
        !final(registry)@.records[context.run_id@].turn_started,
        !final(registry)@.records[context.run_id@].provider_error_reported,
        !final(registry)@.records[context.run_id@].terminal_published,
        final(registry)@.records[context.run_id@].terminal_outcome is None,
        final(registry)@.records[context.run_id@].pending_status_event is None,
        !(step is Done),
        other != context.run_id@ ==> (final(registry)@.records.dom().contains(other) <==> old(registry)@.records.dom().contains(other)),
        other != context.run_id@ && old(registry)@.records.dom().contains(other) ==> final(registry)@.records[other] == old(registry)@.records[other],
{
}

/// What is published of a dispatch is what is on record: the run, its thread, project and machine,
/// the prompt, the agent and its directory, when it began and when it must have ended, which is as
/// long after as a run may take.
pub proof fn dispatches_say_what_is_on_record(
    registry: &mut RunRegistry,
    thread: Thread,
    prompt: &str,
    environments: Vec<Environment>,
    hosts: Vec<Host>,
    context: DispatchContext,
    step: DispatchStep,
)
    requires
        call_ensures(RunRegistry::dispatch_thread, (registry, &thread, prompt, &environments, &hosts, context), step),
        !old(registry)@.claims.dom().contains(thread.id@),
    ensures
        step matches DispatchStep::Publish { record, dispatch } ==> final(registry)@.records[context.run_id@] == record && record.failure_reason is None && dispatch.run_id@ == context.run_id@ && dispatch.thread_id@ == thread.id@ && dispatch.project_id@ == thread.project_id@ && dispatch.host_id@ == record.host_id@ && dispatch.prompt@ == prompt@ && dispatch.provider.name@ == context.provider.name@ && dispatch.provider.launch@ == context.provider.launch@ && (dispatch.provider.cwd matches Some(cwd) && cwd@ == record.cwd@) && dispatch.created_at_ms == context.now_ms && dispatch.deadline_ms == record.deadline_ms,
        step is Publish && context.now_ms + context.run_timeout_ms <= u64::MAX ==> step->record.deadline_ms == context.now_ms + context.run_timeout_ms,
        step is Publish && context.now_ms + context.run_timeout_ms > u64::MAX ==> step->record.deadline_ms == u64::MAX,
        step matches DispatchStep::Fail { preflight, reason, request } ==> final(registry)@.records[context.run_id@].host_id@ == context.preflight_host_id@ && final(registry)@.records[context.run_id@].cwd@ == ""@ && final(registry)@.records[context.run_id@].deadline_ms == context.now_ms && final(registry)@.records[context.run_id@].provider_thread_id is None && (final(registry)@.records[context.run_id@].failure_reason matches Some(why) && why@ == reason@) && request.run_id@ == context.run_id@ && request.outcome is Failed && (request.error matches Some(why) && why@ == reason@) && request.event is None && request.now_ms == context.now_ms && request.synthetic_identity@ == context.synthetic_identity@,
{
}

} // verus!
