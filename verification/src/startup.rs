//! What a server checks before it starts, and what it says once it has.

use vstd::prelude::*;

use crate::text::{blank, is_blank, joined3};

verus! {

/// Why a log that servers share is refused.
pub const SHARED_LOG_REMOVED: &'static str = "--redis-url was removed: loom is one server with many workers, and a log shared between servers is no longer supported. Remove the flag (or unset LOOM_REDIS_URL) and use --data-dir for a durable local log.";

/// Refuses a log that servers share: starting without it would give a deployment a log that it did
/// not ask for. A blank value asks for nothing.
pub fn reject_removed_shared_log(redis_url: Option<&str>) -> (result: Result<(), String>)
    ensures
        match redis_url {
            Some(url) => if blank(url@) {
                result is Ok
            } else {
                result matches Err(message) && message@ == SHARED_LOG_REMOVED@
            },
            None => result is Ok,
        },
{
    match redis_url {
        Some(url) => if is_blank(url) {
            Ok(())
        } else {
            Err(SHARED_LOG_REMOVED.to_owned())
        },
        None => Ok(()),
    }
}

/// What a server says of itself once it listens.
pub open spec fn banner(
    bind: Seq<char>,
    node: Seq<char>,
    local_host: Option<Seq<char>>,
    worker: Option<Seq<char>>,
) -> Seq<char> {
    match worker {
        Some(name) => "loom-server (server + local worker \""@ + name
            + "\") listening on http://"@ + bind + " (node "@ + node + ")"@,
        None => match local_host {
            Some(host) => "loom-server (server-only) listening on http://"@ + bind + " (node "@
                + node + ", local host "@ + host + ")"@,
            None => "loom-server (server-only) listening on http://"@ + bind + " (node "@ + node
                + ", no local worker)"@,
        },
    }
}

/// What a server says of itself once it listens.
pub fn listening_line(
    bind: &str,
    node: &str,
    local_host: &Option<String>,
    worker: &Option<String>,
) -> (result: String)
    ensures
        result@ == banner(
            bind@,
            node@,
            crate::text::opt_view(*local_host),
            crate::text::opt_view(*worker),
        ),
{
    match worker {
        Some(name) => {
            let mut line: String = joined3(
                "loom-server (server + local worker \"",
                name.as_str(),
                "\") listening on http://",
            );
            line.append(bind);
            line.append(" (node ");
            line.append(node);
            line.append(")");
            line
        },
        None => {
            let mut line: String = joined3(
                "loom-server (server-only) listening on http://",
                bind,
                " (node ",
            );
            line.append(node);
            match local_host {
                Some(host) => {
                    line.append(", local host ");
                    line.append(host.as_str());
                    line.append(")");
                },
                None => {
                    line.append(", no local worker)");
                },
            }
            line
        },
    }
}

// What a start promises.

/// A shared log is rejected where one is named, and an empty name is none.
pub proof fn shared_logs_are_rejected(url: Option<&str>, answer: Result<(), String>)
    requires
        call_ensures(reject_removed_shared_log, (url,), answer),
    ensures
        answer is Ok <==> url is None || blank(url->0@),
        answer is Err ==> answer->Err_0@ == SHARED_LOG_REMOVED@,
{
}

/// The line that is printed says what listens where, and with which worker.
pub proof fn banners_say_what_listens(
    bind: &str,
    node: &str,
    local_host: Option<String>,
    worker: Option<String>,
    line: String,
)
    requires
        call_ensures(listening_line, (bind, node, &local_host, &worker), line),
    ensures
        worker matches Some(name) ==> line@ == "loom-server (server + local worker \""@ + name@ + "\") listening on http://"@ + bind@ + " (node "@ + node@ + ")"@,
        worker is None && local_host is Some ==> line@ == "loom-server (server-only) listening on http://"@ + bind@ + " (node "@ + node@ + ", local host "@ + local_host->0@ + ")"@,
        worker is None && local_host is None ==> line@ == "loom-server (server-only) listening on http://"@ + bind@ + " (node "@ + node@ + ", no local worker)"@,
{
}

} // verus!
