//! The worker that a server starts on its own machine: what it is told, and when it is started
//! again.

use vstd::prelude::*;

use crate::text::{copy_opt, decimal, decimal_text, joined3, opt_view, texts};

verus! {

/// The first delay before a worker is started again, in milliseconds.
pub const INITIAL_RESTART_DELAY_MS: u64 = 1_000;

/// The longest such delay, in milliseconds.
pub const MAX_RESTART_DELAY_MS: u64 = 30_000;

/// Everything that a worker is told.
#[derive(Clone, Debug, PartialEq, Eq)]
pub struct LocalWorkerConfig {
    /// The server that it dials.
    pub server_url: String,
    /// Its name in the list of machines.
    pub name: String,
    /// Its data directory, where the server chose one.
    pub data_dir: Option<String>,
    /// The file that its identity is kept in, where the server chose one.
    pub state_path: Option<String>,
    /// How long a run may be silent, where the server chose so.
    pub run_timeout_ms: Option<u64>,
    /// How long a run may take, where the server chose so.
    pub run_ceiling_ms: Option<u64>,
}

/// The address that a server listens on.
#[derive(Debug, PartialEq, Eq)]
pub enum BindAddress {
    /// An address of four numbers.
    V4 {
        /// The first.
        a: u8,
        /// The second.
        b: u8,
        /// The third.
        c: u8,
        /// The fourth.
        d: u8,
    },
    /// A longer one.
    V6 {
        /// Whether it stands for every address of the machine.
        unspecified: bool,
        /// The address as text.
        text: String,
    },
}

/// Where a server is dialled from its own machine: one that listens everywhere on loopback, every
/// other where it listens.
pub open spec fn dialled(address: BindAddress) -> Seq<char> {
    match address {
        BindAddress::V4 { a, b, c, d } => if a == 0 && b == 0 && c == 0 && d == 0 {
            "127.0.0.1"@
        } else {
            decimal(a as nat) + "."@ + decimal(b as nat) + "."@ + decimal(c as nat) + "."@
                + decimal(d as nat)
        },
        BindAddress::V6 { unspecified, text } => if unspecified {
            "127.0.0.1"@
        } else {
            "["@ + text@ + "]"@
        },
    }
}

/// Where a server is dialled from its own machine.
fn dialled_host(address: &BindAddress) -> (result: String)
    ensures
        result@ == dialled(*address),
{
    match address {
        BindAddress::V4 { a, b, c, d } => {
            if *a == 0 && *b == 0 && *c == 0 && *d == 0 {
                return "127.0.0.1".to_owned();
            }
            let first: String = decimal_text(*a as u64);
            let second: String = decimal_text(*b as u64);
            let third: String = decimal_text(*c as u64);
            let fourth: String = decimal_text(*d as u64);
            let mut host: String = joined3(first.as_str(), ".", second.as_str());
            host.append(".");
            host.append(third.as_str());
            host.append(".");
            host.append(fourth.as_str());
            host
        },
        BindAddress::V6 { unspecified, text } => {
            if *unspecified {
                return "127.0.0.1".to_owned();
            }
            joined3("[", text.as_str(), "]")
        },
    }
}

/// The URL that a worker on the same machine dials.
pub fn server_url_for_bind(address: &BindAddress, port: u16) -> (result: String)
    ensures
        result@ == "http://"@ + dialled(*address) + ":"@ + decimal(port as nat),
{
    let host: String = dialled_host(address);
    let shown: String = decimal_text(port as u64);
    let mut url: String = joined3("http://", host.as_str(), ":");
    url.append(shown.as_str());
    url
}

/// Whether a text is a file name on every platform.
pub open spec fn plain_name(name: Seq<char>) -> bool {
    &&& name.len() > 0
    &&& name != "."@
    &&& name != ".."@
    &&& forall|i: int|
        0 <= i < name.len() ==> (#[trigger] name[i]) != '/' && name[i] != '\\' && name[i] != ':'
}

/// Whether a text is a directory on every platform, and spelled without anything to tidy at its
/// end.
pub open spec fn plain_directory(directory: Seq<char>) -> bool {
    &&& directory.len() > 0
    &&& directory.last() != '/' && directory.last() != ':' && directory.last() != '.'
    &&& !(directory.len() >= 2 && directory[0] == '/' && directory[1] == '/')
    &&& forall|i: int| 0 <= i < directory.len() ==> (#[trigger] directory[i]) != '\\'
}

/// Whether a path is a file of a directory.
pub open spec fn sits_in(path: Seq<char>, directory: Seq<char>, name: Seq<char>) -> bool {
    plain_directory(directory) && plain_name(name) && path == directory + seq!['/'] + name
}

/// Whether a path is a root, or nothing at all.
pub open spec fn names_nothing(path: Seq<char>) -> bool {
    path == "/"@ || path.len() == 0
}

/// Whether a path is a file directly under the root.
pub open spec fn sits_at_root(path: Seq<char>, name: Seq<char>) -> bool {
    plain_name(name) && path == "/"@ + name
}

/// Whether a directory, or none, is the one of a path: of a file of a directory that directory, of
/// a file under the root the root, of a file name alone the empty one, of a root or nothing none.
pub open spec fn is_parent(parent: Option<Seq<char>>, path: Seq<char>) -> bool {
    &&& forall|directory: Seq<char>, name: Seq<char>| #[trigger]
        sits_in(path, directory, name) ==> parent == Some(directory)
    &&& forall|name: Seq<char>| #[trigger] sits_at_root(path, name) ==> parent == Some("/"@)
    &&& plain_name(path) ==> parent == Some(""@)
    &&& names_nothing(path) ==> parent is None
}

/// `std::path::Path::parent`: the path without its last component. What counts as a component
/// differs from platform to platform; stated is what holds on all of them, of a directory and a
/// file name joined by a slash, of a file name under the root, of a file name alone, and of a root
/// or nothing at all.
#[verifier::external_body]
fn parent_directory(path: &str) -> (result: Option<String>)
    ensures
        is_parent(opt_view(result), path@),
{
    std::path::Path::new(path).parent().map(|found| found.to_string_lossy().into_owned())
}

/// Whether a character ends a directory's name on a platform with a given separator. A slash does
/// on every platform.
pub open spec fn ends_directory(c: char, separator: char) -> bool {
    c == '/' || c == separator
}

/// Whether a character is a letter that a drive can have.
pub open spec fn is_letter(c: char) -> bool {
    ('a' <= c && c <= 'z') || ('A' <= c && c <= 'Z')
}

/// Whether a text is a drive alone, on a platform that has drives.
pub open spec fn is_drive(directory: Seq<char>, separator: char) -> bool {
    separator == '\\' && directory.len() == 2 && is_letter(directory[0]) && directory[1] == ':'
}

/// The path of a file name under a directory, on a platform with a given separator: the two with the
/// separator between them. A directory that ends in one gets no other, nor does a drive, and where
/// there is no directory the name stands alone. `std::path::Path::join` gives the same for a file
/// name, but that it also tidies a directory in the verbatim form of Windows.
pub open spec fn joined(directory: Seq<char>, separator: char, name: Seq<char>) -> Seq<char> {
    if directory.len() == 0 || ends_directory(directory.last(), separator) || is_drive(
        directory,
        separator,
    ) {
        directory + name
    } else {
        directory + seq![separator] + name
    }
}

/// The path of a file name under a directory, on a platform with a given separator.
pub fn path_under(directory: &str, separator: char, name: &str) -> (result: String)
    ensures
        result@ == joined(directory@, separator, name@),
{
    let length: usize = directory.unicode_len();
    let complete: bool = if length == 0 {
        true
    } else {
        let last: char = directory.get_char(length - 1);
        let first: char = directory.get_char(0);
        let letter: bool = ('a' <= first && first <= 'z') || ('A' <= first && first <= 'Z');
        let drive: bool = separator == '\\' && length == 2 && letter && last == ':';
        last == '/' || last == separator || drive
    };
    let mut path: String = directory.to_owned();
    if !complete {
        path.push(separator);
        assert(path@ =~= directory@ + seq![separator]);
    }
    path.append(name);
    path
}

/// `std::path::MAIN_SEPARATOR`: the platform's own separator; nothing is stated of it.
#[verifier::external_body]
fn main_separator() -> (result: char) {
    std::path::MAIN_SEPARATOR
}

/// The name of a worker's program on a platform with a given separator.
pub open spec fn worker_name(separator: char) -> Seq<char> {
    if separator == '\\' {
        "loom-worker.exe"@
    } else {
        "loom-worker"@
    }
}

/// Whether a path is the one of a worker's program beside an executable, on a platform with a given
/// separator: in the executable's directory, or alone where the executable is named alone.
pub open spec fn is_sibling(
    sibling: Option<Seq<char>>,
    current: Seq<char>,
    separator: char,
) -> bool {
    let name = worker_name(separator);
    &&& forall|directory: Seq<char>, file: Seq<char>| #[trigger]
        sits_in(current, directory, file) ==> sibling == Some(joined(directory, separator, name))
    &&& forall|file: Seq<char>| #[trigger]
        sits_at_root(current, file) ==> sibling == Some("/"@ + name)
    &&& plain_name(current) ==> sibling == Some(name)
    &&& names_nothing(current) ==> sibling is None
}

/// The program that sits beside an executable under a worker's name, on a platform with a given
/// separator.
pub fn worker_sibling_on(current: &str, separator: char) -> (result: Option<String>)
    ensures
        is_sibling(opt_view(result), current@, separator),
{
    let directory: String = match parent_directory(current) {
        Some(directory) => directory,
        None => {
            return None;
        },
    };
    let name: &str = if separator == '\\' {
        "loom-worker.exe"
    } else {
        "loom-worker"
    };
    proof {
        reveal_strlit("");
        reveal_strlit("/");
        assert(name@ == worker_name(separator));
        assert(""@ + name@ =~= name@);
    }
    Some(path_under(directory.as_str(), separator, name))
}

/// The program that sits beside an executable under a worker's name, on this platform.
pub fn worker_sibling(current: &str) -> (result: Option<String>)
    ensures
        exists|separator: char| is_sibling(opt_view(result), current@, separator),
{
    let separator: char = main_separator();
    let sibling: Option<String> = worker_sibling_on(current, separator);
    assert(is_sibling(opt_view(sibling), current@, separator));
    sibling
}

/// Of a plain path on a platform with slashes, the worker sits in the executable's directory.
pub proof fn siblings_share_a_directory(
    sibling: Option<Seq<char>>,
    directory: Seq<char>,
    file: Seq<char>,
)
    requires
        plain_directory(directory),
        plain_name(file),
        is_sibling(sibling, directory + seq!['/'] + file, '/'),
    ensures
        sibling == Some(directory + seq!['/'] + "loom-worker"@),
{
    assert(sits_in(directory + seq!['/'] + file, directory, file));
}

/// The arguments of a worker, without the program's name.
pub open spec fn argv(config: LocalWorkerConfig) -> Seq<Seq<char>> {
    let fixed = Seq::empty().push("worker"@)
        .push("--server-url"@)
        .push(config.server_url@)
        .push("--name"@)
        .push(config.name@);
    let with_state = with_flag(fixed, "--state"@, opt_view(config.state_path));
    let with_data = with_flag(with_state, "--data-dir"@, opt_view(config.data_dir));
    let with_timeout = with_flag(with_data, "--run-timeout-ms"@, shown(config.run_timeout_ms));
    with_flag(with_timeout, "--run-ceiling-ms"@, shown(config.run_ceiling_ms))
}

/// Arguments with a flag and its value behind them, where there is a value.
pub open spec fn with_flag(args: Seq<Seq<char>>, flag: Seq<char>, value: Option<Seq<char>>) -> Seq<
    Seq<char>,
> {
    match value {
        Some(value) => args.push(flag).push(value),
        None => args,
    }
}

/// A number as text, where there is one.
pub open spec fn shown(number: Option<u64>) -> Option<Seq<char>> {
    match number {
        Some(n) => Some(decimal(n as nat)),
        None => None,
    }
}

/// Puts a flag and its value behind arguments.
fn push_flag(args: Vec<String>, flag: &str, value: Option<String>) -> (result: Vec<String>)
    ensures
        texts(result@) == with_flag(texts(args@), flag@, opt_view(value)),
{
    let mut out: Vec<String> = args;
    let ghost before = texts(out@);
    if let Some(value) = value {
        out.push(flag.to_owned());
        out.push(value);
        assert(texts(out@) =~= before.push(flag@).push(value@));
    }
    out
}

/// A number as text, where there is one.
fn show(number: Option<u64>) -> (result: Option<String>)
    ensures
        opt_view(result) == shown(number),
{
    match number {
        Some(n) => Some(decimal_text(n)),
        None => None,
    }
}

/// The arguments of a worker, without the program's name. What the server chose for its runs the
/// worker is told too: both measure the same run.
pub fn worker_argv(config: &LocalWorkerConfig) -> (result: Vec<String>)
    ensures
        texts(result@) == argv(*config),
{
    let mut args: Vec<String> = Vec::new();
    args.push("worker".to_owned());
    args.push("--server-url".to_owned());
    args.push(config.server_url.clone());
    args.push("--name".to_owned());
    args.push(config.name.clone());
    assert(texts(args@) =~= Seq::empty().push("worker"@)
        .push("--server-url"@)
        .push(config.server_url@)
        .push("--name"@)
        .push(config.name@));
    let args: Vec<String> = push_flag(args, "--state", copy_opt(&config.state_path));
    let args: Vec<String> = push_flag(args, "--data-dir", copy_opt(&config.data_dir));
    let args: Vec<String> = push_flag(args, "--run-timeout-ms", show(config.run_timeout_ms));
    push_flag(args, "--run-ceiling-ms", show(config.run_ceiling_ms))
}

/// What is asked of a server about a worker of its own.
#[derive(Debug, PartialEq, Eq)]
pub struct LocalWorkerRequest {
    /// Whether one is wanted.
    pub wanted: bool,
    /// The URL that it is to dial, where one was given.
    pub url: Option<String>,
    /// Its name.
    pub name: String,
    /// The server's data directory.
    pub data_dir: Option<String>,
    /// How long a run may be silent.
    pub run_timeout_ms: Option<u64>,
    /// How long a run may take.
    pub run_ceiling_ms: Option<u64>,
}

/// What a server's own worker is told, where one is wanted, on a platform with a given separator.
pub open spec fn told_worker(
    request: LocalWorkerRequest,
    address: BindAddress,
    port: u16,
    separator: char,
    result: Option<LocalWorkerConfig>,
) -> bool {
    if request.wanted {
        &&& result is Some
        &&& result->0.server_url@ == (match request.url {
            Some(url) => url@,
            None => "http://"@ + dialled(address) + ":"@ + decimal(port as nat),
        })
        &&& result->0.name == request.name
        &&& result->0.run_timeout_ms == request.run_timeout_ms
        &&& result->0.run_ceiling_ms == request.run_ceiling_ms
        &&& match request.data_dir {
            None => result->0.data_dir is None && result->0.state_path is None,
            Some(root) => {
                let directory = joined(root@, separator, "local-worker"@);
                &&& opt_view(result->0.data_dir) == Some(directory)
                &&& opt_view(result->0.state_path) == Some(
                    joined(directory, separator, "host-id"@),
                )
            },
        }
    } else {
        result is None
    }
}

/// What a server's own worker is told, where one is wanted: it gets a directory of its own under
/// the server's, so that the two never share one.
pub fn local_worker_config(request: LocalWorkerRequest, address: &BindAddress, port: u16) -> (result:
    Option<LocalWorkerConfig>)
    ensures
        exists|separator: char| told_worker(request, *address, port, separator, result),
{
    let separator: char = main_separator();
    let config: Option<LocalWorkerConfig> = local_worker_config_on(
        request,
        address,
        port,
        separator,
    );
    assert(told_worker(request, *address, port, separator, config));
    config
}

/// What a server's own worker is told, where one is wanted, on a platform with a given separator.
pub fn local_worker_config_on(
    request: LocalWorkerRequest,
    address: &BindAddress,
    port: u16,
    separator: char,
) -> (result: Option<LocalWorkerConfig>)
    ensures
        told_worker(request, *address, port, separator, result),
{
    if !request.wanted {
        return None;
    }
    let server_url: String = match request.url {
        Some(url) => url,
        None => server_url_for_bind(address, port),
    };
    let (data_dir, state_path): (Option<String>, Option<String>) = match request.data_dir {
        Some(root) => {
            let directory: String = path_under(root.as_str(), separator, "local-worker");
            let state: String = path_under(directory.as_str(), separator, "host-id");
            (Some(directory), Some(state))
        },
        None => (None, None),
    };
    Some(
        LocalWorkerConfig {
            server_url,
            name: request.name,
            data_dir,
            state_path,
            run_timeout_ms: request.run_timeout_ms,
            run_ceiling_ms: request.run_ceiling_ms,
        },
    )
}

/// How long a supervisor waits before it starts a worker again.
pub struct Restarts {
    delay_ms: u64,
}

impl View for Restarts {
    type V = u64;

    closed spec fn view(&self) -> u64 {
        self.delay_ms
    }
}

/// The delay after another.
pub open spec fn next_delay(delay_ms: u64) -> u64 {
    if 2 * delay_ms > MAX_RESTART_DELAY_MS {
        MAX_RESTART_DELAY_MS
    } else {
        (2 * delay_ms) as u64
    }
}

impl Restarts {
    /// The delay lies between the first and the longest.
    pub open spec fn wf(&self) -> bool {
        INITIAL_RESTART_DELAY_MS <= self@ <= MAX_RESTART_DELAY_MS
    }

    /// The first delay.
    pub fn new() -> (result: Restarts)
        ensures
            result.wf(),
            result@ == INITIAL_RESTART_DELAY_MS,
    {
        Restarts { delay_ms: INITIAL_RESTART_DELAY_MS }
    }

    /// How long to wait now: a worker that had started begins again at the first delay, one that
    /// could not start waits twice as long each time.
    pub fn wait_ms(&mut self, started: bool) -> (result: u64)
        requires
            old(self).wf(),
        ensures
            final(self).wf(),
            result == (if started {
                INITIAL_RESTART_DELAY_MS
            } else {
                old(self)@
            }),
            final(self)@ == next_delay(result),
    {
        if started {
            self.delay_ms = INITIAL_RESTART_DELAY_MS;
        }
        let now: u64 = self.delay_ms;
        self.delay_ms = if 2 * now > MAX_RESTART_DELAY_MS {
            MAX_RESTART_DELAY_MS
        } else {
            2 * now
        };
        now
    }
}

/// The worker is told of a budget exactly where the server was given one, and the rest of its
/// arguments stays the same.
pub proof fn budgets_are_inherited(config: LocalWorkerConfig, other: LocalWorkerConfig)
    requires
        other.server_url@ == config.server_url@,
        other.name@ == config.name@,
        other.state_path == config.state_path,
        other.data_dir == config.data_dir,
        other.run_timeout_ms is None,
        other.run_ceiling_ms is None,
    ensures
        argv(other) == argv(config).take(argv(other).len() as int),
        argv(config).len() == argv(other).len() + (if config.run_timeout_ms is Some {
            2int
        } else {
            0int
        }) + (if config.run_ceiling_ms is Some {
            2int
        } else {
            0int
        }),
{
    assert(argv(other) =~= argv(config).take(argv(other).len() as int));
}

// What a local worker is promised.

/// A server is dialled at the address that it listens on, and on the loopback where it listens on
/// all.
pub proof fn servers_are_dialled_where_they_listen(
    address: BindAddress,
    port: u16,
    url: String,
)
    requires
        call_ensures(server_url_for_bind, (&address, port), url),
    ensures
        address matches BindAddress::V4 { a, b, c, d } ==> (a == 0 && b == 0 && c == 0 && d == 0 ==> url@ == "http://"@ + "127.0.0.1"@ + ":"@ + decimal(port as nat)) && (!(a == 0 && b == 0 && c == 0 && d == 0) ==> url@ == "http://"@ + (decimal(a as nat) + "."@ + decimal(b as nat) + "."@ + decimal(c as nat) + "."@ + decimal(d as nat)) + ":"@ + decimal(port as nat)),
        address matches BindAddress::V6 { unspecified, text } ==> (unspecified ==> url@ == "http://"@ + "127.0.0.1"@ + ":"@ + decimal(port as nat)) && (!unspecified ==> url@ == "http://"@ + ("["@ + text@ + "]"@) + ":"@ + decimal(port as nat)),
{
}

/// A name under a directory is separated from it once: not where the directory is empty, ends with
/// a separator, or is a bare drive.
pub proof fn paths_are_joined_once(
    directory: &str,
    separator: char,
    name: &str,
    path: String,
)
    requires
        call_ensures(path_under, (directory, separator, name), path),
    ensures
        ({
            let bare = separator == '\\' && directory@.len() == 2 && (('a' <= directory@[0] && directory@[0] <= 'z') || ('A' <= directory@[0] && directory@[0] <= 'Z')) && directory@[1] == ':';
            let closed = directory@.len() == 0 || directory@[directory@.len() - 1] == '/' || directory@[directory@.len() - 1] == separator || bare;
            &&& closed ==> path@ == directory@ + name@
            &&& !closed ==> path@ == directory@ + seq![separator] + name@
        }),
{
}

/// A worker is told the server, its name, and whatever else there is to tell, each behind its flag.
pub proof fn workers_are_told_what_they_need(config: LocalWorkerConfig, args: Vec<String>)
    requires
        call_ensures(worker_argv, (&config,), args),
    ensures
        ({
            let told = texts(args@);
            let state = if config.state_path is Some { seq!["--state"@, config.state_path->0@] } else { Seq::empty() };
            let data = if config.data_dir is Some { seq!["--data-dir"@, config.data_dir->0@] } else { Seq::empty() };
            let timeout = if config.run_timeout_ms is Some { seq!["--run-timeout-ms"@, decimal(config.run_timeout_ms->0 as nat)] } else { Seq::empty() };
            let ceiling = if config.run_ceiling_ms is Some { seq!["--run-ceiling-ms"@, decimal(config.run_ceiling_ms->0 as nat)] } else { Seq::empty() };
            told == seq!["worker"@, "--server-url"@, config.server_url@, "--name"@, config.name@] + state + data + timeout + ceiling
        }),
{
    let told = texts(args@);
    let fixed = seq!["worker"@, "--server-url"@, config.server_url@, "--name"@, config.name@];
    let state = if config.state_path is Some {
        seq!["--state"@, config.state_path->0@]
    } else {
        Seq::empty()
    };
    let data = if config.data_dir is Some {
        seq!["--data-dir"@, config.data_dir->0@]
    } else {
        Seq::empty()
    };
    let timeout = if config.run_timeout_ms is Some {
        seq!["--run-timeout-ms"@, decimal(config.run_timeout_ms->0 as nat)]
    } else {
        Seq::empty()
    };
    let ceiling = if config.run_ceiling_ms is Some {
        seq!["--run-ceiling-ms"@, decimal(config.run_ceiling_ms->0 as nat)]
    } else {
        Seq::empty()
    };
    assert(told =~= fixed + state + data + timeout + ceiling);
}

/// A local worker is configured exactly where one is wanted: to dial the url that is given, else
/// the server's own, under its name, with the same budgets, and with its files under the server's
/// data directory.
pub proof fn local_workers_are_configured_as_asked(
    request: LocalWorkerRequest,
    address: BindAddress,
    port: u16,
    separator: char,
    answer: Option<LocalWorkerConfig>,
    url: String,
)
    requires
        call_ensures(local_worker_config_on, (request, &address, port, separator), answer),
        call_ensures(server_url_for_bind, (&address, port), url),
    ensures
        answer is Some <==> request.wanted,
        answer matches Some(config) ==> {
            &&& request.url matches Some(given) ==> config.server_url@ == given@
            &&& request.url is None ==> config.server_url@ == url@
            &&& config.name == request.name
            &&& config.run_timeout_ms == request.run_timeout_ms
            &&& config.run_ceiling_ms == request.run_ceiling_ms
            &&& request.data_dir is None ==> config.data_dir is None && config.state_path is None
            &&& request.data_dir is Some ==> config.data_dir is Some && config.state_path is Some && config.data_dir->0@ == joined(request.data_dir->0@, separator, "local-worker"@) && config.state_path->0@ == joined(config.data_dir->0@, separator, "host-id"@)
        },
{
}

/// A worker that did not start is waited for twice as long as before, from a second up to half a
/// minute; one that had started is waited for a second.
pub proof fn restarts_wait_ever_longer(
    fresh: Restarts,
    restarts: &mut Restarts,
    started: bool,
    wait: u64,
)
    requires
        call_ensures(Restarts::new, (), fresh),
        call_ensures(Restarts::wait_ms, (restarts, started), wait),
    ensures
        fresh@ == 1_000,
        started ==> wait == 1_000,
        !started ==> wait == old(restarts)@,
        2 * wait <= 30_000 ==> final(restarts)@ == 2 * wait,
        2 * wait > 30_000 ==> final(restarts)@ == 30_000,
{
}

} // verus!
