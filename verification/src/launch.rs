//! How the `dsh` server is started and how the start page is told about it:
//! the command line, the local address, and the status scripts run in the
//! web view.

use vstd::prelude::*;
use crate::text::{decimal, decimal_string, push_decimal, parse_u16, lemma_decimal_roundtrip};

verus! {

/// The loopback address the server binds and the web view loads.
pub const SERVER_HOST: &'static str = "127.0.0.1";

/// How long the shell waits for the server to accept connections.
pub const READY_TIMEOUT_MS: u64 = 60000;

/// Name of the server's log file inside the application's log directory.
pub const LOG_FILE_NAME: &'static str = "dsh.log";

/// The environment variable that carries the server's data directory.
pub const HOME_ENV: &'static str = "DSH_HOME";

/// Message shown when the server process could not be started.
pub const SPAWN_FAILED_MESSAGE: &'static str = "启动服务失败：未找到 Node.js，请安装或设置 DSH_NODE_BIN";

/// Message shown when the server did not become ready in time.
pub const TIMEOUT_MESSAGE: &'static str = "服务启动超时";

/// Message shown when the server is ready.
pub const READY_MESSAGE: &'static str = "服务已就绪";

/// The directory used when the data or log directory cannot be determined.
pub const CURRENT_DIR: &'static str = ".";

/// A directory for the server: the one the platform gave, or a fallback path.
#[derive(Clone, Debug, PartialEq, Eq)]
pub enum DirChoice<D> {
    Resolved(D),
    Fallback(&'static str),
}

/// The data or log directory of the server: the resolved one when there is
/// one, else the current directory `.` — never the empty path, which would
/// leave `DSH_HOME` empty and let the server fall back to its global data.
pub fn dir_or_current<D>(resolved: Option<D>) -> (r: DirChoice<D>)
    ensures
        match resolved {
            Some(d) => r == DirChoice::Resolved(d),
            None => r matches DirChoice::Fallback(p) && p@ == "."@ && p@.len() == 1,
        },
{
    proof {
        reveal_strlit(".");
    }
    match resolved {
        Some(d) => DirChoice::Resolved(d),
        None => DirChoice::Fallback(CURRENT_DIR),
    }
}

/// The arguments given to the launcher script, after its own path.
pub open spec fn server_args_spec(port: u16) -> Seq<Seq<char>> {
    seq!["web"@, "--host"@, "127.0.0.1"@, "--port"@, decimal(port as nat)]
}

/// The address of the server's web UI.
pub open spec fn server_url_spec(port: u16) -> Seq<char> {
    "http://127.0.0.1:"@ + decimal(port as nat)
}

/// The script that reports a start-up phase to the start page.
pub open spec fn status_script_spec(phase: Seq<char>, message: Seq<char>) -> Seq<char> {
    "window.dispatchEvent(new CustomEvent('dsh-status', { detail: { phase: '"@ + phase
        + "', message: '"@ + message + "' } }));"@
}

/// The script run once the server is ready: report it, then load the UI.
pub open spec fn ready_script_spec(port: u16) -> Seq<char> {
    status_script_spec("ready"@, READY_MESSAGE@) + " window.location.replace('"@
        + server_url_spec(port) + "');"@
}

pub open spec fn string_seq_view(v: Seq<String>) -> Seq<Seq<char>> {
    Seq::new(v.len(), |i: int| v[i]@)
}

/// Arguments for `node <launcher> ...`: serve the web UI on the loopback
/// address at `port`.
pub fn server_args(port: u16) -> (r: Vec<String>)
    ensures
        string_seq_view(r@) == server_args_spec(port),
{
    let mut v: Vec<String> = Vec::new();
    v.push(String::from_str("web"));
    v.push(String::from_str("--host"));
    v.push(String::from_str(SERVER_HOST));
    v.push(String::from_str("--port"));
    v.push(decimal_string(port));
    assert(string_seq_view(v@) =~= server_args_spec(port));
    v
}

/// The address the web view is sent to once the server is ready.
pub fn server_url(port: u16) -> (r: String)
    ensures
        r@ == server_url_spec(port),
{
    let mut s = String::from_str("http://127.0.0.1:");
    push_decimal(&mut s, port);
    s
}

/// A script that reports `phase` and `message` to the start page.
pub fn status_script(phase: &str, message: &str) -> (r: String)
    ensures
        r@ == status_script_spec(phase@, message@),
{
    let mut s = String::from_str(
        "window.dispatchEvent(new CustomEvent('dsh-status', { detail: { phase: '",
    );
    s.append(phase);
    s.append("', message: '");
    s.append(message);
    s.append("' } }));");
    assert(s@ =~= status_script_spec(phase@, message@));
    s
}

/// The script that reports readiness and loads the server's UI.
pub fn ready_script(port: u16) -> (r: String)
    ensures
        r@ == ready_script_spec(port),
{
    let mut s = status_script("ready", READY_MESSAGE);
    s.append(" window.location.replace('");
    let url = server_url(port);
    s.append(url.as_str());
    s.append("');");
    assert(s@ =~= ready_script_spec(port));
    s
}

/// The script that reports that the server could not be started.
pub fn spawn_failed_script() -> (r: String)
    ensures
        r@ == status_script_spec("error"@, SPAWN_FAILED_MESSAGE@),
{
    status_script("error", SPAWN_FAILED_MESSAGE)
}

/// The script that reports that the server did not become ready in time.
pub fn timeout_script() -> (r: String)
    ensures
        r@ == status_script_spec("error"@, TIMEOUT_MESSAGE@),
{
    status_script("error", TIMEOUT_MESSAGE)
}

/// The server is told to listen on the same port that the web view is sent
/// to, and the port text it receives reads back as that port.
pub proof fn lemma_launch_port_agrees(port: u16)
    ensures
        parse_u16(server_args_spec(port)[4]) == Some(port),
        server_url_spec(port) == "http://127.0.0.1:"@ + server_args_spec(port)[4],
        server_args_spec(port)[2] == SERVER_HOST@,
{
    lemma_decimal_roundtrip(port as nat);
}

} // verus!
