//! The fixed log-line texts of the supervisor, and the functions that build
//! them.  Every line the supervisor ever emits is one of these, so each
//! builder's contract pins the exact character sequence of its output.

use vstd::prelude::*;
use vstd::string::*;

verus! {

/// The marker put in front of every forwarded line of backend output.
pub open spec fn stdout_prefix() -> Seq<char> {
    "Backend Log: "@
}

/// The line printed once the backend has been spawned and its handle stored.
pub open spec fn success_line() -> Seq<char> {
    "[System] Sidecar Python iniciado com sucesso"@
}

/// The line printed when the main window is destroyed.
pub open spec fn shutdown_line() -> Seq<char> {
    "[System]: Encerrando Backend..."@
}

/// Prefix of the diagnostic for a failure to resolve the bundled executable.
pub open spec fn resolve_error_prefix() -> Seq<char> {
    "[Erro] Falha ao configurar sidecar: "@
}

/// Prefix of the diagnostic for a failure to spawn the resolved executable.
pub open spec fn spawn_error_prefix() -> Seq<char> {
    "[Erro] Falha ao iniciar sidecar: "@
}

/// First remediation hint: where the bundled binary is expected to sit.
pub open spec fn hint_binaries_line() -> Seq<char> {
    "[Erro] Verifique se o binário está em src-tauri/binaries/"@
}

/// Second remediation hint: the command that rebuilds the bundled binary.
pub open spec fn hint_compile_line() -> Seq<char> {
    "[Erro] Execute: pnpm compile:sidecar"@
}

/// The character sequences behind a vector of log lines.
pub open spec fn log_views(logs: Seq<String>) -> Seq<Seq<char>> {
    logs.map_values(|s: String| s@)
}

/// The three diagnostic lines emitted when the executable cannot be resolved:
/// the error itself, then the two remediation hints.
pub open spec fn resolve_failure_lines(err: Seq<char>) -> Seq<Seq<char>> {
    seq![resolve_error_prefix() + err, hint_binaries_line(), hint_compile_line()]
}

/// The three diagnostic lines emitted when the resolved executable cannot be
/// spawned: the error itself, then the two remediation hints.
pub open spec fn spawn_failure_lines(err: Seq<char>) -> Seq<Seq<char>> {
    seq![spawn_error_prefix() + err, hint_binaries_line(), hint_compile_line()]
}

/// Builds the diagnostics for a resource-resolution failure.
pub fn resolve_failure_logs(err: &str) -> (logs: Vec<String>)
    ensures
        log_views(logs@) == resolve_failure_lines(err@),
{
    let mut line = String::from_str("[Erro] Falha ao configurar sidecar: ");
    line.append(err);
    let mut logs: Vec<String> = Vec::new();
    logs.push(line);
    logs.push(String::from_str("[Erro] Verifique se o binário está em src-tauri/binaries/"));
    logs.push(String::from_str("[Erro] Execute: pnpm compile:sidecar"));
    proof {
        assert(log_views(logs@) =~= resolve_failure_lines(err@));
    }
    logs
}

/// Builds the diagnostics for a spawn failure.
pub fn spawn_failure_logs(err: &str) -> (logs: Vec<String>)
    ensures
        log_views(logs@) == spawn_failure_lines(err@),
{
    let mut line = String::from_str("[Erro] Falha ao iniciar sidecar: ");
    line.append(err);
    let mut logs: Vec<String> = Vec::new();
    logs.push(line);
    logs.push(String::from_str("[Erro] Verifique se o binário está em src-tauri/binaries/"));
    logs.push(String::from_str("[Erro] Execute: pnpm compile:sidecar"));
    proof {
        assert(log_views(logs@) =~= spawn_failure_lines(err@));
    }
    logs
}

/// What the greeting command answers for a given name.
pub open spec fn greeting(name: Seq<char>) -> Seq<char> {
    "Hello, "@ + name + "! You've been greeted from Rust!"@
}

/// The greeting command exposed to the front end.
pub fn greet(name: &str) -> (r: String)
    ensures
        r@ == greeting(name@),
{
    let mut r = String::from_str("Hello, ");
    r.append(name);
    r.append("! You've been greeted from Rust!");
    r
}

} // verus!
