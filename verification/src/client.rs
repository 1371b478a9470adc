//! Decisions of the integration's entry point: which scanner runs, which
//! scanned modules have handlers, and how a timed-out call is reported.
use vstd::prelude::*;

use crate::config::ApcoreSettings;
use crate::errors::AxumApcoreError;
use crate::scanner::native::{routes_scanned, NativeAxumScanner, RouteMetadata};
use crate::scanner::{opt_str_view, ScannedModule, ScannerSource};
use crate::text::{
    append_str, decimal, decimal_string_wide, eq_ignore_ascii_case, str_eq, string_of, string_views,
};

verus! {

/// The message of the OpenAPI scanner when asked to scan a router.
pub open spec fn openapi_router_message() -> Seq<char> {
    "OpenAPIScanner requires a spec. Use scan_spec() directly with your utoipa-generated OpenAPI JSON."@
}

/// Scans with the chosen scanner: the native scanner scans the registered
/// routes; the OpenAPI scanner cannot scan a router and says so.
pub fn scan_with(
    source: ScannerSource,
    routes: &[RouteMetadata],
    keep_pattern: Option<&str>,
    drop_pattern: Option<&str>,
) -> (r: Result<Vec<ScannedModule>, AxumApcoreError>)
    ensures
        source == ScannerSource::Native ==> routes_scanned(
            routes@,
            opt_str_view(keep_pattern),
            opt_str_view(drop_pattern),
            r,
        ),
        source == ScannerSource::OpenApi ==> (r matches Err(AxumApcoreError::Scanner(m)) && m@
            == openapi_router_message()),
{
    match source {
        ScannerSource::Native => NativeAxumScanner.scan_routes(routes, keep_pattern, drop_pattern),
        ScannerSource::OpenApi => Err(
            AxumApcoreError::Scanner(
                string_of(
                    "OpenAPIScanner requires a spec. Use scan_spec() directly with your utoipa-generated OpenAPI JSON.",
                ),
            ),
        ),
    }
}

/// How a module goes into the executor's registry: with the handler
/// registered for its target, replacing what the registry held under its
/// id, or, when its target has no handler, as a passthrough module added
/// only where the registry holds nothing under its id yet (so that a real
/// handler registered by another client is not overwritten).
#[derive(Clone, Copy, Debug, PartialEq, Eq, Structural)]
pub enum ExecutorEntry {
    Handler,
    Passthrough,
}

/// The entry of a module whose target is or is not among the targets with
/// a handler.
pub open spec fn entry_for(m: ScannedModule, targets: Seq<Seq<char>>) -> ExecutorEntry {
    if targets.contains(m.target@) {
        ExecutorEntry::Handler
    } else {
        ExecutorEntry::Passthrough
    }
}

fn target_known(targets: &Vec<String>, target: &String) -> (b: bool)
    ensures
        b == string_views(targets@).contains(target@),
{
    let mut i: usize = 0;
    while i < targets.len()
        invariant
            i <= targets@.len(),
            forall|j: int| 0 <= j < i ==> targets@[j]@ != target@,
        decreases targets.len() - i,
    {
        if str_eq(targets[i].as_str(), target.as_str()) {
            assert(string_views(targets@)[i as int] == target@);
            return true;
        }
        i = i + 1;
    }
    assert forall|j: int| 0 <= j < string_views(targets@).len() implies string_views(targets@)[j]
        != target@ by {
        assert(string_views(targets@)[j] == targets@[j]@);
    }
    false
}

/// For every module, in order, how it goes into the executor's registry:
/// every module goes there, with its handler when its target has one.
pub fn executor_entries(modules: &Vec<ScannedModule>, targets: &Vec<String>) -> (r: Vec<ExecutorEntry>)
    ensures
        r@.len() == modules@.len(),
        forall|i: int|
            0 <= i < r@.len() ==> #[trigger] r@[i] == entry_for(modules@[i], string_views(targets@)),
{
    let mut r: Vec<ExecutorEntry> = Vec::new();
    let mut i: usize = 0;
    while i < modules.len()
        invariant
            i <= modules@.len(),
            r@.len() == i,
            forall|j: int|
                0 <= j < i ==> #[trigger] r@[j] == entry_for(modules@[j], string_views(targets@)),
        decreases modules.len() - i,
    {
        if target_known(targets, &modules[i].target) {
            r.push(ExecutorEntry::Handler);
        } else {
            r.push(ExecutorEntry::Passthrough);
        }
        i = i + 1;
    }
    r
}

/// The message of a call that timed out.
pub open spec fn timeout_message_text(module_id: Seq<char>, millis: nat) -> Seq<char> {
    "Module '"@ + module_id + "' timed out after "@ + decimal(millis) + "ms"@
}

/// Reports a call of `module_id` that timed out after `millis` milliseconds.
pub fn timeout_message(module_id: &str, millis: u128) -> (m: String)
    ensures
        m@ == timeout_message_text(module_id@, millis as nat),
{
    let mut m = string_of("Module '");
    append_str(&mut m, module_id);
    append_str(&mut m, "' timed out after ");
    let d = decimal_string_wide(millis);
    append_str(&mut m, d.as_str());
    append_str(&mut m, "ms");
    m
}

/// The transports an MCP server can use.
#[derive(Clone, Copy, Debug, PartialEq, Eq, Structural)]
pub enum McpTransport {
    Stdio,
    StreamableHttp,
    Sse,
}

/// The transport a name stands for, ASCII case ignored.
pub open spec fn transport_of(name: Seq<char>) -> Option<McpTransport> {
    if eq_ignore_ascii_case(name, "stdio"@) {
        Some(McpTransport::Stdio)
    } else if eq_ignore_ascii_case(name, "streamable-http"@) {
        Some(McpTransport::StreamableHttp)
    } else if eq_ignore_ascii_case(name, "sse"@) {
        Some(McpTransport::Sse)
    } else {
        None
    }
}

/// The display text of the error of an unknown transport name.
pub open spec fn transport_error_text(name: Seq<char>) -> Seq<char> {
    "unknown transport: \""@ + name + "\""@
}

/// Reads a transport name (`apcore_mcp::TransportKind`'s `FromStr`, which
/// lower-cases ASCII letters and knows "stdio", "streamable-http" and
/// "sse"); a name it does not know gives the display text of its error.
#[verifier::external_body]
fn parse_transport(name: &str) -> (r: Result<McpTransport, String>)
    ensures
        match r {
            Ok(t) => transport_of(name@) == Some(t),
            Err(m) => transport_of(name@) is None && m@ == transport_error_text(name@),
        },
{
    match name.parse::<apcore_mcp::TransportKind>() {
        Ok(apcore_mcp::TransportKind::Stdio) => Ok(McpTransport::Stdio),
        Ok(apcore_mcp::TransportKind::StreamableHttp) => Ok(McpTransport::StreamableHttp),
        Ok(apcore_mcp::TransportKind::Sse) => Ok(McpTransport::Sse),
        Err(e) => Err(e.to_string()),
    }
}

/// How an MCP server is set up from the settings.
pub struct McpServerPlan {
    pub transport: McpTransport,
    pub host: String,
    pub port: u16,
    pub name: String,
    pub validate_inputs: bool,
    pub require_auth: bool,
    pub trace: bool,
    pub explorer: bool,
    pub explorer_prefix: String,
}

/// The message for a transport that the settings name and MCP does not know.
pub open spec fn invalid_transport_message(name: Seq<char>) -> Seq<char> {
    "Invalid transport: "@ + transport_error_text(name)
}

/// The MCP server set-up of the settings: their transport, host, port and
/// server name, input validation on, authentication required when a JWT
/// secret is set, tracing as set, and the explorer as set. A transport that
/// MCP does not know is an error.
pub fn mcp_server_plan(settings: &ApcoreSettings) -> (r: Result<McpServerPlan, AxumApcoreError>)
    ensures
        match transport_of(settings.serve_transport@) {
            Some(t) => r matches Ok(p) && {
                &&& p.transport == t
                &&& p.host@ == settings.serve_host@
                &&& p.port == settings.serve_port
                &&& p.name@ == settings.server_name@
                &&& p.validate_inputs
                &&& p.require_auth == settings.jwt_secret is Some
                &&& p.trace == settings.tracing
                &&& p.explorer == settings.explorer_enabled
                &&& p.explorer_prefix@ == settings.explorer_prefix@
            },
            None => r matches Err(AxumApcoreError::Config(m)) && m@ == invalid_transport_message(
                settings.serve_transport@,
            ),
        },
{
    match parse_transport(settings.serve_transport.as_str()) {
        Ok(transport) => Ok(
            McpServerPlan {
                transport,
                host: settings.serve_host.clone(),
                port: settings.serve_port,
                name: settings.server_name.clone(),
                validate_inputs: true,
                require_auth: settings.jwt_secret.is_some(),
                trace: settings.tracing,
                explorer: settings.explorer_enabled,
                explorer_prefix: settings.explorer_prefix.clone(),
            },
        ),
        Err(e) => {
            let mut m = string_of("Invalid transport: ");
            append_str(&mut m, e.as_str());
            Err(AxumApcoreError::Config(m))
        },
    }
}

} // verus!
