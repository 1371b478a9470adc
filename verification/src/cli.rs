//! Commands of the command-line interface, and the decisions its commands
//! make: tag lists, output and export formats, server address, task table.
use vstd::prelude::*;

use crate::args::{
    check_items, given, items_view, option_given, option_value, positional_args, positionals,
    read_args, read_from, items_ok, value_of, Sub,
};
use crate::config::{number_or, text_or, ApcoreSettings};
use crate::engine::tasks::TaskInfo;
use crate::scanner::ScannedModule;
use crate::scanner::native::opt_string_view;
use crate::errors::AxumApcoreError;
use crate::text::{
    append_str, chars_of, is_white_space, lemma_string_views_push, lemma_trim_edges, push_char,
    decimal, decimal_string, parse_u64_at_most, parse_unsigned, split_chars, split_on, str_eq, string_from_chars,
    string_of, string_views, trim, trim_chars, views_of,
};

verus! {

/// Parsed command line.
#[derive(Debug)]
pub struct Cli {
    pub command: Commands,
}

/// The commands.
#[derive(Debug)]
pub enum Commands {
    /// Scan routes and generate module definitions.
    Scan {
        source: String,
        output: String,
        dir: Option<String>,
        dry_run: bool,
        include_pattern: Option<String>,
        exclude_pattern: Option<String>,
        verify: bool,
    },
    /// Start an MCP server exposing registered modules.
    Serve {
        transport: Option<String>,
        host: Option<String>,
        port: Option<u16>,
        explorer: bool,
        jwt_secret: Option<String>,
        approval: String,
        tags: Option<String>,
        prefix: Option<String>,
    },
    /// Export modules as OpenAI-compatible tools.
    Export {
        format: String,
        strict: bool,
        embed_annotations: bool,
        tags: Option<String>,
        prefix: Option<String>,
    },
    /// Manage async tasks.
    Tasks { action: TaskCommands },
}

/// The task commands.
#[derive(Debug)]
pub enum TaskCommands {
    /// List tasks, optionally by status.
    List { status: Option<String> },
    /// Cancel a running task.
    Cancel { task_id: String },
    /// Clean up old finished tasks.
    Cleanup { max_age: u64 },
}

/// The subcommand named at the head of a command line (after the program
/// name), with the position where its arguments start.
pub open spec fn subcommand_at(args: Seq<Seq<char>>) -> Option<(Sub, int)> {
    if args.len() < 2 {
        None
    } else if args[1] == "scan"@ {
        Some((Sub::Scan, 2))
    } else if args[1] == "serve"@ {
        Some((Sub::Serve, 2))
    } else if args[1] == "export"@ {
        Some((Sub::Export, 2))
    } else if args[1] == "tasks"@ && args.len() >= 3 {
        if args[2] == "list"@ {
            Some((Sub::TasksList, 3))
        } else if args[2] == "cancel"@ {
            Some((Sub::TasksCancel, 3))
        } else if args[2] == "cleanup"@ {
            Some((Sub::TasksCleanup, 3))
        } else {
            None
        }
    } else {
        None
    }
}

/// The subcommand of a command line and its arguments as read, when the
/// subcommand accepts them.
pub open spec fn read_command_line(args: Seq<Seq<char>>) -> Option<
    (Sub, Seq<(bool, Seq<char>, Option<Seq<char>>)>),
> {
    match subcommand_at(args) {
        Some((sub, k)) => match read_from(args, sub, k) {
            Some(items) => if items_ok(sub, items) {
                Some((sub, items))
            } else {
                None
            },
            None => None,
        },
        None => None,
    }
}

/// The numeric options given are numbers that fit: the port in 16 bits,
/// the maximum age in 64.
pub open spec fn numbers_ok(sub: Sub, items: Seq<(bool, Seq<char>, Option<Seq<char>>)>) -> bool {
    match sub {
        Sub::Serve => option_value(items, "port"@) matches Some(v) ==> parse_unsigned(v, 65535) is Some,
        Sub::TasksCleanup => option_value(items, "max-age"@) matches Some(v) ==> parse_unsigned(
            v,
            u64::MAX as nat,
        ) is Some,
        _ => true,
    }
}

/// A command line that the CLI accepts.
pub open spec fn command_line_accepted(args: Seq<Seq<char>>) -> bool {
    read_command_line(args) matches Some((sub, items)) && numbers_ok(sub, items)
}

/// A port as a number.
pub open spec fn opt_port(p: Option<u16>) -> Option<nat> {
    match p {
        Some(x) => Some(x as nat),
        None => None,
    }
}

/// The command that the arguments `items` of `sub` give: each option that
/// is given sets its field, the others keep their defaults.
pub open spec fn command_matches(
    sub: Sub,
    items: Seq<(bool, Seq<char>, Option<Seq<char>>)>,
    c: Commands,
) -> bool {
    match sub {
        Sub::Scan => match c {
            Commands::Scan {
                source,
                output,
                dir,
                dry_run,
                include_pattern,
                exclude_pattern,
                verify,
            } => {
                &&& source@ == text_or(option_value(items, "source"@), "native"@)
                &&& output@ == text_or(option_value(items, "output"@), "registry"@)
                &&& opt_string_view(dir) == option_value(items, "dir"@)
                &&& dry_run == option_given(items, "dry-run"@)
                &&& opt_string_view(include_pattern) == option_value(items, "include"@)
                &&& opt_string_view(exclude_pattern) == option_value(items, "exclude"@)
                &&& verify == option_given(items, "verify"@)
            },
            _ => false,
        },
        Sub::Serve => match c {
            Commands::Serve { transport, host, port, explorer, jwt_secret, approval, tags, prefix } => {
                &&& opt_string_view(transport) == option_value(items, "transport"@)
                &&& opt_string_view(host) == option_value(items, "host"@)
                &&& opt_port(port) == match option_value(items, "port"@) {
                    Some(v) => parse_unsigned(v, 65535),
                    None => None,
                }
                &&& explorer == option_given(items, "explorer"@)
                &&& opt_string_view(jwt_secret) == option_value(items, "jwt-secret"@)
                &&& approval@ == text_or(option_value(items, "approval"@), "auto"@)
                &&& opt_string_view(tags) == option_value(items, "tags"@)
                &&& opt_string_view(prefix) == option_value(items, "prefix"@)
            },
            _ => false,
        },
        Sub::Export => match c {
            Commands::Export { format, strict, embed_annotations, tags, prefix } => {
                &&& format@ == text_or(option_value(items, "format"@), "openai-tools"@)
                &&& strict == option_given(items, "strict"@)
                &&& embed_annotations == option_given(items, "embed-annotations"@)
                &&& opt_string_view(tags) == option_value(items, "tags"@)
                &&& opt_string_view(prefix) == option_value(items, "prefix"@)
            },
            _ => false,
        },
        Sub::TasksList => match c {
            Commands::Tasks { action: TaskCommands::List { status } } => opt_string_view(status)
                == option_value(items, "status"@),
            _ => false,
        },
        Sub::TasksCancel => match c {
            Commands::Tasks { action: TaskCommands::Cancel { task_id } } => task_id@ == positionals(
                items,
            )[0],
            _ => false,
        },
        Sub::TasksCleanup => match c {
            Commands::Tasks { action: TaskCommands::Cleanup { max_age } } => max_age == number_or(
                option_value(items, "max-age"@),
                u64::MAX as nat,
                3600,
            ),
            _ => false,
        },
    }
}

/// The message for a command line that the CLI does not accept.
pub open spec fn invalid_command_line_message() -> Seq<char> {
    "invalid command line; run with --help for usage"@
}

fn opt_string(v: Option<Vec<char>>) -> (r: Option<String>)
    ensures
        opt_string_view(r) == match v {
            Some(x) => Some(x@),
            None => None,
        },
{
    match v {
        Some(x) => Some(string_from_chars(&x)),
        None => None,
    }
}

fn text_value_or(items: &Vec<(bool, Vec<char>, Option<Vec<char>>)>, name: &str, d: &str) -> (r: String)
    ensures
        r@ == text_or(option_value(items_view(items@), name@), d@),
{
    match value_of(items, name) {
        Some(v) => string_from_chars(&v),
        None => string_of(d),
    }
}

fn invalid_command_line() -> (e: AxumApcoreError)
    ensures
        e matches AxumApcoreError::Config(m) && m@ == invalid_command_line_message(),
{
    AxumApcoreError::Config(string_of("invalid command line; run with --help for usage"))
}

fn subcommand_of(args: &Vec<String>) -> (r: Option<(Sub, usize)>)
    ensures
        match r {
            Some((sub, k)) => subcommand_at(args@.map_values(|t: String| t@)) == Some((sub, k as int))
                && k <= args.len(),
            None => subcommand_at(args@.map_values(|t: String| t@)) is None,
        },
{
    let ghost a = args@.map_values(|t: String| t@);
    if args.len() < 2 {
        return None;
    }
    assert(a[1] == args@[1]@);
    let head = args[1].as_str();
    if str_eq(head, "scan") {
        Some((Sub::Scan, 2))
    } else if str_eq(head, "serve") {
        Some((Sub::Serve, 2))
    } else if str_eq(head, "export") {
        Some((Sub::Export, 2))
    } else if str_eq(head, "tasks") && args.len() >= 3 {
        assert(a[2] == args@[2]@);
        let action = args[2].as_str();
        if str_eq(action, "list") {
            Some((Sub::TasksList, 3))
        } else if str_eq(action, "cancel") {
            Some((Sub::TasksCancel, 3))
        } else if str_eq(action, "cleanup") {
            Some((Sub::TasksCleanup, 3))
        } else {
            None
        }
    } else {
        None
    }
}

impl Cli {
    /// Reads a command line (the program name first). The options follow
    /// the subcommand: `--name value` or `--name=value` for an option with
    /// a value, `--name` for a flag; an option left out keeps its default.
    /// A command line that is not accepted gives a `Config` error.
    pub fn try_parse_from(args: &Vec<String>) -> (r: Result<Cli, AxumApcoreError>)
        ensures
            match r {
                Ok(cli) => command_line_accepted(args@.map_values(|t: String| t@)) && (read_command_line(
                    args@.map_values(|t: String| t@),
                ) matches Some((sub, items)) && command_matches(sub, items, cli.command)),
                Err(e) => !command_line_accepted(args@.map_values(|t: String| t@)) && (e matches AxumApcoreError::Config(m)
                    && m@ == invalid_command_line_message()),
            },
    {
        let ghost a = args@.map_values(|t: String| t@);
        let (sub, start) = match subcommand_of(args) {
            Some(x) => x,
            None => return Err(invalid_command_line()),
        };
        let items = match read_args(args, sub, start) {
            Some(items) => items,
            None => return Err(invalid_command_line()),
        };
        if !check_items(sub, &items) {
            return Err(invalid_command_line());
        }
        let ghost iv = items_view(items@);
        assert(read_command_line(a) == Some((sub, iv)));
        let command = match sub {
            Sub::Scan => Commands::Scan {
                source: text_value_or(&items, "source", "native"),
                output: text_value_or(&items, "output", "registry"),
                dir: opt_string(value_of(&items, "dir")),
                dry_run: given(&items, "dry-run"),
                include_pattern: opt_string(value_of(&items, "include")),
                exclude_pattern: opt_string(value_of(&items, "exclude")),
                verify: given(&items, "verify"),
            },
            Sub::Serve => {
                let port = match value_of(&items, "port") {
                    Some(v) => {
                        let text = string_from_chars(&v);
                        match parse_u64_at_most(text.as_str(), 65535) {
                            Some(n) => Some(n as u16),
                            None => return Err(invalid_command_line()),
                        }
                    },
                    None => None,
                };
                Commands::Serve {
                    transport: opt_string(value_of(&items, "transport")),
                    host: opt_string(value_of(&items, "host")),
                    port,
                    explorer: given(&items, "explorer"),
                    jwt_secret: opt_string(value_of(&items, "jwt-secret")),
                    approval: text_value_or(&items, "approval", "auto"),
                    tags: opt_string(value_of(&items, "tags")),
                    prefix: opt_string(value_of(&items, "prefix")),
                }
            },
            Sub::Export => Commands::Export {
                format: text_value_or(&items, "format", "openai-tools"),
                strict: given(&items, "strict"),
                embed_annotations: given(&items, "embed-annotations"),
                tags: opt_string(value_of(&items, "tags")),
                prefix: opt_string(value_of(&items, "prefix")),
            },
            Sub::TasksList => Commands::Tasks {
                action: TaskCommands::List { status: opt_string(value_of(&items, "status")) },
            },
            Sub::TasksCancel => {
                let ps = positional_args(&items);
                assert(ps@.map_values(|v: Vec<char>| v@)[0] == ps@[0]@);
                Commands::Tasks {
                    action: TaskCommands::Cancel { task_id: string_from_chars(&ps[0]) },
                }
            },
            Sub::TasksCleanup => {
                let max_age = match value_of(&items, "max-age") {
                    Some(v) => {
                        let text = string_from_chars(&v);
                        match parse_u64_at_most(text.as_str(), u64::MAX) {
                            Some(n) => n,
                            None => return Err(invalid_command_line()),
                        }
                    },
                    None => 3600,
                };
                Commands::Tasks { action: TaskCommands::Cleanup { max_age } }
            },
        };
        Ok(Cli { command })
    }
}

/// Reads the command line of the CLI (the program name first), as
/// `Cli::try_parse_from` does.
pub fn parse_cli(args: &Vec<String>) -> (r: Result<Cli, AxumApcoreError>)
    ensures
        match r {
            Ok(cli) => command_line_accepted(args@.map_values(|t: String| t@)) && (read_command_line(
                args@.map_values(|t: String| t@),
            ) matches Some((sub, items)) && command_matches(sub, items, cli.command)),
            Err(e) => !command_line_accepted(args@.map_values(|t: String| t@)) && (e matches AxumApcoreError::Config(m)
                && m@ == invalid_command_line_message()),
        },
{
    Cli::try_parse_from(args)
}

/// The tags of a comma-separated list: each piece trimmed, empty pieces
/// left out.
pub open spec fn tag_list(pieces: Seq<Seq<char>>) -> Seq<Seq<char>>
    decreases pieces.len(),
{
    if pieces.len() == 0 {
        Seq::empty()
    } else {
        let prev = tag_list(pieces.drop_last());
        let t = trim(pieces.last());
        if t.len() == 0 {
            prev
        } else {
            prev.push(t)
        }
    }
}

/// Splits a comma-separated tag list, trimming each tag and leaving out
/// empty ones.
pub fn parse_tags(tags: &str) -> (r: Vec<String>)
    ensures
        string_views(r@) == tag_list(split_on(tags@, ',')),
{
    let v = chars_of(tags);
    let parts = split_chars(&v, ',');
    let mut r: Vec<String> = Vec::new();
    let mut i: usize = 0;
    while i < parts.len()
        invariant
            i <= parts@.len(),
            views_of(parts@) == split_on(tags@, ','),
            string_views(r@) == tag_list(views_of(parts@).take(i as int)),
        decreases parts.len() - i,
    {
        assert(views_of(parts@).take(i + 1).drop_last() =~= views_of(parts@).take(i as int));
        assert(views_of(parts@)[i as int] == parts@[i as int]@);
        let t = trim_chars(&parts[i]);
        if t.len() > 0 {
            let ghost before = r@;
            let st = string_from_chars(&t);
            r.push(st);
            proof {
                lemma_string_views_push(before, st);
            }
        }
        i = i + 1;
    }
    assert(views_of(parts@).take(parts@.len() as int) =~= views_of(parts@));
    r
}

/// Every tag that `parse_tags` gives is non-empty and neither starts nor
/// ends with white space.
pub proof fn law_tags_are_trimmed(tags: Seq<char>)
    ensures
        forall|i: int|
            0 <= i < tag_list(split_on(tags, ',')).len() ==> {
                let t = #[trigger] tag_list(split_on(tags, ','))[i];
                t.len() > 0 && !is_white_space(t[0]) && !is_white_space(t.last())
            },
{
    lemma_tag_list_trimmed(split_on(tags, ','));
}

proof fn lemma_tag_list_trimmed(pieces: Seq<Seq<char>>)
    ensures
        forall|i: int|
            0 <= i < tag_list(pieces).len() ==> {
                let t = #[trigger] tag_list(pieces)[i];
                t.len() > 0 && !is_white_space(t[0]) && !is_white_space(t.last())
            },
    decreases pieces.len(),
{
    if pieces.len() > 0 {
        lemma_tag_list_trimmed(pieces.drop_last());
        lemma_trim_edges(pieces.last());
        let prev = tag_list(pieces.drop_last());
        assert forall|i: int| 0 <= i < tag_list(pieces).len() implies {
            let t = #[trigger] tag_list(pieces)[i];
            t.len() > 0 && !is_white_space(t[0]) && !is_white_space(t.last())
        } by {
            if i < prev.len() {
                assert(tag_list(pieces)[i] == prev[i]);
            }
        }
    }
}

/// Where the scan command writes what it found.
#[derive(Clone, Copy, Debug, PartialEq, Eq, Structural)]
pub enum ScanOutput {
    /// Register into an apcore registry.
    Registry,
    /// Write YAML binding files.
    Yaml,
    /// Register HTTP proxy modules that forward to the running API.
    HttpProxy,
}

/// The message for an unknown output format.
pub open spec fn unknown_output_message(output: Seq<char>) -> Seq<char> {
    "Unknown output format: '"@ + output + "'. Available: registry, yaml, http-proxy"@
}

/// The output of the scan command: "registry", "yaml" or "http-proxy"; any
/// other name is an error.
pub fn scan_output(output: &str) -> (r: Result<ScanOutput, AxumApcoreError>)
    ensures
        output@ == "registry"@ ==> r == Ok::<ScanOutput, AxumApcoreError>(ScanOutput::Registry),
        output@ == "yaml"@ ==> r == Ok::<ScanOutput, AxumApcoreError>(ScanOutput::Yaml),
        output@ == "http-proxy"@ ==> r == Ok::<ScanOutput, AxumApcoreError>(ScanOutput::HttpProxy),
        output@ != "registry"@ && output@ != "yaml"@ && output@ != "http-proxy"@ ==> (r matches Err(
            AxumApcoreError::Config(m),
        ) && m@ == unknown_output_message(output@)),
{
    proof {
        reveal_strlit("registry");
        reveal_strlit("yaml");
        reveal_strlit("http-proxy");
        assert("registry"@.len() != "yaml"@.len());
        assert("registry"@.len() != "http-proxy"@.len());
        assert("yaml"@.len() != "http-proxy"@.len());
    }
    if str_eq(output, "registry") {
        Ok(ScanOutput::Registry)
    } else if str_eq(output, "yaml") {
        Ok(ScanOutput::Yaml)
    } else if str_eq(output, "http-proxy") {
        Ok(ScanOutput::HttpProxy)
    } else {
        let mut m = string_of("Unknown output format: '");
        append_str(&mut m, output);
        append_str(&mut m, "'. Available: registry, yaml, http-proxy");
        Err(AxumApcoreError::Config(m))
    }
}

/// The directory YAML bindings are written to: the one given, else
/// "apcore_modules".
pub fn yaml_output_dir(dir: Option<String>) -> (r: String)
    ensures
        r@ == match dir {
            Some(d) => d@,
            None => "apcore_modules"@,
        },
{
    match dir {
        Some(d) => d,
        None => string_of("apcore_modules"),
    }
}

/// The message for an unknown export format.
pub open spec fn unknown_export_message(format: Seq<char>) -> Seq<char> {
    "Unknown export format: '"@ + format + "'. Available: openai-tools"@
}

/// The export command knows one format, "openai-tools"; any other name is
/// an error.
pub fn check_export_format(format: &str) -> (r: Result<(), AxumApcoreError>)
    ensures
        r is Ok == (format@ == "openai-tools"@),
        r is Err ==> (r matches Err(AxumApcoreError::Config(m)) && m@ == unknown_export_message(
            format@,
        )),
{
    if str_eq(format, "openai-tools") {
        Ok(())
    } else {
        let mut m = string_of("Unknown export format: '");
        append_str(&mut m, format);
        append_str(&mut m, "'. Available: openai-tools");
        Err(AxumApcoreError::Config(m))
    }
}

/// Where the serve command listens.
pub struct ServeTarget {
    pub transport: String,
    pub host: String,
    pub port: u16,
}

/// The transport, host and port to serve on: each one given on the command
/// line, else the one in the settings.
pub fn serve_target(
    transport: Option<String>,
    host: Option<String>,
    port: Option<u16>,
    settings: &ApcoreSettings,
) -> (t: ServeTarget)
    ensures
        t.transport@ == match transport {
            Some(x) => x@,
            None => settings.serve_transport@,
        },
        t.host@ == match host {
            Some(x) => x@,
            None => settings.serve_host@,
        },
        t.port == match port {
            Some(x) => x,
            None => settings.serve_port,
        },
{
    ServeTarget {
        transport: match transport {
            Some(x) => x,
            None => settings.serve_transport.clone(),
        },
        host: match host {
            Some(x) => x,
            None => settings.serve_host.clone(),
        },
        port: match port {
            Some(x) => x,
            None => settings.serve_port,
        },
    }
}

/// `s` followed by spaces up to `width` characters; `s` itself when it is
/// that long already.
pub open spec fn pad_right(s: Seq<char>, width: nat) -> Seq<char> {
    if s.len() >= width {
        s
    } else {
        s + Seq::new((width - s.len()) as nat, |i: int| ' ')
    }
}

/// Pads a text with spaces to `width` characters.
pub fn padded(s: &str, width: usize) -> (r: String)
    ensures
        r@ == pad_right(s@, width as nat),
{
    let mut r = string_of(s);
    let n = chars_of(s).len();
    let mut k: usize = n;
    while k < width
        invariant
            n == s@.len(),
            n <= k,
            k <= width || k == n,
            r@ == s@ + Seq::new((k - n) as nat, |i: int| ' '),
        decreases width - k,
    {
        push_char(&mut r, ' ');
        assert(s@ + Seq::new((k + 1 - n) as nat, |i: int| ' ') =~= (s@ + Seq::new(
            (k - n) as nat,
            |i: int| ' ',
        )).push(' '));
        k = k + 1;
    }
    if n >= width {
        assert(r@ =~= s@);
    }
    r
}

/// One line of the task table: id, module and status padded to 36, 20 and
/// 10 characters, then the creation time, separated by single spaces.
pub open spec fn task_row_text(id: Seq<char>, module: Seq<char>, status: Seq<char>, created: Seq<char>) -> Seq<char> {
    pad_right(id, 36) + " "@ + pad_right(module, 20) + " "@ + pad_right(status, 10) + " "@ + created
}

/// Formats one line of the task table.
pub fn task_row(id: &str, module: &str, status: &str, created: &str) -> (r: String)
    ensures
        r@ == task_row_text(id@, module@, status@, created@),
{
    let mut r = padded(id, 36);
    append_str(&mut r, " ");
    let m = padded(module, 20);
    append_str(&mut r, m.as_str());
    append_str(&mut r, " ");
    let s = padded(status, 10);
    append_str(&mut r, s.as_str());
    append_str(&mut r, " ");
    append_str(&mut r, created);
    r
}

/// The line of a task in the task table.
pub open spec fn task_line(t: TaskInfo) -> Seq<char> {
    task_row_text(t.task_id@, t.module_id@, t.status@, t.created_at@)
}

/// What the task list prints: "No tasks found." when there are none, else
/// the header, one line per task, an empty line and the total.
pub open spec fn task_list_text(tasks: Seq<TaskInfo>) -> Seq<Seq<char>> {
    if tasks.len() == 0 {
        seq!["No tasks found."@]
    } else {
        seq![task_row_text("TASK ID"@, "MODULE"@, "STATUS"@, "CREATED"@)] + tasks.map_values(
            |t: TaskInfo| task_line(t),
        ) + seq![""@, "Total: "@ + decimal(tasks.len() as nat) + " tasks"@]
    }
}

/// The lines the task list prints for `tasks`.
pub fn task_list_lines(tasks: &Vec<TaskInfo>) -> (r: Vec<String>)
    ensures
        string_views(r@) == task_list_text(tasks@),
{
    let mut r: Vec<String> = Vec::new();
    if tasks.len() == 0 {
        r.push(string_of("No tasks found."));
        assert(string_views(r@) =~= task_list_text(tasks@));
        return r;
    }
    r.push(task_row("TASK ID", "MODULE", "STATUS", "CREATED"));
    let ghost head = string_views(r@);
    let mut i: usize = 0;
    while i < tasks.len()
        invariant
            i <= tasks@.len(),
            tasks@.len() > 0,
            head == seq![task_row_text("TASK ID"@, "MODULE"@, "STATUS"@, "CREATED"@)],
            string_views(r@) == head + tasks@.take(i as int).map_values(|t: TaskInfo| task_line(t)),
        decreases tasks.len() - i,
    {
        let t = &tasks[i];
        let line = task_row(
            t.task_id.as_str(),
            t.module_id.as_str(),
            t.status.as_str(),
            t.created_at.as_str(),
        );
        let ghost before = r@;
        r.push(line);
        proof {
            lemma_string_views_push(before, line);
            assert(tasks@.take(i + 1).map_values(|t: TaskInfo| task_line(t)) =~= tasks@.take(
                i as int,
            ).map_values(|t: TaskInfo| task_line(t)).push(task_line(tasks@[i as int])));
        }
        i = i + 1;
    }
    assert(tasks@.take(tasks@.len() as int) =~= tasks@);
    let ghost body = string_views(r@);
    let ghost r0 = r@;
    let blank = string_of("");
    r.push(blank);
    let ghost r1 = r@;
    let mut total = string_of("Total: ");
    append_str(&mut total, decimal_string(tasks.len() as u64).as_str());
    append_str(&mut total, " tasks");
    r.push(total);
    proof {
        lemma_string_views_push(r0, blank);
        lemma_string_views_push(r1, total);
        reveal_strlit("");
    }
    assert(string_views(r@) =~= body + seq![""@, "Total: "@ + decimal(tasks@.len() as nat) + " tasks"@]);
    r
}

/// What cancelling task `task_id` prints.
pub open spec fn cancel_outcome_text(task_id: Seq<char>, cancelled: bool) -> Seq<char> {
    if cancelled {
        "Task '"@ + task_id + "' cancelled."@
    } else {
        "Task '"@ + task_id + "' not found or not running."@
    }
}

/// The line printed after trying to cancel a task.
pub fn cancel_outcome(task_id: &str, cancelled: bool) -> (r: String)
    ensures
        r@ == cancel_outcome_text(task_id@, cancelled),
{
    let mut r = string_of("Task '");
    append_str(&mut r, task_id);
    if cancelled {
        append_str(&mut r, "' cancelled.");
    } else {
        append_str(&mut r, "' not found or not running.");
    }
    r
}

/// What clean-up prints.
pub open spec fn cleanup_outcome_text(removed: nat, max_age: nat) -> Seq<char> {
    "Cleaned up "@ + decimal(removed) + " tasks (older than "@ + decimal(max_age) + "s)."@
}

/// The line printed after a clean-up.
pub fn cleanup_outcome(removed: usize, max_age: u64) -> (r: String)
    ensures
        r@ == cleanup_outcome_text(removed as nat, max_age as nat),
{
    let mut r = string_of("Cleaned up ");
    append_str(&mut r, decimal_string(removed as u64).as_str());
    append_str(&mut r, " tasks (older than ");
    append_str(&mut r, decimal_string(max_age).as_str());
    append_str(&mut r, "s).");
    r
}

/// What the scan command prints of the modules it found: a count with the
/// scanner's name, then each module id with its description.
pub open spec fn scan_report_text(modules: Seq<ScannedModule>, source: Seq<char>) -> Seq<Seq<char>> {
    seq!["Scanned "@ + decimal(modules.len() as nat) + " modules via '"@ + source + "' scanner"@]
        + modules.map_values(
        |m: ScannedModule| "  - "@ + m.module_id@ + " ("@ + m.description@ + ")"@,
    )
}

/// The lines the scan command prints of the modules it found.
pub fn scan_report(modules: &Vec<ScannedModule>, source: &str) -> (r: Vec<String>)
    ensures
        string_views(r@) == scan_report_text(modules@, source@),
{
    let mut r: Vec<String> = Vec::new();
    let mut first = string_of("Scanned ");
    append_str(&mut first, decimal_string(modules.len() as u64).as_str());
    append_str(&mut first, " modules via '");
    append_str(&mut first, source);
    append_str(&mut first, "' scanner");
    r.push(first);
    let ghost head = string_views(r@);
    let mut i: usize = 0;
    while i < modules.len()
        invariant
            i <= modules@.len(),
            head == seq!["Scanned "@ + decimal(modules@.len() as nat) + " modules via '"@ + source@
                + "' scanner"@],
            string_views(r@) == head + modules@.take(i as int).map_values(
                |m: ScannedModule| "  - "@ + m.module_id@ + " ("@ + m.description@ + ")"@,
            ),
        decreases modules.len() - i,
    {
        let m = &modules[i];
        let mut line = string_of("  - ");
        append_str(&mut line, m.module_id.as_str());
        append_str(&mut line, " (");
        append_str(&mut line, m.description.as_str());
        append_str(&mut line, ")");
        let ghost before = r@;
        r.push(line);
        proof {
            lemma_string_views_push(before, line);
            assert(modules@.take(i + 1).map_values(
                |m: ScannedModule| "  - "@ + m.module_id@ + " ("@ + m.description@ + ")"@,
            ) =~= modules@.take(i as int).map_values(
                |m: ScannedModule| "  - "@ + m.module_id@ + " ("@ + m.description@ + ")"@,
            ).push("  - "@ + modules@[i as int].module_id@ + " ("@ + modules@[i as int].description@ + ")"@));
        }
        i = i + 1;
    }
    assert(modules@.take(modules@.len() as int) =~= modules@);
    r
}

} // verus!
