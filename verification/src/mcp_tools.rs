//! The tools that manage MCP servers from a chat: listing the configured
//! servers and their tools, adding one, removing one.

use vstd::prelude::*;
use crate::json::{json_get, json_get_str, Json, JsonValue};
use crate::mcp_registry::McpToolDef;
use crate::request::{split_chars, split_on};
use crate::text::{
    append_chars, append_str, ascii_lower_seq, ascii_lowercase_exec, chars_of, decimal, join_exec,
    join_with, push_decimal, slices_equal, starts_with, starts_with_exec, string_from,
};

verus! {

/// How an MCP server is reached.
pub enum McpTransport {
    /// A program started with arguments and environment variables.
    Stdio { command: String, args: Vec<String>, env_vars: Vec<(String, String)> },
    Http { url: String },
}

/// A configured MCP server.
pub struct McpServerEntry {
    pub id: String,
    pub name: String,
    pub transport: McpTransport,
    pub enabled: bool,
}

/// The state of a connected MCP server.
pub struct McpServerStatus {
    pub id: String,
    pub name: String,
    pub connected: bool,
    pub tool_count: u64,
    /// The namespaced names of its tools.
    pub tools: Vec<String>,
}

/// The position of the first status with id `id`.
pub open spec fn status_index(statuses: Seq<McpServerStatus>, id: Seq<char>) -> Option<int>
    decreases statuses.len(),
{
    if statuses.len() == 0 {
        None
    } else {
        match status_index(statuses.drop_last(), id) {
            Some(i) => Some(i),
            None => if statuses.last().id@ == id {
                Some(statuses.len() - 1)
            } else {
                None
            },
        }
    }
}

/// The position of the first status with id `id`.
fn find_status(statuses: &Vec<McpServerStatus>, id: &str) -> (r: Option<usize>)
    ensures
        match r {
            Some(i) => status_index(statuses@, id@) == Some(i as int) && i < statuses.len(),
            None => status_index(statuses@, id@) is None,
        },
{
    let k = chars_of(id);
    let mut i: usize = 0;
    while i < statuses.len()
        invariant
            i <= statuses.len(),
            k@ == id@,
            status_index(statuses@.take(i as int), id@) is None,
        decreases statuses.len() - i,
    {
        proof {
            assert(statuses@.take(i + 1).drop_last() =~= statuses@.take(i as int));
        }
        if slices_equal(&chars_of(statuses[i].id.as_str()), &k) {
            proof {
                lemma_status_index_prefix(statuses@, id@, i + 1);
            }
            return Some(i);
        }
        i += 1;
    }
    assert(statuses@.take(statuses.len() as int) =~= statuses@);
    None
}

/// A prefix that holds a match finds it where the whole does.
proof fn lemma_status_index_prefix(statuses: Seq<McpServerStatus>, id: Seq<char>, n: int)
    requires
        0 <= n <= statuses.len(),
        status_index(statuses.take(n), id) is Some,
    ensures
        status_index(statuses, id) == status_index(statuses.take(n), id),
    decreases statuses.len() - n,
{
    if n < statuses.len() {
        let m = statuses.len() - 1;
        assert(statuses.drop_last().take(n) =~= statuses.take(n));
        lemma_status_index_prefix(statuses.drop_last(), id, n);
    } else {
        assert(statuses.take(n) =~= statuses);
    }
}

/// How a transport is shown.
pub open spec fn transport_text(t: McpTransport) -> Seq<char> {
    match t {
        McpTransport::Stdio { command, args, .. } => if args.len() == 0 {
            "stdio: "@ + command@
        } else {
            "stdio: "@ + command@ + " "@ + join_with(args@.map_values(|a: String| a@), " "@)
        },
        McpTransport::Http { url } => "http: "@ + url@,
    }
}

/// The lines for one configured server: its name, state, transport and
/// number of tools, then one line for each tool of its status.
pub open spec fn server_lines(cfg: McpServerEntry, statuses: Seq<McpServerStatus>) -> Seq<Seq<char>> {
    let status = status_index(statuses, cfg.id@);
    let connected = match status {
        Some(i) => statuses[i].connected,
        None => false,
    };
    let tool_count: nat = match status {
        Some(i) => statuses[i].tool_count as nat,
        None => 0,
    };
    let state = if !cfg.enabled {
        "disabled"@
    } else if connected {
        "connected"@
    } else {
        "disconnected"@
    };
    let head = "  - "@ + cfg.name@ + " ["@ + state + "] ("@ + transport_text(cfg.transport) + ") — "@ + decimal(
        tool_count,
    ) + " tool"@ + if tool_count == 1 {
        Seq::empty()
    } else {
        "s"@
    };
    seq![head] + match status {
        Some(i) => statuses[i].tools@.map_values(|t: String| "      • "@ + t@),
        None => Seq::empty(),
    }
}

/// The lines for the configured servers, in order.
pub open spec fn servers_lines(configs: Seq<McpServerEntry>, statuses: Seq<McpServerStatus>) -> Seq<Seq<char>>
    decreases configs.len(),
{
    if configs.len() == 0 {
        Seq::empty()
    } else {
        servers_lines(configs.drop_last(), statuses) + server_lines(configs.last(), statuses)
    }
}

/// The listing of configured MCP servers.
pub open spec fn servers_listing_spec(configs: Seq<McpServerEntry>, statuses: Seq<McpServerStatus>) -> Seq<char> {
    if configs.len() == 0 {
        "No MCP servers configured."@
    } else {
        join_with(seq!["MCP Servers:"@] + servers_lines(configs, statuses), "\n"@)
    }
}

/// How a transport is shown.
fn transport_text_exec(t: &McpTransport) -> (r: Vec<char>)
    ensures
        r@ == transport_text(*t),
{
    match t {
        McpTransport::Stdio { command, args, .. } => {
            let mut v = chars_of("stdio: ");
            append_str(&mut v, command.as_str());
            if args.len() > 0 {
                append_str(&mut v, " ");
                let mut parts: Vec<Vec<char>> = Vec::new();
                let mut i: usize = 0;
                while i < args.len()
                    invariant
                        i <= args.len(),
                        parts@.map_values(|p: Vec<char>| p@) == args@.take(i as int).map_values(|a: String| a@),
                    decreases args.len() - i,
                {
                    let ghost pb = parts@;
                    let piece = chars_of(args[i].as_str());
                    assert(piece@ == args@[i as int]@);
                    parts.push(piece);
                    proof {
                        assert(parts@ == pb.push(piece));
                        assert(args@.take(i + 1) =~= args@.take(i as int).push(args@[i as int]));
                        assert(parts@.map_values(|p: Vec<char>| p@) =~= pb.map_values(|p: Vec<char>| p@).push(
                            args@[i as int]@,
                        ));
                        assert(parts@.map_values(|p: Vec<char>| p@) =~= args@.take(i + 1).map_values(
                            |a: String| a@,
                        ));
                    }
                    i += 1;
                }
                assert(args@.take(args.len() as int) =~= args@);
                append_str(&mut v, join_exec(&parts, " ").as_str());
            }
            assert(v@ =~= transport_text(*t));
            v
        },
        McpTransport::Http { url } => {
            let mut v = chars_of("http: ");
            append_str(&mut v, url.as_str());
            v
        },
    }
}

/// Add the lines for one configured server.
fn push_server_lines(lines: &mut Vec<Vec<char>>, cfg: &McpServerEntry, statuses: &Vec<McpServerStatus>)
    ensures
        final(lines)@.map_values(|l: Vec<char>| l@) == old(lines)@.map_values(|l: Vec<char>| l@) + server_lines(
            *cfg,
            statuses@,
        ),
{
    let status = find_status(statuses, cfg.id.as_str());
    let connected = match status {
        Some(i) => statuses[i].connected,
        None => false,
    };
    let tool_count: u64 = match status {
        Some(i) => statuses[i].tool_count,
        None => 0,
    };
    let mut head = chars_of("  - ");
    append_str(&mut head, cfg.name.as_str());
    append_str(&mut head, " [");
    if !cfg.enabled {
        append_str(&mut head, "disabled");
    } else if connected {
        append_str(&mut head, "connected");
    } else {
        append_str(&mut head, "disconnected");
    }
    append_str(&mut head, "] (");
    append_chars(&mut head, &transport_text_exec(&cfg.transport));
    append_str(&mut head, ") — ");
    push_decimal(&mut head, tool_count);
    append_str(&mut head, " tool");
    if tool_count != 1 {
        append_str(&mut head, "s");
    }
    let ghost before = old(lines)@.map_values(|l: Vec<char>| l@);
    lines.push(head);
    let ghost after_head = lines@.map_values(|l: Vec<char>| l@);
    assert(after_head =~= before + seq![server_lines(*cfg, statuses@)[0]]);
    match status {
        Some(si) => {
            let tools = &statuses[si].tools;
            let mut k: usize = 0;
            while k < tools.len()
                invariant
                    k <= tools.len(),
                    lines@.map_values(|l: Vec<char>| l@) == after_head + tools@.take(k as int).map_values(
                        |t: String| "      • "@ + t@,
                    ),
                decreases tools.len() - k,
            {
                let mut line = chars_of("      • ");
                append_str(&mut line, tools[k].as_str());
                assert(line@ == "      • "@ + tools@[k as int]@);
                let ghost lb = lines@;
                lines.push(line);
                proof {
                    assert(lines@.map_values(|l: Vec<char>| l@) =~= lb.map_values(|l: Vec<char>| l@).push(
                        "      • "@ + tools@[k as int]@,
                    ));
                    assert(tools@.take(k + 1) =~= tools@.take(k as int).push(tools@[k as int]));
                    assert(lines@.map_values(|l: Vec<char>| l@) =~= after_head + tools@.take(k + 1).map_values(
                        |t: String| "      • "@ + t@,
                    ));
                }
                k += 1;
            }
            assert(tools@.take(tools.len() as int) =~= tools@);
            assert(lines@.map_values(|l: Vec<char>| l@) =~= before + server_lines(*cfg, statuses@));
        },
        None => {
            assert(lines@.map_values(|l: Vec<char>| l@) =~= before + server_lines(*cfg, statuses@));
        },
    }
}

/// The listing of configured MCP servers, with the state each status gives.
pub fn servers_listing(configs: &Vec<McpServerEntry>, statuses: &Vec<McpServerStatus>) -> (r: String)
    ensures
        r@ == servers_listing_spec(configs@, statuses@),
{
    if configs.len() == 0 {
        return "No MCP servers configured.".to_string();
    }
    let mut lines: Vec<Vec<char>> = Vec::new();
    lines.push(chars_of("MCP Servers:"));
    let mut i: usize = 0;
    while i < configs.len()
        invariant
            i <= configs.len(),
            lines@.map_values(|l: Vec<char>| l@) == seq!["MCP Servers:"@] + servers_lines(
                configs@.take(i as int),
                statuses@,
            ),
        decreases configs.len() - i,
    {
        proof {
            assert(configs@.take(i + 1).drop_last() =~= configs@.take(i as int));
        }
        push_server_lines(&mut lines, &configs[i], statuses);
        proof {
            assert(lines@.map_values(|l: Vec<char>| l@) =~= seq!["MCP Servers:"@] + servers_lines(
                configs@.take(i + 1),
                statuses@,
            ));
        }
        i += 1;
    }
    assert(configs@.take(configs.len() as int) =~= configs@);
    join_exec(&lines, "\n")
}

/// The text of a description before its first `.`.
pub open spec fn brief(description: Seq<char>) -> Seq<char> {
    split_on(description, '.')[0]
}

/// The lines for one server's tools: those the server with id `server_id`
/// provides, each with the first sentence of its description.
pub open spec fn tool_lines(server_id: Seq<char>, tools: Seq<McpToolDef>) -> Seq<Seq<char>>
    decreases tools.len(),
{
    if tools.len() == 0 {
        Seq::empty()
    } else {
        let t = tools.last();
        tool_lines(server_id, tools.drop_last()) + if t.server_id@ == server_id {
            seq!["  "@ + t.qualified_name@ + ": "@ + brief(t.description@)]
        } else {
            Seq::empty()
        }
    }
}

/// Is a configured server enabled and connected?
pub open spec fn is_live(cfg: McpServerEntry, statuses: Seq<McpServerStatus>) -> bool {
    cfg.enabled && match status_index(statuses, cfg.id@) {
        Some(i) => statuses[i].connected,
        None => false,
    }
}

/// The lines of the tool catalog for the live servers, in order.
pub open spec fn catalog_lines(configs: Seq<McpServerEntry>, statuses: Seq<McpServerStatus>, tools: Seq<McpToolDef>) -> Seq<Seq<char>>
    decreases configs.len(),
{
    if configs.len() == 0 {
        Seq::empty()
    } else {
        let cfg = configs.last();
        catalog_lines(configs.drop_last(), statuses, tools) + if is_live(cfg, statuses) {
            seq!["## "@ + cfg.name@ + " (connected)"@] + tool_lines(cfg.id@, tools)
        } else {
            Seq::empty()
        }
    }
}

/// The MCP tool catalog: for each live server, the tools it provides (by
/// server id) with a brief description.
pub open spec fn tools_listing_spec(configs: Seq<McpServerEntry>, statuses: Seq<McpServerStatus>, tools: Seq<McpToolDef>) -> Seq<char> {
    if configs.len() == 0 {
        "No MCP servers configured. Add servers in Settings → MCP Servers."@
    } else {
        let lines = catalog_lines(configs, statuses, tools);
        if lines.len() == 0 {
            "No MCP servers are currently connected. Check Settings → MCP Servers and click Refresh."@
        } else {
            join_with(lines, "\n"@)
        }
    }
}

/// Add the lines for one server's tools.
fn push_tool_lines(lines: &mut Vec<Vec<char>>, server_id: &str, tools: &Vec<McpToolDef>)
    ensures
        final(lines)@.map_values(|l: Vec<char>| l@) == old(lines)@.map_values(|l: Vec<char>| l@) + tool_lines(
            server_id@,
            tools@,
        ),
{
    let ghost before = old(lines)@.map_values(|l: Vec<char>| l@);
    let mut i: usize = 0;
    while i < tools.len()
        invariant
            i <= tools.len(),
            lines@.map_values(|l: Vec<char>| l@) == before + tool_lines(server_id@, tools@.take(i as int)),
        decreases tools.len() - i,
    {
        proof {
            assert(tools@.take(i + 1).drop_last() =~= tools@.take(i as int));
        }
        let t = &tools[i];
        assert(tools@.take(i + 1).last() == tools@[i as int]);
        let name = chars_of(t.qualified_name.as_str());
        if slices_equal(&chars_of(t.server_id.as_str()), &chars_of(server_id)) {
            let pieces = split_chars(&chars_of(t.description.as_str()), '.');
            proof {
                crate::request::lemma_split_nonempty(t.description@, '.');
            }
            let mut line = chars_of("  ");
            append_chars(&mut line, &name);
            append_str(&mut line, ": ");
            assert(pieces@[0]@ == brief(t.description@));
            append_chars(&mut line, &pieces[0]);
            let ghost lb = lines@;
            let ghost lv = line@;
            lines.push(line);
            proof {
                assert(lines@.map_values(|l: Vec<char>| l@) =~= lb.map_values(|l: Vec<char>| l@).push(lv));
            }
        }
        proof {
            assert(lines@.map_values(|l: Vec<char>| l@) =~= before + tool_lines(server_id@, tools@.take(i + 1)));
        }
        i += 1;
    }
    assert(tools@.take(tools.len() as int) =~= tools@);
}

/// The MCP tool catalog.
pub fn tools_listing(configs: &Vec<McpServerEntry>, statuses: &Vec<McpServerStatus>, tools: &Vec<McpToolDef>) -> (r: String)
    ensures
        r@ == tools_listing_spec(configs@, statuses@, tools@),
{
    if configs.len() == 0 {
        return "No MCP servers configured. Add servers in Settings → MCP Servers.".to_string();
    }
    let mut lines: Vec<Vec<char>> = Vec::new();
    let mut i: usize = 0;
    while i < configs.len()
        invariant
            i <= configs.len(),
            lines@.map_values(|l: Vec<char>| l@) == catalog_lines(configs@.take(i as int), statuses@, tools@),
        decreases configs.len() - i,
    {
        proof {
            assert(configs@.take(i + 1).drop_last() =~= configs@.take(i as int));
        }
        let cfg = &configs[i];
        let live = cfg.enabled && match find_status(statuses, cfg.id.as_str()) {
            Some(si) => statuses[si].connected,
            None => false,
        };
        let ghost before = lines@.map_values(|l: Vec<char>| l@);
        if live {
            let mut head = chars_of("## ");
            append_str(&mut head, cfg.name.as_str());
            append_str(&mut head, " (connected)");
            lines.push(head);
            push_tool_lines(&mut lines, cfg.id.as_str(), tools);
        }
        proof {
            assert(lines@.map_values(|l: Vec<char>| l@) =~= catalog_lines(configs@.take(i + 1), statuses@, tools@));
        }
        i += 1;
    }
    assert(configs@.take(configs.len() as int) =~= configs@);
    if lines.len() == 0 {
        return "No MCP servers are currently connected. Check Settings → MCP Servers and click Refresh.".to_string();
    }
    join_exec(&lines, "\n")
}

/// Should the servers be connected before a tool is used: some are
/// configured and no status reports one connected?
pub fn needs_lazy_connect(configured: usize, statuses: &Vec<McpServerStatus>) -> (r: bool)
    ensures
        r == (configured > 0 && forall|i: int| 0 <= i < statuses@.len() ==> !(#[trigger] statuses@[i]).connected),
{
    if configured == 0 {
        return false;
    }
    let mut i: usize = 0;
    while i < statuses.len()
        invariant
            i <= statuses.len(),
            forall|k: int| 0 <= k < i ==> !(#[trigger] statuses@[k]).connected,
        decreases statuses.len() - i,
    {
        if statuses[i].connected {
            return false;
        }
        i += 1;
    }
    true
}


// ---------------------------------------------------------------------------
// Adding and removing servers
// ---------------------------------------------------------------------------

/// The strings among JSON values, in order.
pub open spec fn string_items(items: Seq<Json>) -> Seq<Seq<char>>
    decreases items.len(),
{
    if items.len() == 0 {
        Seq::empty()
    } else {
        string_items(items.drop_last()) + match items.last() {
            Json::Str(s) => seq![s],
            _ => Seq::empty(),
        }
    }
}

/// The members of an object whose values are strings, in order.
pub open spec fn string_members(members: Seq<(Seq<char>, Json)>) -> Seq<(Seq<char>, Seq<char>)>
    decreases members.len(),
{
    if members.len() == 0 {
        Seq::empty()
    } else {
        string_members(members.drop_last()) + match members.last().1 {
            Json::Str(s) => seq![(members.last().0, s)],
            _ => Seq::empty(),
        }
    }
}

/// The mathematical form of a transport.
pub enum TransportSpec {
    Stdio(Seq<char>, Seq<Seq<char>>, Seq<(Seq<char>, Seq<char>)>),
    Http(Seq<char>),
}

/// The view of a transport.
pub open spec fn transport_view(t: McpTransport) -> TransportSpec {
    match t {
        McpTransport::Stdio { command, args, env_vars } => TransportSpec::Stdio(
            command@,
            args@.map_values(|a: String| a@),
            env_vars@.map_values(|p: (String, String)| (p.0@, p.1@)),
        ),
        McpTransport::Http { url } => TransportSpec::Http(url@),
    }
}

/// A non-empty string argument.
pub open spec fn nonempty_arg(args: Json, key: Seq<char>) -> Option<Seq<char>> {
    match json_get_str(args, key) {
        Some(s) if s.len() > 0 => Some(s),
        _ => None,
    }
}

/// The server a request to add one describes (its name and transport), or
/// the error for what is missing or unknown.
pub open spec fn add_request_spec(args: Json) -> Result<(Seq<char>, TransportSpec), Seq<char>> {
    match nonempty_arg(args, "name"@) {
        None => Err("Error: 'name' argument is required"@),
        Some(name) => {
            let transport = crate::routes::tools::str_arg(args, "transport"@, "stdio"@);
            if transport == "stdio"@ {
                match nonempty_arg(args, "command"@) {
                    None => Err("Error: 'command' argument is required for stdio transport"@),
                    Some(command) => Ok(
                        (
                            name,
                            TransportSpec::Stdio(
                                command,
                                match json_get(args, "args"@) {
                                    Some(Json::Array(items)) => string_items(items),
                                    _ => Seq::empty(),
                                },
                                match json_get(args, "env_vars"@) {
                                    Some(Json::Object(members)) => string_members(members),
                                    _ => Seq::empty(),
                                },
                            ),
                        ),
                    ),
                }
            } else if transport == "http"@ {
                match nonempty_arg(args, "url"@) {
                    None => Err("Error: 'url' argument is required for http transport"@),
                    Some(url) => Ok((name, TransportSpec::Http(url))),
                }
            } else {
                Err("Error: Unknown transport type '"@ + transport + "'. Use 'stdio' or 'http'."@)
            }
        },
    }
}

/// A non-empty string argument.
fn nonempty_arg_exec(args: &JsonValue, key: &str) -> (r: Option<String>)
    ensures
        match r {
            Some(s) => nonempty_arg(args@, key@) == Some(s@),
            None => nonempty_arg(args@, key@) is None,
        },
{
    match args.get_str(key) {
        Some(s) => if s.as_str().is_empty() {
            None
        } else {
            Some(s)
        },
        None => None,
    }
}

/// The strings among an array's items.
pub fn string_items_exec(items: &Vec<JsonValue>) -> (r: Vec<String>)
    ensures
        r@.map_values(|a: String| a@) == string_items(items@.map_values(|j: JsonValue| j@)),
{
    let ghost iv = items@.map_values(|j: JsonValue| j@);
    let mut out: Vec<String> = Vec::new();
    let mut i: usize = 0;
    while i < items.len()
        invariant
            i <= items.len(),
            iv == items@.map_values(|j: JsonValue| j@),
            out@.map_values(|a: String| a@) == string_items(iv.take(i as int)),
        decreases items.len() - i,
    {
        proof {
            assert(iv.take(i + 1).drop_last() =~= iv.take(i as int));
            assert(iv.take(i + 1).last() == items@[i as int]@);
        }
        let ghost ob = out@;
        match &items[i] {
            JsonValue::Str(s) => {
                out.push(s.clone());
                proof {
                    assert(out@.map_values(|a: String| a@) =~= ob.map_values(|a: String| a@).push(s@));
                }
            },
            _ => {},
        }
        proof {
            assert(out@.map_values(|a: String| a@) =~= string_items(iv.take(i + 1)));
        }
        i += 1;
    }
    assert(iv.take(items.len() as int) =~= iv);
    out
}

/// The members whose values are strings.
fn string_members_exec(members: &Vec<(String, JsonValue)>) -> (r: Vec<(String, String)>)
    ensures
        r@.map_values(|p: (String, String)| (p.0@, p.1@)) == string_members(crate::json::members_view(members@)),
{
    let ghost mv = crate::json::members_view(members@);
    let mut out: Vec<(String, String)> = Vec::new();
    let mut i: usize = 0;
    while i < members.len()
        invariant
            i <= members.len(),
            mv == crate::json::members_view(members@),
            out@.map_values(|p: (String, String)| (p.0@, p.1@)) == string_members(mv.take(i as int)),
        decreases members.len() - i,
    {
        proof {
            assert(mv.take(i + 1).drop_last() =~= mv.take(i as int));
            assert(mv.take(i + 1).last() == (members@[i as int].0@, members@[i as int].1@));
        }
        let ghost ob = out@;
        match &members[i].1 {
            JsonValue::Str(s) => {
                out.push((members[i].0.clone(), s.clone()));
                proof {
                    assert(out@.map_values(|p: (String, String)| (p.0@, p.1@)) =~= ob.map_values(
                        |p: (String, String)| (p.0@, p.1@),
                    ).push((members@[i as int].0@, s@)));
                }
            },
            _ => {},
        }
        proof {
            assert(out@.map_values(|p: (String, String)| (p.0@, p.1@)) =~= string_members(mv.take(i + 1)));
        }
        i += 1;
    }
    assert(mv.take(members.len() as int) =~= mv);
    out
}

/// The server a request to add one describes, or the error.
pub fn add_server_request(args: &JsonValue) -> (r: Result<(String, McpTransport), String>)
    ensures
        match r {
            Ok((name, t)) => add_request_spec(args@) == Ok::<(Seq<char>, TransportSpec), Seq<char>>(
                (name@, transport_view(t)),
            ),
            Err(e) => add_request_spec(args@) == Err::<(Seq<char>, TransportSpec), Seq<char>>(e@),
        },
{
    let name = match nonempty_arg_exec(args, "name") {
        Some(n) => n,
        None => return Err("Error: 'name' argument is required".to_string()),
    };
    let transport = match args.get_str("transport") {
        Some(t) => t,
        None => "stdio".to_string(),
    };
    let tc = chars_of(transport.as_str());
    if slices_equal(&tc, &chars_of("stdio")) {
        let command = match nonempty_arg_exec(args, "command") {
            Some(c) => c,
            None => return Err("Error: 'command' argument is required for stdio transport".to_string()),
        };
        let ghost want_args: Seq<Seq<char>> = match json_get(args@, "args"@) {
            Some(Json::Array(items)) => string_items(items),
            _ => Seq::empty(),
        };
        let ghost want_env: Seq<(Seq<char>, Seq<char>)> = match json_get(args@, "env_vars"@) {
            Some(Json::Object(members)) => string_members(members),
            _ => Seq::empty(),
        };
        let cmd_args: Vec<String> = match args.get("args") {
            Some(v) => match v {
                JsonValue::Array(items) => {
                    proof {
                        crate::json::lemma_array_view(*v);
                        assert(crate::json::array_items(v@) =~= items@.map_values(|j: JsonValue| j@));
                    }
                    string_items_exec(items)
                },
                _ => {
                    let e: Vec<String> = Vec::new();
                    assert(e@.map_values(|a: String| a@) =~= want_args);
                    e
                },
            },
            None => {
                let e: Vec<String> = Vec::new();
                assert(e@.map_values(|a: String| a@) =~= want_args);
                e
            },
        };
        assert(cmd_args@.map_values(|a: String| a@) == want_args);
        let env_vars: Vec<(String, String)> = match args.get("env_vars") {
            Some(v) => match v {
                JsonValue::Object(members) => {
                    proof {
                        crate::json::lemma_object_members(*v);
                    }
                    string_members_exec(members)
                },
                _ => {
                    let e: Vec<(String, String)> = Vec::new();
                    assert(e@.map_values(|p: (String, String)| (p.0@, p.1@)) =~= want_env);
                    e
                },
            },
            None => {
                let e: Vec<(String, String)> = Vec::new();
                assert(e@.map_values(|p: (String, String)| (p.0@, p.1@)) =~= want_env);
                e
            },
        };
        assert(env_vars@.map_values(|p: (String, String)| (p.0@, p.1@)) == want_env);
        let t = McpTransport::Stdio { command, args: cmd_args, env_vars };
        proof {
            assert(transport_view(t) == TransportSpec::Stdio(command@, want_args, want_env));
        }
        Ok((name, t))
    } else if slices_equal(&tc, &chars_of("http")) {
        let url = match nonempty_arg_exec(args, "url") {
            Some(u) => u,
            None => return Err("Error: 'url' argument is required for http transport".to_string()),
        };
        Ok((name, McpTransport::Http { url }))
    } else {
        let mut v = chars_of("Error: Unknown transport type '");
        append_str(&mut v, transport.as_str());
        append_str(&mut v, "'. Use 'stdio' or 'http'.");
        Err(string_from(&v))
    }
}

/// The reply after a server was saved: with its tools where it connected,
/// an error where its status shows it did not; `statuses` are those after
/// the connections were refreshed (none where no manager runs).
pub open spec fn added_reply_spec(name: Seq<char>, statuses: Option<Seq<McpServerStatus>>) -> Seq<char> {
    let found = match statuses {
        Some(ss) => status_by_name(ss, name),
        None => None,
    };
    match found {
        Some(st) if !st.connected => "MCP server '"@ + name
            + "' saved but failed to connect. Check the command/URL and try again."@,
        _ => "Added MCP server '"@ + name + "' successfully."@ + match found {
            Some(st) if st.tools@.len() > 0 => "\nAvailable tools: "@ + join_with(
                st.tools@.map_values(|t: String| t@),
                ", "@,
            ),
            _ => Seq::empty(),
        } + "\nNote: New tools will be available in the next message."@,
    }
}

/// The first status of a server named `name`.
pub open spec fn status_by_name(statuses: Seq<McpServerStatus>, name: Seq<char>) -> Option<McpServerStatus>
    decreases statuses.len(),
{
    if statuses.len() == 0 {
        None
    } else if statuses[0].name@ == name {
        Some(statuses[0])
    } else {
        status_by_name(statuses.drop_first(), name)
    }
}

/// The position of the first status of a server named `name`.
fn find_status_by_name(ss: &Vec<McpServerStatus>, name: &str) -> (r: Option<usize>)
    ensures
        match r {
            Some(i) => i < ss.len() && status_by_name(ss@, name@) == Some(ss@[i as int]),
            None => status_by_name(ss@, name@) is None,
        },
{
    let k = chars_of(name);
    let mut i: usize = 0;
    assert(ss@.skip(0) =~= ss@);
    while i < ss.len()
        invariant
            i <= ss.len(),
            k@ == name@,
            status_by_name(ss@, name@) == status_by_name(ss@.skip(i as int), name@),
        decreases ss.len() - i,
    {
        proof {
            assert(ss@.skip(i as int).drop_first() =~= ss@.skip(i + 1));
            assert(ss@.skip(i as int)[0] == ss@[i as int]);
        }
        if slices_equal(&chars_of(ss[i].name.as_str()), &k) {
            return Some(i);
        }
        i += 1;
    }
    assert(ss@.skip(i as int) =~= Seq::<McpServerStatus>::empty());
    None
}

/// The names of a server's tools joined by `, `.
fn tools_joined(tools: &Vec<String>) -> (r: String)
    ensures
        r@ == join_with(tools@.map_values(|t: String| t@), ", "@),
{
    let mut parts: Vec<Vec<char>> = Vec::new();
    let mut j: usize = 0;
    while j < tools.len()
        invariant
            j <= tools.len(),
            parts@.map_values(|p: Vec<char>| p@) == tools@.take(j as int).map_values(|t: String| t@),
        decreases tools.len() - j,
    {
        let ghost pb = parts@;
        let piece = chars_of(tools[j].as_str());
        parts.push(piece);
        proof {
            assert(tools@.take(j + 1) =~= tools@.take(j as int).push(tools@[j as int]));
            assert(parts@.map_values(|p: Vec<char>| p@) =~= pb.map_values(|p: Vec<char>| p@).push(
                tools@[j as int]@,
            ));
        }
        j += 1;
    }
    assert(tools@.take(tools.len() as int) =~= tools@);
    join_exec(&parts, ", ")
}

/// The reply after a server was saved.
pub fn added_reply(name: &str, statuses: Option<&Vec<McpServerStatus>>) -> (r: String)
    ensures
        r@ == added_reply_spec(
            name@,
            match statuses {
                Some(ss) => Some(ss@),
                None => None,
            },
        ),
{
    let found: Option<&McpServerStatus> = match statuses {
        Some(ss) => match find_status_by_name(ss, name) {
            Some(i) => Some(&ss[i]),
            None => None,
        },
        None => None,
    };
    match found {
        Some(st) => {
            if !st.connected {
                let mut v = chars_of("MCP server '");
                append_str(&mut v, name);
                append_str(&mut v, "' saved but failed to connect. Check the command/URL and try again.");
                return string_from(&v);
            }
        },
        None => {},
    }
    let mut v = chars_of("Added MCP server '");
    append_str(&mut v, name);
    append_str(&mut v, "' successfully.");
    match found {
        Some(st) => {
            if st.tools.len() > 0 {
                append_str(&mut v, "\nAvailable tools: ");
                append_str(&mut v, tools_joined(&st.tools).as_str());
            }
        },
        None => {},
    }
    append_str(&mut v, "\nNote: New tools will be available in the next message.");
    string_from(&v)
}

/// The position of the first configured server whose name equals `name`
/// without regard to ASCII case.
pub open spec fn name_index(configs: Seq<McpServerEntry>, name: Seq<char>) -> Option<int>
    decreases configs.len(),
{
    if configs.len() == 0 {
        None
    } else {
        match name_index(configs.drop_last(), name) {
            Some(i) => Some(i),
            None => if ascii_lower_seq(configs.last().name@) == ascii_lower_seq(name) {
                Some(configs.len() - 1)
            } else {
                None
            },
        }
    }
}

/// The position of the first configured server named `name` (ASCII case
/// ignored).
pub fn find_server_by_name(configs: &Vec<McpServerEntry>, name: &str) -> (r: Option<usize>)
    ensures
        match r {
            Some(i) => name_index(configs@, name@) == Some(i as int) && i < configs.len(),
            None => name_index(configs@, name@) is None,
        },
{
    let k = ascii_lowercase_exec(&chars_of(name));
    let mut i: usize = 0;
    while i < configs.len()
        invariant
            i <= configs.len(),
            k@ == ascii_lower_seq(name@),
            name_index(configs@.take(i as int), name@) is None,
        decreases configs.len() - i,
    {
        proof {
            assert(configs@.take(i + 1).drop_last() =~= configs@.take(i as int));
        }
        if slices_equal(&ascii_lowercase_exec(&chars_of(configs[i].name.as_str())), &k) {
            proof {
                lemma_name_index_prefix(configs@, name@, i + 1);
            }
            return Some(i);
        }
        i += 1;
    }
    assert(configs@.take(configs.len() as int) =~= configs@);
    None
}

/// A prefix that holds a match finds it where the whole does.
proof fn lemma_name_index_prefix(configs: Seq<McpServerEntry>, name: Seq<char>, n: int)
    requires
        0 <= n <= configs.len(),
        name_index(configs.take(n), name) is Some,
    ensures
        name_index(configs, name) == name_index(configs.take(n), name),
    decreases configs.len() - n,
{
    if n < configs.len() {
        assert(configs.drop_last().take(n) =~= configs.take(n));
        lemma_name_index_prefix(configs.drop_last(), name, n);
    } else {
        assert(configs.take(n) =~= configs);
    }
}

/// The reply when no configured server has the name asked for.
pub fn server_not_found_reply(name: &str, configs: &Vec<McpServerEntry>) -> (r: String)
    ensures
        r@ == if configs@.len() == 0 {
            "MCP server '"@ + name@ + "' not found. No MCP servers are configured."@
        } else {
            "MCP server '"@ + name@ + "' not found. Available servers: "@ + join_with(
                configs@.map_values(|c: McpServerEntry| c.name@),
                ", "@,
            )
        },
{
    let mut v = chars_of("MCP server '");
    append_str(&mut v, name);
    if configs.len() == 0 {
        append_str(&mut v, "' not found. No MCP servers are configured.");
        return string_from(&v);
    }
    let mut parts: Vec<Vec<char>> = Vec::new();
    let mut j: usize = 0;
    while j < configs.len()
        invariant
            j <= configs.len(),
            parts@.map_values(|p: Vec<char>| p@) == configs@.take(j as int).map_values(
                |c: McpServerEntry| c.name@,
            ),
        decreases configs.len() - j,
    {
        let ghost pb = parts@;
        parts.push(chars_of(configs[j].name.as_str()));
        proof {
            assert(configs@.take(j + 1) =~= configs@.take(j as int).push(configs@[j as int]));
            assert(parts@.map_values(|p: Vec<char>| p@) =~= pb.map_values(|p: Vec<char>| p@).push(
                configs@[j as int].name@,
            ));
        }
        j += 1;
    }
    assert(configs@.take(configs.len() as int) =~= configs@);
    append_str(&mut v, "' not found. Available servers: ");
    append_str(&mut v, join_exec(&parts, ", ").as_str());
    string_from(&v)
}

/// The reply after a server was removed.
pub fn removed_reply(server_name: &str) -> (r: String)
    ensures
        r@ == "Removed MCP server '"@ + server_name@ + "' successfully."@,
{
    let mut v = chars_of("Removed MCP server '");
    append_str(&mut v, server_name);
    append_str(&mut v, "' successfully.");
    string_from(&v)
}


/// The position of the first tool with namespaced name `name`.
pub open spec fn tool_index(tools: Seq<McpToolDef>, name: Seq<char>) -> Option<int>
    decreases tools.len(),
{
    if tools.len() == 0 {
        None
    } else {
        match tool_index(tools.drop_last(), name) {
            Some(i) => Some(i),
            None => if tools.last().qualified_name@ == name {
                Some(tools.len() - 1)
            } else {
                None
            },
        }
    }
}

/// The full definition of MCP tool `name`, as indented JSON; none for an
/// unknown tool.
pub fn mcp_tool_schema(name: &str, tools: &Vec<McpToolDef>) -> (r: Option<String>)
    ensures
        match tool_index(tools@, name@) {
            Some(i) => r matches Some(t) && t@ == crate::json::json_serialize_pretty(
                Json::Object(
                    seq![
                        ("type"@, Json::Str("function"@)),
                        ("function"@, crate::mcp_registry::tool_def_json(tools@[i])),
                    ],
                ),
            ),
            None => r is None,
        },
{
    let k = chars_of(name);
    let mut i: usize = 0;
    while i < tools.len()
        invariant
            i <= tools.len(),
            k@ == name@,
            tool_index(tools@.take(i as int), name@) is None,
        decreases tools.len() - i,
    {
        proof {
            assert(tools@.take(i + 1).drop_last() =~= tools@.take(i as int));
        }
        if slices_equal(&chars_of(tools[i].qualified_name.as_str()), &k) {
            proof {
                lemma_tool_index_prefix(tools@, name@, i + 1);
            }
            let f = tools[i].to_openai_function();
            return Some(crate::json::json_to_string_pretty(&f));
        }
        i += 1;
    }
    assert(tools@.take(tools.len() as int) =~= tools@);
    None
}

/// A prefix that holds a match finds it where the whole does.
proof fn lemma_tool_index_prefix(tools: Seq<McpToolDef>, name: Seq<char>, n: int)
    requires
        0 <= n <= tools.len(),
        tool_index(tools.take(n), name) is Some,
    ensures
        tool_index(tools, name) == tool_index(tools.take(n), name),
    decreases tools.len() - n,
{
    if n < tools.len() {
        assert(tools.drop_last().take(n) =~= tools.take(n));
        lemma_tool_index_prefix(tools.drop_last(), name, n);
    } else {
        assert(tools.take(n) =~= tools);
    }
}

} // verus!
