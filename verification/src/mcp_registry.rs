//! Tools discovered on MCP servers: their namespaced names, and their
//! definitions as offered to a model.

use vstd::prelude::*;
use crate::json::{lemma_object_of, members_view, Json, JsonValue};
use crate::text::{append_str, ascii_lower, chars_of, string_from};

verus! {

/// Whether `char::is_alphanumeric` holds of `c` (Unicode `Alphabetic` or
/// `Numeric`).
pub uninterp spec fn unicode_alphanumeric(c: char) -> bool;

/// Calls `char::is_alphanumeric`. Trusted: the result is
/// `unicode_alphanumeric(c)`; among ASCII characters exactly the letters and
/// digits are alphanumeric, as std documents for the ASCII range.
#[verifier::external_body]
fn is_alphanumeric(c: char) -> (r: bool)
    ensures
        r == unicode_alphanumeric(c),
        (c as u32) < 128 ==> (r <==> (('a' <= c <= 'z') || ('A' <= c <= 'Z') || ('0' <= c <= '9'))),
{
    c.is_alphanumeric()
}

/// A character of a server's name as it stands in tool names: alphanumeric
/// characters and `_` kept (ASCII letters in lower case), anything else `_`.
pub open spec fn name_char(c: char) -> char {
    if unicode_alphanumeric(c) || c == '_' {
        ascii_lower(c)
    } else {
        '_'
    }
}

/// The namespaced name of tool `tool` of server `server`:
/// `mcp__<server>__<tool>`, so that it cannot collide with a built-in tool.
pub open spec fn qualified_name(server: Seq<char>, tool: Seq<char>) -> Seq<char> {
    "mcp__"@ + server.map_values(|c: char| name_char(c)) + "__"@ + tool
}

/// A tool definition discovered from an MCP server.
pub struct McpToolDef {
    /// The tool's name on its server.
    pub name: String,
    /// The namespaced name: `mcp__<server name>__<tool name>`.
    pub qualified_name: String,
    pub description: String,
    /// The JSON schema of the tool's parameters.
    pub input_schema: JsonValue,
    pub server_id: String,
    pub server_name: String,
}

/// The description offered for an MCP tool: its server named in front.
pub open spec fn offered_description(server_name: Seq<char>, description: Seq<char>) -> Seq<char> {
    "[MCP:"@ + server_name + "] "@ + description
}

/// The simple definition of a tool: `{"name", "description", "parameters"}`.
pub open spec fn tool_def_json(t: McpToolDef) -> Json {
    Json::Object(
        seq![
            ("name"@, Json::Str(t.qualified_name@)),
            ("description"@, Json::Str(offered_description(t.server_name@, t.description@))),
            ("parameters"@, t.input_schema@),
        ],
    )
}

impl McpToolDef {
    /// The namespaced name of tool `tool_name` of server `server_name`.
    pub fn make_qualified_name(server_name: &str, tool_name: &str) -> (r: String)
        ensures
            r@ == qualified_name(server_name@, tool_name@),
    {
        let s = chars_of(server_name);
        let mut v = chars_of("mcp__");
        let ghost start = v@;
        let mut i: usize = 0;
        while i < s.len()
            invariant
                i <= s.len(),
                v@ == start + s@.take(i as int).map_values(|c: char| name_char(c)),
            decreases s.len() - i,
        {
            let c = s[i];
            let mapped = if is_alphanumeric(c) || c == '_' {
                if 'A' <= c && c <= 'Z' {
                    ((c as u8) + 32) as char
                } else {
                    c
                }
            } else {
                '_'
            };
            proof {
                assert(s@.take(i + 1) =~= s@.take(i as int).push(c));
                assert(mapped == name_char(c));
            }
            v.push(mapped);
            proof {
                assert(v@ =~= start + s@.take(i + 1).map_values(|c: char| name_char(c)));
            }
            i += 1;
        }
        assert(s@.take(s.len() as int) =~= s@);
        append_str(&mut v, "__");
        append_str(&mut v, tool_name);
        string_from(&v)
    }

    /// The description offered for the tool.
    fn offered(&self) -> (r: String)
        ensures
            r@ == offered_description(self.server_name@, self.description@),
    {
        let mut v = chars_of("[MCP:");
        append_str(&mut v, self.server_name.as_str());
        append_str(&mut v, "] ");
        append_str(&mut v, self.description.as_str());
        string_from(&v)
    }

    /// The tool as an OpenAI function: `{"type": "function", "function": <its simple definition>}`.
    pub fn to_openai_function(&self) -> (r: JsonValue)
        ensures
            r@ == Json::Object(seq![("type"@, Json::Str("function"@)), ("function"@, tool_def_json(*self))]),
    {
        let def = self.to_tool_def();
        let ghost d = def@;
        let mut ms: Vec<(String, JsonValue)> = Vec::new();
        ms.push(("type".to_string(), JsonValue::Str("function".to_string())));
        ms.push(("function".to_string(), def));
        proof {
            lemma_object_of(ms);
            assert(members_view(ms@) =~= seq![("type"@, Json::Str("function"@)), ("function"@, d)]);
        }
        JsonValue::Object(ms)
    }

    /// The tool's simple definition.
    pub fn to_tool_def(&self) -> (r: JsonValue)
        ensures
            r@ == tool_def_json(*self),
    {
        let schema = self.input_schema.deep_clone();
        let mut ms: Vec<(String, JsonValue)> = Vec::new();
        ms.push(("name".to_string(), JsonValue::Str(self.qualified_name.clone())));
        ms.push(("description".to_string(), JsonValue::Str(self.offered())));
        ms.push(("parameters".to_string(), schema));
        proof {
            lemma_object_of(ms);
            assert(members_view(ms@) =~= seq![
                ("name"@, Json::Str(self.qualified_name@)),
                ("description"@, Json::Str(offered_description(self.server_name@, self.description@))),
                ("parameters"@, self.input_schema@),
            ]);
        }
        JsonValue::Object(ms)
    }
}

/// A namespaced name never equals a name without the `mcp__` prefix, such
/// as a built-in tool's.
pub proof fn lemma_qualified_names_are_namespaced(server: Seq<char>, tool: Seq<char>)
    ensures
        crate::text::starts_with(qualified_name(server, tool), "mcp__"@),
{
    reveal_strlit("mcp__");
    assert("mcp__"@.len() == 5);
    assert(qualified_name(server, tool).take(5) =~= "mcp__"@);
}

} // verus!
