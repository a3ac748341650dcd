//! The decisions of the MCP server: which method a call names, what it answers,
//! and the search a tool call makes.

use vstd::prelude::*;
use crate::api::{min_usize, SearchQuery, SearchQueryView, MAX_PER_PAGE};
use crate::text::same_text;
use crate::api::GitHubRepository;
use crate::csv::{append_rows, csv_record, csv_rows, header_bytes, header_fields};
use vstd::utf8::encode_utf8;

verus! {

/// The JSON-RPC version of every response.
pub const JSONRPC_VERSION: &'static str = "2.0";

/// The protocol version the server answers `initialize` with.
pub const PROTOCOL_VERSION: &'static str = "2024-11-05";

/// The server's name.
pub const SERVER_NAME: &'static str = "github-recon";

/// The server's version.
pub const SERVER_VERSION: &'static str = "0.1.0";

/// The one tool the server offers.
pub const SEARCH_TOOL: &'static str = "search_repositories";

/// The error code of an unknown method or tool.
pub const METHOD_NOT_FOUND: i64 = -32601;

/// The sort field of a tool call that names none.
pub const DEFAULT_SORT: &'static str = "stars";

/// The sort order of a tool call that names none.
pub const DEFAULT_ORDER: &'static str = "desc";

/// The result limit of a tool call that names none.
pub const DEFAULT_LIMIT: u64 = 100;

/// What a call asks for.
#[derive(Debug, Clone, Copy, PartialEq, Eq, Structural)]
pub enum McpAction {
    /// `initialize`: the server's capabilities.
    Initialize,
    /// `tools/list`: the tools offered.
    ListTools,
    /// `tools/call` of the search tool.
    SearchRepositories,
    /// `tools/call` of a tool that is not offered.
    UnknownTool,
    /// Any other method.
    UnknownMethod,
}

/// What a call with `method` (and, for `tools/call`, the tool `tool`) asks for.
pub open spec fn action_spec(method: Seq<char>, tool: Seq<char>) -> McpAction {
    if method == "initialize"@ {
        McpAction::Initialize
    } else if method == "tools/list"@ {
        McpAction::ListTools
    } else if method == "tools/call"@ {
        if tool == SEARCH_TOOL@ {
            McpAction::SearchRepositories
        } else {
            McpAction::UnknownTool
        }
    } else {
        McpAction::UnknownMethod
    }
}

/// Decides what a call asks for, from its method and tool name (empty when the
/// call names no tool).
pub fn classify_call(method: &str, tool: &str) -> (r: McpAction)
    ensures
        r == action_spec(method@, tool@),
{
    if same_text(method, "initialize") {
        McpAction::Initialize
    } else if same_text(method, "tools/list") {
        McpAction::ListTools
    } else if same_text(method, "tools/call") {
        if same_text(tool, SEARCH_TOOL) {
            McpAction::SearchRepositories
        } else {
            McpAction::UnknownTool
        }
    } else {
        McpAction::UnknownMethod
    }
}

/// The error message for a tool that is not offered.
pub fn unknown_tool_message(tool: &str) -> (r: String)
    ensures
        r@ == "Unknown tool: "@ + tool@,
{
    let mut r = "Unknown tool: ".to_owned();
    r.append(tool);
    r
}

/// The error message for a method that is not known.
pub fn method_not_found_message(method: &str) -> (r: String)
    ensures
        r@ == "Method not found: "@ + method@,
{
    let mut r = "Method not found: ".to_owned();
    r.append(method);
    r
}

/// Why a tool call cannot be carried out.
#[derive(Debug, Clone, Copy, PartialEq, Eq, Structural)]
pub enum ToolCallError {
    /// The arguments hold no query text.
    MissingQuery,
}

impl ToolCallError {
    /// The error message.
    pub fn message(&self) -> (r: &'static str)
        ensures
            r@ == "Missing query parameter"@,
    {
        match self {
            ToolCallError::MissingQuery => "Missing query parameter",
        }
    }
}

/// The search a tool call makes and its result limit, from its arguments: the
/// query is required; the limit defaults to 100, the sort to `stars` and the
/// order to `desc`.
pub open spec fn tool_search_spec(
    query: Option<Seq<char>>,
    limit: Option<u64>,
    sort: Option<Seq<char>>,
    order: Option<Seq<char>>,
) -> Result<(SearchQueryView, usize), ToolCallError> {
    match query {
        None => Err(ToolCallError::MissingQuery),
        Some(q) => {
            let l = (match limit {
                Some(n) => n,
                None => DEFAULT_LIMIT,
            }) as usize;
            Ok(
                (
                    SearchQueryView {
                        query: q,
                        page: 1,
                        per_page: min_usize(l, MAX_PER_PAGE),
                        sort: Some(
                            match sort {
                                Some(s) => s,
                                None => DEFAULT_SORT@,
                            },
                        ),
                        order: Some(
                            match order {
                                Some(o) => o,
                                None => DEFAULT_ORDER@,
                            },
                        ),
                    },
                    l,
                ),
            )
        },
    }
}

/// What a tool call's arguments mean: it fails exactly when no query is
/// given; otherwise it searches the query text from the first page, collects
/// the limit given or 100, asks for pages of at most 100, sorts by the sort
/// given or `stars`, in the order given or `desc`, each default applying
/// whatever the other arguments are.
pub proof fn lemma_tool_search_arguments(
    query: Option<Seq<char>>,
    limit: Option<u64>,
    sort: Option<Seq<char>>,
    order: Option<Seq<char>>,
)
    ensures
        query is None <==> tool_search_spec(query, limit, sort, order) is Err,
        tool_search_spec(query, limit, sort, order) matches Ok((v, l)) ==> {
            &&& Some(v.query) == query
            &&& v.page == 1
            &&& v.per_page <= 100
            &&& (l <= 100 ==> v.per_page == l)
            &&& (limit is None ==> l == 100)
            &&& (limit matches Some(n) ==> l == n as usize)
            &&& (sort is None ==> v.sort == Some("stars"@))
            &&& (sort matches Some(s) ==> v.sort == Some(s))
            &&& (order is None ==> v.order == Some("desc"@))
            &&& (order matches Some(o) ==> v.order == Some(o))
        },
{
}

/// The text of an optional string slice.
pub open spec fn opt_str(o: Option<&str>) -> Option<Seq<char>> {
    match o {
        Some(s) => Some(s@),
        None => None,
    }
}

/// The search a tool call makes, and how many results it collects at most.
pub fn tool_search(
    query: Option<&str>,
    limit: Option<u64>,
    sort: Option<&str>,
    order: Option<&str>,
) -> (r: Result<(SearchQuery, usize), ToolCallError>)
    ensures
        match (r, tool_search_spec(opt_str(query), limit, opt_str(sort), opt_str(order))) {
            (Ok((q, l)), Ok((qv, lv))) => q@ == qv && l == lv,
            (Err(e), Err(ev)) => e == ev,
            _ => false,
        },
{
    let q = match query {
        Some(q) => q,
        None => {
            return Err(ToolCallError::MissingQuery);
        },
    };
    let l = (match limit {
        Some(n) => n,
        None => DEFAULT_LIMIT,
    }) as usize;
    let s = match sort {
        Some(s) => s,
        None => DEFAULT_SORT,
    };
    let o = match order {
        Some(o) => o,
        None => DEFAULT_ORDER,
    };
    let per_page = if l <= MAX_PER_PAGE { l } else { MAX_PER_PAGE };
    let search = SearchQuery::new(q).with_pagination(1, per_page).with_sort(s, o);
    Ok((search, l))
}

/// The text a search tool call answers with: the column names, then one row
/// per repository found.
pub fn tool_result_csv(repos: &[GitHubRepository]) -> (r: Vec<u8>)
    ensures
        r@ == encode_utf8(csv_record(header_fields())) + csv_rows(repos@),
{
    let mut out = header_bytes();
    append_rows(&mut out, repos);
    out
}

/// The error code and message a call is answered with, or `None` for a call
/// that is carried out.
pub open spec fn error_spec(action: McpAction, method: Seq<char>, tool: Seq<char>) -> Option<(i64, Seq<char>)> {
    match action {
        McpAction::UnknownTool => Some((METHOD_NOT_FOUND, "Unknown tool: "@ + tool)),
        McpAction::UnknownMethod => Some((METHOD_NOT_FOUND, "Method not found: "@ + method)),
        _ => None,
    }
}

/// The error a call is answered with: a tool that is not offered, or a method
/// that is not known, both with the code `METHOD_NOT_FOUND`; `None` otherwise.
pub fn call_error(action: McpAction, method: &str, tool: &str) -> (r: Option<(i64, String)>)
    ensures
        match (r, error_spec(action, method@, tool@)) {
            (Some((c, m)), Some((cv, mv))) => c == cv && m@ == mv,
            (None, None) => true,
            _ => false,
        },
{
    match action {
        McpAction::UnknownTool => Some((METHOD_NOT_FOUND, unknown_tool_message(tool))),
        McpAction::UnknownMethod => Some((METHOD_NOT_FOUND, method_not_found_message(method))),
        _ => None,
    }
}

} // verus!
