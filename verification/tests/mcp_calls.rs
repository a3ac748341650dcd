use github_recon::api::GitHubRepository;
use github_recon::mcp::{
    call_error, classify_call, tool_result_csv, method_not_found_message, tool_search, unknown_tool_message, McpAction,
    ToolCallError, METHOD_NOT_FOUND,
};

#[test]
fn classify_methods() {
    assert_eq!(classify_call("initialize", ""), McpAction::Initialize);
    assert_eq!(classify_call("tools/list", "whatever"), McpAction::ListTools);
    assert_eq!(classify_call("tools/call", "search_repositories"), McpAction::SearchRepositories);
    assert_eq!(classify_call("tools/call", "other"), McpAction::UnknownTool);
    assert_eq!(classify_call("tools/call", ""), McpAction::UnknownTool);
    assert_eq!(classify_call("ping", ""), McpAction::UnknownMethod);
}

#[test]
fn error_messages() {
    assert_eq!(unknown_tool_message("foo"), "Unknown tool: foo");
    assert_eq!(method_not_found_message("ping"), "Method not found: ping");
    assert_eq!(METHOD_NOT_FOUND, -32601);
    assert_eq!(ToolCallError::MissingQuery.message(), "Missing query parameter");
}

#[test]
fn tool_search_defaults() {
    let (q, limit) = tool_search(Some("ml"), None, None, None).unwrap();
    assert_eq!(limit, 100);
    assert_eq!(q.query, "ml");
    assert_eq!(q.page, 1);
    assert_eq!(q.per_page, 100);
    assert_eq!(q.sort.as_deref(), Some("stars"));
    assert_eq!(q.order.as_deref(), Some("desc"));
}

#[test]
fn tool_search_arguments() {
    let (q, limit) = tool_search(Some("ml"), Some(250), Some("forks"), Some("asc")).unwrap();
    assert_eq!(limit, 250);
    assert_eq!(q.per_page, 100);
    assert_eq!(q.sort.as_deref(), Some("forks"));
    assert_eq!(q.order.as_deref(), Some("asc"));
    let (q, limit) = tool_search(Some("ml"), Some(5), None, None).unwrap();
    assert_eq!((q.per_page, limit), (5, 5));
}

#[test]
fn tool_search_needs_query() {
    assert_eq!(tool_search(None, Some(5), None, None).unwrap_err(), ToolCallError::MissingQuery);
}

#[test]
fn call_errors() {
    assert_eq!(call_error(McpAction::UnknownTool, "tools/call", "x"), Some((-32601, "Unknown tool: x".to_string())));
    assert_eq!(call_error(McpAction::UnknownMethod, "ping", ""), Some((-32601, "Method not found: ping".to_string())));
    assert_eq!(call_error(McpAction::Initialize, "initialize", ""), None);
    assert_eq!(call_error(McpAction::ListTools, "tools/list", ""), None);
    assert_eq!(call_error(McpAction::SearchRepositories, "tools/call", "search_repositories"), None);
}

#[test]
fn tool_csv_has_one_header() {
    let repo = GitHubRepository {
        id: 1,
        name: "b".to_string(),
        full_name: "a/b".to_string(),
        description: Some("x, y".to_string()),
        html_url: "https://github.com/a/b".to_string(),
        stargazers_count: 3,
        forks_count: 4,
        language: None,
        updated_at: "2024-01-15T10:30:00Z".to_string(),
        fork: false,
    };
    let out = String::from_utf8(tool_result_csv(&[repo])).unwrap();
    assert_eq!(
        out,
        "url,name,description,stars,forks,last_updated,language\nhttps://github.com/a/b,a/b,\"x, y\",3,4,2024-01-15T10:30:00Z,\n"
    );
    assert_eq!(
        String::from_utf8(tool_result_csv(&[])).unwrap(),
        "url,name,description,stars,forks,last_updated,language\n"
    );
}
