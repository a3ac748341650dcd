# github_recon

Search GitHub repositories and report the results as CSV, HTML and spreadsheet
data, with the report logic verified by Verus.

- `src/` — the verified library: search queries and paging through results
  (`api`), the CSV report (`csv`), the HTML report (`html`, with its fixed text
  in `template`), the spreadsheet data (`xlsx`), the command-line decisions
  (`cli`), the MCP server's decisions (`mcp`), and text helpers (`text`).
- `app/` — the program: HTTP requests, files, standard input and output, and
  the command line.
- `tests/` — tests of the library on concrete values.
