use github_recon::api::GitHubRepository;
use github_recon::html::{
    can_format_date, can_render, date_from_secs, escape_html, format_date, format_number,
    generate_html, now, render_html, render_row, star_scale, total_forks, total_stars,
    unique_languages, StarScale,
};

fn repo(full_name: &str, description: Option<&str>, stars: u64, forks: u64, language: Option<&str>, updated: &str) -> GitHubRepository {
    GitHubRepository {
        id: 1,
        name: full_name.to_string(),
        full_name: full_name.to_string(),
        description: description.map(|s| s.to_string()),
        html_url: format!("https://github.com/{}", full_name),
        stargazers_count: stars,
        forks_count: forks,
        language: language.map(|s| s.to_string()),
        updated_at: updated.to_string(),
        fork: false,
    }
}

/// The page as the report's format strings lay it out, for given parts.
fn expected_page(repos: &[GitHubRepository], title: &str, date: &str, stars: &[String]) -> String {
    let mut rows = String::new();
    for (i, repo) in repos.iter().enumerate() {
        let rank = i + 1;
        let stars = stars[i].clone();
        let forks = repo.forks_count.to_string();
        let description = repo.description.as_ref().map(|d| escape_html(d)).unwrap_or_default();
        let language = repo
            .language
            .as_ref()
            .map(|l| format!("<span class=\"lang lang-{}\">{}</span>", l.to_lowercase(), l))
            .unwrap_or_default();
        let updated = format_date(&repo.updated_at);
        rows.push_str(&format!(
            r##"
        <tr>
            <td class="rank">{}</td>
            <td class="name">
                <a href="{}" target="_blank">{}</a>
                {}
            </td>
            <td class="description">{}</td>
            <td class="stars">{}</td>
            <td class="forks">{}</td>
            <td class="updated">{}</td>
        </tr>
        "##,
            rank,
            repo.html_url,
            repo.full_name,
            language,
            description,
            stars,
            forks,
            updated
        ));
    }
    let total_stars: u64 = repos.iter().map(|r| r.stargazers_count).sum();
    let total_forks: u64 = repos.iter().map(|r| r.forks_count).sum();
    let unique_langs = repos
        .iter()
        .filter_map(|r| r.language.as_ref())
        .collect::<std::collections::HashSet<_>>()
        .len();
    let now = || date.to_string();
    format!(r##"<!DOCTYPE html>
<html lang="en">
<head>
    <meta charset="UTF-8">
    <meta name="viewport" content="width=device-width, initial-scale=1.0">
    <title>{} - GitHub Recon Report</title>
    <style>
        :root {{
            --bg-primary: #0d1117;
            --bg-secondary: #161b22;
            --bg-tertiary: #21262d;
            --border: #30363d;
            --text-primary: #e6edf3;
            --text-secondary: #8b949e;
            --text-muted: #6e7681;
            --accent: #58a6ff;
            --accent-hover: #79c0ff;
            --star-color: #f0883e;
            --fork-color: #8b949e;
            --success: #3fb950;
            --font-mono: 'SF Mono', Monaco, 'Cascadia Code', 'Roboto Mono', Consolas, monospace;
            --font-sans: -apple-system, BlinkMacSystemFont, 'Segoe UI', Helvetica, Arial, sans-serif;
        }}
        
        * {{
            margin: 0;
            padding: 0;
            box-sizing: border-box;
        }}
        
        body {{
            font-family: var(--font-sans);
            background: var(--bg-primary);
            color: var(--text-primary);
            line-height: 1.6;
            min-height: 100vh;
        }}
        
        .container {{
            max-width: 1400px;
            margin: 0 auto;
            padding: 2rem;
        }}
        
        header {{
            background: var(--bg-secondary);
            border: 1px solid var(--border);
            border-radius: 12px;
            padding: 2rem;
            margin-bottom: 2rem;
        }}
        
        h1 {{
            font-size: 1.75rem;
            font-weight: 600;
            margin-bottom: 0.5rem;
            display: flex;
            align-items: center;
            gap: 0.75rem;
        }}
        
        h1::before {{
            content: '';
            display: inline-block;
            width: 32px;
            height: 32px;
            background: linear-gradient(135deg, var(--accent) 0%, #a371f7 100%);
            border-radius: 8px;
        }}
        
        .meta {{
            color: var(--text-secondary);
            font-size: 0.875rem;
            display: flex;
            gap: 1.5rem;
            flex-wrap: wrap;
        }}
        
        .meta span {{
            display: flex;
            align-items: center;
            gap: 0.375rem;
        }}
        
        .stats {{
            display: grid;
            grid-template-columns: repeat(auto-fit, minmax(150px, 1fr));
            gap: 1rem;
            margin-bottom: 2rem;
        }}
        
        .stat-card {{
            background: var(--bg-secondary);
            border: 1px solid var(--border);
            border-radius: 10px;
            padding: 1.25rem;
            text-align: center;
        }}
        
        .stat-value {{
            font-size: 2rem;
            font-weight: 700;
            font-family: var(--font-mono);
            background: linear-gradient(135deg, var(--accent) 0%, #a371f7 100%);
            -webkit-background-clip: text;
            -webkit-text-fill-color: transparent;
            background-clip: text;
        }}
        
        .stat-label {{
            font-size: 0.75rem;
            color: var(--text-muted);
            text-transform: uppercase;
            letter-spacing: 0.05em;
            margin-top: 0.25rem;
        }}
        
        .table-wrapper {{
            background: var(--bg-secondary);
            border: 1px solid var(--border);
            border-radius: 12px;
            overflow: hidden;
        }}
        
        table {{
            width: 100%;
            border-collapse: collapse;
        }}
        
        thead {{
            background: var(--bg-tertiary);
        }}
        
        th {{
            padding: 1rem;
            text-align: left;
            font-size: 0.75rem;
            font-weight: 600;
            text-transform: uppercase;
            letter-spacing: 0.05em;
            color: var(--text-secondary);
            border-bottom: 1px solid var(--border);
            position: sticky;
            top: 0;
        }}
        
        th:first-child {{
            width: 60px;
            text-align: center;
        }}
        
        td {{
            padding: 1rem;
            border-bottom: 1px solid var(--border);
            vertical-align: top;
        }}
        
        tr:last-child td {{
            border-bottom: none;
        }}
        
        tr:hover td {{
            background: var(--bg-tertiary);
        }}
        
        .rank {{
            text-align: center;
            font-family: var(--font-mono);
            font-size: 0.875rem;
            color: var(--text-muted);
        }}
        
        .name {{
            font-weight: 600;
            white-space: nowrap;
        }}
        
        .name a {{
            color: var(--accent);
            text-decoration: none;
            display: flex;
            flex-direction: column;
            gap: 0.25rem;
        }}
        
        .name a:hover {{
            color: var(--accent-hover);
        }}
        
        .lang {{
            font-size: 0.7rem;
            font-weight: 500;
            padding: 0.125rem 0.5rem;
            border-radius: 20px;
            background: var(--bg-primary);
            color: var(--text-secondary);
            display: inline-block;
            width: fit-content;
        }}
        
        .lang-python {{ background: rgba(55, 118, 171, 0.2); color: #61dafb; }}
        .lang-javascript {{ background: rgba(247, 223, 30, 0.15); color: #f7df1e; }}
        .lang-typescript {{ background: rgba(49, 120, 198, 0.2); color: #3178c6; }}
        .lang-rust {{ background: rgba(222, 165, 132, 0.2); color: #dea584; }}
        .lang-go {{ background: rgba(0, 173, 216, 0.2); color: #00add8; }}
        .lang-java {{ background: rgba(177, 114, 25, 0.2); color: #b8962c; }}
        .lang-cpp {{ background: rgba(0, 89, 156, 0.2); color: #00599c; }}
        .lang-c {{ background: rgba(165, 165, 165, 0.15); color: #a8a8a8; }}
        .lang-ruby {{ background: rgba(112, 21, 22, 0.2); color: #cc342d; }}
        .lang-php {{ background: rgba(121, 77, 144, 0.2); color: #777bb4; }}
        .lang-swift {{ background: rgba(240, 81, 56, 0.2); color: #f05122; }}
        .lang-kotlin {{ background: rgba(169, 123, 255, 0.2); color: #a97bff; }}
        .lang-shell {{ background: rgba(136, 155, 136, 0.2); color: #89b4fa; }}
        .lang-html {{ background: rgba(227, 101, 36, 0.2); color: #e36524; }}
        .lang-css {{ background: rgba(21, 114, 182, 0.2); color: #1572b6; }}
        
        .description {{
            color: var(--text-secondary);
            font-size: 0.875rem;
            max-width: 400px;
        }}
        
        .stars, .forks {{
            font-family: var(--font-mono);
            font-size: 0.875rem;
            white-space: nowrap;
        }}
        
        .stars {{
            color: var(--star-color);
        }}
        
        .stars::before {{
            content: '★ ';
            opacity: 0.7;
        }}
        
        .forks {{
            color: var(--fork-color);
        }}
        
        .forks::before {{
            content: '⑂ ';
            opacity: 0.5;
        }}
        
        .updated {{
            font-size: 0.8rem;
            color: var(--text-muted);
            white-space: nowrap;
        }}
        
        footer {{
            text-align: center;
            padding: 2rem;
            color: var(--text-muted);
            font-size: 0.8rem;
        }}
        
        footer a {{
            color: var(--accent);
            text-decoration: none;
        }}
        
        @media (max-width: 768px) {{
            .container {{
                padding: 1rem;
            }}
            
            header {{
                padding: 1.25rem;
            }}
            
            h1 {{
                font-size: 1.25rem;
            }}
            
            .stats {{
                grid-template-columns: repeat(2, 1fr);
            }}
            
            .stat-value {{
                font-size: 1.5rem;
            }}
            
            th, td {{
                padding: 0.75rem 0.5rem;
            }}
            
            .description {{
                display: none;
            }}
        }}
        
        @media (prefers-reduced-motion: reduce) {{
            * {{
                transition: none !important;
                animation: none !important;
            }}
        }}
    </style>
</head>
<body>
    <div class="container">
        <header>
            <h1>{}</h1>
            <div class="meta">
                <span>📊 {} repositories</span>
                <span>🔍 GitHub Search</span>
                <span>📅 Generated {}</span>
            </div>
        </header>
        
        <div class="stats">
            <div class="stat-card">
                <div class="stat-value">{}</div>
                <div class="stat-label">Total Stars</div>
            </div>
            <div class="stat-card">
                <div class="stat-value">{}</div>
                <div class="stat-label">Total Forks</div>
            </div>
            <div class="stat-card">
                <div class="stat-value">{}</div>
                <div class="stat-label">Languages</div>
            </div>
            <div class="stat-card">
                <div class="stat-value">{}</div>
                <div class="stat-label">Repositories</div>
            </div>
        </div>
        
        <div class="table-wrapper">
            <table>
                <thead>
                    <tr>
                        <th>#</th>
                        <th>Repository</th>
                        <th>Description</th>
                        <th>Stars</th>
                        <th>Forks</th>
                        <th>Updated</th>
                    </tr>
                </thead>
                <tbody>
                    {}
                </tbody>
            </table>
        </div>
        
        <footer>
            Generated by <a href="https://github.com/dablon/github-recon" target="_blank">github-recon</a>
        </footer>
    </div>
</body>
</html>"##,
        title,
        title,
        repos.len(),
        now(),
        total_stars,
        total_forks,
        unique_langs,
        repos.len(),
        rows
    )
}

fn sample() -> Vec<GitHubRepository> {
    vec![
        repo("tokio-rs/tokio", Some("A runtime for <async> & \"fast\" I/O's"), 25000, 2300, Some("Rust"), "2024-03-05T08:00:00Z"),
        repo("psf/requests", None, 999, 9000, Some("Python"), "2023-12-31T23:59:59Z"),
        repo("torvalds/linux", Some("Kernel"), 1_500_000, 50000, None, "2024-07-04T00:00:00Z"),
        repo("rust-lang/rust", Some("Empowering everyone"), 5, 1, Some("Rust"), "2022-11-20T12:00:00Z"),
    ]
}

fn labels() -> Vec<String> {
    vec!["25.0K".to_string(), "999".to_string(), "1.5M".to_string(), "5".to_string()]
}

#[test]
fn escape_replaces_markup() {
    assert_eq!(escape_html("a < b && c > \"d\" 'e'"), "a &lt; b &amp;&amp; c &gt; &quot;d&quot; &#39;e&#39;");
    assert_eq!(escape_html("plain text"), "plain text");
    assert_eq!(escape_html("&amp;"), "&amp;amp;");
    assert_eq!(escape_html(""), "");
}

#[test]
fn numbers_without_separators() {
    assert_eq!(format_number(0), "0");
    assert_eq!(format_number(1234567), "1234567");
}

#[test]
fn star_scales() {
    assert_eq!(star_scale(999), StarScale::Units);
    assert_eq!(star_scale(1000), StarScale::Thousands);
    assert_eq!(star_scale(999_999), StarScale::Thousands);
    assert_eq!(star_scale(1_000_000), StarScale::Millions);
}

#[test]
fn dates_written_as_month_day_year() {
    assert_eq!(format_date("2024-01-15T10:30:00Z"), "Jan 15, 2024");
    assert_eq!(format_date("2023-12-31T23:59:59Z"), "Dec 31, 2023");
    assert_eq!(format_date("2024-13-01T00:00:00Z"), "??? 01, 2024");
    assert_eq!(format_date("2024-xx-07T00:00:00Z"), "Jan 07, 2024");
    assert_eq!(format_date("2024-+2-07extra"), "Feb 07, 2024");
}

#[test]
fn dates_kept_when_not_dates() {
    assert_eq!(format_date("2024-01-15"), "Jan 15, 2024");
    assert_eq!(format_date("short"), "short");
    assert_eq!(format_date("2024-01"), "2024-01");
    assert_eq!(format_date("20240115T103000Z"), "20240115T103000Z");
    assert_eq!(format_date("no dashes here at all"), "no dashes here at all");
}

#[test]
fn dates_that_cannot_be_written() {
    assert!(can_format_date("2024-01-15T10:30:00Z"));
    assert!(can_format_date("short"));
    assert!(!can_format_date("2024-00-15T10:30:00Z"));
    assert!(!can_format_date("abcdefg-1-5"));
    assert!(!can_format_date("2024-01-5日本xxx"));
    assert!(can_format_date("2024-01-5"));
    assert!(can_format_date("2024-01-éxyzw"));
    assert_eq!(format_date("2024-01-éxyzw"), "Jan é, 2024");
}

#[test]
fn calendar_dates() {
    assert_eq!(date_from_secs(0), "1970-01-01");
    assert_eq!(date_from_secs(86400 * 365), "1971-01-01");
    assert_eq!(date_from_secs(86400 * 31), "1970-02-02");
    assert_eq!(date_from_secs(86400 * 364), "1970-13-05");
    let today = now();
    assert_eq!(today.len(), 10);
    assert_eq!(&today[4..5], "-");
    assert_eq!(&today[7..8], "-");
}

#[test]
fn totals_and_languages() {
    let repos = sample();
    assert_eq!(total_stars(&repos), 25000 + 999 + 1_500_000 + 5);
    assert_eq!(total_forks(&repos), 2300 + 9000 + 50000 + 1);
    assert_eq!(unique_languages(&repos), 2);
    assert_eq!(unique_languages(&[]), 0);
    assert!(can_render(&repos));
    let big = vec![
        repo("a/a", None, u64::MAX, 0, None, "2024-01-01"),
        repo("a/b", None, 1, 0, None, "2024-01-01"),
    ];
    assert!(!can_render(&big));
}

#[test]
fn totals_add_up_over_joined_lists() {
    let repos = sample();
    let (a, b) = repos.split_at(2);
    assert_eq!(total_stars(&repos), total_stars(a) + total_stars(b));
    assert_eq!(total_forks(&repos), total_forks(a) + total_forks(b));
}

#[test]
fn one_row() {
    let r = repo("a/b", Some("x<y"), 3, 4, Some("TypeScript"), "2021-06-09T00:00:00Z");
    let row = render_row(7, &r, "3");
    let expected = "\n        <tr>\n            <td class=\"rank\">7</td>\n            <td class=\"name\">\n                <a href=\"https://github.com/a/b\" target=\"_blank\">a/b</a>\n                <span class=\"lang lang-typescript\">TypeScript</span>\n            </td>\n            <td class=\"description\">x&lt;y</td>\n            <td class=\"stars\">3</td>\n            <td class=\"forks\">4</td>\n            <td class=\"updated\">Jun 09, 2021</td>\n        </tr>\n        ";
    assert_eq!(row, expected);
}

#[test]
fn page_layout() {
    let repos = sample();
    let page = render_html(&repos, "security tools", "2024-05-06", &labels());
    assert_eq!(page, expected_page(&repos, "security tools", "2024-05-06", &labels()));
    assert!(page.contains("<title>security tools - GitHub Recon Report</title>"));
    assert!(page.contains("<span>📊 4 repositories</span>"));
    assert!(page.contains("📅 Generated 2024-05-06"));
    assert!(page.contains("<div class=\"stat-value\">1526004</div>"));
    assert!(page.contains("A runtime for &lt;async&gt; &amp; &quot;fast&quot; I/O&#39;s"));
    assert!(page.ends_with("</html>"));
}

#[test]
fn empty_page() {
    let page = render_html(&[], "nothing", "2024-05-06", &[]);
    assert_eq!(page, expected_page(&[], "nothing", "2024-05-06", &[]));
    assert!(page.contains("<span>📊 0 repositories</span>"));
}

#[test]
fn page_generated_today() {
    let repos = sample();
    let page = generate_html(&repos, "t", &labels());
    let today = now();
    assert_eq!(page, expected_page(&repos, "t", &today, &labels()));
}

#[test]
fn escaped_text_has_no_markup() {
    for s in ["<script>alert('x')</script>", "a \"b\" & 'c' > d", "&lt;", "★ <b>"] {
        let e = escape_html(s);
        assert!(!e.contains('<') && !e.contains('>') && !e.contains('"') && !e.contains('\''), "{}", e);
    }
}

#[test]
fn languages_never_exceed_repositories() {
    let repos = vec![
        repo("a/a", None, 0, 0, Some("Rust"), "x"),
        repo("a/b", None, 0, 0, Some("rust"), "x"),
        repo("a/c", None, 0, 0, Some("Rust"), "x"),
        repo("a/d", None, 0, 0, None, "x"),
    ];
    assert_eq!(unique_languages(&repos), 2);
    assert!(unique_languages(&repos) <= repos.len());
}

#[test]
fn calendar_fields_stay_in_range() {
    for secs in [0u64, 86399, 86400 * 359, 86400 * 360, 86400 * 364 + 5, 1_700_000_000, u64::MAX] {
        let d = date_from_secs(secs);
        let parts: Vec<&str> = d.split('-').collect();
        let month: u64 = parts[1].parse().unwrap();
        let day: u64 = parts[2].parse().unwrap();
        assert!((1..=13).contains(&month), "{}", d);
        assert!((1..=30).contains(&day), "{}", d);
        assert_eq!(parts[1].len(), 2);
        assert!(parts[0].len() >= 4);
    }
}

#[test]
fn counts_have_no_separators() {
    assert!(!format_number(1_000_000_000).contains(','));
}

#[test]
fn escaped_text_reads_back() {
    for s in ["a & b < c > d \"e\" 'f'", "&amp; &lt;", "plain", ""] {
        let e = escape_html(s);
        for (i, _) in e.match_indices('&') {
            let rest = &e[i..];
            assert!(
                ["&amp;", "&lt;", "&gt;", "&quot;", "&#39;"].iter().any(|r| rest.starts_with(r)),
                "{}",
                e
            );
        }
        let back = e
            .replace("&lt;", "<")
            .replace("&gt;", ">")
            .replace("&quot;", "\"")
            .replace("&#39;", "'")
            .replace("&amp;", "&");
        assert_eq!(back, s);
    }
}
