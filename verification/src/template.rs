//! The fixed text of the HTML report, split at the places where values are filled in.

use vstd::prelude::*;

verus! {

/// Opens a table row; the rank follows.
pub const ROW_OPEN: &'static str = "\n        <tr>\n            <td class=\"rank\">";

/// Follows the rank; the repository link target follows.
pub const ROW_AFTER_RANK: &'static str = "</td>\n            <td class=\"name\">\n                <a href=\"";

/// Follows the link target; the repository name follows.
pub const ROW_AFTER_URL: &'static str = "\" target=\"_blank\">";

/// Closes the link; the language badge follows.
pub const ROW_AFTER_NAME: &'static str = "</a>\n                ";

/// Follows the language badge; the description follows.
pub const ROW_AFTER_LANGUAGE: &'static str = "\n            </td>\n            <td class=\"description\">";

/// Follows the description; the star label follows.
pub const ROW_AFTER_DESCRIPTION: &'static str = "</td>\n            <td class=\"stars\">";

/// Follows the star label; the fork count follows.
pub const ROW_AFTER_STARS: &'static str = "</td>\n            <td class=\"forks\">";

/// Follows the fork count; the update date follows.
pub const ROW_AFTER_FORKS: &'static str = "</td>\n            <td class=\"updated\">";

/// Closes a table row.
pub const ROW_CLOSE: &'static str = "</td>\n        </tr>\n        ";

/// Opens the document; the title follows.
pub const PAGE_OPEN: &'static str = "<!DOCTYPE html>\n<html lang=\"en\">\n<head>\n    <meta charset=\"UTF-8\">\n    <meta name=\"viewport\" content=\"width=device-width, initial-scale=1.0\">\n    <title>";

/// Follows the title (the style sheet); the heading follows.
pub const PAGE_AFTER_TITLE: &'static str = " - GitHub Recon Report</title>\n    <style>\n        :root {\n            --bg-primary: #0d1117;\n            --bg-secondary: #161b22;\n            --bg-tertiary: #21262d;\n            --border: #30363d;\n            --text-primary: #e6edf3;\n            --text-secondary: #8b949e;\n            --text-muted: #6e7681;\n            --accent: #58a6ff;\n            --accent-hover: #79c0ff;\n            --star-color: #f0883e;\n            --fork-color: #8b949e;\n            --success: #3fb950;\n            --font-mono: 'SF Mono', Monaco, 'Cascadia Code', 'Roboto Mono', Consolas, monospace;\n            --font-sans: -apple-system, BlinkMacSystemFont, 'Segoe UI', Helvetica, Arial, sans-serif;\n        }\n        \n        * {\n            margin: 0;\n            padding: 0;\n            box-sizing: border-box;\n        }\n        \n        body {\n            font-family: var(--font-sans);\n            background: var(--bg-primary);\n            color: var(--text-primary);\n            line-height: 1.6;\n            min-height: 100vh;\n        }\n        \n        .container {\n            max-width: 1400px;\n            margin: 0 auto;\n            padding: 2rem;\n        }\n        \n        header {\n            background: var(--bg-secondary);\n            border: 1px solid var(--border);\n            border-radius: 12px;\n            padding: 2rem;\n            margin-bottom: 2rem;\n        }\n        \n        h1 {\n            font-size: 1.75rem;\n            font-weight: 600;\n            margin-bottom: 0.5rem;\n            display: flex;\n            align-items: center;\n            gap: 0.75rem;\n        }\n        \n        h1::before {\n            content: '';\n            display: inline-block;\n            width: 32px;\n            height: 32px;\n            background: linear-gradient(135deg, var(--accent) 0%, #a371f7 100%);\n            border-radius: 8px;\n        }\n        \n        .meta {\n            color: var(--text-secondary);\n            font-size: 0.875rem;\n            display: flex;\n            gap: 1.5rem;\n            flex-wrap: wrap;\n        }\n        \n        .meta span {\n            display: flex;\n            align-items: center;\n            gap: 0.375rem;\n        }\n        \n        .stats {\n            display: grid;\n            grid-template-columns: repeat(auto-fit, minmax(150px, 1fr));\n            gap: 1rem;\n            margin-bottom: 2rem;\n        }\n        \n        .stat-card {\n            background: var(--bg-secondary);\n            border: 1px solid var(--border);\n            border-radius: 10px;\n            padding: 1.25rem;\n            text-align: center;\n        }\n        \n        .stat-value {\n            font-size: 2rem;\n            font-weight: 700;\n            font-family: var(--font-mono);\n            background: linear-gradient(135deg, var(--accent) 0%, #a371f7 100%);\n            -webkit-background-clip: text;\n            -webkit-text-fill-color: transparent;\n            background-clip: text;\n        }\n        \n        .stat-label {\n            font-size: 0.75rem;\n            color: var(--text-muted);\n            text-transform: uppercase;\n            letter-spacing: 0.05em;\n            margin-top: 0.25rem;\n        }\n        \n        .table-wrapper {\n            background: var(--bg-secondary);\n            border: 1px solid var(--border);\n            border-radius: 12px;\n            overflow: hidden;\n        }\n        \n        table {\n            width: 100%;\n            border-collapse: collapse;\n        }\n        \n        thead {\n            background: var(--bg-tertiary);\n        }\n        \n        th {\n            padding: 1rem;\n            text-align: left;\n            font-size: 0.75rem;\n            font-weight: 600;\n            text-transform: uppercase;\n            letter-spacing: 0.05em;\n            color: var(--text-secondary);\n            border-bottom: 1px solid var(--border);\n            position: sticky;\n            top: 0;\n        }\n        \n        th:first-child {\n            width: 60px;\n            text-align: center;\n        }\n        \n        td {\n            padding: 1rem;\n            border-bottom: 1px solid var(--border);\n            vertical-align: top;\n        }\n        \n        tr:last-child td {\n            border-bottom: none;\n        }\n        \n        tr:hover td {\n            background: var(--bg-tertiary);\n        }\n        \n        .rank {\n            text-align: center;\n            font-family: var(--font-mono);\n            font-size: 0.875rem;\n            color: var(--text-muted);\n        }\n        \n        .name {\n            font-weight: 600;\n            white-space: nowrap;\n        }\n        \n        .name a {\n            color: var(--accent);\n            text-decoration: none;\n            display: flex;\n            flex-direction: column;\n            gap: 0.25rem;\n        }\n        \n        .name a:hover {\n            color: var(--accent-hover);\n        }\n        \n        .lang {\n            font-size: 0.7rem;\n            font-weight: 500;\n            padding: 0.125rem 0.5rem;\n            border-radius: 20px;\n            background: var(--bg-primary);\n            color: var(--text-secondary);\n            display: inline-block;\n            width: fit-content;\n        }\n        \n        .lang-python { background: rgba(55, 118, 171, 0.2); color: #61dafb; }\n        .lang-javascript { background: rgba(247, 223, 30, 0.15); color: #f7df1e; }\n        .lang-typescript { background: rgba(49, 120, 198, 0.2); color: #3178c6; }\n        .lang-rust { background: rgba(222, 165, 132, 0.2); color: #dea584; }\n        .lang-go { background: rgba(0, 173, 216, 0.2); color: #00add8; }\n        .lang-java { background: rgba(177, 114, 25, 0.2); color: #b8962c; }\n        .lang-cpp { background: rgba(0, 89, 156, 0.2); color: #00599c; }\n        .lang-c { background: rgba(165, 165, 165, 0.15); color: #a8a8a8; }\n        .lang-ruby { background: rgba(112, 21, 22, 0.2); color: #cc342d; }\n        .lang-php { background: rgba(121, 77, 144, 0.2); color: #777bb4; }\n        .lang-swift { background: rgba(240, 81, 56, 0.2); color: #f05122; }\n        .lang-kotlin { background: rgba(169, 123, 255, 0.2); color: #a97bff; }\n        .lang-shell { background: rgba(136, 155, 136, 0.2); color: #89b4fa; }\n        .lang-html { background: rgba(227, 101, 36, 0.2); color: #e36524; }\n        .lang-css { background: rgba(21, 114, 182, 0.2); color: #1572b6; }\n        \n        .description {\n            color: var(--text-secondary);\n            font-size: 0.875rem;\n            max-width: 400px;\n        }\n        \n        .stars, .forks {\n            font-family: var(--font-mono);\n            font-size: 0.875rem;\n            white-space: nowrap;\n        }\n        \n        .stars {\n            color: var(--star-color);\n        }\n        \n        .stars::before {\n            content: '\u{2605} ';\n            opacity: 0.7;\n        }\n        \n        .forks {\n            color: var(--fork-color);\n        }\n        \n        .forks::before {\n            content: '\u{2442} ';\n            opacity: 0.5;\n        }\n        \n        .updated {\n            font-size: 0.8rem;\n            color: var(--text-muted);\n            white-space: nowrap;\n        }\n        \n        footer {\n            text-align: center;\n            padding: 2rem;\n            color: var(--text-muted);\n            font-size: 0.8rem;\n        }\n        \n        footer a {\n            color: var(--accent);\n            text-decoration: none;\n        }\n        \n        @media (max-width: 768px) {\n            .container {\n                padding: 1rem;\n            }\n            \n            header {\n                padding: 1.25rem;\n            }\n            \n            h1 {\n                font-size: 1.25rem;\n            }\n            \n            .stats {\n                grid-template-columns: repeat(2, 1fr);\n            }\n            \n            .stat-value {\n                font-size: 1.5rem;\n            }\n            \n            th, td {\n                padding: 0.75rem 0.5rem;\n            }\n            \n            .description {\n                display: none;\n            }\n        }\n        \n        @media (prefers-reduced-motion: reduce) {\n            * {\n                transition: none !important;\n                animation: none !important;\n            }\n        }\n    </style>\n</head>\n<body>\n    <div class=\"container\">\n        <header>\n            <h1>";

/// Follows the heading; the repository count follows.
pub const PAGE_AFTER_HEADING: &'static str = "</h1>\n            <div class=\"meta\">\n                <span>\u{1f4ca} ";

/// Follows the repository count; the generation date follows.
pub const PAGE_AFTER_COUNT: &'static str = " repositories</span>\n                <span>\u{1f50d} GitHub Search</span>\n                <span>\u{1f4c5} Generated ";

/// Follows the generation date; the total stars follow.
pub const PAGE_AFTER_DATE: &'static str = "</span>\n            </div>\n        </header>\n        \n        <div class=\"stats\">\n            <div class=\"stat-card\">\n                <div class=\"stat-value\">";

/// Follows the total stars; the total forks follow.
pub const PAGE_AFTER_STARS: &'static str = "</div>\n                <div class=\"stat-label\">Total Stars</div>\n            </div>\n            <div class=\"stat-card\">\n                <div class=\"stat-value\">";

/// Follows the total forks; the number of languages follows.
pub const PAGE_AFTER_FORKS: &'static str = "</div>\n                <div class=\"stat-label\">Total Forks</div>\n            </div>\n            <div class=\"stat-card\">\n                <div class=\"stat-value\">";

/// Follows the number of languages; the repository count follows.
pub const PAGE_AFTER_LANGUAGES: &'static str = "</div>\n                <div class=\"stat-label\">Languages</div>\n            </div>\n            <div class=\"stat-card\">\n                <div class=\"stat-value\">";

/// Follows the repository count (the table head); the rows follow.
pub const PAGE_AFTER_REPOSITORIES: &'static str = "</div>\n                <div class=\"stat-label\">Repositories</div>\n            </div>\n        </div>\n        \n        <div class=\"table-wrapper\">\n            <table>\n                <thead>\n                    <tr>\n                        <th>#</th>\n                        <th>Repository</th>\n                        <th>Description</th>\n                        <th>Stars</th>\n                        <th>Forks</th>\n                        <th>Updated</th>\n                    </tr>\n                </thead>\n                <tbody>\n                    ";

/// Closes the document.
pub const PAGE_CLOSE: &'static str = "\n                </tbody>\n            </table>\n        </div>\n        \n        <footer>\n            Generated by <a href=\"https://github.com/dablon/github-recon\" target=\"_blank\">github-recon</a>\n        </footer>\n    </div>\n</body>\n</html>";

/// Opens a language badge; the lowercased language (part of the class name) follows.
pub const BADGE_OPEN: &'static str = "<span class=\"lang lang-";

/// Follows the class name of a badge; the language follows.
pub const BADGE_MIDDLE: &'static str = "\">";

/// Closes a language badge.
pub const BADGE_CLOSE: &'static str = "</span>";

} // verus!
