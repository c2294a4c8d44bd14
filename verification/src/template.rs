//! The fixed text of the HTML page: icons, table and page fragments, sidebar
//! fragments, and the document head and tail.
use vstd::prelude::*;

verus! {

/// Opening tag of every inline icon.
pub const SVG_OPEN: &'static str = "<svg viewBox=\"0 0 24 24\" fill=\"none\" stroke=\"currentColor\" stroke-width=\"2\" stroke-linecap=\"round\" stroke-linejoin=\"round\">";

/// Closing tag of every inline icon.
pub const SVG_CLOSE: &'static str = "</svg>";

/// Shapes of the grid icon of the "All" entry.
pub const GRID_SHAPES: &'static str = "<rect x=\"3\" y=\"3\" width=\"7\" height=\"7\"/><rect x=\"14\" y=\"3\" width=\"7\" height=\"7\"/><rect x=\"3\" y=\"14\" width=\"7\" height=\"7\"/><rect x=\"14\" y=\"14\" width=\"7\" height=\"7\"/>";

/// Shapes of the cube icon of built-in modules.
pub const CUBE_SHAPES: &'static str = "<path d=\"M21 16V8a2 2 0 0 0-1-1.73l-7-4a2 2 0 0 0-2 0l-7 4A2 2 0 0 0 3 8v8a2 2 0 0 0 1 1.73l7 4a2 2 0 0 0 2 0l7-4A2 2 0 0 0 21 16z\"/><polyline points=\"3.27 6.96 12 12.01 20.73 6.96\"/><line x1=\"12\" y1=\"22.08\" x2=\"12\" y2=\"12\"/>";

/// Shapes of the package icon of other modules.
pub const PACKAGE_SHAPES: &'static str = "<line x1=\"16.5\" y1=\"9.4\" x2=\"7.5\" y2=\"4.21\"/><path d=\"M21 16V8a2 2 0 0 0-1-1.73l-7-4a2 2 0 0 0-2 0l-7 4A2 2 0 0 0 3 8v8a2 2 0 0 0 1 1.73l7 4a2 2 0 0 0 2 0l7-4A2 2 0 0 0 21 16z\"/><polyline points=\"3.27 6.96 12 12.01 20.73 6.96\"/><line x1=\"12\" y1=\"22.08\" x2=\"12\" y2=\"12\"/>";

/// Shapes of the crosshair icon of selector entries.
pub const TARGET_SHAPES: &'static str = "<circle cx=\"12\" cy=\"12\" r=\"10\"/><line x1=\"22\" y1=\"12\" x2=\"18\" y2=\"12\"/><line x1=\"6\" y1=\"12\" x2=\"2\" y2=\"12\"/><line x1=\"12\" y1=\"6\" x2=\"12\" y2=\"2\"/><line x1=\"12\" y1=\"22\" x2=\"12\" y2=\"18\"/>";

/// Opening of a table row, up to the first cell.
pub const ROW_START: &'static str = "                <tr>\n                  <td>";

/// Closing of a cell and opening of the next one.
pub const CELL_BREAK: &'static str = "</td>\n                  <td>";

/// Closing of a cell and opening of a code cell.
pub const CODE_CELL_BREAK: &'static str = "</td>\n                  <td><code>";

/// Closing of a code cell and of its row.
pub const CODE_ROW_END: &'static str = "</code></td>\n                </tr>";

/// Closing of a cell and of its row.
pub const ROW_END: &'static str = "</td>\n                </tr>";

/// Opening of a page block, up to its class list.
pub const PAGE_OPEN: &'static str = "<div class=\"module-page";

/// Between the class list and the id of a page block.
pub const PAGE_ID: &'static str = "\" id=\"";

/// Search box of a function page, up to its count.
pub const FUNCTION_PAGE_SEARCH: &'static str = "\">\n  <div class=\"search-box\">\n    <svg class=\"search-icon\" viewBox=\"0 0 24 24\" fill=\"none\" stroke=\"currentColor\" stroke-width=\"2\" stroke-linecap=\"round\" stroke-linejoin=\"round\"><circle cx=\"11\" cy=\"11\" r=\"8\"/><line x1=\"21\" y1=\"21\" x2=\"16.65\" y2=\"16.65\"/></svg>\n    <input type=\"text\" class=\"search-input\" placeholder=\"Filter functions...\" />\n  </div>\n  <p class=\"count\"><span class=\"count-num\">";

/// Heading of the function table, up to its rows.
pub const FUNCTION_PAGE_TABLE: &'static str = "</span> functions</p>\n  <table>\n    <thead><tr><th>Function</th><th>Description</th><th>Parameters</th><th>Example</th></tr></thead>\n    <tbody>\n";

/// Search box of a selector page, up to its count.
pub const SELECTOR_PAGE_SEARCH: &'static str = "\">\n  <div class=\"search-box\">\n    <svg class=\"search-icon\" viewBox=\"0 0 24 24\" fill=\"none\" stroke=\"currentColor\" stroke-width=\"2\" stroke-linecap=\"round\" stroke-linejoin=\"round\"><circle cx=\"11\" cy=\"11\" r=\"8\"/><line x1=\"21\" y1=\"21\" x2=\"16.65\" y2=\"16.65\"/></svg>\n    <input type=\"text\" class=\"search-input\" placeholder=\"Filter selectors...\" />\n  </div>\n  <p class=\"count\"><span class=\"count-num\">";

/// Heading of the selector table, up to its rows.
pub const SELECTOR_PAGE_TABLE: &'static str = "</span> selectors</p>\n  <table>\n    <thead><tr><th>Selector</th><th>Description</th></tr></thead>\n    <tbody>\n";

/// Closing of a page block after its rows.
pub const PAGE_CLOSE: &'static str = "\n    </tbody>\n  </table>\n</div>";

/// Opening of a sidebar link, up to its class list.
pub const LINK_OPEN: &'static str = "<a class=\"sidebar-link";

/// Between the class list and the target of a sidebar link.
pub const LINK_TARGET: &'static str = "\" href=\"#\" data-module=\"";

/// Between the target and the icon of a sidebar link.
pub const LINK_ICON: &'static str = "\"><span class=\"sidebar-icon\">";

/// Between the icon and the label of a sidebar link.
pub const LINK_LABEL: &'static str = "</span><span class=\"sidebar-label\">";

/// Between the label and the count of a sidebar link.
pub const LINK_COUNT: &'static str = "</span><span class=\"sidebar-count\">";

/// Closing of a sidebar link.
pub const LINK_CLOSE: &'static str = "</span></a>\n";

/// Opening of the selector section of the sidebar.
pub const SECTION_OPEN: &'static str = "        <nav class=\"sidebar-section\">\n          <div class=\"sidebar-section-title\">Selectors</div>\n";

/// Closing of the selector section of the sidebar.
pub const SECTION_CLOSE: &'static str = "        </nav>\n";

/// Closing of the module section of the sidebar.
pub const NAV_CLOSE: &'static str = "\n        </nav>\n";

/// Closing of the sidebar and opening of the page area.
pub const CONTENT_OPEN: &'static str = "\n      </aside>\n\n      <div class=\"content\">\n";

/// The document up to the module links of the sidebar: head, styles and sidebar header.
pub const HTML_HEAD: &'static str = r#"<!DOCTYPE html>
<html lang="en">
  <head>
    <meta charset="UTF-8" />
    <meta name="viewport" content="width=device-width, initial-scale=1.0" />
    <title>mq - Function Reference</title>
    <link rel="preconnect" href="https://fonts.googleapis.com" />
    <link rel="preconnect" href="https://fonts.gstatic.com" crossorigin />
    <link href="https://fonts.googleapis.com/css2?family=Montserrat:wght@400;500;600;700&display=swap" rel="stylesheet" />
    <style>
      :root {
        --bg-primary: #2a3444;
        --bg-secondary: #232d3b;
        --bg-tertiary: #3d4a5c;
        --text-primary: #e2e8f0;
        --text-secondary: #cbd5e1;
        --text-muted: #94a3b8;
        --accent-primary: #67b8e3;
        --accent-secondary: #4fc3f7;
        --border-default: #4a5568;
        --border-muted: #374151;
        --code-bg: #1e293b;
        --code-bg-inline: #374151;
        --code-color: #e2e8f0;
        --sidebar-width: 260px;
      }

      * { margin: 0; padding: 0; box-sizing: border-box; }
      html { height: 100%; scroll-behavior: smooth; }

      body {
        background-color: var(--bg-primary);
        color: var(--text-primary);
        font-family: "Montserrat", -apple-system, BlinkMacSystemFont, "Segoe UI", "Noto Sans", Helvetica, Arial, sans-serif;
        font-weight: 400;
        line-height: 1.6;
        min-height: 100vh;
      }

      /* ---- Layout ---- */
      .layout {
        display: flex;
        min-height: 100vh;
      }

      .sidebar {
        background-color: var(--bg-secondary);
        border-right: 1px solid var(--border-default);
        display: flex;
        flex-direction: column;
        height: 100vh;
        overflow-y: auto;
        position: fixed;
        top: 0;
        left: 0;
        width: var(--sidebar-width);
        z-index: 50;
      }

      .sidebar-header {
        border-bottom: 1px solid var(--border-default);
        padding: 1.25rem 1.25rem 1rem;
      }

      .sidebar-header h1 {
        color: var(--accent-primary);
        font-size: 1.3rem;
        font-weight: 700;
        letter-spacing: -0.3px;
      }

      .sidebar-header p {
        color: var(--text-muted);
        font-size: 0.75rem;
        margin-top: 0.2rem;
      }

      .sidebar-section {
        padding: 0.75rem 0;
      }

      .sidebar-section-title {
        color: var(--text-muted);
        font-size: 0.7rem;
        font-weight: 600;
        letter-spacing: 0.8px;
        padding: 0.25rem 1.25rem 0.5rem;
        text-transform: uppercase;
      }

      .sidebar-link {
        align-items: center;
        border-left: 3px solid transparent;
        color: var(--text-secondary);
        cursor: pointer;
        display: flex;
        font-size: 0.85rem;
        gap: 0.6rem;
        padding: 0.5rem 1.25rem;
        text-decoration: none;
        transition: all 0.15s;
      }

      .sidebar-link:hover {
        background-color: rgba(103, 184, 227, 0.06);
        color: var(--text-primary);
      }

      .sidebar-link.active {
        background-color: rgba(103, 184, 227, 0.1);
        border-left-color: var(--accent-primary);
        color: var(--accent-primary);
        font-weight: 600;
      }

      .sidebar-icon {
        display: flex;
        align-items: center;
        flex-shrink: 0;
      }

      .sidebar-icon svg {
        height: 16px;
        width: 16px;
      }

      .sidebar-label {
        flex: 1;
        overflow: hidden;
        text-overflow: ellipsis;
        white-space: nowrap;
      }

      .sidebar-count {
        background-color: var(--bg-tertiary);
        border-radius: 10px;
        color: var(--text-muted);
        font-size: 0.7rem;
        font-weight: 600;
        min-width: 1.6rem;
        padding: 0.1rem 0.45rem;
        text-align: center;
      }

      .sidebar-link.active .sidebar-count {
        background-color: rgba(103, 184, 227, 0.15);
        color: var(--accent-primary);
      }

      .content {
        flex: 1;
        margin-left: var(--sidebar-width);
        padding: 2rem 2.5rem;
        max-width: calc(100% - var(--sidebar-width));
      }

      /* ---- Mobile sidebar toggle ---- */
      .sidebar-toggle {
        background-color: var(--bg-tertiary);
        border: 1px solid var(--border-default);
        border-radius: 8px;
        color: var(--text-primary);
        cursor: pointer;
        display: none;
        left: 1rem;
        padding: 0.5rem;
        position: fixed;
        top: 1rem;
        z-index: 60;
      }

      .sidebar-toggle svg {
        display: block;
        height: 20px;
        width: 20px;
      }

      .sidebar-overlay {
        background-color: rgba(0, 0, 0, 0.5);
        display: none;
        inset: 0;
        position: fixed;
        z-index: 40;
      }

      /* ---- Pages ---- */
      .module-page { display: none; }
      .module-page.active { display: block; }

      .page-title {
        color: var(--text-primary);
        font-size: 1.5rem;
        font-weight: 700;
        margin-bottom: 1.5rem;
      }

      .search-box {
        margin-bottom: 1.5rem;
        position: relative;
      }

      .search-box input {
        background-color: var(--bg-tertiary);
        border: 1px solid var(--border-default);
        border-radius: 8px;
        color: var(--text-primary);
        font-family: inherit;
        font-size: 0.95rem;
        padding: 0.75rem 1rem 0.75rem 2.5rem;
        width: 100%;
        transition: border-color 0.2s;
      }

      .search-box input:focus {
        border-color: var(--accent-primary);
        outline: none;
      }

      .search-box .search-icon {
        color: var(--text-muted);
        height: 16px;
        left: 0.85rem;
        pointer-events: none;
        position: absolute;
        top: 50%;
        transform: translateY(-50%);
        width: 16px;
      }

      .count {
        color: var(--text-muted);
        font-size: 0.85rem;
        margin-bottom: 1rem;
      }

      table { border-collapse: collapse; width: 100%; }

      thead th {
        background-color: var(--bg-tertiary);
        border-bottom: 2px solid var(--accent-primary);
        color: var(--accent-primary);
        font-size: 0.8rem;
        font-weight: 600;
        letter-spacing: 0.5px;
        padding: 0.75rem 1rem;
        position: sticky;
        text-align: left;
        text-transform: uppercase;
        top: 0;
        z-index: 5;
      }

      tbody tr {
        border-bottom: 1px solid var(--border-muted);
        cursor: pointer;
        transition: background-color 0.15s;
      }

      tbody tr:hover { background-color: var(--bg-tertiary); }

      tbody td {
        font-size: 0.9rem;
        padding: 0.65rem 1rem;
        vertical-align: top;
      }

      tbody td:first-child { white-space: nowrap; }

      code {
        background-color: var(--code-bg-inline);
        border-radius: 4px;
        color: var(--code-color);
        font-family: "Consolas", "Monaco", "Courier New", monospace;
        font-size: 0.85em;
        padding: 0.15em 0.4em;
      }

      del code { opacity: 0.6; }

      footer {
        border-top: 1px solid var(--border-default);
        margin-left: var(--sidebar-width);
        padding: 1.5rem 2.5rem;
      }

      footer p {
        color: var(--text-muted);
        font-size: 0.85rem;
      }

      footer a {
        color: var(--accent-primary);
        text-decoration: none;
      }

      footer a:hover {
        color: var(--accent-secondary);
        text-decoration: underline;
      }

      @media (max-width: 768px) {
        .sidebar {
          transform: translateX(-100%);
          transition: transform 0.25s ease;
        }

        .sidebar.open {
          transform: translateX(0);
        }

        .sidebar-toggle {
          display: block;
        }

        .sidebar-overlay.open {
          display: block;
        }

        .content {
          margin-left: 0;
          max-width: 100%;
          padding: 1.5rem 1rem;
          padding-top: 4rem;
        }

        footer {
          margin-left: 0;
          padding: 1.5rem 1rem;
        }

        table { display: block; overflow-x: auto; }

        tbody td, thead th {
          font-size: 0.8rem;
          padding: 0.6rem 0.75rem;
        }
      }
    </style>
  </head>
  <body>
    <button class="sidebar-toggle" id="sidebarToggle">
      <svg viewBox="0 0 24 24" fill="none" stroke="currentColor" stroke-width="2" stroke-linecap="round" stroke-linejoin="round">
        <line x1="3" y1="12" x2="21" y2="12"/><line x1="3" y1="6" x2="21" y2="6"/><line x1="3" y1="18" x2="21" y2="18"/>
      </svg>
    </button>
    <div class="sidebar-overlay" id="sidebarOverlay"></div>

    <div class="layout">
      <aside class="sidebar" id="sidebar">
        <div class="sidebar-header">
          <h1>mq</h1>
          <p>Function Reference</p>
        </div>
        <nav class="sidebar-section">
          <div class="sidebar-section-title">Modules</div>
"#;

/// The document after the pages: footer and navigation script.
pub const HTML_TAIL: &'static str = r#"
      </div>
    </div>

    <footer>
      <p>Generated by <a href="https://github.com/harehare/mq">mq</a></p>
    </footer>

    <script>
      // Sidebar navigation
      document.querySelectorAll(".sidebar-link").forEach(function (link) {
        link.addEventListener("click", function (e) {
          e.preventDefault();
          document.querySelectorAll(".sidebar-link").forEach(function (l) {
            l.classList.remove("active");
          });
          link.classList.add("active");

          var target = link.getAttribute("data-module");
          document.querySelectorAll(".module-page").forEach(function (page) {
            page.classList.toggle("active", page.id === target);
          });

          // Close mobile sidebar
          document.getElementById("sidebar").classList.remove("open");
          document.getElementById("sidebarOverlay").classList.remove("open");
        });
      });

      // Search filter
      document.querySelectorAll(".search-input").forEach(function (input) {
        input.addEventListener("input", function () {
          var page = input.closest(".module-page");
          var q = input.value.toLowerCase();
          var rows = page.querySelectorAll("tbody tr");
          var visible = 0;
          rows.forEach(function (row) {
            var text = row.textContent.toLowerCase();
            var show = text.includes(q);
            row.style.display = show ? "" : "none";
            if (show) visible++;
          });
          page.querySelector(".count-num").textContent = visible;
        });
      });

      // Mobile sidebar toggle
      document.getElementById("sidebarToggle").addEventListener("click", function () {
        document.getElementById("sidebar").classList.toggle("open");
        document.getElementById("sidebarOverlay").classList.toggle("open");
      });
      document.getElementById("sidebarOverlay").addEventListener("click", function () {
        document.getElementById("sidebar").classList.remove("open");
        document.getElementById("sidebarOverlay").classList.remove("open");
      });
    </script>
  </body>
</html>"#;

} // verus!
