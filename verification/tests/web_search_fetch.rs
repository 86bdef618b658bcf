use llama_chat::json::{parse_json, JsonValue};
use llama_chat::web_fetch::{
    convert_and_truncate, extract_body_content, fetch_fallback_answer, html_to_markdown_truncated, is_pdf_url,
    markdown_from_article,
};
use llama_chat::web_search::{
    brave_api_key, brave_failure_reply, brave_results_text, brave_text_fits, brave_url,
    cap_output, ddg_api_text, ddg_api_url, ddg_text_fits, google_blocked, google_failure_answer,
    google_results_text, google_text_fits, google_url, is_timeout_error, parse_ddg_results,
    parse_ddg_results_checked, scrape_answer, scrape_url, search_error, search_plan,
    usable_instant, SearchPlan, MAX_SEARCH_RESULT_CHARS,
};

fn doc(text: &str) -> JsonValue {
    parse_json(text).unwrap()
}

#[test]
fn body_extraction() {
    assert_eq!(
        extract_body_content("<html><BODY class=\"x\"><p>hi</p></Body></html>"),
        "<p>hi</p>"
    );
    assert_eq!(extract_body_content("<p>no body</p>"), "");
    assert_eq!(extract_body_content("</body><body>"), "");
}

#[test]
fn markdown_conversion() {
    let md = convert_and_truncate("<h1>Title</h1><p>Some text</p>", 1000);
    assert!(md.contains("Title"));
    assert!(md.contains("Some text"));
    assert_eq!(convert_and_truncate("", 100), "(empty page)");
    let cut = convert_and_truncate("<p>abcdefghijklmnopqrstuvwxyz</p>", 10);
    assert_eq!(cut, "abcdefghij\n\n[Truncated at 10 chars]");
}

#[test]
fn search_plans() {
    match search_plan(&doc(r#"{"query":"rust"}"#), None) {
        SearchPlan::Instant { query, max_results } => {
            assert_eq!(query, "rust");
            assert_eq!(max_results, 20);
        }
        _ => panic!("expected DuckDuckGo"),
    }
    match search_plan(&doc(r#"{"query":"rust","max_results":3}"#), Some("Brave")) {
        SearchPlan::Brave { max_results, .. } => assert_eq!(max_results, 3),
        _ => panic!("expected Brave"),
    }
    assert!(matches!(search_plan(&doc(r#"{"query":"q"}"#), Some("Google")), SearchPlan::Google { .. }));
    assert!(matches!(search_plan(&doc(r#"{"query":"q"}"#), Some("Camofox")), SearchPlan::Scrape { .. }));
    assert!(matches!(search_plan(&doc(r#"{"query":"q"}"#), Some("Other")), SearchPlan::Instant { .. }));
    match search_plan(&doc("{}"), None) {
        SearchPlan::Reply { text } => assert_eq!(text, "Error: 'query' argument is required"),
        _ => panic!("expected an error"),
    }
}

#[test]
fn brave_requests() {
    assert_eq!(brave_api_key(Some("  k1 "), Some("k2")), Some("k1".to_string()));
    assert_eq!(brave_api_key(Some("  "), Some(" k2")), Some("k2".to_string()));
    assert_eq!(brave_api_key(None, None), None);
    assert_eq!(
        brave_url("a b", 50),
        "https://api.search.brave.com/res/v1/web/search?q=a%20b&count=20"
    );
    assert_eq!(
        brave_url("x", 0),
        "https://api.search.brave.com/res/v1/web/search?q=x&count=1"
    );
    assert_eq!(
        brave_failure_reply("Error: Brave API key is missing"),
        Some("Error: Error: Brave API key is missing".to_string())
    );
    assert_eq!(brave_failure_reply("Error: timeout"), None);
    assert_eq!(search_error("Brave API request failed", "503"), "Error: Brave API request failed: 503");
}

#[test]
fn brave_answers() {
    let empty = doc(r#"{"web":{"results":[]}}"#);
    assert!(brave_text_fits(&empty, 5));
    assert_eq!(brave_results_text("q", &empty, 5), "Search results for 'q' (via Brave):\n\n(no results)");
    let payload = doc(
        r#"{"web":{"results":[
            {"title":" Rust ","url":"https://rust-lang.org","description":"A language"},
            {"title":"","url":""},
            {"title":"","url":"https://only.url"}
        ]},
        "images":{"results":[
            {"title":"Logo","thumbnail":{"src":"https://t/1.png"},"url":"https://src"},
            {"thumbnail":{"src":"https://t/2.png"}},
            {"title":"no thumb"}
        ]}}"#,
    );
    assert!(brave_text_fits(&payload, 10));
    assert_eq!(
        brave_results_text("rust", &payload, 10),
        "Search results for 'rust' (via Brave):\n\n\
         1. Rust\n   URL: https://rust-lang.org\n   A language\n\n\
         3. https://only.url\n   URL: https://only.url\n\n\
         \nImages (3 results):\n![Logo](https://t/1.png)\n  Source: https://src\n![Image](https://t/2.png)\n\n"
    );
    assert_eq!(
        brave_results_text("rust", &payload, 1),
        "Search results for 'rust' (via Brave):\n\n\
         1. Rust\n   URL: https://rust-lang.org\n   A language\n\n\
         \nImages (3 results):\n![Logo](https://t/1.png)\n  Source: https://src\n![Image](https://t/2.png)\n\n"
    );
}

#[test]
fn ddg_instant_answers() {
    assert_eq!(
        ddg_api_url("a&b"),
        "https://api.duckduckgo.com/?q=a%26b&format=json&no_html=1&skip_disambig=1"
    );
    let data = doc(
        r#"{"AbstractText":"Rust is a language.","AbstractURL":"https://en.wikipedia.org/wiki/Rust",
            "AbstractSource":"Wikipedia","Heading":"Rust","Image":"/i/rust.png","Answer":"",
            "RelatedTopics":[
              {"Text":"Cargo","FirstURL":"https://ddg/cargo","Icon":{"URL":"/i/cargo.png"}},
              {"Name":"Group","Topics":[
                {"Text":"Rustup","FirstURL":"https://ddg/rustup"},
                {"Text":"Clippy","FirstURL":"https://ddg/clippy"}
              ]},
              {"Text":"Ico","FirstURL":"https://ddg/ico","Icon":{"URL":"https://x/f.ico"}}
            ]}"#,
    );
    assert!(ddg_text_fits(&data, 3));
    assert_eq!(
        ddg_api_text("rust", &data, 3).unwrap(),
        "Search results for 'rust' (via DuckDuckGo):\n\n\
         1. Rust\n   Source: Wikipedia\n   URL: https://en.wikipedia.org/wiki/Rust\n   Rust is a language.\n   ![Rust](https://duckduckgo.com/i/rust.png)\n\n\
         2. Cargo\n   URL: https://ddg/cargo\n   ![icon](https://duckduckgo.com/i/cargo.png)\n\n\
         3. Rustup\n   URL: https://ddg/rustup\n\n\
         Note: These are knowledge-based results. Use web_fetch to read specific URLs for more detail."
    );
    let answer = doc(r#"{"Answer":"42","RelatedTopics":[{"Text":"T","FirstURL":"u","Icon":{"URL":"https://x/f.ico"}}]}"#);
    assert_eq!(
        ddg_api_text("q", &answer, 5).unwrap(),
        "Search results for 'q' (via DuckDuckGo):\n\n1. Direct Answer\n   42\n\n2. T\n   URL: u\n\nNote: These are knowledge-based results. Use web_fetch to read specific URLs for more detail."
    );
    assert_eq!(ddg_api_text("q", &doc("{}"), 5), None);
    assert_eq!(usable_instant(Some(String::new())), None);
    assert_eq!(usable_instant(Some("x".to_string())), Some("x".to_string()));
    assert_eq!(usable_instant(None), None);
}

#[test]
fn ddg_result_pages() {
    let html = r#"<div><a rel="nofollow" class="result__a" href="https://one.example">One &amp; Only</a>
        <a class="result__snippet" href="x">The <b>first</b> result</a></div>
        <div><a class="result__a" href="https://two.example"> Two </a></div>"#;
    let expected = "1. One & Only\n   URL: https://one.example\n   The first result\n\n2. Two\n   URL: https://two.example\n\n";
    assert_eq!(parse_ddg_results(html, 10), expected);
    assert_eq!(parse_ddg_results_checked(html, 10), Some(expected.to_string()));
    assert_eq!(parse_ddg_results(html, 1), "1. One & Only\n   URL: https://one.example\n   The first result\n\n");
    assert_eq!(parse_ddg_results("<p>nothing</p>", 10), "");
    assert_eq!(
        scrape_answer("q", html, 10),
        Some(format!("Search results for 'q':\n\n{expected}"))
    );
    let fallback = scrape_answer("q", "<p>Plain words</p>", 10).unwrap();
    assert!(fallback.starts_with("Search results for 'q':\n\n"));
    assert!(fallback.contains("Plain words"));
    assert_eq!(scrape_url("a b"), "https://html.duckduckgo.com/html/?q=a%20b");
}

#[test]
fn search_output_caps() {
    assert_eq!(cap_output("short".to_string()), "short");
    let long = "z".repeat(MAX_SEARCH_RESULT_CHARS + 5);
    let cut = cap_output(long);
    assert_eq!(cut.len(), MAX_SEARCH_RESULT_CHARS + "\n...[truncated]".len());
    assert!(cut.ends_with("\n...[truncated]"));
}

#[test]
fn google_pages() {
    assert_eq!(
        google_url("a b", 25),
        "https://www.google.com/search?q=a%20b&num=10&hl=en"
    );
    assert!(google_blocked("Our systems have detected UNUSUAL TRAFFIC"));
    assert!(!google_blocked("Results"));
    let content = "[Rust Lang](https://www.rust-lang.org/)\n\
                   A language empowering everyone to build software.\n\
                   [Maps](https://maps.google.com/x)\n\
                   [abc](https://short.example)\n\
                   [Docs](https://doc.rust-lang.org/book)\n";
    assert!(google_text_fits(content, 10));
    assert_eq!(
        google_results_text("rust", content, 10),
        "Search results for 'rust' (via Google):\n\n\
         1. Rust Lang\n   URL: https://www.rust-lang.org/\n   A language empowering everyone to build software.\n\n\
         2. Docs\n   URL: https://doc.rust-lang.org/book\n\n\
         Note: Use web_fetch to read specific URLs for more detail."
    );
    assert_eq!(
        google_results_text("q", "no links here", 10),
        "Search results for 'q' (via Google):\n\nno links here"
    );
    assert!(!google_text_fits("](https://x.example) starts with a link", 10));
    assert!(is_timeout_error("Request Timed Out"));
    assert!(!is_timeout_error("refused"));
    assert_eq!(
        google_failure_answer("q", true, "Error: down".to_string()),
        "Error: Web search timed out for query 'q'. The search engine did not respond in time. Try again or use a different query."
    );
    assert_eq!(google_failure_answer("q", false, "Error: down".to_string()), "Error: down");
    assert_eq!(google_failure_answer("q", true, "found".to_string()), "found");
}

#[test]
fn fetch_decisions() {
    assert!(is_pdf_url("https://x.org/Paper.PDF"));
    assert!(is_pdf_url("https://x.org/a.pdf?dl=1"));
    assert!(is_pdf_url("https://x.org/a.pdf#page=2"));
    assert!(!is_pdf_url("https://x.org/a.pdfx"));
    assert_eq!(
        fetch_fallback_answer("http://slow", "Error: refused".to_string(), true),
        "Error: Request timed out. The URL 'http://slow' did not respond within the timeout period. Error: refused"
    );
    assert_eq!(fetch_fallback_answer("http://slow", "Error: refused".to_string(), false), "Error: refused");
    assert_eq!(fetch_fallback_answer("http://x", "page".to_string(), true), "page");
}

#[test]
fn markdown_sources() {
    let page = "<html><head><title>T</title></head><body><h1>Head</h1><p>Text</p></body></html>";
    let from_body = markdown_from_article(page, None, 1000);
    assert_eq!(from_body, convert_and_truncate("<h1>Head</h1><p>Text</p>", 1000));
    assert_eq!(markdown_from_article(page, Some("  ".to_string()), 1000), from_body);
    assert_eq!(
        markdown_from_article(page, Some("<p>Article</p>".to_string()), 1000),
        convert_and_truncate("<p>Article</p>", 1000)
    );
    assert_eq!(
        markdown_from_article("<p>no body</p>", None, 1000),
        convert_and_truncate("<p>no body</p>", 1000)
    );
    let md = html_to_markdown_truncated(page, 1000);
    assert!(md.contains("Text"), "{md}");
}
