use apol::scraper::create_default_headers;
use apol::ApolError;
use apol::Body;
use apol::HttpResponse;
use apol::{find_js_file, get_bearer_token, main_page_request, script_request};

fn page(body: &str) -> HttpResponse {
    HttpResponse { status: 200, body: Body::Text(body.to_string()) }
}

fn pair(name: &str, value: &str) -> (String, String) {
    (name.to_string(), value.to_string())
}

fn browser_headers() -> Vec<(String, String)> {
    vec![
        pair("Content-Type", "application/json;charset=utf-8"),
        pair("Connection", "keep-alive"),
        pair("Accept", "application/json"),
        pair("Origin", "https://music.apple.com"),
        pair("Referer", "https://music.apple.com/"),
        pair("Accept-Encoding", "gzip, deflate, br"),
        pair(
            "User-Agent",
            "Mozilla/5.0 (Windows NT 10.0; Win64; x64) AppleWebKit/537.36 (KHTML, like Gecko) Chrome/110.0.0.0 Safari/537.36",
        ),
    ]
}

#[test]
fn default_headers_are_those_of_a_browser() {
    assert_eq!(create_default_headers(), browser_headers());
}

#[test]
fn main_page_request_asks_for_the_browse_page() {
    let request = main_page_request();
    assert_eq!(request.url, "https://music.apple.com/us/browse");
    assert_eq!(request.headers, browser_headers());
}

#[test]
fn script_request_asks_for_the_asset() {
    let request = script_request("index-ab12.js");
    assert_eq!(request.url, "https://music.apple.com/assets/index-ab12.js");
    assert_eq!(request.headers, browser_headers());
}

#[test]
fn js_file_is_found_in_a_script_tag() {
    let html = "<html><script src=\"/assets/index-ab12.js\"></script></html>";
    assert_eq!(find_js_file(&page(html)), Ok("index-ab12.js".to_string()));
}

#[test]
fn js_file_is_the_first_and_the_shortest_match() {
    let html = "a index-1.js b index-2.js c";
    assert_eq!(find_js_file(&page(html)), Ok("index-1.js".to_string()));
    let bare = "index.js";
    assert_eq!(find_js_file(&page(bare)), Ok("index.js".to_string()));
}

#[test]
fn js_file_does_not_run_over_a_line_break() {
    let html = "index-1\n.js index-2.js";
    assert_eq!(find_js_file(&page(html)), Ok("index-2.js".to_string()));
}

#[test]
fn js_file_missing_is_an_extraction_failure() {
    assert_eq!(find_js_file(&page("<html>main.js</html>")), Err(ApolError::ExtractionFailed));
    assert_eq!(find_js_file(&page("")), Err(ApolError::ExtractionFailed));
    assert_eq!(find_js_file(&page("index-ab12.jsx".get(..13).unwrap())), Ok("index-ab12.js".to_string()));
    assert_eq!(find_js_file(&page("index-ab12xjs")), Err(ApolError::ExtractionFailed));
}

#[test]
fn js_file_needs_a_page_that_came_with_success() {
    let html = "<script src=\"/assets/index-ab12.js\">";
    for status in [199u16, 300, 404, 500] {
        let response = HttpResponse { status, body: Body::Text(html.to_string()) };
        assert_eq!(find_js_file(&response), Err(ApolError::UpstreamUnavailable));
    }
    for status in [200u16, 204, 299] {
        let response = HttpResponse { status, body: Body::Text(html.to_string()) };
        assert_eq!(find_js_file(&response), Ok("index-ab12.js".to_string()));
    }
    let unreadable = HttpResponse { status: 200, body: Body::Unreadable };
    assert_eq!(find_js_file(&unreadable), Err(ApolError::UpstreamUnavailable));
}

#[test]
fn bearer_is_found_between_quotes() {
    let js = "const t=\"eyJhbGciOiJFUzI1NiJ9.xyz\";";
    assert_eq!(get_bearer_token(&page(js)), Ok("eyJhbGciOiJFUzI1NiJ9.xyz".to_string()));
}

#[test]
fn bearer_is_the_first_and_ends_at_the_next_quote() {
    let js = "a=\"other\";b=\"eyJhfirst\";c=\"eyJhsecond\"";
    assert_eq!(get_bearer_token(&page(js)), Ok("eyJhfirst".to_string()));
    assert_eq!(get_bearer_token(&page("\"eyJh\"")), Ok("eyJh".to_string()));
}

#[test]
fn bearer_missing_is_an_extraction_failure() {
    assert_eq!(get_bearer_token(&page("var a = \"abc\";")), Err(ApolError::ExtractionFailed));
    assert_eq!(get_bearer_token(&page("eyJhbGciOiJFUzI1NiJ9.xyz")), Err(ApolError::ExtractionFailed));
    assert_eq!(get_bearer_token(&page("\"eyJhbGci")), Err(ApolError::ExtractionFailed));
}

#[test]
fn bearer_needs_a_script_that_came_with_success() {
    let response = HttpResponse { status: 403, body: Body::Text("\"eyJhabc\"".to_string()) };
    assert_eq!(get_bearer_token(&response), Err(ApolError::UpstreamUnavailable));
}
