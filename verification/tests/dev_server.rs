use easy_dictate::dev_server::{
    content_type, parse_request_line, path_before_query, resolve_root, response_head,
    root_candidates, route_request, sanitize_path, Route, LISTEN_ADDRESS,
};

#[test]
fn content_types() {
    assert_eq!(content_type(Some("html")), "text/html; charset=utf-8");
    assert_eq!(content_type(Some("css")), "text/css; charset=utf-8");
    assert_eq!(content_type(Some("js")), "text/javascript; charset=utf-8");
    assert_eq!(content_type(Some("json")), "application/json; charset=utf-8");
    assert_eq!(content_type(Some("png")), "image/png");
    assert_eq!(content_type(Some("jpg")), "image/jpeg");
    assert_eq!(content_type(Some("jpeg")), "image/jpeg");
    assert_eq!(content_type(Some("svg")), "image/svg+xml");
    assert_eq!(content_type(Some("ico")), "image/x-icon");
    assert_eq!(content_type(Some("ttf")), "font/ttf");
    assert_eq!(content_type(Some("woff")), "font/woff");
    assert_eq!(content_type(Some("woff2")), "font/woff2");
    assert_eq!(content_type(Some("HTML")), "application/octet-stream");
    assert_eq!(content_type(Some("")), "application/octet-stream");
    assert_eq!(content_type(None), "application/octet-stream");
}

#[test]
fn root_is_the_first_candidate_that_exists() {
    assert_eq!(
        root_candidates(),
        ["frontend", "../frontend", "../../frontend"]
    );
    assert_eq!(resolve_root([true, true, true]), Some(0));
    assert_eq!(resolve_root([false, true, true]), Some(1));
    assert_eq!(resolve_root([false, false, true]), Some(2));
    assert_eq!(resolve_root([false, false, false]), None);
    assert_eq!(LISTEN_ADDRESS, "127.0.0.1:1420");
}

#[test]
fn sanitize_drops_the_query_and_decodes() {
    assert_eq!(sanitize_path("/index.html?x=1&y=%2F"), "/index.html");
    assert_eq!(sanitize_path("/a%20b/c%2Fd"), "/a b/c/d");
    assert_eq!(sanitize_path("/%2e%2e/secret"), "/../secret");
    assert_eq!(sanitize_path("/100%"), "/100%");
    assert_eq!(sanitize_path("/%zz"), "/%zz");
    assert_eq!(sanitize_path("/%ff"), "/\u{fffd}");
    assert_eq!(sanitize_path("?only=query"), "");
    assert_eq!(sanitize_path(""), "");
}

#[test]
fn request_line_is_read_word_by_word() {
    assert_eq!(
        parse_request_line("GET /app.js HTTP/1.1\r\nHost: x\r\n\r\n"),
        ("GET".to_string(), "/app.js".to_string())
    );
    assert_eq!(
        parse_request_line("  HEAD \t /a  HTTP/1.1\nPOST /b"),
        ("HEAD".to_string(), "/a".to_string())
    );
    assert_eq!(
        parse_request_line("GET\r\nrest"),
        ("GET".to_string(), "/".to_string())
    );
    assert_eq!(parse_request_line(""), (String::new(), "/".to_string()));
    assert_eq!(
        parse_request_line("\nGET / HTTP/1.1"),
        (String::new(), "/".to_string())
    );
}

#[test]
fn routes() {
    assert!(matches!(route_request("POST", "/"), Route::MethodNotAllowed));
    assert!(matches!(route_request("", "/"), Route::MethodNotAllowed));
    assert!(matches!(route_request("get", "/"), Route::MethodNotAllowed));
    assert!(matches!(route_request("GET", "/../etc/passwd"), Route::BadRequest));
    assert!(matches!(route_request("GET", "/a/./b"), Route::BadRequest));
    assert!(matches!(route_request("HEAD", "/a../b"), Route::BadRequest));
    match route_request("GET", "/") {
        Route::Serve { relative, head_only } => {
            assert_eq!(relative, "index.html");
            assert!(!head_only);
        }
        _ => panic!("expected a file"),
    }
    match route_request("HEAD", "//css/app.css") {
        Route::Serve { relative, head_only } => {
            assert_eq!(relative, "css/app.css");
            assert!(head_only);
        }
        _ => panic!("expected a file"),
    }
    match route_request("GET", "") {
        Route::Serve { relative, .. } => assert_eq!(relative, ""),
        _ => panic!("expected a file"),
    }
}

#[test]
fn response_heads() {
    assert_eq!(
        response_head(200, "OK", "text/html; charset=utf-8", 1234),
        "HTTP/1.1 200 OK\r\nContent-Type: text/html; charset=utf-8\r\nContent-Length: 1234\r\nCache-Control: no-cache\r\nConnection: close\r\n\r\n"
    );
    assert_eq!(
        response_head(404, "Not Found", "text/plain", 9),
        "HTTP/1.1 404 Not Found\r\nContent-Type: text/plain\r\nContent-Length: 9\r\nCache-Control: no-cache\r\nConnection: close\r\n\r\n"
    );
    assert_eq!(
        response_head(405, "Method Not Allowed", "text/plain", 0),
        "HTTP/1.1 405 Method Not Allowed\r\nContent-Type: text/plain\r\nContent-Length: 0\r\nCache-Control: no-cache\r\nConnection: close\r\n\r\n"
    );
}

#[test]
fn query_is_cut_at_the_first_question_mark() {
    assert_eq!(path_before_query("/a?b?c"), "/a");
    assert_eq!(path_before_query("/a%3Fb"), "/a%3Fb");
    assert_eq!(path_before_query("?"), "");
    assert_eq!(path_before_query("/é?x"), "/é");
    assert_eq!(path_before_query(""), "");
}
