//! The development server's rules: which file a request names, what is
//! answered, and with which content type.

use vstd::prelude::*;

use crate::text::{
    chars_are, chars_of, contains, contains_text, decimal, decimal_chars, first_index, is_space,
    is_whitespace, push_chars, push_str, slice_chars, str_eq, string_of, trimmed_start,
};

verus! {

/// The address the server listens on.
pub const LISTEN_ADDRESS: &'static str = "127.0.0.1:1420";

/// The content type for a file extension.
pub open spec fn mime_type(ext: Seq<char>) -> Seq<char> {
    if ext == "html"@ {
        "text/html; charset=utf-8"@
    } else if ext == "css"@ {
        "text/css; charset=utf-8"@
    } else if ext == "js"@ {
        "text/javascript; charset=utf-8"@
    } else if ext == "json"@ {
        "application/json; charset=utf-8"@
    } else if ext == "png"@ {
        "image/png"@
    } else if ext == "jpg"@ || ext == "jpeg"@ {
        "image/jpeg"@
    } else if ext == "svg"@ {
        "image/svg+xml"@
    } else if ext == "ico"@ {
        "image/x-icon"@
    } else if ext == "ttf"@ {
        "font/ttf"@
    } else if ext == "woff"@ {
        "font/woff"@
    } else if ext == "woff2"@ {
        "font/woff2"@
    } else {
        "application/octet-stream"@
    }
}

/// The content type for a file extension; a file without one is served as
/// plain bytes.
pub fn content_type(ext: Option<&str>) -> (mime: &'static str)
    ensures
        mime@ == mime_type(
            match ext {
                Some(e) => e@,
                None => ""@,
            },
        ),
{
    let ext = chars_of(
        match ext {
            Some(e) => e,
            None => "",
        },
    );
    if chars_are(&ext, "html") {
        "text/html; charset=utf-8"
    } else if chars_are(&ext, "css") {
        "text/css; charset=utf-8"
    } else if chars_are(&ext, "js") {
        "text/javascript; charset=utf-8"
    } else if chars_are(&ext, "json") {
        "application/json; charset=utf-8"
    } else if chars_are(&ext, "png") {
        "image/png"
    } else if chars_are(&ext, "jpg") || chars_are(&ext, "jpeg") {
        "image/jpeg"
    } else if chars_are(&ext, "svg") {
        "image/svg+xml"
    } else if chars_are(&ext, "ico") {
        "image/x-icon"
    } else if chars_are(&ext, "ttf") {
        "font/ttf"
    } else if chars_are(&ext, "woff") {
        "font/woff"
    } else if chars_are(&ext, "woff2") {
        "font/woff2"
    } else {
        "application/octet-stream"
    }
}

/// The places where the frontend's files are looked for, in order.
pub fn root_candidates() -> (candidates: [&'static str; 3])
    ensures
        candidates[0]@ == "frontend"@,
        candidates[1]@ == "../frontend"@,
        candidates[2]@ == "../../frontend"@,
{
    ["frontend", "../frontend", "../../frontend"]
}

/// The first candidate that exists, if any does.
pub fn resolve_root(exists: [bool; 3]) -> (found: Option<usize>)
    ensures
        match found {
            Some(i) => i < 3 && exists[i as int] && forall|j: int| 0 <= j < i ==> !exists[j],
            None => forall|j: int| 0 <= j < 3 ==> !exists[j],
        },
{
    if exists[0] {
        Some(0)
    } else if exists[1] {
        Some(1)
    } else if exists[2] {
        Some(2)
    } else {
        None
    }
}

/// The text that percent-decoding, read as UTF-8 with replacement
/// characters for what is not, makes of a text.
pub uninterp spec fn percent_decoded(text: Seq<char>) -> Seq<char>;

/// `percent_encoding::percent_decode_str` with `decode_utf8_lossy`: the
/// result depends on the text alone.
#[verifier::external_body]
fn percent_decode_lossy(text: &str) -> (decoded: String)
    ensures
        decoded@ == percent_decoded(text@),
{
    percent_encoding::percent_decode_str(text).decode_utf8_lossy().into_owned()
}

/// What stands before the query of a request target.
pub open spec fn before_query(target: Seq<char>) -> Seq<char> {
    target.take(first_index(target, '?'))
}

/// The path of a request target: what stands before the query, decoded.
pub open spec fn sanitized(target: Seq<char>) -> Seq<char> {
    percent_decoded(before_query(target))
}

/// Cuts the query off a request target.
pub fn path_before_query(path: &str) -> (cut: String)
    ensures
        cut@ == before_query(path@),
{
    let chars = chars_of(path);
    let mut end: usize = 0;
    assert(chars@.skip(0) =~= chars@);
    while end < chars.len() && chars[end] != '?'
        invariant
            end <= chars@.len(),
            first_index(chars@, '?') == end + first_index(chars@.skip(end as int), '?'),
        decreases chars@.len() - end,
    {
        assert(chars@.skip(end as int).drop_first() =~= chars@.skip(end + 1));
        end += 1;
    }
    let before = slice_chars(&chars, 0, end);
    assert(chars@.subrange(0, end as int) =~= chars@.take(end as int));
    string_of(&before)
}

/// The path that a request target names.
pub fn sanitize_path(path: &str) -> (clean: String)
    ensures
        clean@ == sanitized(path@),
{
    let cut = path_before_query(path);
    percent_decode_lossy(cut.as_str())
}

/// The length of the run of characters, from the start, that are no white
/// space.
pub open spec fn word_len(s: Seq<char>) -> int
    decreases s.len(),
{
    if s.len() == 0 || is_space(s[0]) {
        0
    } else {
        1 + word_len(s.drop_first())
    }
}

/// The first word of a text: white space is skipped, then everything up to
/// the next white space is taken.
pub open spec fn first_word(s: Seq<char>) -> Seq<char> {
    let t = trimmed_start(s);
    t.take(word_len(t))
}

/// What follows the first word of a text.
pub open spec fn after_first_word(s: Seq<char>) -> Seq<char> {
    let t = trimmed_start(s);
    t.skip(word_len(t))
}

/// The first line of a request.
pub open spec fn request_line(request: Seq<char>) -> Seq<char> {
    request.take(first_index(request, '\n'))
}

/// The method of a request: the first word of its first line.
pub open spec fn request_method(request: Seq<char>) -> Seq<char> {
    first_word(request_line(request))
}

/// The target of a request: the second word of its first line, or `/`.
pub open spec fn request_target(request: Seq<char>) -> Seq<char> {
    let second = first_word(after_first_word(request_line(request)));
    if second.len() == 0 {
        "/"@
    } else {
        second
    }
}

/// A word is within its text.
pub proof fn lemma_word_len(s: Seq<char>)
    ensures
        0 <= word_len(s) <= s.len(),
    decreases s.len(),
{
    if s.len() > 0 && !is_space(s[0]) {
        lemma_word_len(s.drop_first());
    }
}

/// Scans one word from `from`, not going past `limit`: hands back where
/// the word starts and where it ends.
fn scan_word(chars: &Vec<char>, from: usize, limit: usize) -> (span: (usize, usize))
    requires
        from <= limit <= chars@.len(),
    ensures
        from <= span.0 <= span.1 <= limit,
        ({
            let s = chars@.subrange(from as int, limit as int);
            &&& chars@.subrange(span.0 as int, span.1 as int) == first_word(s)
            &&& chars@.subrange(span.1 as int, limit as int) == after_first_word(s)
        }),
{
    let ghost s = chars@.subrange(from as int, limit as int);
    let mut start: usize = from;
    assert(chars@.subrange(start as int, limit as int) =~= s);
    while start < limit && is_whitespace(chars[start])
        invariant
            from <= start <= limit <= chars@.len(),
            trimmed_start(s) == trimmed_start(chars@.subrange(start as int, limit as int)),
        decreases limit - start,
    {
        assert(chars@.subrange(start as int, limit as int).drop_first() =~= chars@.subrange(
            start + 1,
            limit as int,
        ));
        start += 1;
    }
    let ghost t = chars@.subrange(start as int, limit as int);
    assert(trimmed_start(s) == t);
    let mut end: usize = start;
    while end < limit && !is_whitespace(chars[end])
        invariant
            start <= end <= limit <= chars@.len(),
            t == chars@.subrange(start as int, limit as int),
            word_len(t) == (end - start) + word_len(chars@.subrange(end as int, limit as int)),
        decreases limit - end,
    {
        assert(chars@.subrange(end as int, limit as int).drop_first() =~= chars@.subrange(
            end + 1,
            limit as int,
        ));
        end += 1;
    }
    assert(word_len(t) == end - start);
    assert(chars@.subrange(start as int, end as int) =~= t.take(word_len(t)));
    assert(chars@.subrange(end as int, limit as int) =~= t.skip(word_len(t)));
    (start, end)
}

/// Reads the method and the target from the head of a request.
pub fn parse_request_line(request: &str) -> (parsed: (String, String))
    ensures
        parsed.0@ == request_method(request@),
        parsed.1@ == request_target(request@),
{
    let chars = chars_of(request);
    let mut line_end: usize = 0;
    assert(chars@.skip(0) =~= chars@);
    while line_end < chars.len() && chars[line_end] != '\n'
        invariant
            line_end <= chars@.len(),
            first_index(chars@, '\n') == line_end + first_index(
                chars@.skip(line_end as int),
                '\n',
            ),
        decreases chars@.len() - line_end,
    {
        assert(chars@.skip(line_end as int).drop_first() =~= chars@.skip(line_end + 1));
        line_end += 1;
    }
    assert(chars@.subrange(0, line_end as int) =~= request_line(request@));
    let method_span = scan_word(&chars, 0, line_end);
    let target_span = scan_word(&chars, method_span.1, line_end);
    let method = slice_chars(&chars, method_span.0, method_span.1);
    let target = slice_chars(&chars, target_span.0, target_span.1);
    let target_text = if target.len() == 0 {
        "/".to_owned()
    } else {
        string_of(&target)
    };
    (string_of(&method), target_text)
}

/// What the server does with a request.
pub enum Route {
    /// Answer 405: only GET and HEAD are served.
    MethodNotAllowed,
    /// Answer 400: the path tries to leave the root.
    BadRequest,
    /// Serve the file at this path under the root; for HEAD, without body.
    Serve { relative: String, head_only: bool },
}

/// A `Route` as plain values.
pub enum RouteView {
    MethodNotAllowed,
    BadRequest,
    Serve { relative: Seq<char>, head_only: bool },
}

impl View for Route {
    type V = RouteView;

    open spec fn view(&self) -> RouteView {
        match self {
            Route::MethodNotAllowed => RouteView::MethodNotAllowed,
            Route::BadRequest => RouteView::BadRequest,
            Route::Serve { relative, head_only } => RouteView::Serve {
                relative: relative@,
                head_only: *head_only,
            },
        }
    }
}

/// The text without the slashes at its start.
pub open spec fn without_leading_slashes(s: Seq<char>) -> Seq<char>
    decreases s.len(),
{
    if s.len() > 0 && s[0] == '/' {
        without_leading_slashes(s.drop_first())
    } else {
        s
    }
}

/// The route of a request whose target has been sanitized to `path`.
pub open spec fn route_of(method: Seq<char>, path: Seq<char>) -> RouteView {
    if method != "GET"@ && method != "HEAD"@ {
        RouteView::MethodNotAllowed
    } else if contains_text(path, "../"@) || contains_text(path, "./"@) {
        RouteView::BadRequest
    } else {
        RouteView::Serve {
            relative: if path == "/"@ {
                "index.html"@
            } else {
                without_leading_slashes(path)
            },
            head_only: method == "HEAD"@,
        }
    }
}

/// Decides what a request gets. `path` is the target after `sanitize_path`.
pub fn route_request(method: &str, path: &str) -> (route: Route)
    ensures
        route@ == route_of(method@, path@),
{
    let head_only = str_eq(method, "HEAD");
    if !str_eq(method, "GET") && !head_only {
        return Route::MethodNotAllowed;
    }
    if contains(path, "../") || contains(path, "./") {
        return Route::BadRequest;
    }
    let chars = chars_of(path);
    if chars_are(&chars, "/") {
        return Route::Serve { relative: "index.html".to_owned(), head_only };
    }
    let mut start: usize = 0;
    assert(chars@.skip(0) =~= chars@);
    while start < chars.len() && chars[start] == '/'
        invariant
            start <= chars@.len(),
            without_leading_slashes(chars@) == without_leading_slashes(chars@.skip(start as int)),
        decreases chars@.len() - start,
    {
        assert(chars@.skip(start as int).drop_first() =~= chars@.skip(start + 1));
        start += 1;
    }
    let rest = slice_chars(&chars, start, chars.len());
    assert(chars@.subrange(start as int, chars@.len() as int) =~= chars@.skip(start as int));
    Route::Serve { relative: string_of(&rest), head_only }
}

/// The head of a response.
pub open spec fn response_head_text(
    status: u16,
    reason: Seq<char>,
    mime: Seq<char>,
    body_len: usize,
) -> Seq<char> {
    "HTTP/1.1 "@ + decimal(status as nat) + " "@ + reason + "\r\nContent-Type: "@ + mime
        + "\r\nContent-Length: "@ + decimal(body_len as nat)
        + "\r\nCache-Control: no-cache\r\nConnection: close\r\n\r\n"@
}

pub fn response_head(status: u16, reason: &str, mime: &str, body_len: usize) -> (head: String)
    ensures
        head@ == response_head_text(status, reason@, mime@, body_len),
{
    let mut head: Vec<char> = Vec::new();
    push_str(&mut head, "HTTP/1.1 ");
    push_chars(&mut head, &decimal_chars(status as u64));
    push_str(&mut head, " ");
    push_str(&mut head, reason);
    push_str(&mut head, "\r\nContent-Type: ");
    push_str(&mut head, mime);
    push_str(&mut head, "\r\nContent-Length: ");
    push_chars(&mut head, &decimal_chars(body_len as u64));
    push_str(&mut head, "\r\nCache-Control: no-cache\r\nConnection: close\r\n\r\n");
    string_of(&head)
}

} // verus!
