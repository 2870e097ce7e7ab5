//! What the page server decides: the page it writes out, which file a
//! browser request asks for, and when the console asks to quit.
use crate::elem::{Elem, ElemView};
use crate::text::{
    is_ws, lemma_ws_tokens_concat, lemma_ws_tokens_single, split_whitespace, starts_with,
    string_views, ws_tokens,
};
use vstd::prelude::*;
use vstd::string::*;

verus! {

/// The status line and empty header block of every answer.
pub const HTTP_OK: &'static str = "HTTP/1.1 200 OK\r\n\r\n";

/// The page written for `body`: its markup, its closing markup, then its
/// script inside a `script` tag, and the end of the document.
pub open spec fn page_text(body: ElemView) -> Seq<char> {
    body.html + body.h_end + "\n<script>\n"@ + body.js + "\n</script>\n</body>\n</html>\n"@
}

/// The page written for `body`.
pub fn page_html(body: &Elem) -> (r: String)
    ensures
        r@ == page_text(body@),
{
    let mut r = String::from_str(body.html());
    r.append(body.h_end());
    r.append("\n<script>\n");
    r.append(body.js());
    r.append("\n</script>\n</body>\n</html>\n");
    r
}

/// The answer that carries the page `content`.
pub fn index_response(content: &str) -> (r: String)
    ensures
        r@ == HTTP_OK@ + content@,
{
    let mut r = String::from_str(HTTP_OK);
    r.append(content);
    r
}

/// What a browser request asks for.
pub enum Route {
    /// A file below `static/`, by its path relative to the server.
    StaticFile(String),
    /// The page.
    Index,
    /// A request without the request line the server reads.
    Malformed,
}

pub enum RouteView {
    StaticFile(Seq<char>),
    Index,
    Malformed,
}

impl View for Route {
    type V = RouteView;

    open spec fn view(&self) -> RouteView {
        match self {
            Route::StaticFile(p) => RouteView::StaticFile(p@),
            Route::Index => RouteView::Index,
            Route::Malformed => RouteView::Malformed,
        }
    }
}

/// `p` begins with `prefix`.
pub open spec fn has_prefix(p: Seq<char>, prefix: Seq<char>) -> bool {
    prefix.len() <= p.len() && p.take(prefix.len() as int) == prefix
}

/// The route of a request, given its header lines: a `GET` of a path
/// under `/static/` asks for that file (the path without its leading `/`);
/// any other request asks for the page; a request whose first line is
/// missing, blank, or a bare `GET` is malformed.
pub open spec fn route_of(lines: Seq<Seq<char>>) -> RouteView {
    if lines.len() == 0 {
        RouteView::Malformed
    } else {
        let toks = ws_tokens(lines[0]);
        if toks.len() == 0 {
            RouteView::Malformed
        } else if toks[0] == "GET"@ {
            if toks.len() < 2 {
                RouteView::Malformed
            } else if has_prefix(toks[1], "/static/"@) {
                RouteView::StaticFile(toks[1].skip(1))
            } else {
                RouteView::Index
            }
        } else {
            RouteView::Index
        }
    }
}

/// The route of a request, given its header lines.
pub fn route_request(lines: &Vec<String>) -> (r: Route)
    ensures
        r@ == route_of(string_views(lines@)),
{
    if lines.len() == 0 {
        return Route::Malformed;
    }
    let toks = split_whitespace(lines[0].as_str());
    assert(string_views(lines@)[0] == lines@[0]@);
    if toks.len() == 0 {
        return Route::Malformed;
    }
    assert(string_views(toks@)[0] == toks@[0]@);
    let get = String::from_str("GET");
    if toks[0] == get {
        if toks.len() < 2 {
            return Route::Malformed;
        }
        assert(string_views(toks@)[1] == toks@[1]@);
        let path = toks[1].as_str();
        proof {
            reveal_strlit("/static/");
        }
        if starts_with(path, "/static/") {
            let n = path.unicode_len();
            let rest = path.substring_char(1, n);
            assert(rest@ =~= path@.skip(1));
            Route::StaticFile(String::from_str(rest))
        } else {
            Route::Index
        }
    } else {
        Route::Index
    }
}

/// Whether a console line asks to quit: it is `q` or `Q`, give or take
/// surrounding whitespace.
pub open spec fn is_quit(line: Seq<char>) -> bool {
    ws_tokens(line) == seq!["q"@] || ws_tokens(line) == seq!["Q"@]
}

/// Whether a console line asks to quit.
pub fn quit_requested(line: &str) -> (r: bool)
    ensures
        r == is_quit(line@),
{
    let toks = split_whitespace(line);
    if toks.len() != 1 {
        assert(!is_quit(line@)) by {
            assert(string_views(toks@).len() == toks@.len());
        }
        return false;
    }
    assert(string_views(toks@) =~= seq![toks@[0]@]);
    let q = String::from_str("q");
    let big_q = String::from_str("Q");
    let r = toks[0] == q || toks[0] == big_q;
    proof {
        let t = toks@[0]@;
        if seq![t] == seq!["q"@] {
            assert(seq![t][0] == seq!["q"@][0]);
        }
        if seq![t] == seq!["Q"@] {
            assert(seq![t][0] == seq!["Q"@][0]);
        }
    }
    r
}

/// A browser's request line `GET <path> <rest>`: a path under `/static/`
/// gets that file (the path without its leading `/`), any other path gets
/// the page.
pub proof fn law_get_route(path: Seq<char>, rest: Seq<char>)
    requires
        path.len() > 0,
        forall|p: int| 0 <= p < path.len() ==> !is_ws(#[trigger] path[p]),
    ensures
        route_of(seq!["GET"@ + seq![' '] + path + seq![' '] + rest]) == if has_prefix(
            path,
            "/static/"@,
        ) {
            RouteView::StaticFile(path.skip(1))
        } else {
            RouteView::Index
        },
{
    reveal_strlit("GET");
    let get = "GET"@;
    let sp = seq![' '];
    assert forall|p: int| 0 <= p < get.len() implies !is_ws(#[trigger] get[p]) by {}
    lemma_ws_tokens_single(get);
    assert((get + sp).drop_last() =~= get);
    assert(ws_tokens(get + sp) == ws_tokens(get));
    lemma_ws_tokens_concat(get + sp, path);
    lemma_ws_tokens_single(path);
    let first = get + sp + path;
    assert((first + sp).drop_last() =~= first);
    assert(ws_tokens(first + sp) == ws_tokens(first));
    lemma_ws_tokens_concat(first + sp, rest);
    let line = get + sp + path + sp + rest;
    assert(line =~= (first + sp) + rest);
    let toks = ws_tokens(line);
    assert(toks =~= seq![get, path] + ws_tokens(rest));
    assert(toks[0] == get);
    assert(toks[1] == path);
}

} // verus!
