// The page written out, the routing of requests, and the console.
use rwui::server::{index_response, page_html, quit_requested, route_request, HTTP_OK};
use rwui::{GuiCfg, Route};

fn lines(v: &[&str]) -> Vec<String> {
    v.iter().map(|s| s.to_string()).collect()
}

#[test]
fn page_holds_body_then_script() {
    let mut gc = GuiCfg::default();
    let (_cbs, mut body) = gc.init::<()>("Mini");
    let lb = gc.label_new("0");
    body.add(&lb);
    let page = page_html(&body);
    assert_eq!(
        page,
        format!(
            "{}{}\n<script>\n{}\n</script>\n</body>\n</html>\n",
            body.html(),
            body.h_end(),
            body.js()
        )
    );
    assert!(page.contains("<label class=\"m-2\" id=ID1>0</label>"));
}

#[test]
fn answer_carries_page() {
    assert_eq!(HTTP_OK, "HTTP/1.1 200 OK\r\n\r\n");
    assert_eq!(index_response("<p>"), "HTTP/1.1 200 OK\r\n\r\n<p>");
}

#[test]
fn static_files_are_routed() {
    match route_request(&lines(&["GET /static/web2.css HTTP/1.1", "Host: x"])) {
        Route::StaticFile(p) => assert_eq!(p, "static/web2.css"),
        _ => panic!("expected a static file"),
    }
}

#[test]
fn other_requests_get_the_page() {
    assert!(matches!(route_request(&lines(&["GET / HTTP/1.1"])), Route::Index));
    assert!(matches!(route_request(&lines(&["GET /favicon.ico HTTP/1.1"])), Route::Index));
    assert!(matches!(route_request(&lines(&["POST /static/x HTTP/1.1"])), Route::Index));
    assert!(matches!(route_request(&lines(&["GET /STATIC/x HTTP/1.1"])), Route::Index));
}

#[test]
fn malformed_requests() {
    assert!(matches!(route_request(&lines(&[])), Route::Malformed));
    assert!(matches!(route_request(&lines(&["   "])), Route::Malformed));
    assert!(matches!(route_request(&lines(&["GET"])), Route::Malformed));
}

#[test]
fn quit_on_q() {
    assert!(quit_requested("q\n"));
    assert!(quit_requested("  Q \r\n"));
    assert!(!quit_requested("quit\n"));
    assert!(!quit_requested("q q\n"));
    assert!(!quit_requested("\n"));
}
