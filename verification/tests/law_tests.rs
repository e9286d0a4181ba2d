use alakit::dom::{escape_backticks, escape_template};
use alakit::engine::{asset_path_for_uri, parse_ipc_message, AlakitEngine, IpcRequest};
use alakit::store::Store;

/// What a JavaScript template literal with this body evaluates to, when a
/// backslash escapes the next character.
fn template_value(body: &str) -> String {
    let mut out = String::new();
    let mut chars = body.chars();
    while let Some(c) = chars.next() {
        if c == '\\' {
            if let Some(n) = chars.next() {
                out.push(n);
            }
        } else {
            out.push(c);
        }
    }
    out
}

#[test]
fn store_values_are_ciphertext_at_rest() {
    let mut s = Store::new();
    s.set("secret", "hunter2");
    let c = s.ciphertext("secret").unwrap();
    assert_eq!(c.len(), "hunter2".len() + 16);
    assert!(!c.windows(7).any(|w| w == b"hunter2"));
    assert_eq!(s.ciphertext("none"), None);
    s.set("secret", "hunter2");
    assert_ne!(s.ciphertext("secret").unwrap(), c);
    assert_eq!(s.get("secret"), Some("hunter2".to_string()));
}

#[test]
fn template_escape_round_trip() {
    for s in ["plain", "`tick`", "${inject}", "mixed `$` and $`", ""] {
        let e = escape_template(s);
        assert_eq!(template_value(&e), s);
        let chars: Vec<char> = e.chars().collect();
        for (i, c) in chars.iter().enumerate() {
            if *c == '`' {
                assert!(i > 0 && chars[i - 1] == '\\');
            }
        }
    }
    assert_eq!(template_value(&escape_backticks("a`b")), "a`b");
}

#[test]
fn ipc_round_trips() {
    match parse_ipc_message("todo:add|buy milk|today") {
        IpcRequest::Command { controller, command, args } => {
            assert_eq!(controller, "todo");
            assert_eq!(command, "add");
            assert_eq!(args, "buy milk|today");
        }
        _ => panic!("expected a command"),
    }
    match parse_ipc_message("alakit_bin:img/wm|QUJD") {
        IpcRequest::Binary { controller, command, payload } => {
            assert_eq!((controller.as_str(), command.as_str(), payload.as_str()), ("img", "wm", "QUJD"));
        }
        _ => panic!("expected binary"),
    }
}

#[test]
fn trimmed_url_and_asset_names() {
    let e = AlakitEngine::new("t").with_initial_url("///a/b");
    assert_eq!(e.initial_url(), "a/b");
    let again = AlakitEngine::new("t").with_initial_url(e.initial_url());
    assert_eq!(again.initial_url(), "a/b");
    for uri in ["", "alakit://", "alakit://localhost//", "localhost", "x"] {
        assert!(!asset_path_for_uri(uri).is_empty());
    }
}

#[test]
fn page_address_names_the_page() {
    for page in ["index.html", "css/app.css", "localhost/a.css", "img/localhost.png", "a b/ü.js"] {
        let uri = format!("alakit://localhost/{}", page);
        assert_eq!(asset_path_for_uri(&uri), page);
    }
}
