use alakit::engine::{
    asset_path_for_uri, asset_response, css_injection_script, handle_ipc_message,
    handle_ipc_message_checked, find_registration,
    initialization_script, parse_ipc_message, AlakitEngine, AssetProvider, IpcAction, IpcRequest,
    NoAssets,
};
use alakit::store::Store;

#[test]
fn engine_settings() {
    let e = AlakitEngine::new("Demo");
    assert_eq!(e.title(), "Demo");
    assert_eq!(e.ui_dir(), "ui");
    assert_eq!(e.initial_url(), "index.html");
    let e = e.with_ui_dir("/tmp/ui").with_initial_url("//pages/start.html");
    assert_eq!(e.ui_dir(), "/tmp/ui");
    assert_eq!(e.initial_url(), "pages/start.html");
    assert_eq!(e.title(), "Demo");
    assert_eq!(e.start_url(), "alakit://localhost/pages/start.html");
}

#[test]
fn no_assets_has_no_files() {
    assert_eq!(NoAssets.get("index.html"), None);
}

#[test]
fn asset_paths() {
    assert_eq!(asset_path_for_uri("alakit://localhost/index.html"), "index.html");
    assert_eq!(asset_path_for_uri("alakit://localhost/css/app.css"), "css/app.css");
    assert_eq!(asset_path_for_uri("alakit://localhost/"), "index.html");
    assert_eq!(asset_path_for_uri("alakit://localhost"), "index.html");
    assert_eq!(asset_path_for_uri("alakit://js/x.js"), "js/x.js");
    assert_eq!(asset_path_for_uri("http://localhost:8080/a"), ":8080/a");
    assert_eq!(asset_path_for_uri("http://alakit.localhost/x"), "x");
    assert_eq!(asset_path_for_uri("http://alakit.localhost/"), "index.html");
    assert_eq!(asset_path_for_uri("alakit://localhost/localhost/a.css"), "localhost/a.css");
    assert_eq!(asset_path_for_uri("alakit://localhost/img/localhost.png"), "img/localhost.png");
    assert_eq!(asset_path_for_uri("alakit://localhost//x.js"), "x.js");
}

#[test]
fn asset_responses() {
    let found = asset_response("style.css", Some(b"body{}".to_vec()));
    assert_eq!(found.body, b"body{}".to_vec());
    assert_eq!(found.mime_type, "text/css");
    let html = asset_response("index.html", Some(vec![1]));
    assert_eq!(html.mime_type, "text/html");
    let missing = asset_response("nope.js", None);
    assert_eq!(missing.body, b"404 Not Found".to_vec());
    assert_eq!(missing.mime_type, "text/plain");
}

#[test]
fn injection_scripts() {
    let css = css_injection_script("a{content:`$`}");
    assert!(css.contains("style.textContent = `a{content:\\`\\$\\`}`;"));
    assert!(css.starts_with("\n            (function() {"));
    let init = initialization_script("core();", "b{}");
    assert!(init.starts_with("core();\n\n            (function() {"));
}

#[test]
fn parse_messages() {
    match parse_ipc_message("counter:increment|{}") {
        IpcRequest::Command { controller, command, args } => {
            assert_eq!(controller, "counter");
            assert_eq!(command, "increment");
            assert_eq!(args, "{}");
        }
        _ => panic!("expected a command"),
    }
    match parse_ipc_message("vault:lock") {
        IpcRequest::Command { command, args, .. } => {
            assert_eq!(command, "lock");
            assert_eq!(args, "");
        }
        _ => panic!("expected a command"),
    }
    match parse_ipc_message("alakit_bin:image/watermark|AAEC") {
        IpcRequest::Binary { controller, command, payload } => {
            assert_eq!(controller, "image");
            assert_eq!(command, "watermark");
            assert_eq!(payload, "AAEC");
        }
        _ => panic!("expected binary"),
    }
    assert!(matches!(parse_ipc_message("alakit_bin:nopath|AA"), IpcRequest::BadBinaryPath { .. }));
    assert!(matches!(parse_ipc_message("alakit_bin:a/b"), IpcRequest::Ignored));
    assert!(matches!(parse_ipc_message("no colon"), IpcRequest::Ignored));
    assert!(matches!(parse_ipc_message("alakit:log|{}"), IpcRequest::Internal { .. }));
}

#[test]
fn ipc_binary_payload_is_decoded() {
    let mut store = Store::new();
    match handle_ipc_message("alakit_bin:image/watermark|AAEC", &mut store) {
        IpcAction::Binary { payload, .. } => assert_eq!(payload, vec![0u8, 1, 2]),
        _ => panic!("expected binary"),
    }
    match handle_ipc_message("alakit_bin:image/watermark|!!!!", &mut store) {
        IpcAction::ReportBadPayload { error } => assert_eq!(error, "Invalid symbol 33, offset 0."),
        _ => panic!("expected a decoding error"),
    }
    assert!(!store.has_failed());
}

#[test]
fn ipc_init_writes_once() {
    let mut store = Store::new();
    match handle_ipc_message(r#"alakit:init|{"key":"theme","val":"dark"}"#, &mut store) {
        IpcAction::Send { script } => assert_eq!(
            script,
            "if (window.alakit_update_store) window.alakit_update_store(`theme`, `dark`);"
        ),
        _ => panic!("expected a script"),
    }
    assert_eq!(store.get("theme"), Some("dark".to_string()));
    assert!(matches!(
        handle_ipc_message(r#"alakit:init|{"key":"theme","val":"light"}"#, &mut store),
        IpcAction::Nothing
    ));
    assert_eq!(store.get("theme"), Some("dark".to_string()));
    assert!(matches!(
        handle_ipc_message(r#"alakit:init|{"key":"","val":"x"}"#, &mut store),
        IpcAction::Nothing
    ));
    assert!(matches!(handle_ipc_message("alakit:init|not json", &mut store), IpcAction::Nothing));
}

#[test]
fn ipc_log_and_unknown() {
    let mut store = Store::new();
    match handle_ipc_message(r#"alakit:log|{"level":"error","msg":"boom"}"#, &mut store) {
        IpcAction::Print { line } => assert_eq!(line, "🔴 [JS ERROR] boom"),
        _ => panic!("expected a line"),
    }
    match handle_ipc_message(r#"alakit:log|{"level":"warn","msg":"hm"}"#, &mut store) {
        IpcAction::Print { line } => assert_eq!(line, "🟡 [JS WARN]  hm"),
        _ => panic!("expected a line"),
    }
    match handle_ipc_message(r#"alakit:log|{"msg":"hi"}"#, &mut store) {
        IpcAction::Print { line } => assert_eq!(line, "🌐 [JS LOG]   hi"),
        _ => panic!("expected a line"),
    }
    match handle_ipc_message("alakit:reboot|", &mut store) {
        IpcAction::Print { line } => assert_eq!(line, "⚠️ [ALAKIT] Ismeretlen belső parancs: reboot"),
        _ => panic!("expected a line"),
    }
    match handle_ipc_message("counter:reset", &mut store) {
        IpcAction::Dispatch { controller, command, args } => {
            assert_eq!((controller.as_str(), command.as_str(), args.as_str()), ("counter", "reset", ""));
        }
        _ => panic!("expected a dispatch"),
    }
}

#[test]
fn checked_handling_agrees() {
    let mut store = Store::new();
    match handle_ipc_message_checked(r#"alakit:init|{"key":"k","val":"v"}"#, &mut store) {
        Some(IpcAction::Send { script }) => {
            assert_eq!(script, "if (window.alakit_update_store) window.alakit_update_store(`k`, `v`);")
        }
        _ => panic!("expected the init script"),
    }
    assert_eq!(store.get("k"), Some("v".to_string()));
    assert!(matches!(
        handle_ipc_message_checked(r#"alakit:init|{"key":"k","val":"w"}"#, &mut store),
        Some(IpcAction::Nothing)
    ));
    assert_eq!(store.get("k"), Some("v".to_string()));
    match handle_ipc_message_checked("counter:increment|5", &mut store) {
        Some(IpcAction::Dispatch { controller, command, args }) => {
            assert_eq!((controller.as_str(), command.as_str(), args.as_str()), ("counter", "increment", "5"))
        }
        _ => panic!("expected a dispatch"),
    }
    assert!(matches!(handle_ipc_message_checked("alakit:foo", &mut store), Some(IpcAction::Print { .. })));
    assert!(matches!(handle_ipc_message_checked("no colon", &mut store), Some(IpcAction::Nothing)));
}

#[test]
fn first_registration_answers() {
    let names = vec!["counter", "vault", "counter", "image"];
    assert_eq!(find_registration(&names, "counter"), Some(0));
    assert_eq!(find_registration(&names, "image"), Some(3));
    assert_eq!(find_registration(&names, "movie"), None);
    assert_eq!(find_registration(&Vec::new(), "counter"), None);
}
