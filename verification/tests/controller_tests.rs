use alakit::context::{AlakitController, AppContext, Effect};
use alakit::controllers::counter::CounterController;
use alakit::controllers::image::{FilterStep, ImageController, ImageFilter, WatermarkStep};
use alakit::controllers::movie::{MovieController, SearchPlan, ShowCard};
use alakit::controllers::vault::VaultController;

fn scripts(effects: &[Effect]) -> Vec<String> {
    effects
        .iter()
        .map(|e| match e {
            Effect::Run { script } => script.clone(),
            Effect::Print { line } => format!("PRINT {}", line),
        })
        .collect()
}

#[test]
fn counter_counts() {
    let mut ctx = AppContext::new();
    let c = CounterController;
    let out = c.handle("increment", "", &mut ctx);
    assert_eq!(ctx.store.get("count"), Some("1".to_string()));
    assert_eq!(
        scripts(&out),
        vec![
            "if (window.alakit_update_store) window.alakit_update_store(`count`, `1`);".to_string(),
            "console.log(`[RUST] Counter incremented: 1`);".to_string(),
        ]
    );
    c.handle("decrement", "", &mut ctx);
    c.handle("decrement", "", &mut ctx);
    assert_eq!(ctx.store.get("count"), Some("-1".to_string()));
    let out = c.handle("reset", "", &mut ctx);
    assert_eq!(ctx.store.get("count"), Some("0".to_string()));
    assert_eq!(out.len(), 3);
    let out = c.handle("jump", "", &mut ctx);
    assert_eq!(scripts(&out), vec!["PRINT Unknown command from Counter: jump".to_string()]);
}

#[test]
fn counter_reads_unparsable_as_zero_and_wraps() {
    let mut ctx = AppContext::new();
    ctx.store.set("count", "abc");
    CounterController.handle("increment", "", &mut ctx);
    assert_eq!(ctx.store.get("count"), Some("1".to_string()));
    ctx.store.set("count", "2147483647");
    CounterController.handle("increment", "", &mut ctx);
    assert_eq!(ctx.store.get("count"), Some("-2147483648".to_string()));
}

#[test]
fn vault_unlock_and_lock() {
    let mut ctx = AppContext::new();
    let v = VaultController;
    let denied = v.handle("unlock", r#"{"master-password":"nope"}"#, &mut ctx);
    assert_eq!(
        scripts(&denied),
        vec!["if (window.alakit_toast) window.alakit_toast('error', `Access Denied: Invalid Master Password.`);".to_string()]
    );
    assert_eq!(ctx.store.get("vault_unlocked"), None);
    let out = v.handle("unlock", r#"{"master-password":"alakit123"}"#, &mut ctx);
    assert_eq!(out.len(), 6);
    assert_eq!(ctx.store.get("vault_unlocked"), Some("true".to_string()));
    assert_eq!(ctx.store.get("vault_locked"), Some("false".to_string()));
    let data = ctx.store.get("vault_data").unwrap();
    assert_eq!(
        data,
        r#"[{"pass":"N3tfl!x_Rust","service":"Netflix","user":"felix@alakit.rs"},{"pass":"g1t_c0mm1t_pusH","service":"Github","user":"RustHero"},{"pass":"$uperS3cr3tB@nk!","service":"Banking App","user":"admin"}]"#
    );
    let html = scripts(&out)[1].clone();
    assert!(html.starts_with("var el = document.getElementById('password-list');"));
    assert!(html.contains("<h3>Netflix</h3>"));
    assert!(html.contains("window.copyToClipboard('$uperS3cr3tB@nk!')"));
    assert_eq!(scripts(&out)[5], "document.getElementById('master-password').value = ``;");
    let out = v.lock_vault(&mut ctx);
    assert_eq!(out.len(), 4);
    assert_eq!(ctx.store.get("vault_data"), None);
    assert_eq!(ctx.store.get("vault_unlocked"), Some("false".to_string()));
    assert_eq!(ctx.store.get("vault_locked"), Some("true".to_string()));
    let out = v.handle("open", "", &mut ctx);
    assert_eq!(
        scripts(&out),
        vec!["if (window.alakit_toast) window.alakit_toast('warning', `Unknown vault command: open`);".to_string()]
    );
}

#[test]
fn vault_without_json_is_denied() {
    let mut ctx = AppContext::new();
    let out = VaultController.unlock_vault(&mut ctx, "alakit123");
    assert_eq!(out.len(), 1);
    assert_eq!(ctx.store.get("vault_unlocked"), None);
}

#[test]
fn image_filter_steps() {
    let ctx = AppContext::new();
    let img = ImageController;
    assert!(matches!(img.filter_step(&ctx, "blur", false), FilterStep::NoImage { .. }));
    match img.filter_step(&ctx, " grayscale ", true) {
        FilterStep::Apply { filter, effects, message } => {
            assert!(matches!(filter, ImageFilter::Grayscale));
            assert_eq!(message, "Filter ( grayscale ): Kész");
            assert_eq!(scripts(&effects), vec!["console.log(`[RUST] Filter kérés érkezett: ' grayscale '`);".to_string()]);
        }
        _ => panic!("expected a filter"),
    }
    assert!(matches!(img.filter_step(&ctx, "invert", true), FilterStep::Apply { filter: ImageFilter::Invert, .. }));
    match img.filter_step(&ctx, "sepia", true) {
        FilterStep::Unknown { effects } => assert_eq!(
            scripts(&effects)[1],
            "if (window.alakit_toast) window.alakit_toast('error', `Ismeretlen filter: 'sepia'`);"
        ),
        _ => panic!("expected unknown"),
    }
}

#[test]
fn image_render() {
    let ctx = AppContext::new();
    let img = ImageController;
    let out = img.render_image_to_dom(&ctx, Some(&[0xff, 0xd8]), 12, "Done");
    let s = scripts(&out);
    assert_eq!(s.len(), 6);
    assert_eq!(s[3], "document.getElementById('image_view').setAttribute('src', `data:image/jpeg;base64,/9g=`);");
    assert_eq!(s[4], "document.getElementById('status_text').innerText = `Done (Feldolgozva 12ms alatt)`;");
    let out = img.render_image_to_dom(&ctx, None, 0, "x");
    assert_eq!(out.len(), 1);
}

fn packet(header: &str, pixels: &[u8]) -> Vec<u8> {
    let mut p = (header.len() as u32).to_le_bytes().to_vec();
    p.extend_from_slice(header.as_bytes());
    p.extend_from_slice(pixels);
    p
}

#[test]
fn watermark_packets() {
    let ctx = AppContext::new();
    let img = ImageController;
    assert!(matches!(img.watermark_step(&ctx, "other", &[]), WatermarkStep::Ignore));
    assert!(matches!(img.watermark_step(&ctx, "watermark", &[1, 0]), WatermarkStep::Reject { .. }));
    assert!(matches!(img.watermark_step(&ctx, "watermark", &[9, 0, 0, 0, b'{']), WatermarkStep::Reject { .. }));
    assert!(matches!(img.watermark_step(&ctx, "watermark", &packet("nope", &[])), WatermarkStep::Reject { .. }));
    match img.watermark_step(&ctx, "watermark", &packet(r#"{"w":2,"h":1}"#, &[1, 2, 3, 4, 5, 6, 7, 8])) {
        WatermarkStep::Place { width, height, pixels_start, effects } => {
            assert_eq!((width, height, pixels_start), (2, 1, 17));
            assert_eq!(scripts(&effects), vec!["console.log(`[RUST] Rust megkapta a Vízjelet: 2x1 - Px méret: 8`);".to_string()]);
        }
        _ => panic!("expected a watermark"),
    }
    match img.watermark_step(&ctx, "watermark", &packet(r#"{"w":4294967297}"#, &[])) {
        WatermarkStep::Place { width, height, .. } => assert_eq!((width, height), (1, 0)),
        _ => panic!("expected a watermark"),
    }
    assert_eq!(ImageController::watermark_offset(100, 50, 20, 70), (40, 0));
}

#[test]
fn movie_search() {
    let ctx = AppContext::new();
    let m = MovieController;
    assert_eq!(MovieController::search_query(r#"{"search":"girls"}"#), "girls");
    assert_eq!(MovieController::search_query(r#"{"other":1}"#), r#"{"other":1}"#);
    assert_eq!(MovieController::search_query("lost"), "lost");
    match m.handle("search", r#"{"search":"  "}"#, &ctx) {
        SearchPlan::Done { effects } => assert_eq!(
            scripts(&effects),
            vec!["if (window.alakit_toast) window.alakit_toast('info', `Please enter a search term!`);".to_string()]
        ),
        _ => panic!("expected a toast"),
    }
    match m.handle("search", "dark", &ctx) {
        SearchPlan::Fetch { url, effects } => {
            assert_eq!(url, "https://api.tvmaze.com/search/shows?q=dark");
            assert_eq!(scripts(&effects), vec!["console.log(`[RUST] Starting search for: dark`);".to_string()]);
        }
        _ => panic!("expected a fetch"),
    }
    match m.handle("play", "", &ctx) {
        SearchPlan::Done { effects } => assert_eq!(scripts(&effects), vec!["PRINT Unknown movie command: play".to_string()]),
        _ => panic!("expected a line"),
    }
}

#[test]
fn movie_results_html() {
    assert_eq!(
        MovieController::results_html(&vec![]),
        r#"<div class="empty-state"><p>No results found for your search.</p></div>"#
    );
    let shows = vec![
        ShowCard {
            name: "Dark".to_string(),
            genres: vec!["Drama".to_string(), "Mystery".to_string()],
            rating: Some("8.5".to_string()),
            poster: Some("p.jpg".to_string()),
        },
        ShowCard { name: "X".to_string(), genres: vec![], rating: None, poster: None },
    ];
    let html = MovieController::results_html(&shows);
    assert!(html.contains(r#"<img src="p.jpg" alt="Dark">"#));
    assert!(html.contains("<h3>Dark</h3>"));
    assert!(html.contains("⭐ 8.5</div>"));
    assert!(html.contains(r#"<div class="genres">Drama, Mystery</div>"#));
    assert!(html.contains(r#"<div class="no-poster">No poster</div>"#));
    assert!(html.contains("⭐ N/A</div>"));
    assert_eq!(html.matches("movie-card").count(), 2);
}
