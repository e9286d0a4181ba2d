use alakit::codegen::{
    asset_name, controller_module_decl, derive_asset_key, is_controller_source, xor_with_key,
    seal_files, EmbeddedAssets,
};
use alakit::engine::AssetProvider;

#[test]
fn asset_key_follows_the_generator() {
    let seed: u64 = 1234567;
    let key = derive_asset_key(seed);
    let mut s = seed;
    for i in 0..32 {
        s = s.wrapping_mul(6364136223846793005).wrapping_add(1442695040888963407);
        assert_eq!(key[i], (s >> 32) as u8);
    }
}

#[test]
fn xor_round_trip() {
    let key = derive_asset_key(42);
    let data: Vec<u8> = (0..100u8).collect();
    let hidden = xor_with_key(&data, &key);
    assert_ne!(hidden, data);
    assert_eq!(hidden[33], data[33] ^ key[1]);
    assert_eq!(xor_with_key(&hidden, &key), data);
}

#[test]
fn asset_names_and_modules() {
    assert_eq!(asset_name("", "index.html"), "index.html");
    assert_eq!(asset_name("css", "app.css"), "css/app.css");
    assert_eq!(asset_name("a\\b", "c.js"), "a/b/c.js");
    assert!(is_controller_source(Some("rs"), "counter"));
    assert!(!is_controller_source(Some("rs"), "mod"));
    assert!(!is_controller_source(Some("txt"), "notes"));
    assert!(!is_controller_source(None, "README"));
    assert_eq!(
        controller_module_decl("C:\\app\\src\\controllers\\counter.rs", "counter"),
        "#[path = \"C:\\\\app\\\\src\\\\controllers\\\\counter.rs\"]\npub mod counter;\n"
    );
}

#[test]
fn embedded_assets_serve_files_as_on_disk() {
    let key = derive_asset_key(42);
    let files = vec![
        ("index.html".to_string(), b"<h1>hi</h1>".to_vec()),
        ("css/app.css".to_string(), b"body{}".to_vec()),
        ("empty.txt".to_string(), Vec::new()),
    ];
    let sealed: Vec<(String, Vec<u8>)> =
        files.iter().map(|(n, b)| (n.clone(), xor_with_key(b, &key))).collect();
    assert_ne!(sealed[0].1, files[0].1);
    let assets = EmbeddedAssets::new(key, sealed);
    for (name, bytes) in &files {
        assert_eq!(assets.get(name), Some(bytes.clone()));
    }
    assert_eq!(assets.get("missing.js"), None);
    assert_eq!(assets.get("INDEX.HTML"), None);
}

#[test]
fn provider_from_files_serves_them() {
    let key = derive_asset_key(7);
    let files = vec![
        ("a.js".to_string(), b"let x = 1;".to_vec()),
        ("img/b.png".to_string(), vec![0u8, 255, 17]),
    ];
    let sealed = seal_files(&files, &key);
    assert_eq!(sealed.len(), 2);
    assert_eq!(sealed[1].0, "img/b.png");
    assert_eq!(xor_with_key(&sealed[1].1, &key), files[1].1);
    let assets = EmbeddedAssets::from_files(key, &files);
    assert_eq!(assets.get("a.js"), Some(b"let x = 1;".to_vec()));
    assert_eq!(assets.get("img/b.png"), Some(vec![0u8, 255, 17]));
    assert_eq!(assets.get("b.png"), None);
}
