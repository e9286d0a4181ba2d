use alakit::context::{AppContext, Effect};
use alakit::controllers::image::{FilterOutcome, ImageController};
use alakit::raster::{decode_image, encode_jpeg, grayscale, invert, overlay_rgba, ColorKind, Raster};

fn scripts(effects: &[Effect]) -> Vec<String> {
    effects
        .iter()
        .map(|e| match e {
            Effect::Run { script } => script.clone(),
            Effect::Print { line } => format!("PRINT {}", line),
        })
        .collect()
}

fn png_rgb(w: u32, h: u32, samples: &[u8]) -> Vec<u8> {
    let img = image::RgbImage::from_raw(w, h, samples.to_vec()).unwrap();
    let mut out = Vec::new();
    image::DynamicImage::ImageRgb8(img)
        .write_to(&mut std::io::Cursor::new(&mut out), image::ImageFormat::Png)
        .unwrap();
    out
}

fn rgba(w: u32, h: u32, fill: u8) -> Raster {
    Raster {
        width: w,
        height: h,
        kind: ColorKind::Rgba8,
        bytes: vec![fill; (w * h * 4) as usize],
        words: Vec::new(),
    }
}

fn packet(header: &str, pixels: &[u8]) -> Vec<u8> {
    let mut p = (header.len() as u32).to_le_bytes().to_vec();
    p.extend_from_slice(header.as_bytes());
    p.extend_from_slice(pixels);
    p
}

#[test]
fn decoding_a_png_gives_its_pixels() {
    let bytes = png_rgb(2, 1, &[255, 255, 255, 0, 0, 0]);
    let r = decode_image(&bytes, "pic.png").unwrap();
    assert!(r.is_well_formed());
    assert_eq!((r.width, r.height, r.kind), (2, 1, ColorKind::Rgb8));
    assert_eq!(r.bytes, vec![255, 255, 255, 0, 0, 0]);
    assert!(r.words.is_empty());
    assert!(decode_image(&[1, 2, 3], "pic.png").is_err());
    assert!(decode_image(&bytes, "pic.unknown").is_err());
}

#[test]
fn grayscale_and_invert_keep_the_size() {
    let r = decode_image(&png_rgb(2, 1, &[255, 255, 255, 0, 0, 0]), "a.png").unwrap();
    let g = grayscale(&r);
    assert_eq!((g.width, g.height, g.kind), (2, 1, ColorKind::L8));
    assert_eq!(g.bytes, vec![255, 0]);
    let i = invert(&r);
    assert_eq!((i.width, i.height, i.kind), (2, 1, ColorKind::Rgb8));
    assert_eq!(i.bytes, vec![0, 0, 0, 255, 255, 255]);
    let j = encode_jpeg(&r).unwrap();
    assert_eq!(&j[..2], &[0xff, 0xd8]);
}

#[test]
fn overlay_needs_all_watermark_pixels() {
    let base = rgba(4, 4, 0);
    assert!(overlay_rgba(&base, 2, 2, &[255; 15], 1, 1).is_none());
    let out = overlay_rgba(&base, 2, 2, &[255; 16], 1, 1).unwrap();
    assert_eq!((out.width, out.height, out.kind), (4, 4, ColorKind::Rgba8));
    for y in 0..4usize {
        for x in 0..4usize {
            let inside = (1..3).contains(&x) && (1..3).contains(&y);
            let expected = if inside { 255 } else { 0 };
            assert_eq!(out.bytes[(y * 4 + x) * 4], expected, "pixel {},{}", x, y);
        }
    }
}

#[test]
fn opening_a_file() {
    let ctx = AppContext::new();
    let img = ImageController;
    assert_eq!(
        scripts(&img.open_prompt(&ctx)),
        vec!["if (window.alakit_toast) window.alakit_toast('info', `Dilektálási párbeszédpanel megnyitva...`);".to_string()]
    );
    assert_eq!(
        scripts(&img.open_cancelled(&ctx)),
        vec!["if (window.alakit_toast) window.alakit_toast('info', `Képválasztás megszakítva.`);".to_string()]
    );
    let (none, out) = img.open_file(&ctx, "a.png", Err("no such file"));
    assert!(none.is_none());
    assert_eq!(
        scripts(&out),
        vec!["if (window.alakit_toast) window.alakit_toast('error', `Nem sikerült megnyitni a képet: no such file`);".to_string()]
    );
    let (none, out) = img.open_file(&ctx, "a.png", Ok(&[0, 1, 2]));
    assert!(none.is_none());
    assert!(scripts(&out)[0].contains("Nem sikerült megnyitni a képet: "));
    let bytes = png_rgb(1, 1, &[10, 20, 30]);
    let (opened, out) = img.open_file(&ctx, "a.png", Ok(&bytes));
    let opened = opened.unwrap();
    assert_eq!(opened.bytes, vec![10, 20, 30]);
    let s = scripts(&out);
    assert_eq!(s.len(), 6);
    assert!(s[3].contains("data:image/jpeg;base64,/9j/"));
    assert!(s[4].contains("Kép sikeresen betöltve a lemezről. (Feldolgozva "));
}

#[test]
fn filters_on_the_open_image() {
    let ctx = AppContext::new();
    let img = ImageController;
    match img.apply_filter(&ctx, None, "grayscale") {
        FilterOutcome::Unchanged { effects } => assert_eq!(
            scripts(&effects),
            vec!["if (window.alakit_toast) window.alakit_toast('error', `Nincs megnyitott kép!`);".to_string()]
        ),
        _ => panic!("expected no change"),
    }
    let cur = decode_image(&png_rgb(2, 1, &[255, 255, 255, 0, 0, 0]), "a.png").unwrap();
    match img.apply_filter(&ctx, Some(&cur), " grayscale ") {
        FilterOutcome::Applied { image, effects } => {
            assert_eq!(image.kind, ColorKind::L8);
            assert_eq!(image.bytes, vec![255, 0]);
            let s = scripts(&effects);
            assert_eq!(s.len(), 7);
            assert_eq!(s[0], "console.log(`[RUST] Filter kérés érkezett: ' grayscale '`);");
            assert!(s[5].contains("Filter ( grayscale ): Kész (Feldolgozva "));
        }
        _ => panic!("expected a grey image"),
    }
    match img.apply_filter(&ctx, Some(&cur), "invert") {
        FilterOutcome::Applied { image, .. } => assert_eq!(image.bytes, vec![0, 0, 0, 255, 255, 255]),
        _ => panic!("expected an inverted image"),
    }
    match img.apply_filter(&ctx, Some(&cur), "blur") {
        FilterOutcome::Blur { effects, message } => {
            assert_eq!(message, "Filter (blur): Kész");
            assert_eq!(effects.len(), 1);
        }
        _ => panic!("expected a blur"),
    }
    match img.apply_filter(&ctx, Some(&cur), "sepia") {
        FilterOutcome::Unchanged { effects } => assert_eq!(
            scripts(&effects)[1],
            "if (window.alakit_toast) window.alakit_toast('error', `Ismeretlen filter: 'sepia'`);"
        ),
        _ => panic!("expected an unknown filter"),
    }
}

#[test]
fn watermark_goes_over_the_middle() {
    let ctx = AppContext::new();
    let img = ImageController;
    let cur = rgba(4, 4, 0);
    let p = packet(r#"{"w":2,"h":2}"#, &[255; 16]);
    let (none, out) = img.apply_watermark(&ctx, None, "watermark", &p);
    assert!(none.is_none());
    assert_eq!(
        scripts(&out)[1],
        "if (window.alakit_toast) window.alakit_toast('error', `Nincs megnyitott kép, amin alkalmazhatnám a vízjelet!`);"
    );
    let (none, out) = img.apply_watermark(&ctx, Some(&cur), "watermark", &packet(r#"{"w":2,"h":2}"#, &[255; 15]));
    assert!(none.is_none());
    assert_eq!(
        scripts(&out),
        vec![
            "console.log(`[RUST] Rust megkapta a Vízjelet: 2x2 - Px méret: 15`);".to_string(),
            "if (window.alakit_toast) window.alakit_toast('error', `Érvénytelen nyers pixel adat a vízjelhez!`);".to_string(),
        ]
    );
    let (placed, out) = img.apply_watermark(&ctx, Some(&cur), "watermark", &p);
    let placed = placed.unwrap();
    assert_eq!((placed.width, placed.height), (4, 4));
    assert_eq!(placed.bytes[(1 * 4 + 1) * 4], 255);
    assert_eq!(placed.bytes[0], 0);
    let s = scripts(&out);
    assert_eq!(s.len(), 7);
    assert!(s[5].contains("Vízjel sikeresen rásütve! (Feldolgozva "));
    let (none, out) = img.apply_watermark(&ctx, Some(&cur), "other", &p);
    assert!(none.is_none() && out.is_empty());
}

#[test]
fn well_formed_rasters() {
    assert!(rgba(3, 2, 7).is_well_formed());
    let mut short = rgba(3, 2, 7);
    short.bytes.pop();
    assert!(!short.is_well_formed());
    let mut mixed = rgba(1, 1, 0);
    mixed.words.push(1);
    assert!(!mixed.is_well_formed());
    let wide = Raster { width: 2, height: 2, kind: ColorKind::L16, bytes: Vec::new(), words: vec![0; 4] };
    assert!(wide.is_well_formed());
    let empty = Raster { width: 0, height: 5, kind: ColorKind::Rgb8, bytes: Vec::new(), words: Vec::new() };
    assert!(empty.is_well_formed());
}

#[test]
fn inverting_twice_gives_the_image_back() {
    let ctx = AppContext::new();
    let img = ImageController;
    let cur = decode_image(&png_rgb(2, 1, &[10, 200, 30, 0, 128, 255]), "a.png").unwrap();
    let once = match img.apply_filter(&ctx, Some(&cur), "invert") {
        FilterOutcome::Applied { image, .. } => image,
        _ => panic!("expected an inverted image"),
    };
    assert_eq!(once.bytes, vec![245, 55, 225, 255, 127, 0]);
    match img.apply_filter(&ctx, Some(&once), " invert ") {
        FilterOutcome::Applied { image, .. } => {
            assert_eq!((image.width, image.height, image.kind), (cur.width, cur.height, cur.kind));
            assert_eq!(image.bytes, cur.bytes);
        }
        _ => panic!("expected an inverted image"),
    }
}

#[test]
fn jpeg_of_each_eight_bit_kind() {
    for (kind, ch) in [(ColorKind::L8, 1u32), (ColorKind::Rgb8, 3), (ColorKind::La8, 2), (ColorKind::Rgba8, 4)] {
        let r = Raster { width: 3, height: 2, kind, bytes: vec![100; (3 * 2 * ch) as usize], words: Vec::new() };
        assert!(r.is_well_formed());
        let _ = encode_jpeg(&r);
    }
}
