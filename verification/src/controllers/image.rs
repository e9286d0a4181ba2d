//! The image editor application: opening an image file, its filters and the
//! watermark, and what the page shows of each result. The file dialog, the
//! file read and the blur filter (whose radius is a float) are left to the
//! application layer.

use vstd::prelude::*;
use vstd::utf8::{decode_utf8, valid_utf8};
use crate::codec::{base64_encode, base64_encoded, json_u64_field, json_u64_member, utf8_string};
use crate::context::{effects_view, AppContext, Effect, EffectView};
use crate::dom::{
    concat3, concat5, log_script, set_attribute_script, set_style_script, set_text_script,
    toast_script,
};
use crate::number::{nat_decimal, u128_to_string, usize_to_string};
use crate::raster::{
    decode_image, decoded_image, encode_jpeg, gray_kind, grayscale, grayscaled, invert, inverted,
    jpeg_encoded, overlaid, overlay_rgba, Raster, RasterView,
};
use crate::text::{push_str, str_equal, trim, trimmed};

verus! {

/// The image operations of the editor.
pub enum ImageFilter {
    Grayscale,
    Invert,
    Blur,
}

/// The controller of the image editor.
#[derive(Default)]
pub struct ImageController;

/// The data URL of a JPEG image given as Base64 text.
pub open spec fn jpeg_data_url(encoded: Seq<char>) -> Seq<char> {
    "data:image/jpeg;base64,"@ + encoded
}

/// The status line after an image was processed.
pub open spec fn status_line(message: Seq<char>, elapsed_ms: nat) -> Seq<char> {
    message + " (Feldolgozva "@ + nat_decimal(elapsed_ms) + "ms alatt)"@
}

/// What the page shows after an image was processed: the editing panels, the
/// image from its Base64 JPEG text, the status line and a toast; or an error
/// toast when the image could not be encoded as JPEG.
pub open spec fn shown_effects(encoded: Option<Seq<char>>, elapsed_ms: nat, message: Seq<char>) -> Seq<
    EffectView,
> {
    match encoded {
        Some(e) => seq![
            EffectView::Run { script: set_style_script("preview_step"@, "display"@, "flex"@) },
            EffectView::Run { script: set_style_script("filter_buttons"@, "display"@, "flex"@) },
            EffectView::Run { script: set_style_script("watermark_tool"@, "display"@, "block"@) },
            EffectView::Run { script: set_attribute_script("image_view"@, "src"@, jpeg_data_url(e)) },
            EffectView::Run {
                script: set_text_script("status_text"@, status_line(message, elapsed_ms)),
            },
            EffectView::Run { script: toast_script("success"@, "Kép sikeresen renderelve!"@) },
        ],
        None => seq![
            EffectView::Run { script: toast_script("error"@, "Hiba a kép Jpeg kódolása közben!"@) },
        ],
    }
}

/// What the `filter` command does before the image operation: nothing but an
/// error toast without an image; otherwise a log line, then the operation
/// named by the trimmed arguments, or an error toast for an unknown one.
pub enum FilterStep {
    NoImage { effects: Vec<Effect> },
    Unknown { effects: Vec<Effect> },
    Apply { filter: ImageFilter, effects: Vec<Effect>, message: String },
}

/// The operation that the trimmed arguments name.
pub open spec fn filter_named(name: Seq<char>) -> Option<ImageFilter> {
    if name == "grayscale"@ {
        Some(ImageFilter::Grayscale)
    } else if name == "invert"@ {
        Some(ImageFilter::Invert)
    } else if name == "blur"@ {
        Some(ImageFilter::Blur)
    } else {
        None
    }
}

/// The log line of a filter request.
pub open spec fn filter_log(args: Seq<char>) -> Seq<char> {
    "Filter kérés érkezett: '"@ + args + "'"@
}

/// What the binary `watermark` command asks for.
pub enum WatermarkStep {
    /// Another binary command: nothing to do.
    Ignore,
    /// A malformed packet: the effects report it.
    Reject { effects: Vec<Effect> },
    /// A watermark of `width` x `height` pixels whose RGBA bytes start at
    /// `pixels_start` in the payload; the effects log it.
    Place { width: u32, height: u32, pixels_start: usize, effects: Vec<Effect> },
}

/// The `u32` that four bytes hold, least significant first (`u32::from_le_bytes`).
pub open spec fn le_u32(b0: u8, b1: u8, b2: u8, b3: u8) -> int {
    b0 as int + b1 as int * 0x100 + b2 as int * 0x1_0000 + b3 as int * 0x100_0000
}

/// The header text of a watermark packet: its bytes as UTF-8, or `{}` when
/// they are not valid UTF-8.
pub open spec fn header_text(bytes: Seq<u8>) -> Seq<char> {
    if valid_utf8(bytes) {
        decode_utf8(bytes)
    } else {
        "{}"@
    }
}

/// A member of the header as a `u32`: its `u64` value cut to 32 bits, or 0.
pub open spec fn dimension_of(m: Option<u64>) -> u32 {
    match m {
        Some(v) => (v % 0x1_0000_0000) as u32,
        None => 0u32,
    }
}

/// The log line of a received watermark.
pub open spec fn watermark_log(w: u32, h: u32, pixels: nat) -> Seq<char> {
    "Rust megkapta a Vízjelet: "@ + nat_decimal(w as nat) + "x"@ + nat_decimal(h as nat)
        + " - Px méret: "@ + nat_decimal(pixels)
}

/// The view of a watermark step: `None` to ignore; `Some((None, effects))` to
/// reject; `Some((Some((w, h, start)), effects))` to place.
pub open spec fn watermark_view(s: WatermarkStep) -> Option<(Option<(u32, u32, usize)>, Seq<EffectView>)> {
    match s {
        WatermarkStep::Ignore => None,
        WatermarkStep::Reject { effects } => Some((None, effects_view(effects@))),
        WatermarkStep::Place { width, height, pixels_start, effects } => Some(
            (Some((width, height, pixels_start)), effects_view(effects@)),
        ),
    }
}

/// What a watermark packet asks for, from the members `w` and `h` of its
/// header: a header that is not JSON is rejected; otherwise the dimensions
/// are placed and logged.
pub open spec fn watermark_from_members_view(
    w: Option<Option<u64>>,
    h: Option<Option<u64>>,
    pixels_len: nat,
    pixels_start: usize,
) -> Option<(Option<(u32, u32, usize)>, Seq<EffectView>)> {
    match w {
        None => Some(
            (
                None,
                seq![
                    EffectView::Run {
                        script: toast_script("error"@, "Hibás fejléc JSON formátum!"@),
                    },
                ],
            ),
        ),
        Some(wv) => {
            let width = dimension_of(wv);
            let height = dimension_of(
                match h {
                    Some(hv) => hv,
                    None => None,
                },
            );
            Some(
                (
                    Some((width, height, pixels_start)),
                    seq![
                        EffectView::Run { script: log_script(watermark_log(width, height, pixels_len)) },
                    ],
                ),
            )
        },
    }
}

/// What a watermark packet asks for: packets shorter than their 4-byte
/// little-endian header length, or than the header that length announces, are
/// rejected with a toast; otherwise as `watermark_from_members_view` says of
/// the header's JSON text.
pub open spec fn watermark_view_of(command: Seq<char>, payload: Seq<u8>) -> Option<
    (Option<(u32, u32, usize)>, Seq<EffectView>),
> {
    if command != "watermark"@ {
        None
    } else if payload.len() < 4 {
        Some(
            (None, seq![EffectView::Run { script: toast_script("error"@, "Hibás IPC csomagméret!"@) }]),
        )
    } else {
        let header_len = le_u32(payload[0], payload[1], payload[2], payload[3]);
        if payload.len() < 4 + header_len {
            Some(
                (
                    None,
                    seq![
                        EffectView::Run {
                            script: toast_script("error"@, "Csonkított Header adat!"@),
                        },
                    ],
                ),
            )
        } else {
            let text = header_text(payload.subrange(4, 4 + header_len));
            watermark_from_members_view(
                json_u64_member(text, "w"@),
                json_u64_member(text, "h"@),
                (payload.len() - (4 + header_len)) as nat,
                (4 + header_len) as usize,
            )
        }
    }
}

/// Where a watermark of `w` x `h` goes on an image of `img_w` x `img_h`: in
/// the middle, clamped to the top left corner when it is larger.
pub open spec fn watermark_position(img_w: u32, img_h: u32, w: u32, h: u32) -> (u32, u32) {
    (
        ((if img_w >= w { img_w - w } else { 0 }) / 2) as u32,
        ((if img_h >= h { img_h - h } else { 0 }) / 2) as u32,
    )
}

/// The Base64 text of an image's JPEG file, or nothing when the encoder
/// refuses the image.
pub open spec fn jpeg_text(img: RasterView) -> Option<Seq<char>> {
    match jpeg_encoded(img) {
        Some(b) => Some(base64_encoded(b)),
        None => None,
    }
}

/// What the page shows of an image, when processing it took `elapsed_ms`.
pub open spec fn rendered(img: RasterView, elapsed_ms: nat, message: Seq<char>) -> Seq<EffectView> {
    shown_effects(jpeg_text(img), elapsed_ms, message)
}

/// The error toast of an image that could not be opened.
pub open spec fn open_failed(error: Seq<char>) -> Seq<EffectView> {
    seq![
        EffectView::Run {
            script: toast_script("error"@, "Nem sikerült megnyitni a képet: "@ + error),
        },
    ]
}

/// The status message after a filter.
pub open spec fn filter_message(args: Seq<char>) -> Seq<char> {
    "Filter ("@ + args + "): Kész"@
}

/// What the `filter` command ends in.
pub enum FilterOutcome {
    /// The image is unchanged; the effects say why.
    Unchanged { effects: Vec<Effect> },
    /// The filter was applied: the new image, and what the page shows.
    Applied { image: Raster, effects: Vec<Effect> },
    /// The image is to be blurred (radius 3) and then shown with `message`,
    /// after the effects.
    Blur { effects: Vec<Effect>, message: String },
}

/// What the `filter` command ends in on an open image `cur`, given the
/// command's arguments: an unknown filter is logged and reported; blur is left
/// to the caller with its message; grayscale and inversion give the new image,
/// logged and shown.
pub open spec fn filter_applied(cur: RasterView, args: Seq<char>, out: FilterOutcome) -> bool {
    let log = EffectView::Run { script: log_script(filter_log(args)) };
    match filter_named(trimmed(args)) {
        None => (out matches FilterOutcome::Unchanged { effects } && effects_view(effects@) == seq![
            log,
            EffectView::Run {
                script: toast_script("error"@, "Ismeretlen filter: '"@ + trimmed(args) + "'"@),
            },
        ]),
        Some(ImageFilter::Blur) => (out matches FilterOutcome::Blur { effects, message } && message@
            == filter_message(args) && effects_view(effects@) == seq![log]),
        Some(f) => (out matches FilterOutcome::Applied { image, effects } && image.wf() && image@
            == (if f is Grayscale {
            grayscaled(cur)
        } else {
            inverted(cur)
        }) && (f is Invert ==> inverted(image@) == cur) && exists|ms: nat|
            effects_view(effects@) == seq![log] + #[trigger] rendered(image@, ms, filter_message(args))),
    }
}

/// Inverting twice gives the image back: the `invert` filter, applied to the
/// image that an `invert` filter made of the open image, restores the open
/// image.
pub proof fn law_invert_twice(
    cur: RasterView,
    first_args: Seq<char>,
    second_args: Seq<char>,
    first: FilterOutcome,
    second: FilterOutcome,
)
    requires
        filter_named(trimmed(first_args)) == Some(ImageFilter::Invert),
        filter_named(trimmed(second_args)) == Some(ImageFilter::Invert),
        filter_applied(cur, first_args, first),
        (first matches FilterOutcome::Applied { image, .. } && filter_applied(
            image@,
            second_args,
            second,
        )),
    ensures
        second matches FilterOutcome::Applied { image, .. } && image@ == cur,
{
}

/// A watermark goes over the middle of the image: on each axis, the room
/// left before it equals the room left after it (or is one pixel less, when
/// the room is odd), whatever the other axis holds; a watermark larger than
/// the image on an axis starts at its edge.
pub proof fn law_watermark_centered(img_w: u32, img_h: u32, w: u32, h: u32)
    ensures
        ({
            let (x, y) = watermark_position(img_w, img_h, w, h);
            &&& img_w >= w ==> (x + w + x == img_w || x + w + x + 1 == img_w)
            &&& img_w < w ==> x == 0
            &&& img_h >= h ==> (y + h + y == img_h || y + h + y + 1 == img_h)
            &&& img_h < h ==> y == 0
        }),
{
}

/// The error toast of a watermark without an open image.
pub open spec fn no_image_for_watermark() -> EffectView {
    EffectView::Run {
        script: toast_script("error"@, "Nincs megnyitott kép, amin alkalmazhatnám a vízjelet!"@),
    }
}

/// The error toast of watermark pixels that do not fill the watermark.
pub open spec fn bad_watermark_pixels() -> EffectView {
    EffectView::Run {
        script: toast_script("error"@, "Érvénytelen nyers pixel adat a vízjelhez!"@),
    }
}

/// What a binary command does to the open image `current` (`None` in the
/// result: the image stays as it is), and what the page shows, when
/// processing a new image took `elapsed_ms`: as `watermark_view_of` reads the
/// packet; a placed watermark goes over the open image at
/// `watermark_position`, when its pixels fill it.
pub open spec fn watermark_outcome(
    current: Option<RasterView>,
    command: Seq<char>,
    payload: Seq<u8>,
    elapsed_ms: nat,
) -> (Option<RasterView>, Seq<EffectView>) {
    match watermark_view_of(command, payload) {
        None => (None, Seq::empty()),
        Some((None, effects)) => (None, effects),
        Some((Some((w, h, start)), effects)) => match current {
            None => (None, effects.push(no_image_for_watermark())),
            Some(cur) => {
                let (x, y) = watermark_position(cur.width, cur.height, w, h);
                let pixels = payload.subrange(start as int, payload.len() as int);
                if pixels.len() >= 4 * w * h {
                    let img = overlaid(cur, w, h, pixels, x as i64, y as i64);
                    (Some(img), effects + rendered(img, elapsed_ms, "Vízjel sikeresen rásütve!"@))
                } else {
                    (None, effects.push(bad_watermark_pixels()))
                }
            },
        },
    }
}

/// The view of the open image, if any.
pub open spec fn current_view(current: Option<&Raster>) -> Option<RasterView> {
    match current {
        Some(c) => Some(c@),
        None => None,
    }
}

/// The view of an optional raster.
pub open spec fn raster_opt_view(r: Option<Raster>) -> Option<RasterView> {
    match r {
        Some(x) => Some(x@),
        None => None,
    }
}

#[verifier::external_type_specification]
#[verifier::external_body]
pub struct ExInstant(std::time::Instant);

/// Reads the monotonic clock (`std::time::Instant::now`).
#[verifier::external_body]
fn clock_now() -> std::time::Instant {
    std::time::Instant::now()
}

/// The whole milliseconds since `start` (`Instant::elapsed`, then
/// `Duration::as_millis`); nothing is claimed of the reading.
#[verifier::external_body]
fn millis_since(start: &std::time::Instant) -> u128 {
    start.elapsed().as_millis()
}

impl ImageController {
    /// What the page shows after an image was processed, given the image's
    /// JPEG bytes as Base64 text (nothing when encoding failed), the time the
    /// processing took and the message to show.
    pub fn show_encoded(
        &self,
        ctx: &AppContext,
        encoded: Option<&str>,
        elapsed_ms: u128,
        message: &str,
    ) -> (effects: Vec<Effect>)
        ensures
            effects_view(effects@) == shown_effects(
                match encoded {
                    Some(e) => Some(e@),
                    None => None,
                },
                elapsed_ms as nat,
                message@,
            ),
    {
        match encoded {
            Some(e) => {
                proof {
                    reveal_strlit("");
                }
                let src = concat3("data:image/jpeg;base64,", e, "");
                assert(src@ =~= jpeg_data_url(e@));
                let elapsed = u128_to_string(elapsed_ms);
                let status = concat5(message, " (Feldolgozva ", elapsed.as_str(), "ms alatt)", "");
                assert(status@ =~= status_line(message@, elapsed_ms as nat));
                let effects = vec![
                    Effect::Run {
                        script: ctx.dom.get_id("preview_step").set_style("display", "flex"),
                    },
                    Effect::Run {
                        script: ctx.dom.get_id("filter_buttons").set_style("display", "flex"),
                    },
                    Effect::Run {
                        script: ctx.dom.get_id("watermark_tool").set_style("display", "block"),
                    },
                    Effect::Run {
                        script: ctx.dom.get_id("image_view").set_attribute("src", src.as_str()),
                    },
                    Effect::Run { script: ctx.dom.get_id("status_text").set_text(status.as_str()) },
                    Effect::Run { script: ctx.dom.toast_success("Kép sikeresen renderelve!") },
                ];
                assert(effects_view(effects@) =~= shown_effects(Some(e@), elapsed_ms as nat, message@));
                effects
            },
            None => {
                let effects = vec![
                    Effect::Run { script: ctx.dom.toast_error("Hiba a kép Jpeg kódolása közben!") },
                ];
                assert(effects_view(effects@) =~= shown_effects(None, elapsed_ms as nat, message@));
                effects
            },
        }
    }

    /// What the page shows after an image was processed, given its JPEG
    /// bytes (nothing when encoding failed): the bytes go into the page as
    /// Base64 text.
    pub fn render_image_to_dom(
        &self,
        ctx: &AppContext,
        jpeg: Option<&[u8]>,
        elapsed_ms: u128,
        message: &str,
    ) -> (effects: Vec<Effect>)
        requires
            jpeg matches Some(b) ==> b@.len() <= usize::MAX / 2,
        ensures
            effects_view(effects@) == shown_effects(
                match jpeg {
                    Some(b) => Some(base64_encoded(b@)),
                    None => None,
                },
                elapsed_ms as nat,
                message@,
            ),
    {
        match jpeg {
            Some(b) => {
                let encoded = base64_encode(b);
                self.show_encoded(ctx, Some(encoded.as_str()), elapsed_ms, message)
            },
            None => self.show_encoded(ctx, None, elapsed_ms, message),
        }
    }

    /// What the `filter` command does before the image operation, given
    /// whether an image is open.
    pub fn filter_step(&self, ctx: &AppContext, args: &str, has_image: bool) -> (step: FilterStep)
        ensures
            !has_image ==> (step matches FilterStep::NoImage { effects } && effects_view(effects@)
                == seq![EffectView::Run { script: toast_script("error"@, "Nincs megnyitott kép!"@) }]),
            has_image ==> match filter_named(trimmed(args@)) {
                Some(f) => (step matches FilterStep::Apply { filter, effects, message } && filter == f
                    && message@ == "Filter ("@ + args@ + "): Kész"@ && effects_view(effects@)
                    == seq![EffectView::Run { script: log_script(filter_log(args@)) }]),
                None => (step matches FilterStep::Unknown { effects } && effects_view(effects@)
                    == seq![
                    EffectView::Run { script: log_script(filter_log(args@)) },
                    EffectView::Run {
                        script: toast_script(
                            "error"@,
                            "Ismeretlen filter: '"@ + trimmed(args@) + "'"@,
                        ),
                    },
                ]),
            },
    {
        if !has_image {
            let effects = vec![Effect::Run { script: ctx.dom.toast_error("Nincs megnyitott kép!") }];
            assert(effects_view(effects@) =~= seq![
                EffectView::Run { script: toast_script("error"@, "Nincs megnyitott kép!"@) },
            ]);
            return FilterStep::NoImage { effects };
        }
        let line = concat3("Filter kérés érkezett: '", args, "'");
        let logged = ctx.dom.log(line.as_str());
        let name = trim(args);
        let filter = if str_equal(name.as_str(), "grayscale") {
            Some(ImageFilter::Grayscale)
        } else if str_equal(name.as_str(), "invert") {
            Some(ImageFilter::Invert)
        } else if str_equal(name.as_str(), "blur") {
            Some(ImageFilter::Blur)
        } else {
            None
        };
        match filter {
            Some(f) => {
                let effects = vec![Effect::Run { script: logged }];
                assert(effects_view(effects@) =~= seq![
                    EffectView::Run { script: log_script(filter_log(args@)) },
                ]);
                let message = concat3("Filter (", args, "): Kész");
                FilterStep::Apply { filter: f, effects, message }
            },
            None => {
                let text = concat3("Ismeretlen filter: '", name.as_str(), "'");
                let effects = vec![
                    Effect::Run { script: logged },
                    Effect::Run { script: ctx.dom.toast_error(text.as_str()) },
                ];
                assert(effects_view(effects@) =~= seq![
                    EffectView::Run { script: log_script(filter_log(args@)) },
                    EffectView::Run {
                        script: toast_script("error"@, "Ismeretlen filter: '"@ + trimmed(args@) + "'"@),
                    },
                ]);
                FilterStep::Unknown { effects }
            },
        }
    }

    /// What a watermark packet asks for, given what its header says of `w`
    /// and `h`, the number of pixel bytes and where they start.
    pub fn watermark_from_members(
        &self,
        ctx: &AppContext,
        w: Option<Option<u64>>,
        h: Option<Option<u64>>,
        pixels_len: usize,
        pixels_start: usize,
    ) -> (step: WatermarkStep)
        ensures
            watermark_view(step) == watermark_from_members_view(
                w,
                h,
                pixels_len as nat,
                pixels_start,
            ),
    {
        match w {
            None => {
                let effects = vec![
                    Effect::Run { script: ctx.dom.toast_error("Hibás fejléc JSON formátum!") },
                ];
                assert(effects_view(effects@) =~= seq![
                    EffectView::Run { script: toast_script("error"@, "Hibás fejléc JSON formátum!"@) },
                ]);
                WatermarkStep::Reject { effects }
            },
            Some(wv) => {
                let width: u32 = match wv {
                    Some(v) => (v % 0x1_0000_0000) as u32,
                    None => 0,
                };
                let height: u32 = match h {
                    Some(Some(v)) => (v % 0x1_0000_0000) as u32,
                    _ => 0,
                };
                proof {
                    reveal_strlit("");
                }
                let ws = u128_to_string(width as u128);
                let hs = u128_to_string(height as u128);
                let ps = usize_to_string(pixels_len);
                let mut line = concat5("Rust megkapta a Vízjelet: ", ws.as_str(), "x", hs.as_str(), "");
                push_str(&mut line, " - Px méret: ");
                push_str(&mut line, ps.as_str());
                assert(line@ =~= watermark_log(width, height, pixels_len as nat));
                let effects = vec![Effect::Run { script: ctx.dom.log(line.as_str()) }];
                assert(effects_view(effects@) =~= seq![
                    EffectView::Run {
                        script: log_script(watermark_log(width, height, pixels_len as nat)),
                    },
                ]);
                WatermarkStep::Place { width, height, pixels_start, effects }
            },
        }
    }

    /// What the binary `watermark` command asks for: the packet is the
    /// header's length (4 bytes, little-endian), the header as JSON with the
    /// members `w` and `h`, and the watermark's RGBA bytes.
    pub fn watermark_step(&self, ctx: &AppContext, command: &str, payload: &[u8]) -> (step:
        WatermarkStep)
        ensures
            watermark_view(step) == watermark_view_of(command@, payload@),
    {
        if !str_equal(command, "watermark") {
            return WatermarkStep::Ignore;
        }
        if payload.len() < 4 {
            let effects = vec![Effect::Run { script: ctx.dom.toast_error("Hibás IPC csomagméret!") }];
            assert(effects_view(effects@) =~= seq![
                EffectView::Run { script: toast_script("error"@, "Hibás IPC csomagméret!"@) },
            ]);
            return WatermarkStep::Reject { effects };
        }
        let header_len: u64 = payload[0] as u64 + payload[1] as u64 * 0x100 + payload[2] as u64
            * 0x1_0000 + payload[3] as u64 * 0x100_0000;
        if (payload.len() as u64) < 4 + header_len {
            let effects = vec![Effect::Run { script: ctx.dom.toast_error("Csonkított Header adat!") }];
            assert(effects_view(effects@) =~= seq![
                EffectView::Run { script: toast_script("error"@, "Csonkított Header adat!"@) },
            ]);
            return WatermarkStep::Reject { effects };
        }
        let end: usize = (4 + header_len) as usize;
        let header_bytes = vstd::slice::slice_subrange(payload, 4, end);
        let text: String = match utf8_string(header_bytes) {
            Some(t) => t,
            None => "{}".to_owned(),
        };
        assert(text@ == header_text(payload@.subrange(4, end as int)));
        let w = json_u64_field(text.as_str(), "w");
        let h = json_u64_field(text.as_str(), "h");
        self.watermark_from_members(ctx, w, h, payload.len() - end, end)
    }

    /// Where the watermark goes: centered, clamped to the top left corner
    /// (`saturating_sub`, then halving).
    pub fn watermark_offset(img_w: u32, img_h: u32, w: u32, h: u32) -> (r: (u32, u32))
        ensures
            r == watermark_position(img_w, img_h, w, h),
    {
        (img_w.saturating_sub(w) / 2, img_h.saturating_sub(h) / 2)
    }

    /// What the page shows of an image: its JPEG file as a data URL, with the
    /// milliseconds that encoding it took, or an error toast when the encoder
    /// refuses it.
    pub fn show_image(&self, ctx: &AppContext, img: &Raster, message: &str) -> (effects: Vec<Effect>)
        requires
            img.wf(),
        ensures
            exists|ms: nat| effects_view(effects@) == #[trigger] rendered(img@, ms, message@),
    {
        let start = clock_now();
        let effects = match encode_jpeg(img) {
            Some(jpeg) => {
                let encoded = base64_encode(jpeg.as_slice());
                let ms = millis_since(&start);
                let effects = self.show_encoded(ctx, Some(encoded.as_str()), ms, message);
                assert(effects_view(effects@) == rendered(img@, ms as nat, message@));
                effects
            },
            None => {
                let ms = millis_since(&start);
                let effects = self.show_encoded(ctx, None, ms, message);
                assert(effects_view(effects@) == rendered(img@, ms as nat, message@));
                effects
            },
        };
        effects
    }

    /// The toast shown while the file dialog is open.
    pub fn open_prompt(&self, ctx: &AppContext) -> (effects: Vec<Effect>)
        ensures
            effects_view(effects@) == seq![
                EffectView::Run {
                    script: toast_script("info"@, "Dilektálási párbeszédpanel megnyitva..."@),
                },
            ],
    {
        let effects = vec![
            Effect::Run { script: ctx.dom.toast_info("Dilektálási párbeszédpanel megnyitva...") },
        ];
        assert(effects_view(effects@) =~= seq![
            EffectView::Run {
                script: toast_script("info"@, "Dilektálási párbeszédpanel megnyitva..."@),
            },
        ]);
        effects
    }

    /// The toast shown when no file was chosen.
    pub fn open_cancelled(&self, ctx: &AppContext) -> (effects: Vec<Effect>)
        ensures
            effects_view(effects@) == seq![
                EffectView::Run { script: toast_script("info"@, "Képválasztás megszakítva."@) },
            ],
    {
        let effects = vec![Effect::Run { script: ctx.dom.toast_info("Képválasztás megszakítva.") }];
        assert(effects_view(effects@) =~= seq![
            EffectView::Run { script: toast_script("info"@, "Képválasztás megszakítva."@) },
        ]);
        effects
    }

    /// Opens the chosen image file, given its path and its bytes (or the text
    /// of the error that reading it gave): the decoded image becomes the open
    /// image and is shown; an error is reported and the open image stays.
    pub fn open_file(&self, ctx: &AppContext, path: &str, content: Result<&[u8], &str>) -> (r: (
        Option<Raster>,
        Vec<Effect>,
    ))
        ensures
            match content {
                Err(e) => r.0 is None && effects_view(r.1@) == open_failed(e@),
                Ok(bytes) => match decoded_image(bytes@, path@) {
                    Ok(img) => (r.0 matches Some(x) && x.wf() && x@ == img) && exists|ms: nat|
                        effects_view(r.1@) == #[trigger] rendered(
                            img,
                            ms,
                            "Kép sikeresen betöltve a lemezről."@,
                        ),
                    Err(e) => r.0 is None && effects_view(r.1@) == open_failed(e),
                },
            },
    {
        let error: String = match content {
            Err(e) => e.to_owned(),
            Ok(bytes) => match decode_image(bytes, path) {
                Ok(img) => {
                    let effects = self.show_image(ctx, &img, "Kép sikeresen betöltve a lemezről.");
                    return (Some(img), effects);
                },
                Err(e) => e,
            },
        };
        let text = concat3("Nem sikerült megnyitni a képet: ", error.as_str(), "");
        proof {
            reveal_strlit("");
        }
        assert(text@ =~= "Nem sikerült megnyitni a képet: "@ + error@);
        let effects = vec![Effect::Run { script: ctx.dom.toast_error(text.as_str()) }];
        assert(effects_view(effects@) =~= open_failed(error@));
        (None, effects)
    }

    /// The `filter` command on the open image `current`: grayscale and
    /// inversion are applied and shown here; blur is left to the caller.
    pub fn apply_filter(&self, ctx: &AppContext, current: Option<&Raster>, args: &str) -> (out:
        FilterOutcome)
        requires
            current matches Some(c) ==> c.wf(),
        ensures
            current is None ==> (out matches FilterOutcome::Unchanged { effects } && effects_view(
                effects@,
            ) == seq![EffectView::Run { script: toast_script("error"@, "Nincs megnyitott kép!"@) }]),
            current matches Some(cur) ==> filter_applied(cur@, args@, out),
            out matches FilterOutcome::Applied { image, .. } ==> (current matches Some(c)
                && image.width == c.width && image.height == c.height && (image.kind == c.kind
                || image.kind == gray_kind(c.kind))),
    {
        let step = self.filter_step(ctx, args, current.is_some());
        match step {
            FilterStep::NoImage { effects } => FilterOutcome::Unchanged { effects },
            FilterStep::Unknown { effects } => FilterOutcome::Unchanged { effects },
            FilterStep::Apply { filter, effects, message } => {
                let cur = current.unwrap();
                let image = match filter {
                    ImageFilter::Blur => {
                        return FilterOutcome::Blur { effects, message };
                    },
                    ImageFilter::Grayscale => grayscale(cur),
                    ImageFilter::Invert => invert(cur),
                };
                let shown = self.show_image(ctx, &image, message.as_str());
                let ghost ms = choose|ms: nat|
                    effects_view(shown@) == #[trigger] rendered(image@, ms, message@);
                let ghost logged = effects_view(effects@);
                let mut all = effects;
                let mut more = shown;
                all.append(&mut more);
                assert(effects_view(all@) =~= logged + effects_view(shown@));
                assert(effects_view(all@) == seq![
                    EffectView::Run { script: log_script(filter_log(args@)) },
                ] + rendered(image@, ms, filter_message(args@)));
                FilterOutcome::Applied { image, effects: all }
            },
        }
    }

    /// The binary `watermark` command on the open image `current`: the
    /// packet's watermark goes over the middle of the image, which is then
    /// shown. The first result is the new open image (`None`: unchanged).
    pub fn apply_watermark(
        &self,
        ctx: &AppContext,
        current: Option<&Raster>,
        command: &str,
        payload: &[u8],
    ) -> (r: (Option<Raster>, Vec<Effect>))
        requires
            current matches Some(c) ==> c.wf(),
        ensures
            r.0 matches Some(img) ==> img.wf() && (current matches Some(c) && img.width == c.width
                && img.height == c.height && img.kind == c.kind),
            exists|ms: nat|
                #[trigger] watermark_outcome(current_view(current), command@, payload@, ms) == (
                    raster_opt_view(r.0),
                    effects_view(r.1@),
                ),
    {
        let ghost cur_view = current_view(current);
        let step = self.watermark_step(ctx, command, payload);
        match step {
            WatermarkStep::Ignore => {
                let effects: Vec<Effect> = Vec::new();
                assert(effects_view(effects@) =~= Seq::<EffectView>::empty());
                assert(watermark_outcome(cur_view, command@, payload@, 0) == (
                    None::<RasterView>,
                    effects_view(effects@),
                ));
                (None, effects)
            },
            WatermarkStep::Reject { effects } => {
                assert(watermark_outcome(cur_view, command@, payload@, 0) == (
                    None::<RasterView>,
                    effects_view(effects@),
                ));
                (None, effects)
            },
            WatermarkStep::Place { width, height, pixels_start, effects } => {
                let ghost logged = effects_view(effects@);
                let mut all = effects;
                match current {
                    None => {
                        all.push(
                            Effect::Run {
                                script: ctx.dom.toast_error(
                                    "Nincs megnyitott kép, amin alkalmazhatnám a vízjelet!",
                                ),
                            },
                        );
                        assert(effects_view(all@) =~= logged.push(no_image_for_watermark()));
                        assert(watermark_outcome(cur_view, command@, payload@, 0) == (
                            None::<RasterView>,
                            effects_view(all@),
                        ));
                        (None, all)
                    },
                    Some(cur) => {
                        let (x, y) = Self::watermark_offset(cur.width, cur.height, width, height);
                        let pixels = vstd::slice::slice_subrange(payload, pixels_start, payload.len());
                        match overlay_rgba(cur, width, height, pixels, x as i64, y as i64) {
                            None => {
                                all.push(
                                    Effect::Run {
                                        script: ctx.dom.toast_error(
                                            "Érvénytelen nyers pixel adat a vízjelhez!",
                                        ),
                                    },
                                );
                                assert(effects_view(all@) =~= logged.push(bad_watermark_pixels()));
                                assert(watermark_outcome(cur_view, command@, payload@, 0) == (
                                    None::<RasterView>,
                                    effects_view(all@),
                                ));
                                (None, all)
                            },
                            Some(img) => {
                                let shown = self.show_image(ctx, &img, "Vízjel sikeresen rásütve!");
                                let ghost ms = choose|ms: nat|
                                    effects_view(shown@) == #[trigger] rendered(
                                        img@,
                                        ms,
                                        "Vízjel sikeresen rásütve!"@,
                                    );
                                let mut more = shown;
                                all.append(&mut more);
                                assert(effects_view(all@) =~= logged + effects_view(shown@));
                                assert(watermark_outcome(cur_view, command@, payload@, ms) == (
                                    Some(img@),
                                    effects_view(all@),
                                ));
                                (Some(img), all)
                            },
                        }
                    },
                }
            },
        }
    }
}

} // verus!
