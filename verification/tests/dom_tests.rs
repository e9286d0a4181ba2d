use alakit::dom::{escape_backticks, escape_template, Element, RustDOM};

#[test]
fn escape_backticks_prefixes_each_backtick() {
    assert_eq!(escape_backticks("a`b`c"), "a\\`b\\`c");
    assert_eq!(escape_backticks("no ticks $x"), "no ticks $x");
    assert_eq!(escape_backticks(""), "");
}

#[test]
fn escape_template_prefixes_backticks_and_dollars() {
    assert_eq!(escape_template("`${x}`"), "\\`\\${x}\\`");
    assert_eq!(escape_template("plain"), "plain");
}

#[test]
fn toasts_have_their_kind() {
    let dom = RustDOM;
    assert_eq!(
        dom.toast_success("Saved `ok` $1"),
        "if (window.alakit_toast) window.alakit_toast('success', `Saved \\`ok\\` \\$1`);"
    );
    assert_eq!(
        dom.toast_error("x"),
        "if (window.alakit_toast) window.alakit_toast('error', `x`);"
    );
    assert_eq!(
        dom.toast_warning("x"),
        "if (window.alakit_toast) window.alakit_toast('warning', `x`);"
    );
    assert_eq!(
        dom.toast_info("x"),
        "if (window.alakit_toast) window.alakit_toast('info', `x`);"
    );
}

#[test]
fn log_escapes_only_backticks() {
    let dom = RustDOM;
    assert_eq!(dom.log("a`$b"), "console.log(`[RUST] a\\`$b`);");
}

#[test]
fn element_lookup_keeps_the_id() {
    let dom = RustDOM;
    assert_eq!(dom.get_element_by_id("status").id, "status");
    assert_eq!(dom.get_id("other").id, "other");
}

#[test]
fn element_scripts() {
    let e = Element { id: "box".to_string() };
    assert_eq!(e.set_text("hi `you`"), "document.getElementById('box').innerText = `hi \\`you\\``;");
    assert_eq!(e.set_value(""), "document.getElementById('box').value = ``;");
    assert_eq!(
        e.set_style("display", "flex"),
        "document.getElementById('box').style['display'] = `flex`;"
    );
    assert_eq!(e.add_class("on"), "document.getElementById('box').classList.add('on');");
    assert_eq!(e.remove_class("on"), "document.getElementById('box').classList.remove('on');");
    assert_eq!(
        e.set_attribute("src", "a`b"),
        "document.getElementById('box').setAttribute('src', `a\\`b`);"
    );
    assert_eq!(
        e.remove_attribute("disabled"),
        "document.getElementById('box').removeAttribute('disabled');"
    );
    assert_eq!(
        e.append_html("<p>`</p>"),
        "var el = document.getElementById('box'); if(el) el.insertAdjacentHTML('beforeend', `<p>\\`</p>`);"
    );
    assert_eq!(
        e.set_html("<b>x</b>"),
        "var el = document.getElementById('box'); if(el) el.innerHTML = `<b>x</b>`;"
    );
    assert_eq!(e.remove(), "var el = document.getElementById('box'); if(el) el.remove();");
}
