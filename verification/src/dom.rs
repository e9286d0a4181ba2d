//! The JavaScript that the framework sends to the web view to change the page.
//!
//! `RustDOM` and `Element` compute, for each operation, the exact script that
//! the web view evaluates; the application layer hands the script to the
//! event loop. Text that lands inside a JavaScript template literal is escaped
//! first, as the operations below say.

use vstd::prelude::*;
use crate::text::{push_str, replace_char, replaced};

verus! {

// ---------------------------------------------------------------------
// Escaping
// ---------------------------------------------------------------------

/// `s` with each backtick preceded by a backslash (`s.replace('`', "\\`")`).
pub open spec fn escaped_backticks(s: Seq<char>) -> Seq<char> {
    replaced(s, '`', seq!['\\', '`'])
}

/// `s` with each backtick and then each dollar sign preceded by a backslash
/// (`s.replace('`', "\\`").replace('$', "\\$")`).
pub open spec fn escaped_template(s: Seq<char>) -> Seq<char> {
    replaced(replaced(s, '`', seq!['\\', '`']), '$', seq!['\\', '$'])
}

/// What a JavaScript template literal whose body is `t` evaluates to, for a
/// body in which a backslash only escapes the character after it. This model
/// reads `${` as two plain characters: it does not evaluate substitutions, so
/// it describes only bodies whose `$` signs are escaped or not followed by `{`.
pub open spec fn template_value(t: Seq<char>) -> Seq<char>
    decreases t.len(),
{
    if t.len() == 0 {
        t
    } else if t.len() >= 2 && t[0] == '\\' {
        seq![t[1]] + template_value(t.skip(2))
    } else {
        seq![t[0]] + template_value(t.drop_first())
    }
}

/// Whether every backtick of `t` is preceded by a backslash. This alone does
/// not keep `t` from ending the template literal it stands in: after an
/// escaped backslash (`\\` then a backtick) the backtick is bare; only for
/// text without backslashes does escaping the backticks keep it inside.
pub open spec fn backticks_escaped(t: Seq<char>) -> bool {
    forall|i: int| 0 <= i < t.len() && #[trigger] t[i] == '`' ==> i > 0 && t[i - 1] == '\\'
}

/// Whether `s` holds no backslash.
pub open spec fn no_backslash(s: Seq<char>) -> bool {
    forall|i: int| 0 <= i < s.len() ==> s[i] != '\\'
}

/// Escapes backticks (`s.replace('`', "\\`")`).
pub fn escape_backticks(s: &str) -> (r: String)
    ensures
        r@ == escaped_backticks(s@),
{
    proof {
        reveal_strlit("\\`");
    }
    let r = replace_char(s, '`', "\\`");
    assert("\\`"@ =~= seq!['\\', '`']);
    r
}

/// Escapes backticks and dollar signs (`s.replace('`', "\\`").replace('$', "\\$")`).
pub fn escape_template(s: &str) -> (r: String)
    ensures
        r@ == escaped_template(s@),
{
    proof {
        reveal_strlit("\\`");
        reveal_strlit("\\$");
    }
    let a = replace_char(s, '`', "\\`");
    let r = replace_char(a.as_str(), '$', "\\$");
    assert("\\`"@ =~= seq!['\\', '`']);
    assert("\\$"@ =~= seq!['\\', '$']);
    r
}

// ---------------------------------------------------------------------
// Laws of escaping
// ---------------------------------------------------------------------

proof fn lemma_replaced_concat(a: Seq<char>, b: Seq<char>, c: char, r: Seq<char>)
    ensures
        replaced(a + b, c, r) == replaced(a, c, r) + replaced(b, c, r),
    decreases a.len(),
{
    if a.len() == 0 {
        assert(a + b =~= b);
        assert(replaced(a, c, r) + replaced(b, c, r) =~= replaced(b, c, r));
    } else {
        assert((a + b).drop_first() =~= a.drop_first() + b);
        lemma_replaced_concat(a.drop_first(), b, c, r);
        assert((a + b)[0] == a[0]);
        let p = if a[0] == c { r } else { seq![a[0]] };
        assert(replaced(a + b, c, r) == p + replaced(a.drop_first() + b, c, r));
        assert(p + (replaced(a.drop_first(), c, r) + replaced(b, c, r)) =~= (p + replaced(
            a.drop_first(),
            c,
            r,
        )) + replaced(b, c, r));
    }
}

proof fn lemma_template_value_two(x: char, y: char, rest: Seq<char>)
    requires
        x == '\\',
    ensures
        template_value(seq![x, y] + rest) == seq![y] + template_value(rest),
{
    let t = seq![x, y] + rest;
    assert(t.skip(2) =~= rest);
}

proof fn lemma_template_value_one(x: char, rest: Seq<char>)
    requires
        x != '\\',
    ensures
        template_value(seq![x] + rest) == seq![x] + template_value(rest),
{
    let t = seq![x] + rest;
    assert(t.drop_first() =~= rest);
}

/// A text without backslashes, escaped for a template literal, evaluates back
/// to itself: the literal carries it intact.
pub proof fn law_template_escape_round_trip(s: Seq<char>)
    requires
        no_backslash(s),
    ensures
        template_value(escaped_template(s)) == s,
    decreases s.len(),
{
    reveal_with_fuel(replaced, 3);
    if s.len() == 0 {
        assert(escaped_template(s) =~= Seq::<char>::empty());
    } else {
        let c = s[0];
        let rest = s.drop_first();
        assert(no_backslash(rest)) by {
            assert forall|i: int| 0 <= i < rest.len() implies rest[i] != '\\' by {
                assert(rest[i] == s[i + 1]);
            }
        }
        law_template_escape_round_trip(rest);
        let p1 = if c == '`' { seq!['\\', '`'] } else { seq![c] };
        assert(replaced(s, '`', seq!['\\', '`']) == p1 + replaced(rest, '`', seq!['\\', '`']));
        lemma_replaced_concat(p1, replaced(rest, '`', seq!['\\', '`']), '$', seq!['\\', '$']);
        let p2 = replaced(p1, '$', seq!['\\', '$']);
        let tail = escaped_template(rest);
        assert(escaped_template(s) == p2 + tail);
        if c == '`' {
            assert(p1.drop_first().drop_first() =~= Seq::<char>::empty());
            assert(p2 =~= seq!['\\', '`']);
            lemma_template_value_two('\\', '`', tail);
        } else if c == '$' {
            assert(p1.drop_first() =~= Seq::<char>::empty());
            assert(p2 =~= seq!['\\', '$']);
            lemma_template_value_two('\\', '$', tail);
        } else {
            assert(p1.drop_first() =~= Seq::<char>::empty());
            assert(p2 =~= seq![c]);
            lemma_template_value_one(c, tail);
        }
        assert(seq![c] + rest =~= s);
    }
}

/// In a text escaped for a template literal, every backtick is escaped.
pub proof fn law_template_escape_guards_backticks(s: Seq<char>)
    ensures
        backticks_escaped(escaped_template(s)),
        backticks_escaped(escaped_backticks(s)),
    decreases s.len(),
{
    lemma_backticks_escaped_replaced(s);
    let t1 = replaced(s, '`', seq!['\\', '`']);
    assert(guarded_from(t1, false));
    lemma_guarded_by_dollar(t1, false);
}

proof fn lemma_backticks_escaped_concat(a: Seq<char>, b: Seq<char>)
    requires
        backticks_escaped(a),
        backticks_escaped(b),
    ensures
        backticks_escaped(a + b),
{
    assert forall|i: int| 0 <= i < (a + b).len() && #[trigger] (a + b)[i] == '`' implies i > 0 && (a
        + b)[i - 1] == '\\' by {
        if i >= a.len() {
            assert((a + b)[i] == b[i - a.len()]);
            assert(i - a.len() > 0 && b[i - a.len() - 1] == '\\');
            assert((a + b)[i - 1] == b[i - 1 - a.len()]);
        }
    }
}

proof fn lemma_backticks_escaped_replaced(s: Seq<char>)
    ensures
        backticks_escaped(replaced(s, '`', seq!['\\', '`'])),
    decreases s.len(),
{
    if s.len() > 0 {
        lemma_backticks_escaped_replaced(s.drop_first());
        let p = if s[0] == '`' { seq!['\\', '`'] } else { seq![s[0]] };
        assert(backticks_escaped(p));
        lemma_backticks_escaped_concat(p, replaced(s.drop_first(), '`', seq!['\\', '`']));
    }
}

/// Every backtick of `t` follows a backslash; one at the very start is
/// allowed when `after_backslash` says that a backslash came just before `t`.
spec fn guarded_from(t: Seq<char>, after_backslash: bool) -> bool {
    forall|i: int|
        0 <= i < t.len() && #[trigger] t[i] == '`' ==> (if i == 0 {
            after_backslash
        } else {
            t[i - 1] == '\\'
        })
}

proof fn lemma_guarded_by_dollar(t: Seq<char>, after_backslash: bool)
    requires
        guarded_from(t, after_backslash),
    ensures
        guarded_from(replaced(t, '$', seq!['\\', '$']), after_backslash),
    decreases t.len(),
{
    if t.len() > 0 {
        let x = t[0];
        let rest = t.drop_first();
        assert(guarded_from(rest, x == '\\')) by {
            assert forall|i: int| 0 <= i < rest.len() && #[trigger] rest[i] == '`' implies (if i
                == 0 {
                x == '\\'
            } else {
                rest[i - 1] == '\\'
            }) by {
                assert(t[i + 1] == '`');
            }
        }
        lemma_guarded_by_dollar(rest, x == '\\');
        let p = if x == '$' { seq!['\\', '$'] } else { seq![x] };
        let tail = replaced(rest, '$', seq!['\\', '$']);
        assert(replaced(t, '$', seq!['\\', '$']) == p + tail);
        assert forall|i: int| 0 <= i < (p + tail).len() && #[trigger] (p + tail)[i] == '`' implies (
        if i == 0 {
            after_backslash
        } else {
            (p + tail)[i - 1] == '\\'
        }) by {
            if i < p.len() {
                assert(x == '`' && i == 0);
            } else {
                let j = i - p.len();
                assert((p + tail)[i] == tail[j]);
                if j > 0 {
                    assert((p + tail)[i - 1] == tail[j - 1]);
                } else {
                    assert(x == '\\');
                    assert((p + tail)[i - 1] == p[0]);
                }
            }
        }
    }
}

// ---------------------------------------------------------------------
// Scripts
// ---------------------------------------------------------------------

/// The script that shows a toast of the given kind.
pub open spec fn toast_script(kind: Seq<char>, message: Seq<char>) -> Seq<char> {
    "if (window.alakit_toast) window.alakit_toast('"@ + kind + "', `"@ + escaped_template(message)
        + "`);"@
}

/// The script that writes a message to the browser console.
pub open spec fn log_script(message: Seq<char>) -> Seq<char> {
    "console.log(`[RUST] "@ + escaped_backticks(message) + "`);"@
}

/// The script that sets the text of an element.
pub open spec fn set_text_script(id: Seq<char>, text: Seq<char>) -> Seq<char> {
    "document.getElementById('"@ + id + "').innerText = `"@ + escaped_backticks(text) + "`;"@
}

/// The script that sets the value of an input element.
pub open spec fn set_value_script(id: Seq<char>, val: Seq<char>) -> Seq<char> {
    "document.getElementById('"@ + id + "').value = `"@ + escaped_backticks(val) + "`;"@
}

/// The script that sets one style property of an element.
pub open spec fn set_style_script(id: Seq<char>, property: Seq<char>, value: Seq<char>) -> Seq<
    char,
> {
    "document.getElementById('"@ + id + "').style['"@ + property + "'] = `"@ + escaped_backticks(
        value,
    ) + "`;"@
}

/// The script that adds a class to an element.
pub open spec fn add_class_script(id: Seq<char>, name: Seq<char>) -> Seq<char> {
    "document.getElementById('"@ + id + "').classList.add('"@ + name + "');"@
}

/// The script that removes a class from an element.
pub open spec fn remove_class_script(id: Seq<char>, name: Seq<char>) -> Seq<char> {
    "document.getElementById('"@ + id + "').classList.remove('"@ + name + "');"@
}

/// The script that sets an attribute of an element.
pub open spec fn set_attribute_script(id: Seq<char>, name: Seq<char>, value: Seq<char>) -> Seq<
    char,
> {
    "document.getElementById('"@ + id + "').setAttribute('"@ + name + "', `"@ + escaped_backticks(
        value,
    ) + "`);"@
}

/// The script that removes an attribute of an element.
pub open spec fn remove_attribute_script(id: Seq<char>, name: Seq<char>) -> Seq<char> {
    "document.getElementById('"@ + id + "').removeAttribute('"@ + name + "');"@
}

/// The script that appends HTML at the end of an element.
pub open spec fn append_html_script(id: Seq<char>, html: Seq<char>) -> Seq<char> {
    "var el = document.getElementById('"@ + id
        + "'); if(el) el.insertAdjacentHTML('beforeend', `"@ + escaped_backticks(html) + "`);"@
}

/// The script that replaces the inner HTML of an element.
pub open spec fn set_html_script(id: Seq<char>, html: Seq<char>) -> Seq<char> {
    "var el = document.getElementById('"@ + id + "'); if(el) el.innerHTML = `"@
        + escaped_backticks(html) + "`;"@
}

/// The script that removes an element from the document.
pub open spec fn remove_script(id: Seq<char>) -> Seq<char> {
    "var el = document.getElementById('"@ + id + "'); if(el) el.remove();"@
}

/// `a + b + c`, as a string.
pub(crate) fn concat3(a: &str, b: &str, c: &str) -> (r: String)
    ensures
        r@ == a@ + b@ + c@,
{
    let mut r = String::new();
    push_str(&mut r, a);
    push_str(&mut r, b);
    push_str(&mut r, c);
    assert(r@ =~= a@ + b@ + c@);
    r
}

/// `a + b + c + d + e`, as a string.
pub(crate) fn concat5(a: &str, b: &str, c: &str, d: &str, e: &str) -> (r: String)
    ensures
        r@ == a@ + b@ + c@ + d@ + e@,
{
    let mut r = String::new();
    push_str(&mut r, a);
    push_str(&mut r, b);
    push_str(&mut r, c);
    push_str(&mut r, d);
    push_str(&mut r, e);
    assert(r@ =~= a@ + b@ + c@ + d@ + e@);
    r
}

/// `a + b + c + d + e + f + g`, as a string.
pub(crate) fn concat7(a: &str, b: &str, c: &str, d: &str, e: &str, f: &str, g: &str) -> (r:
    String)
    ensures
        r@ == a@ + b@ + c@ + d@ + e@ + f@ + g@,
{
    let mut r = String::new();
    push_str(&mut r, a);
    push_str(&mut r, b);
    push_str(&mut r, c);
    push_str(&mut r, d);
    push_str(&mut r, e);
    push_str(&mut r, f);
    push_str(&mut r, g);
    assert(r@ =~= a@ + b@ + c@ + d@ + e@ + f@ + g@);
    r
}

/// The page of the web view, seen from Rust: each operation gives the script
/// that performs it.
pub struct RustDOM;

/// One element of the page, named by its `id` attribute.
pub struct Element {
    pub id: String,
}

impl RustDOM {
    /// The element with the given id.
    pub fn get_element_by_id(&self, id: &str) -> (e: Element)
        ensures
            e.id@ == id@,
    {
        Element { id: id.to_owned() }
    }

    /// A shorter name for `get_element_by_id`.
    pub fn get_id(&self, id: &str) -> (e: Element)
        ensures
            e.id@ == id@,
    {
        self.get_element_by_id(id)
    }

    /// The toast of the given kind that shows `message`.
    fn send_toast(&self, kind: &str, message: &str) -> (js: String)
        ensures
            js@ == toast_script(kind@, message@),
    {
        let safe_msg = escape_template(message);
        concat5(
            "if (window.alakit_toast) window.alakit_toast('",
            kind,
            "', `",
            safe_msg.as_str(),
            "`);",
        )
    }

    /// A success (green) toast.
    pub fn toast_success(&self, message: &str) -> (js: String)
        ensures
            js@ == toast_script("success"@, message@),
    {
        self.send_toast("success", message)
    }

    /// An error (red) toast.
    pub fn toast_error(&self, message: &str) -> (js: String)
        ensures
            js@ == toast_script("error"@, message@),
    {
        self.send_toast("error", message)
    }

    /// A warning (yellow) toast.
    pub fn toast_warning(&self, message: &str) -> (js: String)
        ensures
            js@ == toast_script("warning"@, message@),
    {
        self.send_toast("warning", message)
    }

    /// An informational (blue) toast.
    pub fn toast_info(&self, message: &str) -> (js: String)
        ensures
            js@ == toast_script("info"@, message@),
    {
        self.send_toast("info", message)
    }

    /// A developer message in the browser console.
    pub fn log(&self, message: &str) -> (js: String)
        ensures
            js@ == log_script(message@),
    {
        let safe = escape_backticks(message);
        concat3("console.log(`[RUST] ", safe.as_str(), "`);")
    }
}

impl Element {
    /// Sets the text of the element.
    pub fn set_text(&self, text: &str) -> (js: String)
        ensures
            js@ == set_text_script(self.id@, text@),
    {
        let safe = escape_backticks(text);
        concat5(
            "document.getElementById('",
            self.id.as_str(),
            "').innerText = `",
            safe.as_str(),
            "`;",
        )
    }

    /// Sets the value of the (input) element.
    pub fn set_value(&self, val: &str) -> (js: String)
        ensures
            js@ == set_value_script(self.id@, val@),
    {
        let safe = escape_backticks(val);
        concat5("document.getElementById('", self.id.as_str(), "').value = `", safe.as_str(), "`;")
    }

    /// Sets one style property of the element.
    pub fn set_style(&self, property: &str, value: &str) -> (js: String)
        ensures
            js@ == set_style_script(self.id@, property@, value@),
    {
        let safe = escape_backticks(value);
        concat7(
            "document.getElementById('",
            self.id.as_str(),
            "').style['",
            property,
            "'] = `",
            safe.as_str(),
            "`;",
        )
    }

    /// Adds a class to the element.
    pub fn add_class(&self, name: &str) -> (js: String)
        ensures
            js@ == add_class_script(self.id@, name@),
    {
        concat5("document.getElementById('", self.id.as_str(), "').classList.add('", name, "');")
    }

    /// Removes a class from the element.
    pub fn remove_class(&self, name: &str) -> (js: String)
        ensures
            js@ == remove_class_script(self.id@, name@),
    {
        concat5(
            "document.getElementById('",
            self.id.as_str(),
            "').classList.remove('",
            name,
            "');",
        )
    }

    /// Sets an attribute of the element (such as `disabled` or `placeholder`).
    pub fn set_attribute(&self, name: &str, value: &str) -> (js: String)
        ensures
            js@ == set_attribute_script(self.id@, name@, value@),
    {
        let safe = escape_backticks(value);
        concat7(
            "document.getElementById('",
            self.id.as_str(),
            "').setAttribute('",
            name,
            "', `",
            safe.as_str(),
            "`);",
        )
    }

    /// Removes an attribute of the element.
    pub fn remove_attribute(&self, name: &str) -> (js: String)
        ensures
            js@ == remove_attribute_script(self.id@, name@),
    {
        concat5(
            "document.getElementById('",
            self.id.as_str(),
            "').removeAttribute('",
            name,
            "');",
        )
    }

    /// Appends raw HTML at the end of the element.
    pub fn append_html(&self, html: &str) -> (js: String)
        ensures
            js@ == append_html_script(self.id@, html@),
    {
        let safe = escape_backticks(html);
        concat5(
            "var el = document.getElementById('",
            self.id.as_str(),
            "'); if(el) el.insertAdjacentHTML('beforeend', `",
            safe.as_str(),
            "`);",
        )
    }

    /// Replaces the inner HTML of the element.
    pub fn set_html(&self, html: &str) -> (js: String)
        ensures
            js@ == set_html_script(self.id@, html@),
    {
        let safe = escape_backticks(html);
        concat5(
            "var el = document.getElementById('",
            self.id.as_str(),
            "'); if(el) el.innerHTML = `",
            safe.as_str(),
            "`;",
        )
    }

    /// Removes the element from the document.
    pub fn remove(&self) -> (js: String)
        ensures
            js@ == remove_script(self.id@),
    {
        concat3("var el = document.getElementById('", self.id.as_str(), "'); if(el) el.remove();")
    }
}

} // verus!
