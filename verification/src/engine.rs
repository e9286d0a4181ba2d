//! The engine's decisions: its settings, the asset that a request of the
//! custom `alakit://` protocol names, and what each message that the page
//! sends over IPC asks for.
//!
//! The application layer owns the window, the web view and the event loop; it
//! asks these functions what to answer and what to do, and does it.

use vstd::prelude::*;
use vstd::utf8::encode_utf8;
use crate::codec::{
    base64_decode, base64_decoded, guessed_mime, json_string_field, json_string_member,
    mime_for_path, opt_opt_view,
};
use crate::dom::{concat3, escape_template, escaped_template};
use crate::secure::MAX_PLAINTEXT_LEN;
use crate::store::{store_update_script, Store};
use crate::text::{
    find_str, index_of_char, index_of_seq, lemma_index_of_seq_at, lemma_index_of_seq_occurs,
    occurs_at, push_str, remove_all, removed_all, skip_chars, split_once, split_once_char,
    str_equal, trim_start_char, trimmed_start,
};

verus! {

// ---------------------------------------------------------------------
// Settings
// ---------------------------------------------------------------------

/// The settings of an application window.
pub struct AlakitEngine {
    title: String,
    ui_dir: String,
    initial_url: String,
}

impl AlakitEngine {
    /// The window title.
    pub closed spec fn spec_title(&self) -> Seq<char> {
        self.title@
    }

    /// The directory the UI files are read from in development builds.
    pub closed spec fn spec_ui_dir(&self) -> Seq<char> {
        self.ui_dir@
    }

    /// The page loaded first, relative to the application's origin.
    pub closed spec fn spec_initial_url(&self) -> Seq<char> {
        self.initial_url@
    }

    /// An engine with the given title, the UI directory `ui` and the first
    /// page `index.html`.
    pub fn new(title: &str) -> (e: Self)
        ensures
            e.spec_title() == title@,
            e.spec_ui_dir() == "ui"@,
            e.spec_initial_url() == "index.html"@,
    {
        AlakitEngine {
            title: title.to_owned(),
            ui_dir: "ui".to_owned(),
            initial_url: "index.html".to_owned(),
        }
    }

    /// The same engine reading its UI files from `path`.
    pub fn with_ui_dir(self, path: &str) -> (e: Self)
        ensures
            e.spec_title() == self.spec_title(),
            e.spec_ui_dir() == path@,
            e.spec_initial_url() == self.spec_initial_url(),
    {
        AlakitEngine { ui_dir: path.to_owned(), ..self }
    }

    /// The same engine starting at `url`, without its leading slashes.
    pub fn with_initial_url(self, url: &str) -> (e: Self)
        ensures
            e.spec_title() == self.spec_title(),
            e.spec_ui_dir() == self.spec_ui_dir(),
            e.spec_initial_url() == trimmed_start(url@, '/'),
    {
        AlakitEngine { initial_url: trim_start_char(url, '/'), ..self }
    }

    /// The window title.
    pub fn title(&self) -> (r: &str)
        ensures
            r@ == self.spec_title(),
    {
        self.title.as_str()
    }

    /// The UI directory.
    pub fn ui_dir(&self) -> (r: &str)
        ensures
            r@ == self.spec_ui_dir(),
    {
        self.ui_dir.as_str()
    }

    /// The first page.
    pub fn initial_url(&self) -> (r: &str)
        ensures
            r@ == self.spec_initial_url(),
    {
        self.initial_url.as_str()
    }

    /// The address the web view opens first: `alakit://localhost/` and the
    /// first page.
    pub fn start_url(&self) -> (r: String)
        ensures
            r@ == "alakit://localhost/"@ + self.spec_initial_url(),
    {
        let mut r = "alakit://localhost/".to_owned();
        push_str(&mut r, self.initial_url.as_str());
        r
    }
}

// ---------------------------------------------------------------------
// Assets
// ---------------------------------------------------------------------

/// Gives the bytes of an embedded UI file by its path.
pub trait AssetProvider {
    /// The bytes of the file at `path`, if there is one.
    fn get(&self, path: &str) -> Option<Vec<u8>>;
}

/// A provider without files.
pub struct NoAssets;

impl AssetProvider for NoAssets {
    fn get(&self, path: &str) -> (r: Option<Vec<u8>>)
        ensures
            r is None,
    {
        None
    }
}

/// The host of every page and asset of the web view: `alakit://localhost`,
/// or `http://alakit.localhost` where the web view names the custom protocol
/// so.
pub const ASSET_HOST: &'static str = "localhost";

/// The asset that a request URI names: the path after the host (the first
/// `localhost` in the URI), or, without one, the URI without `alakit://`; in
/// both cases without leading slashes, and `index.html` when nothing is left.
pub open spec fn asset_path_of(uri: Seq<char>) -> Seq<char> {
    let path = match index_of_seq(uri, ASSET_HOST@) {
        Some(i) => trimmed_start(uri.skip(i + ASSET_HOST@.len()), '/'),
        None => trimmed_start(removed_all(uri, "alakit://"@), '/'),
    };
    if path.len() == 0 || path == "/"@ {
        "index.html"@
    } else {
        path
    }
}

/// The asset that a request of the `alakit://` protocol names.
pub fn asset_path_for_uri(uri: &str) -> (r: String)
    ensures
        r@ == asset_path_of(uri@),
{
    proof {
        reveal_strlit("localhost");
        reveal_strlit("alakit://");
        lemma_index_of_seq_occurs(uri@, ASSET_HOST@);
    }
    let path = match find_str(uri, ASSET_HOST) {
        Some(i) => {
            let rest = skip_chars(uri, i + 9);
            trim_start_char(rest.as_str(), '/')
        },
        None => {
            let rest = remove_all(uri, "alakit://");
            trim_start_char(rest.as_str(), '/')
        },
    };
    if path.as_str().is_empty() || str_equal(path.as_str(), "/") {
        "index.html".to_owned()
    } else {
        path
    }
}

/// The answer to an asset request.
pub struct AssetResponse {
    pub body: Vec<u8>,
    pub mime_type: String,
}

/// The answer to a request for `asset`, given the file's bytes if it was
/// found: the bytes with the media type guessed from the asset's name, or the
/// text `404 Not Found` as `text/plain`.
pub fn asset_response(asset: &str, content: Option<Vec<u8>>) -> (r: AssetResponse)
    ensures
        match content {
            Some(c) => r.body@ == c@ && r.mime_type@ == guessed_mime(asset@),
            None => r.body@ == encode_utf8("404 Not Found"@) && r.mime_type@ == "text/plain"@,
        },
{
    match content {
        Some(c) => AssetResponse { body: c, mime_type: mime_for_path(asset) },
        None => AssetResponse {
            body: vstd::slice::slice_to_vec("404 Not Found".as_bytes()),
            mime_type: "text/plain".to_owned(),
        },
    }
}

/// The text of the script that adds the core style sheet to the page, before
/// the style sheet.
pub const CSS_INJECTION_HEAD: &'static str = "\n            (function() {\n                var inject = function() {\n                    if (document.head) {\n                        if (document.getElementById('alakit-core-styles')) return;\n                        var style = document.createElement('style');\n                        style.id = 'alakit-core-styles';\n                        style.textContent = `";

/// The text of the script that adds the core style sheet to the page, after
/// the style sheet.
pub const CSS_INJECTION_TAIL: &'static str = "`;\n                        document.head.appendChild(style);\n                    } else {\n                        setTimeout(inject, 10);\n                    }\n                };\n                inject();\n            })();\n            ";

/// The script that adds the style sheet `css` to the page once its head exists.
pub open spec fn css_injection_script_of(css: Seq<char>) -> Seq<char> {
    CSS_INJECTION_HEAD@ + escaped_template(css) + CSS_INJECTION_TAIL@
}

/// The script that the web view runs before each page: the core script, a
/// line break, and the script that adds the core style sheet.
pub open spec fn initialization_script_of(core_js: Seq<char>, core_css: Seq<char>) -> Seq<char> {
    core_js + "\n"@ + css_injection_script_of(core_css)
}

/// The script that adds the style sheet `css` to the page.
pub fn css_injection_script(css: &str) -> (r: String)
    ensures
        r@ == css_injection_script_of(css@),
{
    let safe = escape_template(css);
    concat3(CSS_INJECTION_HEAD, safe.as_str(), CSS_INJECTION_TAIL)
}

/// The initialization script of the web view.
pub fn initialization_script(core_js: &str, core_css: &str) -> (r: String)
    ensures
        r@ == initialization_script_of(core_js@, core_css@),
{
    let css = css_injection_script(core_css);
    concat3(core_js, "\n", css.as_str())
}

// ---------------------------------------------------------------------
// IPC messages
// ---------------------------------------------------------------------

/// What a message from the page asks for, before any payload is decoded.
pub enum IpcRequest {
    /// `alakit_bin:<controller>/<command>|<base64>`: binary data for a controller.
    Binary { controller: String, command: String, payload: String },
    /// `alakit_bin:<path>|<base64>` whose path holds no `/`.
    BadBinaryPath { path: String },
    /// `alakit:<command>|<args>`: a command for the framework itself.
    Internal { command: String, args: String },
    /// `<controller>:<command>|<args>`: a command for a controller.
    Command { controller: String, command: String, args: String },
    /// Anything else; nothing is done.
    Ignored,
}

/// The meaning of an `IpcRequest`.
pub enum IpcRequestView {
    Binary { controller: Seq<char>, command: Seq<char>, payload: Seq<char> },
    BadBinaryPath { path: Seq<char> },
    Internal { command: Seq<char>, args: Seq<char> },
    Command { controller: Seq<char>, command: Seq<char>, args: Seq<char> },
    Ignored,
}

impl View for IpcRequest {
    type V = IpcRequestView;

    open spec fn view(&self) -> IpcRequestView {
        match self {
            IpcRequest::Binary { controller, command, payload } => IpcRequestView::Binary {
                controller: controller@,
                command: command@,
                payload: payload@,
            },
            IpcRequest::BadBinaryPath { path } => IpcRequestView::BadBinaryPath { path: path@ },
            IpcRequest::Internal { command, args } => IpcRequestView::Internal {
                command: command@,
                args: args@,
            },
            IpcRequest::Command { controller, command, args } => IpcRequestView::Command {
                controller: controller@,
                command: command@,
                args: args@,
            },
            IpcRequest::Ignored => IpcRequestView::Ignored,
        }
    }
}

/// How a message from the page reads: the part before the first `:` names
/// the receiver; for binary messages the rest is a path and Base64 data split
/// at the first `|`, the path split at its first `/`; for other messages the
/// rest is a command and its arguments split at the first `|` (no arguments
/// without one).
pub open spec fn ipc_request_of(msg: Seq<char>) -> IpcRequestView {
    match split_once(msg, ':') {
        None => IpcRequestView::Ignored,
        Some((receiver, rest)) => if receiver == "alakit_bin"@ {
            match split_once(rest, '|') {
                None => IpcRequestView::Ignored,
                Some((path, payload)) => match split_once(path, '/') {
                    Some((controller, command)) => IpcRequestView::Binary {
                        controller,
                        command,
                        payload,
                    },
                    None => IpcRequestView::BadBinaryPath { path },
                },
            }
        } else {
            let (command, args) = match split_once(rest, '|') {
                Some((c, a)) => (c, a),
                None => (rest, Seq::<char>::empty()),
            };
            if receiver == "alakit"@ {
                IpcRequestView::Internal { command, args }
            } else {
                IpcRequestView::Command { controller: receiver, command, args }
            }
        },
    }
}

/// Reads a message from the page.
pub fn parse_ipc_message(msg: &str) -> (r: IpcRequest)
    ensures
        r@ == ipc_request_of(msg@),
{
    match split_once_char(msg, ':') {
        None => IpcRequest::Ignored,
        Some((receiver, rest)) => {
            if str_equal(receiver.as_str(), "alakit_bin") {
                match split_once_char(rest.as_str(), '|') {
                    None => IpcRequest::Ignored,
                    Some((path, payload)) => match split_once_char(path.as_str(), '/') {
                        Some((controller, command)) => IpcRequest::Binary {
                            controller,
                            command,
                            payload,
                        },
                        None => IpcRequest::BadBinaryPath { path },
                    },
                }
            } else {
                let (command, args) = match split_once_char(rest.as_str(), '|') {
                    Some((c, a)) => (c, a),
                    None => (rest, String::new()),
                };
                if str_equal(receiver.as_str(), "alakit") {
                    IpcRequest::Internal { command, args }
                } else {
                    IpcRequest::Command { controller: receiver, command, args }
                }
            }
        },
    }
}

/// What the engine does about a message from the page.
pub enum IpcAction {
    /// Hand the decoded bytes to the controller's binary handler.
    Binary { controller: String, command: String, payload: Vec<u8> },
    /// Report that the Base64 data of a binary message did not decode, with
    /// the decoder's error.
    ReportBadPayload { error: String },
    /// Report a binary message whose path names no command.
    ReportBadPath { path: String },
    /// Print a line on the console.
    Print { line: String },
    /// Send a script to the page.
    Send { script: String },
    /// Hand the command to the controller registered under this namespace.
    Dispatch { controller: String, command: String, args: String },
    /// Nothing.
    Nothing,
}

/// The meaning of an `IpcAction`.
pub enum IpcActionView {
    Binary { controller: Seq<char>, command: Seq<char>, payload: Seq<u8> },
    ReportBadPayload { error: Seq<char> },
    ReportBadPath { path: Seq<char> },
    Print { line: Seq<char> },
    Send { script: Seq<char> },
    Dispatch { controller: Seq<char>, command: Seq<char>, args: Seq<char> },
    Nothing,
}

impl View for IpcAction {
    type V = IpcActionView;

    open spec fn view(&self) -> IpcActionView {
        match self {
            IpcAction::Binary { controller, command, payload } => IpcActionView::Binary {
                controller: controller@,
                command: command@,
                payload: payload@,
            },
            IpcAction::ReportBadPayload { error } => IpcActionView::ReportBadPayload {
                error: error@,
            },
            IpcAction::ReportBadPath { path } => IpcActionView::ReportBadPath { path: path@ },
            IpcAction::Print { line } => IpcActionView::Print { line: line@ },
            IpcAction::Send { script } => IpcActionView::Send { script: script@ },
            IpcAction::Dispatch { controller, command, args } => IpcActionView::Dispatch {
                controller: controller@,
                command: command@,
                args: args@,
            },
            IpcAction::Nothing => IpcActionView::Nothing,
        }
    }
}

/// A member read as a string, or the empty text (`as_str().unwrap_or("")`).
pub open spec fn member_or_empty(m: Option<Option<Seq<char>>>) -> Seq<char> {
    match m {
        Some(Some(s)) => s,
        _ => Seq::empty(),
    }
}

/// The console line for a log message of the page at the given level.
pub open spec fn js_log_line_of(level: Seq<char>, msg: Seq<char>) -> Seq<char> {
    if level == "error"@ {
        "🔴 [JS ERROR] "@ + msg
    } else if level == "warn"@ {
        "🟡 [JS WARN]  "@ + msg
    } else {
        "🌐 [JS LOG]   "@ + msg
    }
}

/// The console line for the `log` command, from the members `level` and `msg`
/// of its JSON arguments: nothing when the arguments were not JSON; a missing
/// level counts as `info` and a missing message as the empty text.
pub open spec fn js_log_of(level: Option<Option<Seq<char>>>, msg: Option<Option<Seq<char>>>) -> Option<Seq<char>> {
    match level {
        None => None,
        Some(l) => Some(js_log_line_of(
            match l {
                Some(s) => s,
                None => "info"@,
            },
            member_or_empty(msg),
        )),
    }
}

/// The console line for the `log` command, given what its JSON arguments say
/// of `level` and `msg`.
pub fn js_log_line(level: Option<Option<String>>, msg: Option<Option<String>>) -> (r: Option<String>)
    ensures
        match r {
            Some(line) => js_log_of(opt_opt_view(level), opt_opt_view(msg)) == Some(line@),
            None => js_log_of(opt_opt_view(level), opt_opt_view(msg)) is None,
        },
{
    match level {
        None => None,
        Some(l) => {
            let level_text: String = match l {
                Some(s) => s,
                None => "info".to_owned(),
            };
            let msg_text: String = match msg {
                Some(Some(s)) => s,
                _ => String::new(),
            };
            let mut line = if str_equal(level_text.as_str(), "error") {
                "🔴 [JS ERROR] ".to_owned()
            } else if str_equal(level_text.as_str(), "warn") {
                "🟡 [JS WARN]  ".to_owned()
            } else {
                "🌐 [JS LOG]   ".to_owned()
            };
            push_str(&mut line, msg_text.as_str());
            Some(line)
        },
    }
}

/// What the `init` command writes, from the members `key` and `val` of its
/// JSON arguments: nothing when the arguments were not JSON, when the key is
/// empty, or when the store already holds the key; otherwise the key and the
/// value (the empty text when missing).
pub open spec fn init_write_of(
    store: Map<Seq<char>, Seq<char>>,
    key: Option<Option<Seq<char>>>,
    val: Option<Option<Seq<char>>>,
) -> Option<(Seq<char>, Seq<char>)> {
    match key {
        None => None,
        Some(_) => {
            let k = member_or_empty(key);
            if k.len() > 0 && !store.contains_key(k) {
                Some((k, member_or_empty(val)))
            } else {
                None
            }
        },
    }
}

/// Whether the value that an `init` command writes, if it writes one, can be
/// sealed by the store (the store refuses longer values).
pub open spec fn init_write_fits(w: Option<(Seq<char>, Seq<char>)>) -> bool {
    match w {
        Some((_, v)) => encode_utf8(v).len() <= MAX_PLAINTEXT_LEN,
        None => true,
    }
}

/// Carries out the `init` command, given what its JSON arguments say of `key`
/// and `val`: writes the initial value of a key that the store does not hold
/// yet, and gives the script that shows it.
pub fn apply_init(store: &mut Store, key: Option<Option<String>>, val: Option<Option<String>>) -> (r:
    Option<String>)
    requires
        old(store).wf(),
        init_write_fits(init_write_of(old(store)@, opt_opt_view(key), opt_opt_view(val))),
    ensures
        final(store).wf(),
        final(store).failed() ==> final(store)@ == old(store)@,
        match init_write_of(old(store)@, opt_opt_view(key), opt_opt_view(val)) {
            Some((k, v)) => (!final(store).failed() ==> final(store)@ == old(store)@.insert(k, v))
                && (r matches Some(js) && js@ == store_update_script(k, v)),
            None => final(store)@ == old(store)@ && r is None,
        },
{
    if key.is_none() {
        return None;
    }
    let k: String = match key {
        Some(Some(s)) => s,
        _ => String::new(),
    };
    let v: String = match val {
        Some(Some(s)) => s,
        _ => String::new(),
    };
    if !k.as_str().is_empty() && store.get(k.as_str()).is_none() {
        Some(store.set(k.as_str(), v.as_str()))
    } else {
        None
    }
}

/// The console line for an unknown framework command.
pub open spec fn unknown_internal_line(command: Seq<char>) -> Seq<char> {
    "⚠️ [ALAKIT] Ismeretlen belső parancs: "@ + command
}

/// The `init` write that a message asks for, if it is an `init` command: what
/// its JSON arguments say of `key` and `val`, against the store's contents.
pub open spec fn ipc_init_write(store: Map<Seq<char>, Seq<char>>, msg: Seq<char>) -> Option<(Seq<char>, Seq<char>)> {
    match ipc_request_of(msg) {
        IpcRequestView::Internal { command, args } => if command == "init"@ {
            init_write_of(store, json_string_member(args, "key"@), json_string_member(args, "val"@))
        } else {
            None
        },
        _ => None,
    }
}

/// What handling the message `msg` does, as the action `r` and the store's
/// contents before and after.
///
/// Binary messages have their Base64 data decoded; `alakit:log` prints the
/// page's log line; `alakit:init` writes a key's first value; other framework
/// commands are reported; other messages go to their controller.
pub open spec fn ipc_handled(
    msg: Seq<char>,
    before: Map<Seq<char>, Seq<char>>,
    after: Map<Seq<char>, Seq<char>>,
    r: IpcActionView,
) -> bool {
    match ipc_request_of(msg) {
        IpcRequestView::Binary { controller, command, payload } => after == before
            && match base64_decoded(payload) {
            Ok(bytes) => r == IpcActionView::Binary { controller, command, payload: bytes },
            Err(error) => r == IpcActionView::ReportBadPayload { error },
        },
        IpcRequestView::BadBinaryPath { path } => after == before && r
            == IpcActionView::ReportBadPath { path },
        IpcRequestView::Internal { command, args } => if command == "log"@ {
            after == before && match js_log_of(
                json_string_member(args, "level"@),
                json_string_member(args, "msg"@),
            ) {
                Some(line) => r == IpcActionView::Print { line },
                None => r == IpcActionView::Nothing,
            }
        } else if command == "init"@ {
            match ipc_init_write(before, msg) {
                Some((k, v)) => after == before.insert(k, v) && r
                    == IpcActionView::Send { script: store_update_script(k, v) },
                None => after == before && r == IpcActionView::Nothing,
            }
        } else {
            after == before && r == IpcActionView::Print { line: unknown_internal_line(command) }
        },
        IpcRequestView::Command { controller, command, args } => after == before && r
            == IpcActionView::Dispatch { controller, command, args },
        IpcRequestView::Ignored => after == before && r == IpcActionView::Nothing,
    }
}

/// What the engine does about a message from the page, given the store the
/// framework's own commands work on (see `ipc_handled`), unless the random
/// number generator fails the store's write, which then writes nothing. An
/// `init` command that would write a value longer than the store can seal is
/// left out.
pub fn handle_ipc_message(msg: &str, store: &mut Store) -> (r: IpcAction)
    requires
        old(store).wf(),
        init_write_fits(ipc_init_write(old(store)@, msg@)),
    ensures
        final(store).wf(),
        !final(store).failed() ==> ipc_handled(msg@, old(store)@, final(store)@, r@),
        final(store).failed() ==> final(store)@ == old(store)@,
{
    match parse_ipc_message(msg) {
        IpcRequest::Ignored => IpcAction::Nothing,
        IpcRequest::BadBinaryPath { path } => IpcAction::ReportBadPath { path },
        IpcRequest::Binary { controller, command, payload } => {
            match base64_decode(payload.as_str()) {
                Ok(bytes) => IpcAction::Binary { controller, command, payload: bytes },
                Err(error) => IpcAction::ReportBadPayload { error },
            }
        },
        IpcRequest::Command { controller, command, args } => IpcAction::Dispatch {
            controller,
            command,
            args,
        },
        IpcRequest::Internal { command, args } => {
            if str_equal(command.as_str(), "log") {
                let level = json_string_field(args.as_str(), "level");
                let text = json_string_field(args.as_str(), "msg");
                match js_log_line(level, text) {
                    Some(line) => IpcAction::Print { line },
                    None => IpcAction::Nothing,
                }
            } else if str_equal(command.as_str(), "init") {
                let key = json_string_field(args.as_str(), "key");
                let val = json_string_field(args.as_str(), "val");
                match apply_init(store, key, val) {
                    Some(script) => IpcAction::Send { script },
                    None => IpcAction::Nothing,
                }
            } else {
                let mut line = "⚠️ [ALAKIT] Ismeretlen belső parancs: ".to_owned();
                push_str(&mut line, command.as_str());
                IpcAction::Print { line }
            }
        },
    }
}

/// Handles a message from the page as `handle_ipc_message` does, after
/// checking that an `init` command among them would write a value the store
/// can seal: `None`, with the store unchanged, when it would not.
pub fn handle_ipc_message_checked(msg: &str, store: &mut Store) -> (r: Option<IpcAction>)
    requires
        old(store).wf(),
    ensures
        final(store).wf(),
        r is None <==> !init_write_fits(ipc_init_write(old(store)@, msg@)),
        r is None ==> final(store)@ == old(store)@,
        r matches Some(a) ==> (!final(store).failed() ==> ipc_handled(
            msg@,
            old(store)@,
            final(store)@,
            a@,
        )),
        final(store).failed() ==> final(store)@ == old(store)@,
{
    if let IpcRequest::Internal { command, args } = parse_ipc_message(msg) {
        if str_equal(command.as_str(), "init") {
            let key = json_string_field(args.as_str(), "key");
            let val = json_string_field(args.as_str(), "val");
            let has_key = key.is_some();
            let k: String = match key {
                Some(Some(s)) => s,
                _ => String::new(),
            };
            let v: String = match val {
                Some(Some(s)) => s,
                _ => String::new(),
            };
            if has_key && !k.as_str().is_empty() && store.get(k.as_str()).is_none()
                && v.as_str().as_bytes().len() as u64 > MAX_PLAINTEXT_LEN {
                return None;
            }
        }
    }
    Some(handle_ipc_message(msg, store))
}

/// Which registered controller answers a namespace: the first registration,
/// in the registry's order, whose namespace is `namespace`; nothing when no
/// registration has it.
pub fn find_registration(namespaces: &Vec<&str>, namespace: &str) -> (r: Option<usize>)
    ensures
        match r {
            Some(i) => i < namespaces@.len() && namespaces@[i as int]@ == namespace@ && forall|j: int|
                0 <= j < i ==> #[trigger] namespaces@[j]@ != namespace@,
            None => forall|j: int| 0 <= j < namespaces@.len() ==> #[trigger] namespaces@[j]@ != namespace@,
        },
{
    let mut i: usize = 0;
    while i < namespaces.len()
        invariant
            i <= namespaces@.len(),
            forall|j: int| 0 <= j < i ==> #[trigger] namespaces@[j]@ != namespace@,
        decreases namespaces@.len() - i,
    {
        if str_equal(namespaces[i], namespace) {
            return Some(i);
        }
        i = i + 1;
    }
    None
}

// ---------------------------------------------------------------------
// Laws
// ---------------------------------------------------------------------

/// Trimming leading slashes leaves none, and trimming again changes nothing.
pub proof fn law_initial_url_trimmed(url: Seq<char>)
    ensures
        trimmed_start(url, '/').len() > 0 ==> trimmed_start(url, '/')[0] != '/',
        trimmed_start(trimmed_start(url, '/'), '/') == trimmed_start(url, '/'),
    decreases url.len(),
{
    if url.len() > 0 && url[0] == '/' {
        law_initial_url_trimmed(url.drop_first());
    }
}

/// Every request names some asset: the name is never empty.
pub proof fn law_asset_path_not_empty(uri: Seq<char>)
    ensures
        asset_path_of(uri).len() > 0,
{
    reveal_strlit("index.html");
}

/// A page's address names the page: the request for
/// `alakit://localhost/` followed by a relative path `p` (one that does not
/// begin with a slash) is answered with the asset `p`.
pub proof fn law_asset_path_of_page(p: Seq<char>)
    requires
        p.len() > 0,
        p[0] != '/',
    ensures
        asset_path_of("alakit://localhost/"@ + p) == p,
{
    reveal_strlit("alakit://localhost/");
    reveal_strlit("localhost");
    let uri = "alakit://localhost/"@ + p;
    let host = ASSET_HOST@;
    assert(uri.subrange(9, 18) =~= host);
    assert forall|j: int| 0 <= j < 9 implies !occurs_at(uri, host, j) by {
        if j == 1 {
            assert(uri.subrange(j, j + 9)[1] != host[1]);
        } else {
            assert(uri.subrange(j, j + 9)[0] != host[0]);
        }
    }
    lemma_index_of_seq_at(uri, host, 9);
    let rest = uri.skip(18);
    assert(rest =~= seq!['/'] + p);
    assert(rest[0] == '/');
    assert(rest.drop_first() =~= p);
    assert(trimmed_start(rest.drop_first(), '/') == p);
    assert(p != "/"@) by {
        reveal_strlit("/");
    }
}

/// Of all messages, only an `init` command changes the store: it adds one
/// key with a non-empty name that the store did not hold, so it never
/// overwrites a value, and the same message handled again changes nothing.
pub proof fn law_ipc_only_init_writes(
    msg: Seq<char>,
    before: Map<Seq<char>, Seq<char>>,
    after: Map<Seq<char>, Seq<char>>,
    r: IpcActionView,
)
    requires
        ipc_handled(msg, before, after, r),
    ensures
        after == match ipc_init_write(before, msg) {
            Some((k, v)) => before.insert(k, v),
            None => before,
        },
        ipc_init_write(before, msg) matches Some((k, v)) ==> k.len() > 0 && !before.contains_key(k),
        ipc_init_write(after, msg) is None,
{
    reveal_strlit("init");
    reveal_strlit("log");
    reveal_strlit("key");
    if let IpcRequestView::Internal { command, args } = ipc_request_of(msg) {
        if command == "init"@ {
            let key = json_string_member(args, "key"@);
            let val = json_string_member(args, "val"@);
            if let Some((k, v)) = init_write_of(before, key, val) {
                assert(member_or_empty(key) == k);
                assert(after.contains_key(k));
                assert(init_write_of(after, key, val) is None);
            }
        } else {
            assert(command != "init"@);
        }
    }
}

/// A message reaches a controller's command handler exactly when it reads as
/// a command for a receiver other than the framework's own names, and then
/// with that receiver, command and arguments; binary data reaches a
/// controller only from a well-formed `alakit_bin` message.
pub proof fn law_ipc_controllers_reached(
    msg: Seq<char>,
    before: Map<Seq<char>, Seq<char>>,
    after: Map<Seq<char>, Seq<char>>,
    r: IpcActionView,
)
    requires
        ipc_handled(msg, before, after, r),
    ensures
        (r is Dispatch) <==> (ipc_request_of(msg) is Command),
        r matches IpcActionView::Dispatch { controller, command, args } ==> ipc_request_of(msg)
            == (IpcRequestView::Command { controller, command, args }),
        ipc_request_of(msg) matches IpcRequestView::Command { controller, command, args }
            ==> controller != "alakit"@ && controller != "alakit_bin"@ && (split_once(msg, ':')
            matches Some((receiver, _)) && receiver == controller),
        r matches IpcActionView::Binary { controller, command, payload } ==> (split_once(msg, ':')
            matches Some((receiver, _)) && receiver == "alakit_bin"@) && (ipc_request_of(msg)
            matches IpcRequestView::Binary { controller: c, command: m, payload: text } && c
            == controller && m == command && base64_decoded(text) == Ok::<Seq<u8>, Seq<char>>(payload)),
{
}

/// The first `x` of `a + [x] + b`, when `a` holds none, is right after `a`.
proof fn lemma_index_after_prefix(a: Seq<char>, x: char, b: Seq<char>)
    requires
        forall|i: int| 0 <= i < a.len() ==> a[i] != x,
    ensures
        index_of_char(a + seq![x] + b, x) == Some(a.len() as int),
    decreases a.len(),
{
    let s = a + seq![x] + b;
    if a.len() > 0 {
        assert(s.drop_first() =~= a.drop_first() + seq![x] + b);
        lemma_index_after_prefix(a.drop_first(), x, b);
        assert(s[0] == a[0]);
    } else {
        assert(s[0] == x);
    }
}

/// Splitting `a + [x] + b` at its first `x`, when `a` holds none, gives `a`
/// and `b` back.
proof fn lemma_split_after_prefix(a: Seq<char>, x: char, b: Seq<char>)
    requires
        forall|i: int| 0 <= i < a.len() ==> a[i] != x,
    ensures
        split_once(a + seq![x] + b, x) == Some((a, b)),
{
    lemma_index_after_prefix(a, x, b);
    let s = a + seq![x] + b;
    assert(s.take(a.len() as int) =~= a);
    assert(s.skip(a.len() as int + 1) =~= b);
}

/// A command message `controller:command|args` reads back as the same
/// controller, command and arguments, for a controller name without `:` other
/// than the framework's own names, and a command without `|`.
pub proof fn law_ipc_command_round_trip(controller: Seq<char>, command: Seq<char>, args: Seq<char>)
    requires
        forall|i: int| 0 <= i < controller.len() ==> controller[i] != ':',
        forall|i: int| 0 <= i < command.len() ==> command[i] != '|',
        controller != "alakit"@,
        controller != "alakit_bin"@,
    ensures
        ipc_request_of(controller + seq![':'] + command + seq!['|'] + args)
            == (IpcRequestView::Command { controller, command, args }),
{
    let rest = command + seq!['|'] + args;
    assert(controller + seq![':'] + command + seq!['|'] + args =~= controller + seq![':'] + rest);
    lemma_split_after_prefix(controller, ':', rest);
    lemma_split_after_prefix(command, '|', args);
}

/// A binary message `alakit_bin:controller/command|payload` reads back as the
/// same controller, command and Base64 payload, for a controller name without
/// `/` or `|` and a command without `|`.
pub proof fn law_ipc_binary_round_trip(controller: Seq<char>, command: Seq<char>, payload: Seq<char>)
    requires
        forall|i: int| 0 <= i < controller.len() ==> controller[i] != '/' && controller[i] != '|',
        forall|i: int| 0 <= i < command.len() ==> command[i] != '|',
    ensures
        ipc_request_of("alakit_bin"@ + seq![':'] + controller + seq!['/'] + command + seq!['|'] + payload)
            == (IpcRequestView::Binary { controller, command, payload }),
{
    reveal_strlit("alakit_bin");
    let path = controller + seq!['/'] + command;
    let rest = path + seq!['|'] + payload;
    assert("alakit_bin"@ + seq![':'] + controller + seq!['/'] + command + seq!['|'] + payload
        =~= "alakit_bin"@ + seq![':'] + rest);
    lemma_split_after_prefix("alakit_bin"@, ':', rest);
    assert forall|i: int| 0 <= i < path.len() implies path[i] != '|' by {
        if i < controller.len() {
            assert(path[i] == controller[i]);
        } else if i > controller.len() {
            assert(path[i] == command[i - controller.len() - 1]);
        }
    }
    lemma_split_after_prefix(path, '|', payload);
    lemma_split_after_prefix(controller, '/', command);
}

} // verus!
