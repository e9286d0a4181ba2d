//! The vault application: credentials shown after a master password.

use vstd::prelude::*;
use crate::codec::{
    json_objects, json_objects_size_bound, json_objects_text, json_string_field,
    json_string_member, member_size_bound, object_size_bound, records_view,
};
use crate::context::{effects_view, AlakitController, AppContext, Effect, EffectView};
use crate::dom::{
    concat7, set_html_script, set_value_script, toast_script,
};
use crate::engine::member_or_empty;
use crate::number::lemma_encode_len_le;
use crate::store::{store_remove_script, store_update_script};
use crate::text::{push_str, str_equal};

verus! {

/// The master password of the demonstration vault.
pub const MASTER_PASSWORD: &'static str = "alakit123";

/// The text of a credential card before the service name.
pub const CARD_HEAD: &'static str = "\n                <div class=\"pwd-item\">\n                    <div class=\"pwd-info\">\n                        <h3>";

/// The text of a credential card between the service and the user.
pub const CARD_AFTER_SERVICE: &'static str = "</h3>\n                        <p>";

/// The text of a credential card between the user and the password.
pub const CARD_AFTER_USER: &'static str = "</p>\n                    </div>\n                    <button class=\"icon-btn copy-btn\" title=\"Copy\" onclick=\"window.copyToClipboard('";

/// The text of a credential card after the password.
pub const CARD_TAIL: &'static str = "')\">\n                        <svg width=\"18\" height=\"18\" viewBox=\"0 0 24 24\" fill=\"none\" stroke=\"var(--accent)\" stroke-width=\"2\"><rect x=\"9\" y=\"9\" width=\"13\" height=\"13\" rx=\"2\" ry=\"2\"></rect><path d=\"M5 15H4a2 2 0 0 1-2-2V4a2 2 0 0 1 2-2h9a2 2 0 0 1 2 2v1\"></path></svg>\n                    </button>\n                </div>\n                ";

/// The HTML card of one credential, with a button that copies the password.
pub open spec fn card_of(service: Seq<char>, user: Seq<char>, pass: Seq<char>) -> Seq<char> {
    CARD_HEAD@ + service + CARD_AFTER_SERVICE@ + user + CARD_AFTER_USER@ + pass + CARD_TAIL@
}

/// The cards of a list of credentials, one after the other.
pub open spec fn cards_of(creds: Seq<(Seq<char>, Seq<char>, Seq<char>)>) -> Seq<char>
    decreases creds.len(),
{
    if creds.len() == 0 {
        Seq::empty()
    } else {
        cards_of(creds.drop_last()) + card_of(
            creds.last().0,
            creds.last().1,
            creds.last().2,
        )
    }
}

/// The credentials kept in the demonstration vault.
pub open spec fn demo_credentials() -> Seq<(Seq<char>, Seq<char>, Seq<char>)> {
    seq![
        ("Netflix"@, "felix@alakit.rs"@, "N3tfl!x_Rust"@),
        ("Github"@, "RustHero"@, "g1t_c0mm1t_pusH"@),
        ("Banking App"@, "admin"@, "$uperS3cr3tB@nk!"@),
    ]
}

/// The view of a list of credentials (service, user, password).
pub open spec fn credentials_view(creds: Seq<(String, String, String)>) -> Seq<(Seq<char>, Seq<char>, Seq<char>)> {
    creds.map_values(|c: (String, String, String)| (c.0@, c.1@, c.2@))
}

/// The JSON record of one credential: the members `service`, `user` and
/// `pass`.
pub open spec fn credential_record(c: (Seq<char>, Seq<char>, Seq<char>)) -> Seq<(Seq<char>, Seq<char>)> {
    seq![("service"@, c.0), ("user"@, c.1), ("pass"@, c.2)]
}

/// The JSON records of a list of credentials.
pub open spec fn credential_records(creds: Seq<(Seq<char>, Seq<char>, Seq<char>)>) -> Seq<
    Seq<(Seq<char>, Seq<char>)>,
> {
    creds.map_values(|c: (Seq<char>, Seq<char>, Seq<char>)| credential_record(c))
}

/// The JSON text of the vault's credentials, as the store keeps it.
pub open spec fn vault_json() -> Seq<char> {
    json_objects_text(credential_records(demo_credentials()))
}

/// What unlocking leaves in the store: the credentials as JSON under
/// `vault_data`, and the two state flags.
pub open spec fn unlocked_store(m: Map<Seq<char>, Seq<char>>) -> Map<Seq<char>, Seq<char>> {
    m.insert("vault_data"@, vault_json()).insert("vault_unlocked"@, "true"@).insert(
        "vault_locked"@,
        "false"@,
    )
}

/// What unlocking does, in order: store the credentials, show their cards,
/// set the two flags, toast, and clear the password field.
pub open spec fn unlock_effects() -> Seq<EffectView> {
    seq![
        EffectView::Run { script: store_update_script("vault_data"@, vault_json()) },
        EffectView::Run { script: set_html_script("password-list"@, cards_of(demo_credentials())) },
        EffectView::Run { script: store_update_script("vault_unlocked"@, "true"@) },
        EffectView::Run { script: store_update_script("vault_locked"@, "false"@) },
        EffectView::Run {
            script: toast_script("success"@, "Vault Unlocked! AES-256 Memory Activated."@),
        },
        EffectView::Run { script: set_value_script("master-password"@, ""@) },
    ]
}

/// The size of a member's JSON is bounded by that of its name and value.
proof fn lemma_member_bound(n: Seq<char>, v: Seq<char>)
    ensures
        member_size_bound((n, v)) <= 24 * (n.len() + v.len()) + 6,
{
    lemma_encode_len_le(n);
    lemma_encode_len_le(v);
}

/// The size bound of an object of three members.
proof fn lemma_object3_bound(r: Seq<(Seq<char>, Seq<char>)>)
    requires
        r.len() == 3,
    ensures
        object_size_bound(r) == 2 + member_size_bound(r[0]) + member_size_bound(r[1])
            + member_size_bound(r[2]),
{
    let r2 = r.drop_last();
    let r1 = r2.drop_last();
    let r0 = r1.drop_last();
    assert(r0 =~= Seq::<(Seq<char>, Seq<char>)>::empty());
    assert(r1.last() == r[0]);
    assert(r2.last() == r[1]);
    assert(object_size_bound(r0) == 2);
    assert(object_size_bound(r1) == object_size_bound(r0) + member_size_bound(r[0]));
    assert(object_size_bound(r2) == object_size_bound(r1) + member_size_bound(r[1]));
}

/// The size bound of an array of three objects.
proof fn lemma_array3_bound(rs: Seq<Seq<(Seq<char>, Seq<char>)>>)
    requires
        rs.len() == 3,
    ensures
        json_objects_size_bound(rs) == 5 + object_size_bound(rs[0]) + object_size_bound(rs[1])
            + object_size_bound(rs[2]),
{
    let r2 = rs.drop_last();
    let r1 = r2.drop_last();
    let r0 = r1.drop_last();
    assert(r0 =~= Seq::<Seq<(Seq<char>, Seq<char>)>>::empty());
    assert(r1.last() == rs[0]);
    assert(r2.last() == rs[1]);
    assert(json_objects_size_bound(r0) == 2);
    assert(json_objects_size_bound(r1) == json_objects_size_bound(r0) + object_size_bound(rs[0]) + 1);
    assert(json_objects_size_bound(r2) == json_objects_size_bound(r1) + object_size_bound(rs[1]) + 1);
}

/// The size bound of a credential's record, from the lengths of its texts.
proof fn lemma_record_bound(c: (Seq<char>, Seq<char>, Seq<char>))
    requires
        c.0.len() <= 16 && c.1.len() <= 16 && c.2.len() <= 16,
    ensures
        object_size_bound(credential_record(c)) <= 2000,
{
    reveal_strlit("service");
    reveal_strlit("user");
    reveal_strlit("pass");
    let r = credential_record(c);
    lemma_object3_bound(r);
    lemma_member_bound(r[0].0, r[0].1);
    lemma_member_bound(r[1].0, r[1].1);
    lemma_member_bound(r[2].0, r[2].1);
}

/// The vault's JSON is small enough for the store to seal.
proof fn lemma_vault_json_fits()
    ensures
        json_objects_size_bound(credential_records(demo_credentials())) <= 10_000,
{
    reveal_strlit("Netflix");
    reveal_strlit("felix@alakit.rs");
    reveal_strlit("N3tfl!x_Rust");
    reveal_strlit("Github");
    reveal_strlit("RustHero");
    reveal_strlit("g1t_c0mm1t_pusH");
    reveal_strlit("Banking App");
    reveal_strlit("admin");
    reveal_strlit("$uperS3cr3tB@nk!");
    let d = demo_credentials();
    let recs = credential_records(d);
    lemma_array3_bound(recs);
    lemma_record_bound(d[0]);
    lemma_record_bound(d[1]);
    lemma_record_bound(d[2]);
}

/// What locking leaves in the store: no credentials, and the two flags.
pub open spec fn locked_store(m: Map<Seq<char>, Seq<char>>) -> Map<Seq<char>, Seq<char>> {
    m.remove("vault_data"@).insert("vault_unlocked"@, "false"@).insert("vault_locked"@, "true"@)
}

/// What locking does, in order.
pub open spec fn lock_effects() -> Seq<EffectView> {
    seq![
        EffectView::Run { script: store_remove_script("vault_data"@) },
        EffectView::Run { script: store_update_script("vault_unlocked"@, "false"@) },
        EffectView::Run { script: store_update_script("vault_locked"@, "true"@) },
        EffectView::Run { script: toast_script("info"@, "Vault Locked. Memory cleared."@) },
    ]
}

/// The controller of the vault.
#[derive(Default)]
pub struct VaultController;

/// A `String` holding a literal's characters.
fn owned(s: &str) -> (r: String)
    ensures
        r@ == s@,
{
    s.to_owned()
}

impl VaultController {
    /// The credentials kept in the demonstration vault.
    fn credentials() -> (creds: Vec<(String, String, String)>)
        ensures
            credentials_view(creds@) == demo_credentials(),
    {
        let creds = vec![
            (owned("Netflix"), owned("felix@alakit.rs"), owned("N3tfl!x_Rust")),
            (owned("Github"), owned("RustHero"), owned("g1t_c0mm1t_pusH")),
            (owned("Banking App"), owned("admin"), owned("$uperS3cr3tB@nk!")),
        ];
        assert(credentials_view(creds@) =~= demo_credentials());
        creds
    }

    /// The cards of the credentials.
    fn cards(creds: &Vec<(String, String, String)>) -> (html: String)
        ensures
            html@ == cards_of(credentials_view(creds@)),
    {
        let mut html = String::new();
        let mut i: usize = 0;
        while i < creds.len()
            invariant
                i <= creds@.len(),
                html@ == cards_of(credentials_view(creds@).take(i as int)),
            decreases creds@.len() - i,
        {
            let (srv, usr, pwd) = &creds[i];
            let card = concat7(
                CARD_HEAD,
                srv.as_str(),
                CARD_AFTER_SERVICE,
                usr.as_str(),
                CARD_AFTER_USER,
                pwd.as_str(),
                CARD_TAIL,
            );
            push_str(&mut html, card.as_str());
            proof {
                let v = credentials_view(creds@);
                assert(v.take(i + 1).drop_last() =~= v.take(i as int));
                assert(v.take(i + 1).last() == v[i as int]);
            }
            i = i + 1;
        }
        assert(credentials_view(creds@).take(creds@.len() as int) =~= credentials_view(creds@));
        html
    }

    /// The JSON records of the credentials.
    fn records_of(creds: &Vec<(String, String, String)>) -> (records: Vec<Vec<(String, String)>>)
        ensures
            records_view(records@) == credential_records(credentials_view(creds@)),
    {
        let mut records: Vec<Vec<(String, String)>> = Vec::new();
        let mut i: usize = 0;
        while i < creds.len()
            invariant
                i <= creds@.len(),
                records_view(records@) == credential_records(credentials_view(creds@)).take(i as int),
            decreases creds@.len() - i,
        {
            let (srv, usr, pwd) = &creds[i];
            let record = vec![
                (owned("service"), owned(srv.as_str())),
                (owned("user"), owned(usr.as_str())),
                (owned("pass"), owned(pwd.as_str())),
            ];
            let ghost before = records@;
            records.push(record);
            proof {
                let c = credentials_view(creds@)[i as int];
                assert(record@.map_values(|m: (String, String)| (m.0@, m.1@)) =~= credential_record(c));
                assert(records@ == before.push(record));
                assert(records_view(records@) =~= records_view(before).push(
                    record@.map_values(|m: (String, String)| (m.0@, m.1@)),
                ));
                assert(credential_records(credentials_view(creds@)).take(i + 1)
                    =~= credential_records(credentials_view(creds@)).take(i as int).push(
                    credential_record(c),
                ));
            }
            i = i + 1;
        }
        assert(credential_records(credentials_view(creds@)).take(creds@.len() as int)
            =~= credential_records(credentials_view(creds@)));
        records
    }

    /// Stores the credentials (encrypted) as JSON and shows their cards.
    fn load_secured_credentials(&self, ctx: &mut AppContext) -> (effects: Vec<Effect>)
        requires
            old(ctx).wf(),
        ensures
            final(ctx).wf(),
            old(ctx).store.failed() ==> final(ctx).store.failed(),
            !final(ctx).store.failed() ==> final(ctx).store@ == old(ctx).store@.insert(
                "vault_data"@,
                vault_json(),
            ),
            final(ctx).store.failed() ==> final(ctx).store@ == old(ctx).store@,
            effects_view(effects@) == seq![
                EffectView::Run { script: store_update_script("vault_data"@, vault_json()) },
                EffectView::Run {
                    script: set_html_script("password-list"@, cards_of(demo_credentials())),
                },
            ],
    {
        let creds = Self::credentials();
        let records = Self::records_of(&creds);
        let json = json_objects(&records);
        proof {
            lemma_vault_json_fits();
        }
        let script = ctx.store.set("vault_data", json.as_str());
        let html = Self::cards(&creds);
        let list = ctx.dom.get_element_by_id("password-list");
        let effects = vec![
            Effect::Run { script },
            Effect::Run { script: list.set_html(html.as_str()) },
        ];
        assert(effects_view(effects@) =~= seq![
            EffectView::Run { script: store_update_script("vault_data"@, vault_json()) },
            EffectView::Run {
                script: set_html_script("password-list"@, cards_of(demo_credentials())),
            },
        ]);
        effects
    }

    /// Opens the vault when `password` is the master password: stores and
    /// shows the credentials, sets the flags, toasts and clears the password
    /// field; otherwise toasts that access is denied.
    pub fn unlock_with_password(&self, ctx: &mut AppContext, password: &str) -> (effects: Vec<
        Effect,
    >)
        requires
            old(ctx).wf(),
        ensures
            final(ctx).wf(),
            password@ == MASTER_PASSWORD@ ==> (!final(ctx).store.failed() ==> final(ctx).store@
                == unlocked_store(old(ctx).store@)) && effects_view(effects@) == unlock_effects(),
            password@ != MASTER_PASSWORD@ ==> final(ctx).store@ == old(ctx).store@ && effects_view(
                effects@,
            ) == seq![
                EffectView::Run {
                    script: toast_script("error"@, "Access Denied: Invalid Master Password."@),
                },
            ],
    {
        if str_equal(password, MASTER_PASSWORD) {
            let mut effects = self.load_secured_credentials(ctx);
            proof {
                reveal_strlit("true");
                reveal_strlit("false");
                lemma_encode_len_le("true"@);
                lemma_encode_len_le("false"@);
            }
            let a = ctx.store.set("vault_unlocked", "true");
            let b = ctx.store.set("vault_locked", "false");
            let c = ctx.dom.toast_success("Vault Unlocked! AES-256 Memory Activated.");
            let field = ctx.dom.get_element_by_id("master-password");
            let d = field.set_value("");
            let ghost before = effects@;
            let ghost added = seq![
                EffectView::Run { script: a@ },
                EffectView::Run { script: b@ },
                EffectView::Run { script: c@ },
                EffectView::Run { script: d@ },
            ];
            effects.push(Effect::Run { script: a });
            effects.push(Effect::Run { script: b });
            effects.push(Effect::Run { script: c });
            effects.push(Effect::Run { script: d });
            proof {
                assert(effects_view(effects@) =~= effects_view(before) + added);
                assert(effects_view(effects@) =~= unlock_effects());
            }
            effects
        } else {
            let e = ctx.dom.toast_error("Access Denied: Invalid Master Password.");
            let effects = vec![Effect::Run { script: e }];
            assert(effects_view(effects@) =~= seq![
                EffectView::Run {
                    script: toast_script("error"@, "Access Denied: Invalid Master Password."@),
                },
            ]);
            effects
        }
    }

    /// Opens the vault with the `master-password` member of the JSON
    /// arguments (the empty text when there is none).
    pub fn unlock_vault(&self, ctx: &mut AppContext, args: &str) -> (effects: Vec<Effect>)
        requires
            old(ctx).wf(),
        ensures
            final(ctx).wf(),
            ({
                let pwd = member_or_empty(json_string_member(args@, "master-password"@));
                &&& pwd == MASTER_PASSWORD@ ==> (!final(ctx).store.failed() ==> final(ctx).store@
                    == unlocked_store(old(ctx).store@)) && effects_view(effects@) == unlock_effects()
                &&& pwd != MASTER_PASSWORD@ ==> final(ctx).store@ == old(ctx).store@
                    && effects_view(effects@) == seq![
                    EffectView::Run {
                        script: toast_script("error"@, "Access Denied: Invalid Master Password."@),
                    },
                ]
            }),
    {
        let member = json_string_field(args, "master-password");
        let password: String = match member {
            Some(Some(p)) => p,
            _ => String::new(),
        };
        self.unlock_with_password(ctx, password.as_str())
    }

    /// Locks the vault: removes the credentials (their buffers are wiped),
    /// sets the flags and toasts.
    pub fn lock_vault(&self, ctx: &mut AppContext) -> (effects: Vec<Effect>)
        requires
            old(ctx).wf(),
        ensures
            final(ctx).wf(),
            !final(ctx).store.failed() ==> final(ctx).store@ == locked_store(old(ctx).store@),
            effects_view(effects@) == lock_effects(),
    {
        proof {
            reveal_strlit("true");
            reveal_strlit("false");
            lemma_encode_len_le("true"@);
            lemma_encode_len_le("false"@);
        }
        let a = ctx.store.remove("vault_data");
        let b = ctx.store.set("vault_unlocked", "false");
        let c = ctx.store.set("vault_locked", "true");
        let d = ctx.dom.toast_info("Vault Locked. Memory cleared.");
        let effects = vec![
            Effect::Run { script: a },
            Effect::Run { script: b },
            Effect::Run { script: c },
            Effect::Run { script: d },
        ];
        assert(effects_view(effects@) =~= lock_effects());
        effects
    }
}

impl AlakitController for VaultController {
    /// `unlock` opens the vault with the password in the arguments, `lock`
    /// locks it, and other commands get a warning toast.
    fn handle(&self, command: &str, args: &str, ctx: &mut AppContext) -> (effects: Vec<Effect>)
        ensures
            command@ == "unlock"@ ==> {
                let pwd = member_or_empty(json_string_member(args@, "master-password"@));
                &&& pwd == MASTER_PASSWORD@ ==> (!final(ctx).store.failed() ==> final(ctx).store@
                    == unlocked_store(old(ctx).store@)) && effects_view(effects@) == unlock_effects()
                &&& pwd != MASTER_PASSWORD@ ==> final(ctx).store@ == old(ctx).store@
                    && effects_view(effects@) == seq![
                    EffectView::Run {
                        script: toast_script("error"@, "Access Denied: Invalid Master Password."@),
                    },
                ]
            },
            command@ == "lock"@ ==> (!final(ctx).store.failed() ==> final(ctx).store@
                == locked_store(old(ctx).store@)) && effects_view(effects@) == lock_effects(),
            command@ != "unlock"@ && command@ != "lock"@ ==> final(ctx).store@ == old(ctx).store@
                && effects_view(effects@) == seq![
                EffectView::Run {
                    script: toast_script("warning"@, "Unknown vault command: "@ + command@),
                },
            ],
    {
        proof {
            reveal_strlit("unlock");
            reveal_strlit("lock");
            assert("unlock"@[0] != "lock"@[0]);
        }
        if str_equal(command, "unlock") {
            self.unlock_vault(ctx, args)
        } else if str_equal(command, "lock") {
            self.lock_vault(ctx)
        } else {
            let mut message = "Unknown vault command: ".to_owned();
            push_str(&mut message, command);
            let e = ctx.dom.toast_warning(message.as_str());
            let effects = vec![Effect::Run { script: e }];
            assert(effects_view(effects@) =~= seq![
                EffectView::Run {
                    script: toast_script("warning"@, "Unknown vault command: "@ + command@),
                },
            ]);
            effects
        }
    }
}

/// A credential's card shows its service as the heading, its user between
/// `<p>` and `</p>` right after it, and copies its password: the password
/// stands between `copyToClipboard('` and `')`.
pub proof fn law_card_shows_fields(service: Seq<char>, user: Seq<char>, pass: Seq<char>)
    ensures
        ({
            let card = card_of(service, user, pass);
            let a = CARD_HEAD@.len() as int;
            let k = a + service.len() + CARD_AFTER_SERVICE@.len();
            let q = k + user.len() + CARD_AFTER_USER@.len();
            &&& card.subrange(a - 4, a + service.len() + 5) == "<h3>"@ + service + "</h3>"@
            &&& card.subrange(k - 3, k + user.len() + 4) == "<p>"@ + user + "</p>"@
            &&& card.subrange(q - 17, q + pass.len() + 2) == "copyToClipboard('"@ + pass + "')"@
        }),
{
    reveal_strlit("<h3>");
    reveal_strlit("</h3>");
    reveal_strlit("<p>");
    reveal_strlit("</p>");
    reveal_strlit("copyToClipboard('");
    reveal_strlit("')");
    reveal_strlit("\n                <div class=\"pwd-item\">\n                    <div class=\"pwd-info\">\n                        <h3>");
    reveal_strlit("</h3>\n                        <p>");
    reveal_strlit("</p>\n                    </div>\n                    <button class=\"icon-btn copy-btn\" title=\"Copy\" onclick=\"window.copyToClipboard('");
    reveal_strlit("')\">\n                        <svg width=\"18\" height=\"18\" viewBox=\"0 0 24 24\" fill=\"none\" stroke=\"var(--accent)\" stroke-width=\"2\"><rect x=\"9\" y=\"9\" width=\"13\" height=\"13\" rx=\"2\" ry=\"2\"></rect><path d=\"M5 15H4a2 2 0 0 1-2-2V4a2 2 0 0 1 2-2h9a2 2 0 0 1 2 2v1\"></path></svg>\n                    </button>\n                </div>\n                ");
    let card = card_of(service, user, pass);
    let a = CARD_HEAD@.len() as int;
    let k = a + service.len() + CARD_AFTER_SERVICE@.len();
    let q = k + user.len() + CARD_AFTER_USER@.len();
    assert(card.subrange(a - 4, a + service.len() + 5) =~= "<h3>"@ + service + "</h3>"@);
    assert(card.subrange(k - 3, k + user.len() + 4) =~= "<p>"@ + user + "</p>"@);
    assert(card.subrange(q - 17, q + pass.len() + 2) =~= "copyToClipboard('"@ + pass + "')"@);
}

/// The cards come in the order of the credentials: adding a credential at
/// the end adds its card at the end, and the first credential's card comes
/// first.
pub proof fn law_cards_in_order(
    c: (Seq<char>, Seq<char>, Seq<char>),
    creds: Seq<(Seq<char>, Seq<char>, Seq<char>)>,
)
    ensures
        cards_of(Seq::<(Seq<char>, Seq<char>, Seq<char>)>::empty()) == Seq::<char>::empty(),
        cards_of(creds.push(c)) == cards_of(creds) + card_of(c.0, c.1, c.2),
        cards_of(seq![c] + creds) == card_of(c.0, c.1, c.2) + cards_of(creds),
    decreases creds.len(),
{
    assert(creds.push(c).drop_last() =~= creds);
    if creds.len() == 0 {
        assert(seq![c] + creds =~= seq![c]);
        assert(seq![c].drop_last() =~= Seq::<(Seq<char>, Seq<char>, Seq<char>)>::empty());
        assert(Seq::<char>::empty() + card_of(c.0, c.1, c.2) =~= card_of(c.0, c.1, c.2));
        assert(card_of(c.0, c.1, c.2) + Seq::<char>::empty() =~= card_of(c.0, c.1, c.2));
    } else {
        let init = creds.drop_last();
        let l = creds.last();
        law_cards_in_order(c, init);
        assert((seq![c] + creds).drop_last() =~= seq![c] + init);
        assert((seq![c] + creds).last() == l);
        assert(card_of(c.0, c.1, c.2) + cards_of(init) + card_of(l.0, l.1, l.2)
            =~= card_of(c.0, c.1, c.2) + (cards_of(init) + card_of(l.0, l.1, l.2)));
    }
}

/// Locking removes the credentials from the store, whatever was unlocked
/// before, and the two flags always say the opposite of each other: `true`
/// and `false` after unlocking, `false` and `true` after locking.
pub proof fn law_vault_lock_after_unlock(m: Map<Seq<char>, Seq<char>>)
    ensures
        !locked_store(unlocked_store(m)).contains_key("vault_data"@),
        unlocked_store(m)["vault_unlocked"@] == "true"@,
        unlocked_store(m)["vault_locked"@] == "false"@,
        locked_store(m)["vault_unlocked"@] == "false"@,
        locked_store(m)["vault_locked"@] == "true"@,
{
    reveal_strlit("vault_data");
    reveal_strlit("vault_unlocked");
    reveal_strlit("vault_locked");
    assert("vault_data"@[6] != "vault_unlocked"@[6]);
    assert("vault_data"@[6] != "vault_locked"@[6]);
    assert("vault_unlocked"@[6] != "vault_locked"@[6]);
}

} // verus!
