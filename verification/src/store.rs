//! The state store: string values under string keys, kept encrypted in memory.
//!
//! Each value is held only as its AES-256-GCM ciphertext under a key made
//! when the store is made, with a fresh nonce for each write; the buffers are
//! wiped when they are dropped. Each write and each removal also gives the
//! script that tells the page about the change. When the system's random
//! number generator fails to give the key or a nonce, the store is marked
//! failed and writes nothing more; its user is to stop.

use vstd::prelude::*;
use vstd::hash_map::StringHashMap;
use vstd::utf8::{encode_utf8, encode_utf8_decode_utf8, encode_utf8_valid_utf8};
use crate::codec::utf8_string;
use crate::dom::{concat5, escape_template, escaped_template};
use crate::secure::{
    aes256gcm_decrypt, aes256gcm_encrypt, aes256gcm_open, aes256gcm_seal, generate_key,
    generate_nonce, wipe_on_drop, wiped_bytes, zeroizing_bytes, WipedBytes, KEY_LEN,
    MAX_PLAINTEXT_LEN, NONCE_LEN, TAG_LEN,
};

verus! {

/// The script that tells the page that `key` now holds `value`.
pub open spec fn store_update_script(key: Seq<char>, value: Seq<char>) -> Seq<char> {
    "if (window.alakit_update_store) window.alakit_update_store(`"@ + key + "`, `"@
        + escaped_template(value) + "`);"@
}

/// The script that tells the page that `key` holds nothing any more.
pub open spec fn store_remove_script(key: Seq<char>) -> Seq<char> {
    "if (window.alakit_update_store) window.alakit_update_store(`"@ + key + "`, null);"@
}

/// Whether an encrypted entry (ciphertext, nonce) holds `value` under `key`.
pub open spec fn sealed_entry(key: Seq<u8>, ciphertext: Seq<u8>, nonce: Seq<u8>, value: Seq<char>) -> bool {
    &&& nonce.len() == NONCE_LEN
    &&& ciphertext == aes256gcm_seal(key, nonce, encode_utf8(value))
    &&& ciphertext.len() == encode_utf8(value).len() + TAG_LEN
    &&& aes256gcm_open(key, nonce, ciphertext) == Some(encode_utf8(value))
}

/// The encrypted state store.
pub struct Store {
    data: StringHashMap<(WipedBytes, WipedBytes)>,
    key: WipedBytes,
    failed: bool,
    values: Ghost<Map<Seq<char>, Seq<char>>>,
}

impl View for Store {
    type V = Map<Seq<char>, Seq<char>>;

    /// The values that the store holds, by key.
    closed spec fn view(&self) -> Map<Seq<char>, Seq<char>> {
        self.values@
    }
}

impl Store {
    /// The AES-256 key of the store.
    pub closed spec fn key_bytes(&self) -> Seq<u8> {
        zeroizing_bytes(self.key)
    }

    /// The ciphertext that the store keeps under `k`.
    pub closed spec fn ciphertext_of(&self, k: Seq<char>) -> Seq<u8> {
        zeroizing_bytes(self.data@[k].0)
    }

    /// The nonce that the store used for the value under `k`.
    pub closed spec fn nonce_of(&self, k: Seq<char>) -> Seq<u8> {
        zeroizing_bytes(self.data@[k].1)
    }

    /// Whether the system's random number generator failed the store: when
    /// making its key, or when drawing the nonce of a write. A failed store
    /// writes nothing more; the caller is to stop.
    pub closed spec fn failed(&self) -> bool {
        self.failed
    }

    /// The store's invariant: one encrypted entry for each key, which decrypts
    /// to the value held under that key.
    pub closed spec fn wf(&self) -> bool {
        &&& zeroizing_bytes(self.key).len() == KEY_LEN
        &&& self.data@.dom() == self.values@.dom()
        &&& forall|k: Seq<char>|
            #[trigger] self.data@.contains_key(k) ==> sealed_entry(
                zeroizing_bytes(self.key),
                zeroizing_bytes(self.data@[k].0),
                zeroizing_bytes(self.data@[k].1),
                self.values@[k],
            )
    }

    /// An empty store with a fresh random key. When the random number
    /// generator fails, the store is failed from the start (and its key is
    /// never used).
    pub fn new() -> (s: Store)
        ensures
            s.wf(),
            s@ == Map::<Seq<char>, Seq<char>>::empty(),
    {
        let (key, failed) = match generate_key() {
            Some(k) => (k, false),
            None => (vec![0u8; 32], true),
        };
        Store { data: StringHashMap::new(), key: wipe_on_drop(key), failed, values: Ghost(Map::empty()) }
    }

    /// Whether the random number generator failed the store.
    pub fn has_failed(&self) -> (r: bool)
        ensures
            r == self.failed(),
    {
        self.failed
    }

    /// Stores `value` under `key`, encrypted with a fresh nonce, and gives the
    /// script that shows the new value on the page. When the store has failed,
    /// or the random number generator fails to give the nonce, nothing is
    /// written and the store is failed.
    pub fn set(&mut self, key: &str, value: &str) -> (js: String)
        requires
            old(self).wf(),
            encode_utf8(value@).len() <= MAX_PLAINTEXT_LEN,
        ensures
            final(self).wf(),
            old(self).failed() ==> final(self).failed(),
            final(self).failed() ==> final(self)@ == old(self)@,
            !final(self).failed() ==> final(self)@ == old(self)@.insert(key@, value@),
            final(self).key_bytes() == old(self).key_bytes(),
            js@ == store_update_script(key@, value@),
    {
        let drawn = if self.failed {
            None
        } else {
            generate_nonce()
        };
        if let Some(nonce) = drawn {
            let plaintext = wipe_on_drop(vstd::slice::slice_to_vec(value.as_bytes()));
            let sealed = aes256gcm_encrypt(wiped_bytes(&self.key), nonce.as_slice(), wiped_bytes(&plaintext));
            let ciphertext = match sealed {
                Some(c) => c,
                None => {
                    proof {
                        assert(false);
                    }
                    Vec::new()
                },
            };
            self.data.insert(key.to_owned(), (wipe_on_drop(ciphertext), wipe_on_drop(nonce)));
            self.values = Ghost(self.values@.insert(key@, value@));
            assert(self.data@.dom() =~= self.values@.dom());
        } else {
            self.failed = true;
        }
        let safe_value = escape_template(value);
        concat5(
            "if (window.alakit_update_store) window.alakit_update_store(`",
            key,
            "`, `",
            safe_value.as_str(),
            "`);",
        )
    }

    /// The value under `key`, decrypted; nothing when the key holds no value.
    pub fn get(&self, key: &str) -> (r: Option<String>)
        requires
            self.wf(),
        ensures
            match r {
                Some(v) => self@.contains_key(key@) && v@ == self@[key@],
                None => !self@.contains_key(key@),
            },
    {
        match self.data.get(key) {
            Some(entry) => {
                proof {
                    assert(self.data@.contains_key(key@));
                    encode_utf8_valid_utf8(self.values@[key@]);
                    encode_utf8_decode_utf8(self.values@[key@]);
                }
                let opened = aes256gcm_decrypt(
                    wiped_bytes(&self.key),
                    wiped_bytes(&entry.1),
                    wiped_bytes(&entry.0),
                );
                match opened {
                    Some(plaintext) => {
                        let plaintext = wipe_on_drop(plaintext);
                        utf8_string(wiped_bytes(&plaintext))
                    },
                    None => None,
                }
            },
            None => None,
        }
    }

    /// The ciphertext (with its tag) that the store keeps for `key`, if it
    /// holds the key.
    pub fn ciphertext(&self, key: &str) -> (r: Option<Vec<u8>>)
        requires
            self.wf(),
        ensures
            match r {
                Some(c) => self@.contains_key(key@) && c@ == self.ciphertext_of(key@),
                None => !self@.contains_key(key@),
            },
    {
        match self.data.get(key) {
            Some(entry) => Some(vstd::slice::slice_to_vec(wiped_bytes(&entry.0))),
            None => None,
        }
    }

    /// Removes `key` and its value (whose buffers are wiped), and gives the
    /// script that clears the value on the page.
    pub fn remove(&mut self, key: &str) -> (js: String)
        requires
            old(self).wf(),
        ensures
            final(self).wf(),
            final(self)@ == old(self)@.remove(key@),
            final(self).key_bytes() == old(self).key_bytes(),
            final(self).failed() == old(self).failed(),
            js@ == store_remove_script(key@),
    {
        self.data.remove(key);
        self.values = Ghost(self.values@.remove(key@));
        assert(self.data@.dom() =~= self.values@.dom());
        crate::dom::concat3(
            "if (window.alakit_update_store) window.alakit_update_store(`",
            key,
            "`, null);",
        )
    }
}

/// Reading a key after writing it gives the value written, and every other
/// key reads as before (a write changes only its own key).
pub proof fn law_store_read_your_write(before: &Store, after: &Store, key: Seq<char>, value: Seq<char>)
    requires
        after@ == before@.insert(key, value),
    ensures
        after@.contains_key(key),
        after@[key] == value,
        forall|other: Seq<char>|
            other != key ==> (#[trigger] after@.contains_key(other) == before@.contains_key(other)
                && (before@.contains_key(other) ==> after@[other] == before@[other])),
{
}

/// After a key is removed it reads as nothing, and every other key reads as
/// before.
pub proof fn law_store_remove_forgets(before: &Store, after: &Store, key: Seq<char>)
    requires
        after@ == before@.remove(key),
    ensures
        !after@.contains_key(key),
        forall|other: Seq<char>|
            other != key ==> (#[trigger] after@.contains_key(other) == before@.contains_key(other)
                && (before@.contains_key(other) ==> after@[other] == before@[other])),
{
}

/// At rest the store holds each value only as the AES-256-GCM ciphertext of
/// its UTF-8 bytes, under the store's key and the value's own 96-bit nonce:
/// as many bytes as the value's UTF-8 bytes and the 16-byte tag, which decrypt
/// back to the value.
pub proof fn law_store_holds_ciphertext(s: &Store, key: Seq<char>)
    requires
        s.wf(),
        s@.contains_key(key),
    ensures
        s.key_bytes().len() == KEY_LEN,
        s.nonce_of(key).len() == NONCE_LEN,
        s.ciphertext_of(key) == aes256gcm_seal(s.key_bytes(), s.nonce_of(key), encode_utf8(s@[key])),
        s.ciphertext_of(key).len() == encode_utf8(s@[key]).len() + TAG_LEN,
        aes256gcm_open(s.key_bytes(), s.nonce_of(key), s.ciphertext_of(key)) == Some(
            encode_utf8(s@[key]),
        ),
{
    assert(s.data@.contains_key(key));
}

} // verus!
