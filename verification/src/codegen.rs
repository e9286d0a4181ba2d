//! What the framework's code generators decide: how embedded UI files are
//! obscured with a key made at build time, the names they are found under, and
//! the module declarations that bring an application's controllers in.

use vstd::prelude::*;
use crate::dom::concat5;
use crate::engine::AssetProvider;
use crate::text::{replace_char, replaced, str_equal};

verus! {

/// The multiplier of the key generator (a 64-bit linear congruential generator).
pub const LCG_MULTIPLIER: u64 = 6364136223846793005;

/// The increment of the key generator.
pub const LCG_INCREMENT: u64 = 1442695040888963407;

/// The length of the key that obscures embedded files.
pub const ASSET_KEY_LEN: usize = 32;

/// The generator state after `n` steps from `seed`; each step multiplies by
/// `LCG_MULTIPLIER` and adds `LCG_INCREMENT`, both wrapping.
pub open spec fn lcg_state(seed: u64, n: nat) -> u64
    decreases n,
{
    if n == 0 {
        seed
    } else {
        lcg_state(seed, (n - 1) as nat).wrapping_mul(LCG_MULTIPLIER).wrapping_add(LCG_INCREMENT)
    }
}

/// Byte `i` of the key made from `seed`: bits 32 to 39 of the state after
/// `i + 1` steps.
pub open spec fn key_byte(seed: u64, i: nat) -> u8 {
    (lcg_state(seed, i + 1) >> 32u64) as u8
}

/// The key that obscures the embedded files, made from a seed (the build
/// time in nanoseconds).
pub fn derive_asset_key(seed: u64) -> (key: [u8; 32])
    ensures
        forall|i: int| 0 <= i < 32 ==> #[trigger] key[i] == key_byte(seed, i as nat),
{
    let mut key = [0u8; 32];
    let mut state: u64 = seed;
    let mut i: usize = 0;
    while i < 32
        invariant
            i <= 32,
            state == lcg_state(seed, i as nat),
            forall|j: int| 0 <= j < i ==> #[trigger] key[j] == key_byte(seed, j as nat),
        decreases 32 - i,
    {
        state = state.wrapping_mul(LCG_MULTIPLIER).wrapping_add(LCG_INCREMENT);
        key[i] = (state >> 32u64) as u8;
        i = i + 1;
    }
    key
}

/// `data` with each byte combined by exclusive or with the key byte at its
/// position modulo 32.
pub open spec fn xored(data: Seq<u8>, key: Seq<u8>) -> Seq<u8> {
    Seq::new(data.len(), |i: int| data[i] ^ key[i % 32])
}

/// Obscures (or restores) embedded file bytes with the key.
pub fn xor_with_key(data: &[u8], key: &[u8; 32]) -> (out: Vec<u8>)
    ensures
        out@ == xored(data@, key@),
{
    let mut out: Vec<u8> = Vec::new();
    let mut i: usize = 0;
    while i < data.len()
        invariant
            i <= data@.len(),
            key@.len() == 32,
            out@ == xored(data@, key@).take(i as int),
        decreases data@.len() - i,
    {
        out.push(data[i] ^ key[i % 32]);
        i = i + 1;
        assert(out@ =~= xored(data@, key@).take(i as int));
    }
    assert(xored(data@, key@).take(data@.len() as int) =~= xored(data@, key@));
    out
}

proof fn lemma_xor_twice(a: u8, b: u8)
    ensures
        (a ^ b) ^ b == a,
{
    assert((a ^ b) ^ b == a) by (bit_vector);
}

/// Obscuring twice with the same key gives the bytes back: an embedded file
/// reads back as it was on disk.
pub proof fn law_asset_xor_round_trip(data: Seq<u8>, key: Seq<u8>)
    requires
        key.len() == 32,
    ensures
        xored(xored(data, key), key) == data,
{
    assert forall|i: int| 0 <= i < data.len() implies #[trigger] xored(xored(data, key), key)[i]
        == data[i] by {
        lemma_xor_twice(data[i], key[i % 32]);
    }
    assert(xored(xored(data, key), key) =~= data);
}

/// Files with their contents obscured by the key, as they are embedded.
pub open spec fn sealed_files(files: Seq<(Seq<char>, Seq<u8>)>, key: Seq<u8>) -> Seq<(Seq<char>, Seq<u8>)> {
    files.map_values(|f: (Seq<char>, Seq<u8>)| (f.0, xored(f.1, key)))
}

/// The contents of the first embedded file named `path`, restored with the
/// key; nothing when no file has that name.
pub open spec fn embedded_lookup(files: Seq<(Seq<char>, Seq<u8>)>, key: Seq<u8>, path: Seq<char>) -> Option<
    Seq<u8>,
>
    decreases files.len(),
{
    if files.len() == 0 {
        None
    } else if files[0].0 == path {
        Some(xored(files[0].1, key))
    } else {
        embedded_lookup(files.drop_first(), key, path)
    }
}

/// The view of a list of named files.
pub open spec fn files_view(files: Seq<(String, Vec<u8>)>) -> Seq<(Seq<char>, Seq<u8>)> {
    files.map_values(|f: (String, Vec<u8>)| (f.0@, f.1@))
}

/// Seals each file's contents with the key, keeping the names and the order:
/// the table that the embedding code generator writes.
pub fn seal_files(files: &Vec<(String, Vec<u8>)>, key: &[u8; 32]) -> (sealed: Vec<(String, Vec<u8>)>)
    ensures
        files_view(sealed@) == sealed_files(files_view(files@), key@),
{
    let mut sealed: Vec<(String, Vec<u8>)> = Vec::new();
    let mut i: usize = 0;
    while i < files.len()
        invariant
            i <= files@.len(),
            files_view(sealed@) == sealed_files(files_view(files@), key@).take(i as int),
        decreases files@.len() - i,
    {
        let (name, content) = &files[i];
        let entry = (name.clone(), xor_with_key(content.as_slice(), key));
        let ghost before = sealed@;
        sealed.push(entry);
        proof {
            assert(sealed@ == before.push(entry));
            assert(files_view(sealed@) =~= files_view(before).push((entry.0@, entry.1@)));
            assert(sealed_files(files_view(files@), key@).take(i + 1) =~= sealed_files(
                files_view(files@),
                key@,
            ).take(i as int).push(sealed_files(files_view(files@), key@)[i as int]));
        }
        i = i + 1;
    }
    assert(sealed_files(files_view(files@), key@).take(files@.len() as int) =~= sealed_files(
        files_view(files@),
        key@,
    ));
    sealed
}

/// The UI files embedded in a program, each kept obscured by the key.
pub struct EmbeddedAssets {
    key: [u8; 32],
    files: Vec<(String, Vec<u8>)>,
}

impl EmbeddedAssets {
    /// The key that restores the files.
    pub closed spec fn key_view(&self) -> Seq<u8> {
        self.key@
    }

    /// The embedded files, named, with their obscured contents.
    pub closed spec fn sealed_view(&self) -> Seq<(Seq<char>, Seq<u8>)> {
        files_view(self.files@)
    }

    /// The provider of files obscured with `key`.
    pub fn new(key: [u8; 32], files: Vec<(String, Vec<u8>)>) -> (a: EmbeddedAssets)
        ensures
            a.key_view() == key@,
            a.sealed_view() == files_view(files@),
    {
        EmbeddedAssets { key, files }
    }

    /// The provider of `files` as they are on disk, each sealed with `key`
    /// here.
    pub fn from_files(key: [u8; 32], files: &Vec<(String, Vec<u8>)>) -> (a: EmbeddedAssets)
        ensures
            a.key_view() == key@,
            a.sealed_view() == sealed_files(files_view(files@), key@),
    {
        let sealed = seal_files(files, &key);
        EmbeddedAssets { key, files: sealed }
    }

    /// The contents of the first file named `path`, restored.
    pub fn lookup(&self, path: &str) -> (r: Option<Vec<u8>>)
        ensures
            match r {
                Some(b) => embedded_lookup(self.sealed_view(), self.key_view(), path@) == Some(b@),
                None => embedded_lookup(self.sealed_view(), self.key_view(), path@) is None,
            },
    {
        let mut i: usize = 0;
        assert(self.sealed_view().skip(0) =~= self.sealed_view());
        while i < self.files.len()
            invariant
                i <= self.files@.len(),
                embedded_lookup(self.sealed_view(), self.key_view(), path@) == embedded_lookup(
                    self.sealed_view().skip(i as int),
                    self.key_view(),
                    path@,
                ),
            decreases self.files@.len() - i,
        {
            proof {
                let v = self.sealed_view();
                assert(v.skip(i as int).drop_first() =~= v.skip(i + 1));
                assert(v.skip(i as int)[0] == v[i as int]);
            }
            let (name, sealed) = &self.files[i];
            if str_equal(name.as_str(), path) {
                return Some(xor_with_key(sealed.as_slice(), &self.key));
            }
            i = i + 1;
        }
        assert(self.sealed_view().skip(i as int).len() == 0);
        None
    }
}

impl AssetProvider for EmbeddedAssets {
    fn get(&self, path: &str) -> (r: Option<Vec<u8>>)
        ensures
            match r {
                Some(b) => embedded_lookup(self.sealed_view(), self.key_view(), path@) == Some(b@),
                None => embedded_lookup(self.sealed_view(), self.key_view(), path@) is None,
            },
    {
        self.lookup(path)
    }
}

/// Embedded files are served as they were on disk: when no two files share a
/// name, the provider built from the files sealed with a key gives each file's
/// contents under its name, and nothing under a name that no file has.
pub proof fn law_embedded_assets_serve_files(
    files: Seq<(Seq<char>, Seq<u8>)>,
    key: Seq<u8>,
    path: Seq<char>,
)
    requires
        key.len() == 32,
        forall|i: int, j: int| 0 <= i < j < files.len() ==> files[i].0 != files[j].0,
    ensures
        forall|i: int| 0 <= i < files.len() && #[trigger] files[i].0 == path ==> embedded_lookup(
            sealed_files(files, key),
            key,
            path,
        ) == Some(files[i].1),
        (forall|i: int| 0 <= i < files.len() ==> #[trigger] files[i].0 != path) ==> embedded_lookup(
            sealed_files(files, key),
            key,
            path,
        ) is None,
    decreases files.len(),
{
    if files.len() > 0 {
        let rest = files.drop_first();
        assert(sealed_files(files, key).drop_first() =~= sealed_files(rest, key));
        law_embedded_assets_serve_files(rest, key, path);
        law_asset_xor_round_trip(files[0].1, key);
        assert forall|i: int| 0 <= i < files.len() && #[trigger] files[i].0 == path implies embedded_lookup(
            sealed_files(files, key),
            key,
            path,
        ) == Some(files[i].1) by {
            if i > 0 {
                assert(rest[i - 1] == files[i]);
            }
        }
        if forall|i: int| 0 <= i < files.len() ==> #[trigger] files[i].0 != path {
            assert forall|i: int| 0 <= i < rest.len() implies #[trigger] rest[i].0 != path by {
                assert(rest[i] == files[i + 1]);
            }
            assert(files[0].0 != path);
        }
    }
}

/// The name an embedded file is found under: its path below the UI folder,
/// with `/` between folders and in place of each backslash.
pub open spec fn asset_name_of(prefix: Seq<char>, file_name: Seq<char>) -> Seq<char> {
    replaced(
        if prefix.len() == 0 {
            file_name
        } else {
            prefix + "/"@ + file_name
        },
        '\\',
        "/"@,
    )
}

/// The name an embedded file is found under.
pub fn asset_name(prefix: &str, file_name: &str) -> (name: String)
    ensures
        name@ == asset_name_of(prefix@, file_name@),
{
    let joined = if prefix.is_empty() {
        file_name.to_owned()
    } else {
        concat5(prefix, "/", file_name, "", "")
    };
    proof {
        reveal_strlit("");
    }
    assert(prefix@.len() != 0 ==> joined@ =~= prefix@ + "/"@ + file_name@);
    replace_char(joined.as_str(), '\\', "/")
}

/// Whether a file of the controllers folder, by its extension and its name
/// without extension, is a controller: a `.rs` file other than `mod.rs`.
pub open spec fn is_controller_source_of(extension: Option<Seq<char>>, stem: Seq<char>) -> bool {
    extension == Some("rs"@) && stem != "mod"@
}

/// Whether a file of the controllers folder is a controller.
pub fn is_controller_source(extension: Option<&str>, stem: &str) -> (r: bool)
    ensures
        r == is_controller_source_of(
            match extension {
                Some(e) => Some(e@),
                None => None,
            },
            stem@,
        ),
{
    match extension {
        Some(e) => str_equal(e, "rs") && !str_equal(stem, "mod"),
        None => false,
    }
}

/// The module declaration of one controller file: a `path` attribute with the
/// file's path (each backslash doubled) and a public module named after it.
pub open spec fn controller_module_decl_of(path: Seq<char>, stem: Seq<char>) -> Seq<char> {
    "#[path = \""@ + replaced(path, '\\', "\\\\"@) + "\"]\npub mod "@ + stem + ";\n"@
}

/// The module declaration of one controller file.
pub fn controller_module_decl(path: &str, stem: &str) -> (decl: String)
    ensures
        decl@ == controller_module_decl_of(path@, stem@),
{
    let safe_path = replace_char(path, '\\', "\\\\");
    concat5("#[path = \"", safe_path.as_str(), "\"]\npub mod ", stem, ";\n")
}

} // verus!
