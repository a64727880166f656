//! Locating a library's content: by its per-version content hash where it has
//! one, by its static URL otherwise.
use crate::entries::{entries_map, find_string_key, lemma_entries_map_dom, lemma_entries_map_index};
use crate::minecraft::Library;
use crate::text::{decimal, decimal_string};
use vstd::prelude::*;

verus! {

/// How many leading characters of a content hash name its shard directory.
pub const CAS_SHARD_LEN: usize = 2;

/// The content hash that `lib` records for the game version `version`, if any.
pub open spec fn version_hash(lib: Library, version: Seq<char>) -> Option<Seq<char>> {
    match lib.version_hashes {
        Some(h) => if entries_map(h@).contains_key(version) {
            Some(entries_map(h@)[version]@)
        } else {
            None
        },
        None => None,
    }
}

/// The content-addressed URL of `hash` under `base`, for scheme version `scheme`:
/// `<base>/v<scheme>/objects/<shard>/<rest of hash>`.
pub open spec fn cas_url(base: Seq<char>, scheme: nat, hash: Seq<char>) -> Seq<char> {
    base + "/v"@ + decimal(scheme) + "/objects/"@ + hash.subrange(0, CAS_SHARD_LEN as int) + "/"@
        + hash.subrange(CAS_SHARD_LEN as int, hash.len() as int)
}

/// Where the content of `lib` for game version `version` is: the
/// content-addressed URL of its hash for that version (nowhere if the hash is
/// shorter than a shard name), else its static URL, if it has one.
pub open spec fn resolved_url(lib: Library, version: Seq<char>, base: Seq<char>, scheme: nat) -> Option<
    Seq<char>,
> {
    match version_hash(lib, version) {
        Some(h) => if h.len() < CAS_SHARD_LEN {
            None
        } else {
            Some(cas_url(base, scheme, h))
        },
        None => match lib.url {
            Some(u) => Some(u@),
            None => None,
        },
    }
}

impl Library {
    /// Resolves the URL for this library based on the minecraft version.
    ///
    /// For libraries with `version_hashes`, looks up the hash for the given version
    /// and constructs a CAS URL. Falls back to the library's `url` field if
    /// `version_hashes` is not present or doesn't contain the version.
    pub fn resolve_url(&self, minecraft_version: &str, base_url: &str, cas_version: u32) -> (r:
        Option<String>)
        requires
            self.wf(),
        ensures
            match r {
                Some(s) => resolved_url(*self, minecraft_version@, base_url@, cas_version as nat)
                    == Some(s@),
                None => resolved_url(
                    *self,
                    minecraft_version@,
                    base_url@,
                    cas_version as nat,
                ) is None,
            },
    {
        let key = minecraft_version.to_owned();
        if let Some(hashes) = &self.version_hashes {
            match find_string_key(hashes, &key) {
                Some(i) => {
                    proof {
                        lemma_entries_map_index(hashes@, i as int);
                    }
                    let hash = hashes[i].1.as_str();
                    let n = hash.unicode_len();
                    if n < CAS_SHARD_LEN {
                        return None;
                    }
                    let mut url = String::from_str(base_url);
                    url.append("/v");
                    let scheme = decimal_string(cas_version);
                    url.append(scheme.as_str());
                    url.append("/objects/");
                    url.append(hash.substring_char(0, CAS_SHARD_LEN));
                    url.append("/");
                    url.append(hash.substring_char(CAS_SHARD_LEN, n));
                    return Some(url);
                },
                None => {
                    proof {
                        lemma_entries_map_dom(hashes@, key@);
                    }
                },
            }
        }
        match &self.url {
            Some(u) => Some(u.clone()),
            None => None,
        }
    }
}

/// A content hash recorded for the requested version wins over the static URL.
pub proof fn lemma_hash_precedes_url(lib: Library, version: Seq<char>, base: Seq<char>, scheme: nat)
    requires
        version_hash(lib, version) matches Some(h) && h.len() >= CAS_SHARD_LEN,
    ensures
        resolved_url(lib, version, base, scheme) == Some(
            cas_url(base, scheme, version_hash(lib, version)->0),
        ),
{
}

/// A content hash too short to name a shard resolves to no URL, whatever the static URL.
pub proof fn lemma_short_hash_unresolved(lib: Library, version: Seq<char>, base: Seq<char>, scheme: nat)
    requires
        version_hash(lib, version) matches Some(h) && h.len() < CAS_SHARD_LEN,
    ensures
        resolved_url(lib, version, base, scheme) is None,
{
}

} // verus!
