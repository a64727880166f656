//! Applying a sparse patch (a partial library) onto a complete library.
use crate::entries::{entries_map, keys_unique, put_os_entries, put_string_entries};
use crate::minecraft::{Library, LibraryDownload, LibraryDownloads, Os, PartialLibrary, Rule};
use vstd::prelude::*;

verus! {

/// The classifier table of a downloads record holds each classifier once.
pub open spec fn downloads_wf(d: Option<LibraryDownloads>) -> bool {
    match d {
        Some(d) => match d.classifiers {
            Some(c) => keys_unique(c@),
            None => true,
        },
        None => true,
    }
}

/// Each key-value table that a mapping stands for holds each key once.
pub open spec fn natives_wf(n: Option<Vec<(Os, String)>>) -> bool {
    match n {
        Some(n) => keys_unique(n@),
        None => true,
    }
}

impl Library {
    /// Each of the library's key-value tables holds each key once.
    pub open spec fn wf(&self) -> bool {
        &&& downloads_wf(self.downloads)
        &&& natives_wf(self.natives)
        &&& match self.version_hashes {
            Some(h) => keys_unique(h@),
            None => true,
        }
    }
}

impl PartialLibrary {
    /// Each of the patch's key-value tables holds each key once.
    pub open spec fn wf(&self) -> bool {
        &&& downloads_wf(self.downloads)
        &&& natives_wf(self.natives)
    }

    /// The patch that changes nothing.
    pub open spec fn is_empty(&self) -> bool {
        &&& self.downloads is None
        &&& self.extract is None
        &&& self.name is None
        &&& self.url is None
        &&& self.natives is None
        &&& self.rules is None
        &&& self.checksums is None
        &&& self.include_in_classpath is None
    }
}

/// The value of a replace-if-present field after a merge.
pub open spec fn replaced<T>(patch: Option<T>, base: T) -> T {
    match patch {
        Some(v) => v,
        None => base,
    }
}

/// The value of an optional replace-if-present field after a merge.
pub open spec fn overridden<T>(patch: Option<T>, base: Option<T>) -> Option<T> {
    if patch is Some {
        patch
    } else {
        base
    }
}

/// `r` is the classifier table of `base` deep-merged with that of `patch`:
/// either side absent leaves the other, and both present give their union,
/// where the patch's entry wins on a shared key.
pub open spec fn classifiers_merged(
    r: Option<Vec<(String, LibraryDownload)>>,
    patch: Option<Vec<(String, LibraryDownload)>>,
    base: Option<Vec<(String, LibraryDownload)>>,
) -> bool {
    match (patch, base) {
        (None, _) => r == base,
        (Some(p), None) => r == Some(p),
        (Some(p), Some(b)) => r is Some && entries_map(r->0@) == entries_map(b@).union_prefer_right(
            entries_map(p@),
        ),
    }
}

/// `r` is the natives table of `base` deep-merged with that of `patch`,
/// by the same policy as the classifier table.
pub open spec fn natives_merged(
    r: Option<Vec<(Os, String)>>,
    patch: Option<Vec<(Os, String)>>,
    base: Option<Vec<(Os, String)>>,
) -> bool {
    match (patch, base) {
        (None, _) => r == base,
        (Some(p), None) => r == Some(p),
        (Some(p), Some(b)) => r is Some && entries_map(r->0@) == entries_map(b@).union_prefer_right(
            entries_map(p@),
        ),
    }
}

/// `r` is the downloads record of `base` with `patch` applied: a patched
/// artifact replaces the base one, classifiers are deep-merged, and a patch
/// onto no downloads is taken whole.
pub open spec fn downloads_merged(
    r: Option<LibraryDownloads>,
    patch: Option<LibraryDownloads>,
    base: Option<LibraryDownloads>,
) -> bool {
    match (patch, base) {
        (None, _) => r == base,
        (Some(p), None) => r == Some(p),
        (Some(p), Some(b)) => r is Some && r->0.artifact == overridden(p.artifact, b.artifact)
            && classifiers_merged(r->0.classifiers, p.classifiers, b.classifiers),
    }
}

/// `r` is the rule list of `base` with the rules of `patch` appended after it.
pub open spec fn rules_merged(
    r: Option<Vec<Rule>>,
    patch: Option<Vec<Rule>>,
    base: Option<Vec<Rule>>,
) -> bool {
    match (patch, base) {
        (None, _) => r == base,
        (Some(p), None) => r == Some(p),
        (Some(p), Some(b)) => r is Some && r->0@ == b@ + p@,
    }
}

/// `r` is the library `base` with the patch `p` merged into it, field by field.
pub open spec fn is_merge_of(r: Library, p: PartialLibrary, base: Library) -> bool {
    &&& downloads_merged(r.downloads, p.downloads, base.downloads)
    &&& r.extract == overridden(p.extract, base.extract)
    &&& r.name == replaced(p.name, base.name)
    &&& r.url == overridden(p.url, base.url)
    &&& natives_merged(r.natives, p.natives, base.natives)
    &&& rules_merged(r.rules, p.rules, base.rules)
    &&& r.checksums == overridden(p.checksums, base.checksums)
    &&& r.include_in_classpath == replaced(p.include_in_classpath, base.include_in_classpath)
    &&& r.patched
    &&& r.version_hashes == base.version_hashes
}

fn merge_classifiers(
    patch: Option<Vec<(String, LibraryDownload)>>,
    base: Option<Vec<(String, LibraryDownload)>>,
) -> (r: Option<Vec<(String, LibraryDownload)>>)
    requires
        patch matches Some(p) ==> keys_unique(p@),
        base matches Some(b) ==> keys_unique(b@),
    ensures
        classifiers_merged(r, patch, base),
        r matches Some(c) ==> keys_unique(c@),
{
    match patch {
        None => base,
        Some(p) => match base {
            None => Some(p),
            Some(b) => {
                let mut b = b;
                put_string_entries(&mut b, p);
                Some(b)
            },
        },
    }
}

fn merge_natives(patch: Option<Vec<(Os, String)>>, base: Option<Vec<(Os, String)>>) -> (r: Option<
    Vec<(Os, String)>,
>)
    requires
        natives_wf(patch),
        natives_wf(base),
    ensures
        natives_merged(r, patch, base),
        natives_wf(r),
{
    match patch {
        None => base,
        Some(p) => match base {
            None => Some(p),
            Some(b) => {
                let mut b = b;
                put_os_entries(&mut b, p);
                Some(b)
            },
        },
    }
}

fn merge_downloads(patch: Option<LibraryDownloads>, base: Option<LibraryDownloads>) -> (r: Option<
    LibraryDownloads,
>)
    requires
        downloads_wf(patch),
        downloads_wf(base),
    ensures
        downloads_merged(r, patch, base),
        downloads_wf(r),
{
    match patch {
        None => base,
        Some(p) => match base {
            None => Some(p),
            Some(b) => {
                let artifact = match p.artifact {
                    Some(a) => Some(a),
                    None => b.artifact,
                };
                let classifiers = merge_classifiers(p.classifiers, b.classifiers);
                Some(LibraryDownloads { artifact, classifiers })
            },
        },
    }
}

fn merge_rules(patch: Option<Vec<Rule>>, base: Option<Vec<Rule>>) -> (r: Option<Vec<Rule>>)
    ensures
        rules_merged(r, patch, base),
{
    match patch {
        None => base,
        Some(p) => match base {
            None => Some(p),
            Some(b) => {
                let mut b = b;
                let mut p = p;
                b.append(&mut p);
                Some(b)
            },
        },
    }
}

/// Merges a partial library definition into a complete library
///
/// Fields present in the partial library override those of the complete one,
/// except that classifiers and natives are deep-merged and rules are appended.
/// The result is marked as patched, whatever the partial library holds.
pub fn merge_partial_library(partial: PartialLibrary, merge: Library) -> (r: Library)
    requires
        partial.wf(),
        merge.wf(),
    ensures
        is_merge_of(r, partial, merge),
        r.wf(),
{
    let PartialLibrary {
        downloads: p_downloads,
        extract: p_extract,
        name: p_name,
        url: p_url,
        natives: p_natives,
        rules: p_rules,
        checksums: p_checksums,
        include_in_classpath: p_include,
    } = partial;
    let Library {
        downloads,
        extract,
        name,
        url,
        natives,
        rules,
        checksums,
        include_in_classpath,
        patched: _,
        version_hashes,
    } = merge;
    Library {
        downloads: merge_downloads(p_downloads, downloads),
        extract: if p_extract.is_some() {
            p_extract
        } else {
            extract
        },
        name: match p_name {
            Some(n) => n,
            None => name,
        },
        url: if p_url.is_some() {
            p_url
        } else {
            url
        },
        natives: merge_natives(p_natives, natives),
        rules: merge_rules(p_rules, rules),
        checksums: if p_checksums.is_some() {
            p_checksums
        } else {
            checksums
        },
        include_in_classpath: match p_include {
            Some(b) => b,
            None => include_in_classpath,
        },
        patched: true,
        version_hashes,
    }
}

/// Merging the empty patch changes no field but `patched`, which it sets.
pub proof fn lemma_empty_patch_only_marks(p: PartialLibrary, base: Library, r: Library)
    requires
        p.is_empty(),
        is_merge_of(r, p, base),
    ensures
        r == (Library { patched: true, ..base }),
{
}

/// Classifier tables are deep-merged: the result holds the keys of both
/// tables, with the patch's entry where both have the key and the base's
/// entry where only it has the key.
pub proof fn lemma_classifiers_deep_merged(
    p: PartialLibrary,
    base: Library,
    r: Library,
    key: Seq<char>,
)
    requires
        is_merge_of(r, p, base),
        p.downloads matches Some(pd) && pd.classifiers is Some,
        base.downloads matches Some(bd) && bd.classifiers is Some,
    ensures
        ({
            let pc = entries_map(p.downloads->0.classifiers->0@);
            let bc = entries_map(base.downloads->0.classifiers->0@);
            let rc = entries_map(r.downloads->0.classifiers->0@);
            &&& rc.contains_key(key) <==> (pc.contains_key(key) || bc.contains_key(key))
            &&& pc.contains_key(key) ==> rc[key] == pc[key]
            &&& (!pc.contains_key(key) && bc.contains_key(key)) ==> rc[key] == bc[key]
        }),
{
}

/// Rules are appended: the patch's rules follow the base's, in order.
pub proof fn lemma_rules_appended(p: PartialLibrary, base: Library, r: Library)
    requires
        is_merge_of(r, p, base),
        p.rules is Some,
        base.rules is Some,
    ensures
        r.rules matches Some(rr) && rr@ == base.rules->0@ + p.rules->0@,
{
}

} // verus!
