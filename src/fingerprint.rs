//! Content fingerprints of library groups, blind to the release time.
use crate::minecraft::{LWJGLEntry, LibraryGroup};
use crate::time::UtcTime;
use vstd::prelude::*;

verus! {

/// The SHA-1 digest of `data`, written as lowercase hexadecimal digits.
pub uninterp spec fn sha1_hex_of(data: Seq<u8>) -> Seq<char>;

/// Relies on sha1::Sha1::from, which hashes `data` in one update, and on
/// Sha1::hexdigest, which writes the 160-bit digest as five 8-digit hex words.
#[verifier::external_body]
fn sha1_hex(data: &[u8]) -> (r: String)
    ensures
        r@ == sha1_hex_of(data@),
        r@.len() == 40,
{
    sha1::Sha1::from(data).hexdigest()
}

/// The group that a fingerprint is taken of: `g` with its release time reset
/// to the Unix epoch, so that the release time does not count.
pub open spec fn fingerprint_subject_of(g: LibraryGroup) -> LibraryGroup {
    LibraryGroup { release_time: UtcTime::spec_epoch(), ..g }
}

/// Two groups are alike but for, at most, their release times.
pub open spec fn alike_but_release_time(a: LibraryGroup, b: LibraryGroup) -> bool {
    &&& a.id == b.id
    &&& a.version == b.version
    &&& a.uid == b.uid
    &&& a.type_ == b.type_
    &&& a.libraries == b.libraries
    &&& a.requires == b.requires
    &&& a.conflicts == b.conflicts
    &&& a.has_split_natives == b.has_split_natives
}

impl LibraryGroup {
    /// This group with its release time reset to the Unix epoch: what the
    /// group's fingerprint is taken of, once serialized.
    pub fn into_fingerprint_subject(self) -> (r: LibraryGroup)
        ensures
            r == fingerprint_subject_of(self),
    {
        let mut g = self;
        g.release_time = UtcTime::epoch();
        g
    }
}

impl LWJGLEntry {
    /// Pairs `group` with its fingerprint, the SHA-1 hex digest of `serialized`,
    /// which is to hold the canonical serialization of the group's fingerprint subject.
    pub fn from_serialized(group: LibraryGroup, serialized: &[u8]) -> (r: LWJGLEntry)
        ensures
            r.group == group,
            r.sha1@ == sha1_hex_of(serialized@),
    {
        let sha1 = sha1_hex(serialized);
        LWJGLEntry { sha1, group }
    }
}

/// Groups alike but for their release times have one fingerprint subject, so
/// any serialization of it, and so its digest, is the same for both.
pub proof fn lemma_fingerprint_ignores_release_time(a: LibraryGroup, b: LibraryGroup)
    requires
        alike_but_release_time(a, b),
    ensures
        fingerprint_subject_of(a) == fingerprint_subject_of(b),
        forall|ser: spec_fn(LibraryGroup) -> Seq<u8>|
            sha1_hex_of(#[trigger] ser(fingerprint_subject_of(a))) == sha1_hex_of(
                ser(fingerprint_subject_of(b)),
            ),
{
}

/// Groups whose library listings differ have different fingerprint subjects.
pub proof fn lemma_fingerprint_subject_sees_libraries(a: LibraryGroup, b: LibraryGroup)
    requires
        a.libraries@ != b.libraries@,
    ensures
        fingerprint_subject_of(a) != fingerprint_subject_of(b),
{
}

} // verus!
