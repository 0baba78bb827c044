//! The code region extractor and the archive expander. The object and
//! archive container parsers are external collaborators: the trusted
//! wrappers below expose what they find as plain values — per section its
//! purpose, load address and bytes; per archive member its bytes — and the
//! verified code walks those, feeding executable regions to decode-and-collect.
//!
//! Parsing is a pure function of the candidate's bytes, so every wrapper is
//! keyed by the byte buffer itself; the parse is simply redone per query.

use vstd::prelude::*;
use object::Object;
use object::ObjectSection;
use crate::FeatureId;
use crate::classify::classify;
use crate::classify::classify_spec;
use crate::classify::ContainerKind;
use crate::decode::collect_region;
use crate::decode::CodeRegion;
use crate::decode::region_features;
use crate::features::known;
use crate::features::FeatureSet;

verus! {

/// Whether the bytes parse as a structurally valid object file of a kind the
/// extractor supports. A pure function of the bytes alone.
pub uninterp spec fn obj_ok(data: Seq<u8>) -> bool;

/// The sections of a valid object file, in file order: per section, whether
/// its purpose is executable machine code, its load address, and its bytes —
/// `None` where the container metadata is well-formed but the section data
/// itself is missing or truncated. A pure function of the bytes alone.
pub uninterp spec fn obj_sections(data: Seq<u8>) -> Seq<(bool, u64, Option<Seq<u8>>)>;

/// Whether the bytes parse as a structurally valid archive envelope.
/// A pure function of the bytes alone.
pub uninterp spec fn ar_ok(data: Seq<u8>) -> bool;

/// The members of a valid archive, in file order: per member its raw bytes,
/// or `None` where the member's own entry is malformed or its data cannot be
/// retrieved. A pure function of the bytes alone.
pub uninterp spec fn ar_members(data: Seq<u8>) -> Seq<Option<Seq<u8>>>;

/// Relies on `object::File::parse`: it rejects structurally invalid input
/// with an error rather than undefined behavior, deterministically in the
/// input bytes.
#[verifier::external_body]
fn object_parses(data: &Vec<u8>) -> (b: bool)
    ensures
        b == obj_ok(data@),
{
    object::File::parse(data.as_slice()).is_ok()
}

/// Relies on `object::File::parse` and `object::Object::sections`: the
/// number of sections the parsed object enumerates.
#[verifier::external_body]
fn object_section_count(data: &Vec<u8>) -> (n: usize)
    requires
        obj_ok(data@),
    ensures
        n == obj_sections(data@).len(),
{
    let file = object::File::parse(data.as_slice()).unwrap();
    file.sections().count()
}

/// Relies on `object::Object::sections` together with
/// `object::ObjectSection::kind`, `address` and `data`: the `i`-th section as
/// the extractor reads it. `kind() == SectionKind::Text` identifies a section
/// whose purpose is executable machine code; `data()` fails — yielding
/// `None` here — exactly when that section's bytes cannot be retrieved.
#[verifier::external_body]
fn object_section_at(data: &Vec<u8>, i: usize) -> (r: (bool, u64, Option<Vec<u8>>))
    requires
        obj_ok(data@),
        i < obj_sections(data@).len(),
    ensures
        r.0 == obj_sections(data@)[i as int].0,
        r.1 == obj_sections(data@)[i as int].1,
        r.2.deep_view() == obj_sections(data@)[i as int].2,
{
    let file = object::File::parse(data.as_slice()).unwrap();
    let section = file.sections().nth(i).unwrap();
    let is_text = matches!(section.kind(), object::SectionKind::Text);
    (is_text, section.address(), section.data().ok().map(|b| b.to_vec()))
}

/// Relies on `object::read::archive::ArchiveFile::parse`: it rejects a
/// structurally invalid archive envelope with an error, deterministically in
/// the input bytes.
#[verifier::external_body]
fn archive_parses(data: &Vec<u8>) -> (b: bool)
    ensures
        b == ar_ok(data@),
{
    object::read::archive::ArchiveFile::parse(data.as_slice()).is_ok()
}

/// Relies on `object::read::archive::ArchiveFile::members`: the number of
/// member entries the parsed archive enumerates.
#[verifier::external_body]
fn archive_member_count(data: &Vec<u8>) -> (n: usize)
    requires
        ar_ok(data@),
    ensures
        n == ar_members(data@).len(),
{
    let archive = object::read::archive::ArchiveFile::parse(data.as_slice()).unwrap();
    archive.members().count()
}

/// Relies on `ArchiveFile::members` and `ArchiveMember::data`: the bytes of
/// the `i`-th member, or `None` where that member's entry is malformed or
/// its byte range cannot be read back from the archive buffer.
#[verifier::external_body]
fn archive_member_at(data: &Vec<u8>, i: usize) -> (r: Option<Vec<u8>>)
    requires
        ar_ok(data@),
        i < ar_members(data@).len(),
    ensures
        r.deep_view() == ar_members(data@)[i as int],
{
    let archive = object::read::archive::ArchiveFile::parse(data.as_slice()).unwrap();
    let member = archive.members().nth(i).unwrap();
    member.ok().and_then(|m| m.data(data.as_slice()).ok()).map(|b| b.to_vec())
}

/// The features one section contributes: those decoded from its bytes if its
/// purpose is executable code and its bytes could be read, nothing otherwise
/// (an unreadable section is skipped, never fatal).
pub open spec fn section_features(s: (bool, u64, Option<Seq<u8>>)) -> Set<FeatureId> {
    if s.0 {
        match s.2 {
            Option::Some(bytes) => known(region_features(bytes, s.1)),
            Option::None => Set::empty(),
        }
    } else {
        Set::empty()
    }
}

/// The union of the contributions of the first `i` sections.
pub open spec fn sections_features_upto(
    ss: Seq<(bool, u64, Option<Seq<u8>>)>,
    i: nat,
) -> Set<FeatureId>
    decreases i,
{
    if i == 0 {
        Set::empty()
    } else {
        sections_features_upto(ss, (i - 1) as nat).union(section_features(ss[i - 1]))
    }
}

/// The features a whole valid object file contributes: the union over its
/// executable sections.
pub open spec fn object_features(data: Seq<u8>) -> Set<FeatureId> {
    sections_features_upto(obj_sections(data), obj_sections(data).len())
}

/// Extracts every executable code region of an object and unions the decoded
/// features into `fs`. Returns whether the bytes parsed as a valid object;
/// on failure `fs` is untouched, so the caller may treat the malformed
/// object as fatal or as skip-and-continue.
pub fn scan_object(data: &Vec<u8>, fs: &mut FeatureSet) -> (ok: bool)
    requires
        old(fs).wf(),
    ensures
        final(fs).wf(),
        ok == obj_ok(data@),
        ok ==> final(fs)@ == old(fs)@.union(object_features(data@)),
        !ok ==> final(fs)@ == old(fs)@,
{
    if !object_parses(data) {
        proof {
            assert(fs@ =~= old(fs)@);
        }
        return false;
    }
    let n = object_section_count(data);
    let mut i: usize = 0;
    while i < n
        invariant
            fs.wf(),
            obj_ok(data@),
            n == obj_sections(data@).len(),
            i <= n,
            fs@ == old(fs)@.union(sections_features_upto(obj_sections(data@), i as nat)),
        decreases n - i,
    {
        let (is_text, addr, section_bytes) = object_section_at(data, i);
        let ghost pre = fs@;
        let ghost model = obj_sections(data@)[i as int];
        if is_text {
            match section_bytes {
                Option::Some(bytes) => {
                    let region = CodeRegion { base: addr, bytes };
                    collect_region(fs, &region);
                    proof {
                        assert(region.bytes.deep_view() =~= region.bytes@);
                        assert(section_features(model) == known(
                            region_features(region.bytes@, addr),
                        ));
                    }
                },
                Option::None => {
                    proof {
                        assert(section_features(model) =~= Set::<FeatureId>::empty());
                    }
                },
            }
        }
        proof {
            assert(fs@ =~= pre.union(section_features(model)));
            assert(fs@ =~= old(fs)@.union(
                sections_features_upto(obj_sections(data@), (i + 1) as nat),
            ));
        }
        i += 1;
    }
    true
}

/// The features one archive member contributes: those of its bytes when they
/// classify and parse as an object; a malformed, unreadable or unrecognized
/// member is skipped individually and contributes nothing.
pub open spec fn member_features(m: Option<Seq<u8>>) -> Set<FeatureId> {
    match m {
        Option::Some(bytes) => if classify_spec(bytes) is Object && obj_ok(bytes) {
            object_features(bytes)
        } else {
            Set::empty()
        },
        Option::None => Set::empty(),
    }
}

/// The union of the contributions of the first `i` archive members.
pub open spec fn members_features_upto(ms: Seq<Option<Seq<u8>>>, i: nat) -> Set<FeatureId>
    decreases i,
{
    if i == 0 {
        Set::empty()
    } else {
        members_features_upto(ms, (i - 1) as nat).union(member_features(ms[i - 1]))
    }
}

/// The features a whole valid archive contributes: the union over its
/// members that resolve to objects.
pub open spec fn archive_features(data: Seq<u8>) -> Set<FeatureId> {
    members_features_upto(ar_members(data), ar_members(data).len())
}

/// Expands an archive, re-classifies each member's bytes, and routes members
/// that resolve to objects through the extractor. Returns whether the bytes
/// parsed as a valid archive envelope; on failure `fs` is untouched.
pub fn scan_archive(data: &Vec<u8>, fs: &mut FeatureSet) -> (ok: bool)
    requires
        old(fs).wf(),
    ensures
        final(fs).wf(),
        ok == ar_ok(data@),
        ok ==> final(fs)@ == old(fs)@.union(archive_features(data@)),
        !ok ==> final(fs)@ == old(fs)@,
{
    if !archive_parses(data) {
        proof {
            assert(fs@ =~= old(fs)@);
        }
        return false;
    }
    let n = archive_member_count(data);
    let mut i: usize = 0;
    while i < n
        invariant
            fs.wf(),
            ar_ok(data@),
            n == ar_members(data@).len(),
            i <= n,
            fs@ == old(fs)@.union(members_features_upto(ar_members(data@), i as nat)),
        decreases n - i,
    {
        let member = archive_member_at(data, i);
        let ghost pre = fs@;
        let ghost model = ar_members(data@)[i as int];
        match member {
            Option::Some(bytes) => {
                proof {
                    assert(bytes.deep_view() =~= bytes@);
                }
                let kind = classify(&bytes);
                match kind {
                    ContainerKind::Object(_) => {
                        let ok = scan_object(&bytes, fs);
                        proof {
                            if ok {
                                assert(member_features(model) == object_features(bytes@));
                            } else {
                                assert(member_features(model) =~= Set::<FeatureId>::empty());
                            }
                        }
                    },
                    _ => {
                        proof {
                            assert(member_features(model) =~= Set::<FeatureId>::empty());
                        }
                    },
                }
            },
            Option::None => {
                proof {
                    assert(member_features(model) =~= Set::<FeatureId>::empty());
                }
            },
        }
        proof {
            assert(fs@ =~= pre.union(member_features(model)));
            assert(fs@ =~= old(fs)@.union(
                members_features_upto(ar_members(data@), (i + 1) as nat),
            ));
        }
        i += 1;
    }
    true
}

} // verus!
