//! The per-candidate pipeline: classify, then extract or expand, then
//! decode-and-collect — and the spec-level aggregation over many candidates
//! with its laws: idempotence, order independence, monotonicity, fault
//! isolation and tolerance of unrecognized files.

use vstd::prelude::*;
use vstd::seq_lib::group_to_multiset_ensures;
use crate::FeatureId;
use crate::classify::classify;
use crate::classify::classify_spec;
use crate::classify::ContainerKind;
use crate::container::archive_features;
use crate::container::ar_ok;
use crate::container::member_features;
use crate::container::members_features_upto;
use crate::container::ar_members;
use crate::container::obj_ok;
use crate::container::object_features;
use crate::container::scan_archive;
use crate::container::scan_object;
use crate::features::FeatureSet;

verus! {

/// The failures a single candidate can raise. An unrecognized file is not
/// among them: it is skipped, not an error.
#[derive(Clone, Copy, Debug, PartialEq, Eq, Structural)]
pub enum ScanError {
    /// The bytes carry an object magic but the container's own metadata is
    /// inconsistent.
    MalformedObject,
    /// The bytes carry the archive magic but the envelope is structurally
    /// invalid.
    MalformedArchive,
}

/// The features one candidate contributes to an aggregate: everything its
/// recognized, well-formed content requires, and nothing at all when it is
/// unrecognized or malformed.
pub open spec fn scan_features(data: Seq<u8>) -> Set<FeatureId> {
    match classify_spec(data) {
        ContainerKind::Object(_) => if obj_ok(data) {
            object_features(data)
        } else {
            Set::empty()
        },
        ContainerKind::Archive => if ar_ok(data) {
            archive_features(data)
        } else {
            Set::empty()
        },
        ContainerKind::Unrecognized => Set::empty(),
    }
}

/// The outcome of scanning one candidate: its classification on success,
/// and exactly which malformation was met otherwise.
pub open spec fn scan_result_spec(data: Seq<u8>) -> Result<ContainerKind, ScanError> {
    match classify_spec(data) {
        ContainerKind::Object(k) => if obj_ok(data) {
            Result::Ok(ContainerKind::Object(k))
        } else {
            Result::Err(ScanError::MalformedObject)
        },
        ContainerKind::Archive => if ar_ok(data) {
            Result::Ok(ContainerKind::Archive)
        } else {
            Result::Err(ScanError::MalformedArchive)
        },
        ContainerKind::Unrecognized => Result::Ok(ContainerKind::Unrecognized),
    }
}

/// Scans one candidate buffer: classifies it, extracts code regions from an
/// object or expands an archive and extracts from its object members, and
/// unions every decoded feature requirement into `fs`. Never panics and
/// never aborts on garbage input; on an error `fs` is left untouched, so a
/// caller may treat the failure as fatal (single-file mode) or log it and
/// continue (directory mode).
pub fn scan_bytes(data: &Vec<u8>, fs: &mut FeatureSet) -> (r: Result<ContainerKind, ScanError>)
    requires
        old(fs).wf(),
    ensures
        final(fs).wf(),
        r == scan_result_spec(data@),
        final(fs)@ == old(fs)@.union(scan_features(data@)),
{
    let kind = classify(data);
    match kind {
        ContainerKind::Object(_) => {
            if scan_object(data, fs) {
                Result::Ok(kind)
            } else {
                proof {
                    assert(fs@ =~= old(fs)@.union(scan_features(data@)));
                }
                Result::Err(ScanError::MalformedObject)
            }
        },
        ContainerKind::Archive => {
            if scan_archive(data, fs) {
                Result::Ok(kind)
            } else {
                proof {
                    assert(fs@ =~= old(fs)@.union(scan_features(data@)));
                }
                Result::Err(ScanError::MalformedArchive)
            }
        },
        ContainerKind::Unrecognized => {
            proof {
                assert(fs@ =~= old(fs)@.union(scan_features(data@)));
            }
            Result::Ok(ContainerKind::Unrecognized)
        },
    }
}

/// The aggregate of a directory scan: the union of the per-candidate
/// contributions over the candidates' contents, in visitation order.
pub open spec fn aggregate_features(files: Seq<Seq<u8>>) -> Set<FeatureId>
    decreases files.len(),
{
    if files.len() == 0 {
        Set::empty()
    } else {
        scan_features(files[0]).union(aggregate_features(files.drop_first()))
    }
}

/// An aggregate contains an id exactly when some candidate contributes it.
pub proof fn lemma_aggregate_membership(files: Seq<Seq<u8>>, id: FeatureId)
    ensures
        aggregate_features(files).contains(id) <==> exists|i: int|
            0 <= i < files.len() && #[trigger] scan_features(files[i]).contains(id),
    decreases files.len(),
{
    if files.len() > 0 {
        lemma_aggregate_membership(files.drop_first(), id);
        if aggregate_features(files).contains(id) {
            if scan_features(files[0]).contains(id) {
                assert(scan_features(files[0]).contains(id));
            } else {
                let j = choose|j: int|
                    0 <= j < files.drop_first().len() && #[trigger] scan_features(
                        files.drop_first()[j],
                    ).contains(id);
                assert(files.drop_first()[j] == files[j + 1]);
                assert(scan_features(files[j + 1]).contains(id));
            }
        }
        if exists|i: int| 0 <= i < files.len() && #[trigger] scan_features(files[i]).contains(id) {
            let i = choose|i: int|
                0 <= i < files.len() && #[trigger] scan_features(files[i]).contains(id);
            if i > 0 {
                assert(files.drop_first()[i - 1] == files[i]);
                assert(scan_features(files.drop_first()[i - 1]).contains(id));
            }
        }
    }
}

/// Aggregation distributes over concatenation of candidate lists.
pub proof fn lemma_aggregate_concat(a: Seq<Seq<u8>>, b: Seq<Seq<u8>>)
    ensures
        aggregate_features(a + b) == aggregate_features(a).union(aggregate_features(b)),
    decreases a.len(),
{
    if a.len() == 0 {
        assert(a + b =~= b);
        assert(aggregate_features(a + b) =~= aggregate_features(a).union(aggregate_features(b)));
    } else {
        assert((a + b).len() > 0);
        assert((a + b)[0] == a[0]);
        assert((a + b).drop_first() =~= a.drop_first() + b);
        lemma_aggregate_concat(a.drop_first(), b);
        assert(aggregate_features(a + b) =~= aggregate_features(a).union(aggregate_features(b)));
    }
}

/// Idempotence: the union operation changes nothing the second time —
/// inserting a feature that is already present leaves the set as it was.
pub proof fn lemma_union_idempotent(s: Set<FeatureId>, id: FeatureId)
    ensures
        s.insert(id).insert(id) == s.insert(id),
{
    assert(s.insert(id).insert(id) =~= s.insert(id));
}

/// Idempotence of whole scans: scanning the same candidate twice in the same
/// run contributes exactly what scanning it once does.
pub proof fn lemma_scan_idempotent(base: Set<FeatureId>, data: Seq<u8>)
    ensures
        base.union(scan_features(data)).union(scan_features(data)) == base.union(
            scan_features(data),
        ),
{
    assert(base.union(scan_features(data)).union(scan_features(data)) =~= base.union(
        scan_features(data),
    ));
}

/// Order independence: the aggregate over a directory is the same for any
/// two visitation orders of the same candidates.
pub proof fn lemma_aggregate_order_independent(l1: Seq<Seq<u8>>, l2: Seq<Seq<u8>>)
    requires
        l1.to_multiset() == l2.to_multiset(),
    ensures
        aggregate_features(l1) == aggregate_features(l2),
{
    broadcast use group_to_multiset_ensures;

    assert forall|id: FeatureId| aggregate_features(l1).contains(id)
        <==> aggregate_features(l2).contains(id) by {
        lemma_aggregate_membership(l1, id);
        lemma_aggregate_membership(l2, id);
        if aggregate_features(l1).contains(id) {
            let i = choose|i: int|
                0 <= i < l1.len() && #[trigger] scan_features(l1[i]).contains(id);
            assert(l1.contains(l1[i]));
            assert(l1.to_multiset().count(l1[i]) > 0);
            assert(l2.contains(l1[i]));
            let j = choose|j: int| 0 <= j < l2.len() && l2[j] == l1[i];
            assert(scan_features(l2[j]).contains(id));
        }
        if aggregate_features(l2).contains(id) {
            let i = choose|i: int|
                0 <= i < l2.len() && #[trigger] scan_features(l2[i]).contains(id);
            assert(l2.contains(l2[i]));
            assert(l2.to_multiset().count(l2[i]) > 0);
            assert(l1.contains(l2[i]));
            let j = choose|j: int| 0 <= j < l1.len() && l1[j] == l2[i];
            assert(scan_features(l1[j]).contains(id));
        }
    };
    assert(aggregate_features(l1) =~= aggregate_features(l2));
}

/// Monotonicity: adding more candidates to a scan never removes a
/// previously observed feature from the aggregate.
pub proof fn lemma_aggregate_monotonic(l1: Seq<Seq<u8>>, l2: Seq<Seq<u8>>)
    ensures
        aggregate_features(l1).subset_of(aggregate_features(l1 + l2)),
{
    lemma_aggregate_concat(l1, l2);
}

/// A candidate that fails to scan contributes nothing — but also breaks
/// nothing.
pub proof fn lemma_failed_scan_contributes_nothing(data: Seq<u8>)
    requires
        scan_result_spec(data) is Err,
    ensures
        scan_features(data) == Set::<FeatureId>::empty(),
{
    assert(scan_features(data) =~= Set::<FeatureId>::empty());
}

/// Fault isolation: a directory holding one corrupt candidate among valid
/// ones aggregates exactly the union over the valid ones.
pub proof fn lemma_fault_isolation(before: Seq<Seq<u8>>, corrupt: Seq<u8>, after: Seq<Seq<u8>>)
    requires
        scan_result_spec(corrupt) is Err,
    ensures
        aggregate_features(before + seq![corrupt] + after) == aggregate_features(before + after),
{
    lemma_failed_scan_contributes_nothing(corrupt);
    lemma_aggregate_concat(before, after);
    lemma_aggregate_concat(before + seq![corrupt], after);
    lemma_aggregate_concat(before, seq![corrupt]);
    lemma_aggregate_empty();
    assert(seq![corrupt].drop_first() =~= Seq::<Seq<u8>>::empty());
    assert(seq![corrupt][0] == corrupt);
    assert(aggregate_features(seq![corrupt]) == scan_features(corrupt).union(
        aggregate_features(seq![corrupt].drop_first()),
    ));
    assert(aggregate_features(seq![corrupt]) =~= scan_features(corrupt));
    assert(aggregate_features(before + seq![corrupt] + after) =~= aggregate_features(
        before + after,
    ));
}

/// Tolerance of unrecognized files: a plain text or empty file in a scanned
/// directory contributes no features and does not surface as an error.
pub proof fn lemma_unrecognized_tolerated(data: Seq<u8>)
    requires
        classify_spec(data) is Unrecognized,
    ensures
        scan_result_spec(data) == Result::<ContainerKind, ScanError>::Ok(
            ContainerKind::Unrecognized,
        ),
        scan_features(data) == Set::<FeatureId>::empty(),
{
}

/// Archive traversal: a valid archive's contribution is the union over its
/// members, so two members with disjoint features both surface when the
/// archive itself is scanned.
pub proof fn lemma_archive_two_members(data: Seq<u8>)
    requires
        ar_ok(data),
        ar_members(data).len() == 2,
    ensures
        archive_features(data) == member_features(ar_members(data)[0]).union(
            member_features(ar_members(data)[1]),
        ),
{
    let ms = ar_members(data);
    assert(members_features_upto(ms, 2) == members_features_upto(ms, 1).union(
        member_features(ms[1]),
    ));
    assert(members_features_upto(ms, 1) == members_features_upto(ms, 0).union(
        member_features(ms[0]),
    ));
    assert(archive_features(data) =~= member_features(ms[0]).union(member_features(ms[1])));
}

/// An empty directory aggregates the empty feature set.
pub proof fn lemma_aggregate_empty()
    ensures
        aggregate_features(Seq::<Seq<u8>>::empty()) == Set::<FeatureId>::empty(),
{
}

} // verus!
