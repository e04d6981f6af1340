//! Tracked dependency manifests and the pre-switch fingerprint phase.
//!
//! A [`DependencyDefinition`] pairs a manifest file path with the install
//! command that must run when the file's content changes. Before the
//! branch switch, every definition whose file could be read is turned
//! into a [`ChecksumedDependencyDefinition`] carrying the digest of the
//! pre-switch contents; a definition whose file could not be read is
//! dropped from the rest of the run.

use vstd::prelude::*;

use crate::command::{Cmd, CmdView};
use crate::digest::{fingerprint, sha1_hex_of};

verus! {

/// A declared dependency manifest: the file to watch and the command to
/// run when its content changes. Immutable once constructed.
pub struct DependencyDefinition {
    pub file: String,
    pub install_cmd: Cmd,
}

/// The mathematical value of a [`DependencyDefinition`].
pub struct DependencyDefinitionView {
    pub file: Seq<char>,
    pub install_cmd: CmdView,
}

impl View for DependencyDefinition {
    type V = DependencyDefinitionView;

    open spec fn view(&self) -> DependencyDefinitionView {
        DependencyDefinitionView { file: self.file@, install_cmd: self.install_cmd@ }
    }
}

impl DeepView for DependencyDefinition {
    type V = DependencyDefinitionView;

    open spec fn deep_view(&self) -> DependencyDefinitionView {
        self@
    }
}

/// A manifest whose pre-switch contents were readable, together with the
/// digest of those contents.
pub struct ChecksumedDependencyDefinition {
    pub definition: DependencyDefinition,
    pub checksum_before_switch: String,
}

/// The mathematical value of a [`ChecksumedDependencyDefinition`].
pub struct ChecksumedDependencyDefinitionView {
    pub definition: DependencyDefinitionView,
    pub checksum_before_switch: Seq<char>,
}

impl View for ChecksumedDependencyDefinition {
    type V = ChecksumedDependencyDefinitionView;

    open spec fn view(&self) -> ChecksumedDependencyDefinitionView {
        ChecksumedDependencyDefinitionView {
            definition: self.definition@,
            checksum_before_switch: self.checksum_before_switch@,
        }
    }
}

impl DeepView for ChecksumedDependencyDefinition {
    type V = ChecksumedDependencyDefinitionView;

    open spec fn deep_view(&self) -> ChecksumedDependencyDefinitionView {
        self@
    }
}

impl Clone for DependencyDefinition {
    fn clone(&self) -> (r: Self)
        ensures
            r@ == self@,
    {
        DependencyDefinition { file: self.file.clone(), install_cmd: self.install_cmd.clone() }
    }
}

impl DependencyDefinition {
    /// Pairs this definition with the fingerprint of the manifest's
    /// pre-switch contents, so a later re-fingerprint can be compared
    /// against it.
    pub fn note_checksum(&self, contents: &Vec<u8>) -> (noted: ChecksumedDependencyDefinition)
        ensures
            noted@.definition == self@,
            noted@.checksum_before_switch == sha1_hex_of(contents@),
    {
        ChecksumedDependencyDefinition {
            definition: self.clone(),
            checksum_before_switch: fingerprint(contents),
        }
    }
}

impl ChecksumedDependencyDefinition {
    /// True exactly when the manifest's bytes after the switch hash
    /// differently from the fingerprint taken before it, i.e. when the
    /// install command must run.
    pub fn update_needed(&self, contents_after: &Vec<u8>) -> (changed: bool)
        ensures
            changed == (sha1_hex_of(contents_after@) != self@.checksum_before_switch),
    {
        let after = fingerprint(contents_after);
        !(after == self.checksum_before_switch)
    }
}

/// The manifests surviving the pre-switch fingerprint phase, among the
/// first `n` definitions: one entry per readable manifest, in
/// declaration order, carrying the digest of its pre-switch bytes.
pub open spec fn noted_prefix(
    defs: Seq<DependencyDefinitionView>,
    reads: Seq<Option<Seq<u8>>>,
    n: int,
) -> Seq<ChecksumedDependencyDefinitionView>
    decreases n,
{
    if n <= 0 {
        Seq::empty()
    } else {
        let prev = noted_prefix(defs, reads, n - 1);
        match reads[n - 1] {
            Option::Some(bytes) => prev.push(
                ChecksumedDependencyDefinitionView {
                    definition: defs[n - 1],
                    checksum_before_switch: sha1_hex_of(bytes),
                },
            ),
            Option::None => prev,
        }
    }
}

/// The manifests surviving the pre-switch fingerprint phase, in
/// declaration order.
pub open spec fn noted(
    defs: Seq<DependencyDefinitionView>,
    reads: Seq<Option<Seq<u8>>>,
) -> Seq<ChecksumedDependencyDefinitionView> {
    noted_prefix(defs, reads, defs.len() as int)
}

/// The pre-switch fingerprint phase. `reads[i]` is the result of reading
/// `defs[i]`'s file: `Some` bytes where the read succeeded, `None` where
/// the file was missing or unreadable. Every readable manifest is noted
/// with its digest, in declaration order; an unreadable one is dropped
/// and takes no part in the rest of the run.
pub fn pre_fingerprint(
    defs: &Vec<DependencyDefinition>,
    reads: &Vec<Option<Vec<u8>>>,
) -> (survivors: Vec<ChecksumedDependencyDefinition>)
    requires
        defs@.len() == reads@.len(),
    ensures
        survivors.deep_view() == noted(defs.deep_view(), reads.deep_view()),
{
    let mut survivors: Vec<ChecksumedDependencyDefinition> = Vec::new();
    let mut i: usize = 0;
    while i < defs.len()
        invariant
            i <= defs@.len(),
            defs@.len() == reads@.len(),
            survivors.deep_view() =~= noted_prefix(defs.deep_view(), reads.deep_view(), i as int),
        decreases defs@.len() - i,
    {
        let ghost prefix = survivors.deep_view();
        match &reads[i] {
            Option::Some(bytes) => {
                survivors.push(defs[i].note_checksum(bytes));
                proof {
                    assert(bytes.deep_view() =~= bytes@);
                    assert(reads.deep_view()[i as int] == Option::<Seq<u8>>::Some(bytes@));
                    assert(defs.deep_view()[i as int] == defs@[i as int]@);
                    assert forall|j: int| 0 <= j < prefix.len() implies survivors.deep_view()[j]
                        == prefix[j] by {
                        assert(survivors@[j] == survivors@.subrange(0, prefix.len() as int)[j]);
                    }
                    assert(survivors.deep_view()[prefix.len() as int]
                        == ChecksumedDependencyDefinitionView {
                        definition: defs.deep_view()[i as int],
                        checksum_before_switch: sha1_hex_of(bytes@),
                    });
                    assert(survivors.deep_view() =~= noted_prefix(
                        defs.deep_view(),
                        reads.deep_view(),
                        i as int + 1,
                    ));
                }
            },
            Option::None => {
                proof {
                    assert(reads.deep_view()[i as int] is None);
                }
            },
        }
        i = i + 1;
    }
    survivors
}

/// Missing-manifest tolerance: a manifest whose file could not be read
/// before the switch is excluded entirely. Its path appears in no noted
/// entry, so no later phase can examine it or record an outcome for it.
pub proof fn lemma_missing_manifest_excluded(
    defs: Seq<DependencyDefinitionView>,
    reads: Seq<Option<Seq<u8>>>,
    k: int,
)
    requires
        defs.len() == reads.len(),
        0 <= k < reads.len(),
        reads[k] is None,
        forall|j: int| 0 <= j < defs.len() && j != k ==> defs[j].file != defs[k].file,
    ensures
        forall|j: int|
            0 <= j < noted(defs, reads).len() ==> (#[trigger] noted(defs, reads)[j]).definition.file
                != defs[k].file,
{
    lemma_missing_prefix(defs, reads, k, defs.len() as int);
}

/// Induction step for [`lemma_missing_manifest_excluded`], over the first
/// `n` definitions.
proof fn lemma_missing_prefix(
    defs: Seq<DependencyDefinitionView>,
    reads: Seq<Option<Seq<u8>>>,
    k: int,
    n: int,
)
    requires
        defs.len() == reads.len(),
        0 <= k < reads.len(),
        reads[k] is None,
        forall|j: int| 0 <= j < defs.len() && j != k ==> defs[j].file != defs[k].file,
        n <= defs.len(),
    ensures
        forall|j: int|
            0 <= j < noted_prefix(defs, reads, n).len() ==> (#[trigger] noted_prefix(
                defs,
                reads,
                n,
            )[j]).definition.file != defs[k].file,
    decreases n,
{
    if n > 0 {
        lemma_missing_prefix(defs, reads, k, n - 1);
        assert forall|j: int| 0 <= j < noted_prefix(defs, reads, n).len() implies (
        #[trigger] noted_prefix(defs, reads, n)[j]).definition.file != defs[k].file by {
            if j < noted_prefix(defs, reads, n - 1).len() {
                assert(noted_prefix(defs, reads, n)[j] == noted_prefix(defs, reads, n - 1)[j]);
            } else {
                assert(reads[n - 1] is Some);
                assert(n - 1 != k);
                assert(noted_prefix(defs, reads, n)[j].definition == defs[n - 1]);
            }
        }
    }
}

} // verus!
