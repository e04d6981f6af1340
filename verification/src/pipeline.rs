//! The checksum-gated reinstall pipeline.
//!
//! [`Pipeline`] is a state machine driven by a caller that performs the
//! actual file reads and process runs. It starts awaiting the outcome of
//! the branch-switch command; a failed switch aborts the whole run and
//! nothing further is ever requested. After a successful switch the
//! surviving manifests are processed strictly in declaration order: the
//! caller hands in each manifest's post-switch read, the pipeline decides
//! whether the install command must run, and every non-success outcome is
//! recorded, in processing order, for the final [`Report`].

use vstd::prelude::*;

use crate::command::{Cmd, CommandError, CommandErrorView};
use crate::digest::sha1_hex_of;
use crate::manifest::{ChecksumedDependencyDefinition, ChecksumedDependencyDefinitionView};

verus! {

/// A per-manifest failure recorded for the final report: the manifest's
/// path and how its re-fingerprint or reinstall went wrong.
pub struct ManifestFailure {
    pub file: String,
    pub error: CommandError,
}

/// The mathematical value of a [`ManifestFailure`].
pub struct ManifestFailureView {
    pub file: Seq<char>,
    pub error: CommandErrorView,
}

impl View for ManifestFailure {
    type V = ManifestFailureView;

    open spec fn view(&self) -> ManifestFailureView {
        ManifestFailureView { file: self.file@, error: self.error@ }
    }
}

impl DeepView for ManifestFailure {
    type V = ManifestFailureView;

    open spec fn deep_view(&self) -> ManifestFailureView {
        self@
    }
}

/// The failure list is fully accounted for by `sources`: entry `j` was
/// recorded for the manifest at index `sources[j]`, those indices are
/// strictly increasing (so failures stand in processing order), and all
/// of them lie below `bound`, the number of manifests settled so far.
pub open spec fn failures_track_sources(
    sources: Seq<int>,
    failures: Seq<ManifestFailureView>,
    manifests: Seq<ChecksumedDependencyDefinitionView>,
    bound: int,
) -> bool {
    &&& sources.len() == failures.len()
    &&& forall|j: int| 0 <= j < sources.len() ==> 0 <= #[trigger] sources[j] < bound
    &&& forall|j: int|
        0 <= j < sources.len() ==> (#[trigger] failures[j]).file
            == manifests[sources[j]].definition.file
    &&& forall|j: int, k: int|
        0 <= j < k < sources.len() ==> #[trigger] sources[j] < #[trigger] sources[k]
}

/// The one fatal error: the branch-switch command itself failed, so the
/// run was abandoned before any manifest was examined.
pub struct FatalSwitchFailure {
    pub error: CommandError,
}

/// The outcome of a completed run: how many manifests were processed and
/// every recorded failure, in processing order. An empty failure list
/// means every manifest either needed no action or reinstalled cleanly.
pub struct Report {
    pub processed: usize,
    pub failures: Vec<ManifestFailure>,
}

impl Report {
    /// True exactly when no manifest recorded a failure.
    pub fn all_ok(&self) -> (ok: bool)
        ensures
            ok == (self.failures.deep_view().len() == 0),
    {
        self.failures.len() == 0
    }
}

/// Where the pipeline stands between two caller-performed actions.
#[derive(Clone, Copy, PartialEq, Eq, Structural)]
enum Phase {
    /// The branch-switch command's outcome has not been handed in yet.
    Switching,
    /// Manifests are being processed; the next one awaits its
    /// post-switch read (or none is left and the run is complete).
    Updating,
    /// The current manifest's content changed; its install command's
    /// outcome has not been handed in yet.
    AwaitingInstall,
    /// The switch failed; the run is over and nothing more is accepted.
    Aborted,
}

/// The pipeline state machine. See the module documentation for the
/// protocol; each method's contract says exactly which phase it expects
/// and how the recorded state moves.
pub struct Pipeline {
    checksummed: Vec<ChecksumedDependencyDefinition>,
    phase: Phase,
    next: usize,
    failures: Vec<ManifestFailure>,
    sources: Ghost<Seq<int>>,
}

impl Pipeline {
    /// The manifests that survived the pre-switch fingerprint phase, in
    /// declaration order.
    pub closed spec fn manifests(&self) -> Seq<ChecksumedDependencyDefinitionView> {
        self.checksummed.deep_view()
    }

    /// The failures recorded so far, in processing order.
    pub closed spec fn failures(&self) -> Seq<ManifestFailureView> {
        self.failures.deep_view()
    }

    /// For each recorded failure, the index of the manifest it was
    /// recorded for.
    pub closed spec fn failure_sources(&self) -> Seq<int> {
        self.sources@
    }

    /// The index of the manifest being processed; equals
    /// `manifests().len()` once every manifest is settled.
    pub closed spec fn current_index(&self) -> int {
        self.next as int
    }

    /// The manifest being processed.
    pub open spec fn current_manifest(&self) -> ChecksumedDependencyDefinitionView {
        self.manifests()[self.current_index()]
    }

    /// The switch command's outcome has not been handed in yet.
    pub closed spec fn switch_pending(&self) -> bool {
        self.phase == Phase::Switching
    }

    /// Manifests are being processed and none awaits an install outcome.
    pub closed spec fn processing(&self) -> bool {
        self.phase == Phase::Updating
    }

    /// The next manifest awaits its post-switch read.
    pub open spec fn awaiting_read(&self) -> bool {
        self.processing() && self.current_index() < self.manifests().len()
    }

    /// The current manifest's install command awaits its outcome.
    pub closed spec fn awaiting_install(&self) -> bool {
        self.phase == Phase::AwaitingInstall
    }

    /// Every manifest has been settled; the report can be taken.
    pub open spec fn complete(&self) -> bool {
        self.processing() && self.current_index() == self.manifests().len()
    }

    /// The switch failed and the run is over.
    pub closed spec fn aborted(&self) -> bool {
        self.phase == Phase::Aborted
    }

    /// Structural invariant: the processing index stays within the
    /// manifest list and the recorded failures track settled manifests
    /// in strictly increasing order.
    pub closed spec fn wf(&self) -> bool {
        &&& (self.phase == Phase::Switching ==> self.next == 0)
        &&& (self.phase == Phase::Aborted ==> self.next == 0)
        &&& (self.phase == Phase::Updating ==> self.next <= self.checksummed.len())
        &&& (self.phase == Phase::AwaitingInstall ==> self.next < self.checksummed.len())
        &&& failures_track_sources(
            self.sources@,
            self.failures(),
            self.manifests(),
            self.next as int,
        )
    }

    /// Order preservation, and where report entries can come from: the
    /// failures recorded so far stand in processing order. Each entry
    /// names the manifest it was recorded for — so only a manifest that
    /// survived the pre-switch fingerprint phase can appear in a report
    /// entry — and those manifest indices increase strictly along the
    /// failure list, so of two changed manifests the earlier-registered
    /// one is reported first.
    pub proof fn lemma_failures_in_processing_order(&self)
        requires
            self.wf(),
        ensures
            self.failure_sources().len() == self.failures().len(),
            forall|j: int|
                0 <= j < self.failures().len() ==> 0 <= #[trigger] self.failure_sources()[j]
                    < self.manifests().len(),
            forall|j: int|
                0 <= j < self.failures().len() ==> (#[trigger] self.failures()[j]).file
                    == self.manifests()[self.failure_sources()[j]].definition.file,
            forall|j: int, k: int|
                0 <= j < k < self.failures().len() ==> #[trigger] self.failure_sources()[j] < (
                #[trigger] self.failure_sources()[k]),
    {
    }

    /// Starts a run over the surviving manifests, awaiting the outcome
    /// of the branch-switch command.
    pub fn new(checksummed: Vec<ChecksumedDependencyDefinition>) -> (p: Pipeline)
        ensures
            p.wf(),
            p.switch_pending(),
            p.manifests() == checksummed.deep_view(),
            p.failures() == Seq::<ManifestFailureView>::empty(),
            p.failure_sources() == Seq::<int>::empty(),
    {
        let p = Pipeline {
            checksummed,
            phase: Phase::Switching,
            next: 0,
            failures: Vec::new(),
            sources: Ghost(Seq::empty()),
        };
        proof {
            assert(p.failures.deep_view() =~= Seq::<ManifestFailureView>::empty());
        }
        p
    }

    /// Hands in the branch-switch command's outcome. A success starts
    /// manifest processing at the first surviving manifest; any failure
    /// is fatal: it is returned as a [`FatalSwitchFailure`] and the
    /// pipeline aborts, so no manifest is ever examined and no install
    /// command is ever requested.
    pub fn on_switch_outcome(&mut self, outcome: Result<(), CommandError>) -> (r: Result<
        (),
        FatalSwitchFailure,
    >)
        requires
            old(self).wf(),
            old(self).switch_pending(),
        ensures
            final(self).wf(),
            final(self).manifests() == old(self).manifests(),
            final(self).failures() == old(self).failures(),
            final(self).failure_sources() == old(self).failure_sources(),
            outcome is Ok ==> r is Ok && final(self).processing() && final(self).current_index()
                == 0,
            outcome matches Err(e) ==> r matches Err(f) && f.error@ == e@ && final(self).aborted(),
    {
        match outcome {
            Result::Ok(_) => {
                self.phase = Phase::Updating;
                Result::Ok(())
            },
            Result::Err(e) => {
                self.phase = Phase::Aborted;
                Result::Err(FatalSwitchFailure { error: e })
            },
        }
    }

    /// True while the next manifest awaits its post-switch read.
    pub fn has_pending_read(&self) -> (pending: bool)
        ensures
            pending == self.awaiting_read(),
    {
        self.phase == Phase::Updating && self.next < self.checksummed.len()
    }

    /// True once every manifest has been settled.
    pub fn is_complete(&self) -> (done: bool)
        ensures
            done == self.complete(),
    {
        self.phase == Phase::Updating && self.next == self.checksummed.len()
    }

    /// True once a failed switch has ended the run.
    pub fn is_aborted(&self) -> (aborted: bool)
        ensures
            aborted == self.aborted(),
    {
        self.phase == Phase::Aborted
    }

    /// The path of the manifest being processed: the file the caller
    /// must read next, or whose install outcome is awaited.
    pub fn current_path(&self) -> (path: &String)
        requires
            self.wf(),
            self.awaiting_read() || self.awaiting_install(),
        ensures
            path@ == self.current_manifest().definition.file,
    {
        proof {
            assert(self.checksummed.deep_view()[self.next as int]
                == self.checksummed@[self.next as int]@);
        }
        &self.checksummed[self.next].definition.file
    }

    /// The install command the caller must now run for the current
    /// manifest, whose content changed across the switch.
    pub fn current_install_command(&self) -> (cmd: &Cmd)
        requires
            self.wf(),
            self.awaiting_install(),
        ensures
            cmd@ == self.current_manifest().definition.install_cmd,
    {
        proof {
            assert(self.checksummed.deep_view()[self.next as int]
                == self.checksummed@[self.next as int]@);
        }
        &self.checksummed[self.next].definition.install_cmd
    }

    /// Appending a failure for the manifest at index `at` keeps the
    /// failure list tracking settled manifests in increasing order, with
    /// the bound moved past `at`.
    proof fn lemma_record_extends_tracking(
        sources: Seq<int>,
        failures: Seq<ManifestFailureView>,
        manifests: Seq<ChecksumedDependencyDefinitionView>,
        at: int,
        entry: ManifestFailureView,
    )
        requires
            failures_track_sources(sources, failures, manifests, at),
            0 <= at < manifests.len(),
            entry.file == manifests[at].definition.file,
        ensures
            failures_track_sources(sources.push(at), failures.push(entry), manifests, at + 1),
    {
        let s = sources.push(at);
        let f = failures.push(entry);
        assert forall|j: int| 0 <= j < s.len() implies 0 <= #[trigger] s[j] < at + 1 by {
            if j < sources.len() {
                assert(s[j] == sources[j]);
            }
        }
        assert forall|j: int| 0 <= j < s.len() implies (#[trigger] f[j]).file
            == manifests[s[j]].definition.file by {
            if j < sources.len() {
                assert(s[j] == sources[j] && f[j] == failures[j]);
            }
        }
        assert forall|j: int, k: int| 0 <= j < k < s.len() implies #[trigger] s[j] < (
        #[trigger] s[k]) by {
            if k < sources.len() {
                assert(s[j] == sources[j] && s[k] == sources[k]);
            } else {
                assert(s[j] == sources[j] && s[k] == at);
            }
        }
    }

    /// A failure list that tracks settled manifests below one bound also
    /// does so below any larger bound.
    proof fn lemma_tracking_weaken(
        sources: Seq<int>,
        failures: Seq<ManifestFailureView>,
        manifests: Seq<ChecksumedDependencyDefinitionView>,
        b1: int,
        b2: int,
    )
        requires
            failures_track_sources(sources, failures, manifests, b1),
            b1 <= b2,
        ensures
            failures_track_sources(sources, failures, manifests, b2),
    {
    }

    /// Records a failure outcome for the manifest being processed,
    /// keeping every earlier entry in place.
    fn record_failure(&mut self, error: CommandError)
        requires
            old(self).next < old(self).checksummed.len(),
            failures_track_sources(
                old(self).sources@,
                old(self).failures(),
                old(self).manifests(),
                old(self).next as int,
            ),
        ensures
            final(self).checksummed == old(self).checksummed,
            final(self).phase == old(self).phase,
            final(self).next == old(self).next,
            final(self).failures.deep_view() == old(self).failures.deep_view().push(
                (ManifestFailureView {
                    file: old(self).current_manifest().definition.file,
                    error: error@,
                }),
            ),
            final(self).sources@ == old(self).sources@.push(old(self).next as int),
            failures_track_sources(
                final(self).sources@,
                final(self).failures(),
                final(self).manifests(),
                old(self).next + 1,
            ),
    {
        let ghost prefix = self.failures.deep_view();
        let file = self.checksummed[self.next].definition.file.clone();
        self.failures.push(ManifestFailure { file, error });
        proof {
            self.sources@ = self.sources@.push(self.next as int);
            assert forall|j: int| 0 <= j < prefix.len() implies self.failures.deep_view()[j]
                == prefix[j] by {
                assert(self.failures@[j] == self.failures@.subrange(0, prefix.len() as int)[j]);
            }
            assert(self.checksummed.deep_view()[self.next as int]
                == self.checksummed@[self.next as int]@);
            assert(self.failures.deep_view() =~= prefix.push(
                ManifestFailureView {
                    file: self.checksummed.deep_view()[self.next as int].definition.file,
                    error: error@,
                },
            ));
            Self::lemma_record_extends_tracking(
                old(self).sources@,
                prefix,
                self.manifests(),
                self.next as int,
                ManifestFailureView {
                    file: self.checksummed.deep_view()[self.next as int].definition.file,
                    error: error@,
                },
            );
        }
    }

    /// Hands in the post-switch re-read of the current manifest's file
    /// and decides whether its install command must run.
    ///
    /// A failed re-read is recorded as that manifest's outcome and
    /// processing moves on: it never aborts the run. An unchanged digest
    /// settles the manifest with no action and no report entry. A changed
    /// digest asks the caller to run the manifest's install command
    /// (exactly once: the pipeline then awaits that command's outcome
    /// before anything else).
    pub fn on_refingerprint(&mut self, read: Result<Vec<u8>, String>) -> (install_needed: bool)
        requires
            old(self).wf(),
            old(self).awaiting_read(),
        ensures
            final(self).wf(),
            final(self).manifests() == old(self).manifests(),
            read matches Err(msg) ==> {
                &&& !install_needed
                &&& final(self).processing()
                &&& final(self).current_index() == old(self).current_index() + 1
                &&& final(self).failures() == old(self).failures().push(
                    (ManifestFailureView {
                        file: old(self).current_manifest().definition.file,
                        error: CommandErrorView::IoError(msg@),
                    }),
                )
                &&& final(self).failure_sources() == old(self).failure_sources().push(
                    old(self).current_index(),
                )
            },
            read matches Ok(bytes) ==> if sha1_hex_of(bytes@) == old(
                self,
            ).current_manifest().checksum_before_switch {
                &&& !install_needed
                &&& final(self).processing()
                &&& final(self).current_index() == old(self).current_index() + 1
                &&& final(self).failures() == old(self).failures()
                &&& final(self).failure_sources() == old(self).failure_sources()
            } else {
                &&& install_needed
                &&& final(self).awaiting_install()
                &&& final(self).current_index() == old(self).current_index()
                &&& final(self).failures() == old(self).failures()
                &&& final(self).failure_sources() == old(self).failure_sources()
            },
    {
        match read {
            Result::Err(msg) => {
                self.record_failure(CommandError::IoError(msg));
                self.next = self.next + 1;
                false
            },
            Result::Ok(bytes) => {
                proof {
                    assert(self.checksummed.deep_view()[self.next as int]
                        == self.checksummed@[self.next as int]@);
                }
                let entry = &self.checksummed[self.next];
                let changed = entry.update_needed(&bytes);
                if changed {
                    self.phase = Phase::AwaitingInstall;
                    true
                } else {
                    self.next = self.next + 1;
                    proof {
                        Self::lemma_tracking_weaken(
                            self.sources@,
                            self.failures(),
                            self.manifests(),
                            old(self).next as int,
                            self.next as int,
                        );
                    }
                    false
                }
            },
        }
    }

    /// Hands in the outcome of the install command requested for the
    /// current manifest. A failure becomes that manifest's report entry;
    /// either way processing moves to the next manifest.
    pub fn on_install_outcome(&mut self, outcome: Result<(), CommandError>)
        requires
            old(self).wf(),
            old(self).awaiting_install(),
        ensures
            final(self).wf(),
            final(self).manifests() == old(self).manifests(),
            final(self).processing(),
            final(self).current_index() == old(self).current_index() + 1,
            outcome is Ok ==> final(self).failures() == old(self).failures()
                && final(self).failure_sources() == old(self).failure_sources(),
            outcome matches Err(e) ==> final(self).failures() == old(self).failures().push(
                (ManifestFailureView {
                    file: old(self).current_manifest().definition.file,
                    error: e@,
                }),
            ) && final(self).failure_sources() == old(self).failure_sources().push(
                old(self).current_index(),
            ),
    {
        match outcome {
            Result::Ok(_) => {
                proof {
                    Self::lemma_tracking_weaken(
                        self.sources@,
                        self.failures(),
                        self.manifests(),
                        self.next as int,
                        self.next as int + 1,
                    );
                }
            },
            Result::Err(e) => {
                self.record_failure(e);
            },
        }
        self.phase = Phase::Updating;
        self.next = self.next + 1;
    }

    /// Takes the final report once every manifest is settled: the number
    /// of manifests processed and every failure, in processing order.
    pub fn report(self) -> (r: Report)
        requires
            self.wf(),
            self.complete(),
        ensures
            r.processed == self.manifests().len(),
            r.failures.deep_view() == self.failures(),
    {
        Report { processed: self.next, failures: self.failures }
    }
}

/// Fatal short-circuit: an aborted pipeline is terminal. It awaits no
/// switch outcome, no manifest read and no install outcome, and it never
/// completes, so after a failed switch no install command can ever be
/// requested.
pub proof fn lemma_aborted_is_terminal(p: Pipeline)
    requires
        p.aborted(),
    ensures
        !p.switch_pending(),
        !p.awaiting_read(),
        !p.awaiting_install(),
        !p.complete(),
{
}

} // verus!
