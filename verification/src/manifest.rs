//! The sync of a whole manifest: one image after the other, in the order of
//! the manifest.

use crate::docker::{reference_parts, DockerImage, ImageModel};
use crate::error::{copy_outcome, outcome_model, Failure, FailureModel, SyncError};
use crate::job::image_directory;
use crate::options::{Options, OptionsModel};
use crate::sync::{
    advance, advance_model, begin, Event, EventModel, Phase, PhaseModel, Request, RequestModel,
};
use vstd::prelude::*;

verus! {

/// The images to sync, each as a reference of the form `repository/image`.
#[derive(Debug, PartialEq, Eq)]
pub struct Manifest {
    pub docker: Vec<String>,
}

impl View for Manifest {
    type V = Seq<Seq<char>>;

    open spec fn view(&self) -> Seq<Seq<char>> {
        self.docker.deep_view()
    }
}

/// What a run is busy with.
#[derive(Debug)]
pub enum Progress {
    /// The image at the run's position is being synced.
    Syncing { named: DockerImage, phase: Phase },
    /// The run is over.
    Ended { outcome: Result<(), Failure> },
}

/// What a run is busy with, with texts in place of strings.
pub ghost enum ProgressModel {
    Syncing { named: ImageModel, phase: PhaseModel },
    Ended { outcome: Result<(), FailureModel> },
}

impl View for Progress {
    type V = ProgressModel;

    open spec fn view(&self) -> ProgressModel {
        match self {
            Progress::Syncing { named, phase } => ProgressModel::Syncing {
                named: named@,
                phase: phase@,
            },
            Progress::Ended { outcome } => ProgressModel::Ended {
                outcome: outcome_model(*outcome),
            },
        }
    }
}

/// A run over a manifest: `position` images are behind it, of which
/// `skipped` failed and were passed over.
pub ghost struct RunModel {
    pub directory: Seq<char>,
    pub manifest: Seq<Seq<char>>,
    pub options: OptionsModel,
    pub position: nat,
    pub skipped: nat,
    pub progress: ProgressModel,
}

impl RunModel {
    /// The run ends at `position` with `outcome`.
    pub open spec fn end_at(
        directory: Seq<char>,
        manifest: Seq<Seq<char>>,
        options: OptionsModel,
        position: nat,
        skipped: nat,
        outcome: Result<(), FailureModel>,
    ) -> (RunModel, RequestModel) {
        (
            RunModel {
                directory,
                manifest,
                options,
                position,
                skipped,
                progress: ProgressModel::Ended { outcome },
            },
            RequestModel::Finish { outcome },
        )
    }

    /// The run turns to the image at `position`. Past the last image it
    /// ends with success. A reference that names no image is a failure of
    /// that image: it is passed over where errors are skipped, and ends the
    /// run, with a failure that names the reference, where they are not.
    pub open spec fn start_at(
        directory: Seq<char>,
        manifest: Seq<Seq<char>>,
        options: OptionsModel,
        position: nat,
        skipped: nat,
    ) -> (RunModel, RequestModel)
        decreases manifest.len() - position,
    {
        if position >= manifest.len() {
            RunModel::end_at(directory, manifest, options, position, skipped, Ok(()))
        } else {
            match reference_parts(manifest[position as int]) {
                Some(named) => (
                    RunModel {
                        directory,
                        manifest,
                        options,
                        position,
                        skipped,
                        progress: ProgressModel::Syncing {
                            named,
                            phase: begin(named, directory).0,
                        },
                    },
                    begin(named, directory).1,
                ),
                None => if options.skip_errors {
                    RunModel::start_at(directory, manifest, options, position + 1, skipped + 1)
                } else {
                    RunModel::end_at(
                        directory,
                        manifest,
                        options,
                        position,
                        skipped,
                        Err(
                            FailureModel {
                                error: SyncError::MalformedReference,
                                subject: manifest[position as int],
                            },
                        ),
                    )
                },
            }
        }
    }

    /// The run before its first event, and the request that it starts with.
    pub open spec fn start(directory: Seq<char>, manifest: Seq<Seq<char>>, options: OptionsModel)
        -> (RunModel, RequestModel) {
        RunModel::start_at(directory, manifest, options, 0, 0)
    }

    /// The run after `event`, and the request that it then makes. While an
    /// image is being synced the event goes to that sync. When it ends with
    /// success the run turns to the next image. When it ends with an error
    /// the run turns to the next image where errors are skipped, and ends
    /// with that error where they are not.
    pub open spec fn step(self, event: EventModel) -> (RunModel, RequestModel) {
        match self.progress {
            ProgressModel::Ended { outcome } => (self, RequestModel::Finish { outcome }),
            ProgressModel::Syncing { named, phase } => {
                let (phase, request) = advance_model(
                    named,
                    self.directory,
                    self.options,
                    phase,
                    event,
                );
                match phase {
                    PhaseModel::Finished { outcome: Ok(_) } => RunModel::start_at(
                        self.directory,
                        self.manifest,
                        self.options,
                        self.position + 1,
                        self.skipped,
                    ),
                    PhaseModel::Finished { outcome: Err(failure) } => if self.options.skip_errors {
                        RunModel::start_at(
                            self.directory,
                            self.manifest,
                            self.options,
                            self.position + 1,
                            self.skipped + 1,
                        )
                    } else {
                        RunModel::end_at(
                            self.directory,
                            self.manifest,
                            self.options,
                            self.position,
                            self.skipped,
                            Err(failure),
                        )
                    },
                    _ => (
                        RunModel { progress: ProgressModel::Syncing { named, phase }, ..self },
                        request,
                    ),
                }
            },
        }
    }
}

/// The sync of a manifest, in progress or over.
#[derive(Debug)]
pub struct ManifestSync<'a> {
    directory: &'a str,
    manifest: &'a Manifest,
    options: &'a Options,
    position: usize,
    skipped: usize,
    progress: Progress,
}

impl<'a> View for ManifestSync<'a> {
    type V = RunModel;

    closed spec fn view(&self) -> RunModel {
        RunModel {
            directory: self.directory@,
            manifest: self.manifest@,
            options: self.options@,
            position: self.position as nat,
            skipped: self.skipped as nat,
            progress: self.progress@,
        }
    }
}

impl<'a> ManifestSync<'a> {
    #[verifier::type_invariant]
    spec fn within_manifest(&self) -> bool {
        &&& self.skipped <= self.position <= self.manifest.docker.len()
        &&& self.progress is Syncing ==> self.position < self.manifest.docker.len()
    }

    fn start_at(
        directory: &'a str,
        manifest: &'a Manifest,
        options: &'a Options,
        position: usize,
        skipped: usize,
    ) -> (started: (ManifestSync<'a>, Request))
        requires
            skipped <= position <= manifest.docker.len(),
        ensures
            (started.0@, started.1@) == RunModel::start_at(
                directory@,
                manifest@,
                options@,
                position as nat,
                skipped as nat,
            ),
            !started.1@.changes_the_world(),
    {
        let mut at: usize = position;
        let mut passed: usize = skipped;
        while at < manifest.docker.len()
            invariant
                passed <= at <= manifest.docker.len(),
                RunModel::start_at(directory@, manifest@, options@, at as nat, passed as nat)
                    == RunModel::start_at(
                    directory@,
                    manifest@,
                    options@,
                    position as nat,
                    skipped as nat,
                ),
            decreases manifest.docker.len() - at,
        {
            assert(manifest@[at as int] == manifest.docker[at as int]@);
            match DockerImage::parse(manifest.docker[at].as_str()) {
                Ok(named) => {
                    let request = Request::Probe { directory: image_directory(directory, &named) };
                    return (
                        ManifestSync {
                            directory,
                            manifest,
                            options,
                            position: at,
                            skipped: passed,
                            progress: Progress::Syncing { named, phase: Phase::Probing },
                        },
                        request,
                    );
                },
                Err(error) => {
                    if !options.skip_errors {
                        let failure = Failure { error, subject: manifest.docker[at].clone() };
                        let copy = failure.duplicate();
                        return (
                            ManifestSync {
                                directory,
                                manifest,
                                options,
                                position: at,
                                skipped: passed,
                                progress: Progress::Ended { outcome: Err(failure) },
                            },
                            Request::Finish { outcome: Err(copy) },
                        );
                    }
                    at = at + 1;
                    passed = passed + 1;
                },
            }
        }
        (
            ManifestSync {
                directory,
                manifest,
                options,
                position: at,
                skipped: passed,
                progress: Progress::Ended { outcome: Ok(()) },
            },
            Request::Finish { outcome: Ok(()) },
        )
    }

    /// Takes the event that answers the pending request, and makes the next
    /// request. A dry run never asks for anything that changes the world.
    pub fn step(self, event: Event) -> (next: (ManifestSync<'a>, Request))
        ensures
            (next.0@, next.1@) == self@.step(event@),
            self@.options.dry_run ==> !next.1@.changes_the_world(),
    {
        proof {
            use_type_invariant(&self);
        }
        let directory = self.directory;
        let manifest = self.manifest;
        let options = self.options;
        let position = self.position;
        let skipped = self.skipped;
        match self.progress {
            Progress::Ended { outcome } => {
                let copy = copy_outcome(&outcome);
                (
                    ManifestSync {
                        directory,
                        manifest,
                        options,
                        position,
                        skipped,
                        progress: Progress::Ended { outcome },
                    },
                    Request::Finish { outcome: copy },
                )
            },
            Progress::Syncing { named, phase } => {
                let (phase, request) = advance(&named, directory, options, phase, event);
                match phase {
                    Phase::Finished { outcome: Ok(_) } => ManifestSync::start_at(
                        directory,
                        manifest,
                        options,
                        position + 1,
                        skipped,
                    ),
                    Phase::Finished { outcome: Err(failure) } => {
                        if options.skip_errors {
                            ManifestSync::start_at(
                                directory,
                                manifest,
                                options,
                                position + 1,
                                skipped + 1,
                            )
                        } else {
                            (
                                ManifestSync {
                                    directory,
                                    manifest,
                                    options,
                                    position,
                                    skipped,
                                    progress: Progress::Ended { outcome: Err(failure) },
                                },
                                request,
                            )
                        }
                    },
                    _ => (
                        ManifestSync {
                            directory,
                            manifest,
                            options,
                            position,
                            skipped,
                            progress: Progress::Syncing { named, phase },
                        },
                        request,
                    ),
                }
            },
        }
    }

    /// How many images the run has behind it.
    pub fn position(&self) -> (position: usize)
        ensures
            position == self@.position,
            self@.skipped <= position <= self@.manifest.len(),
    {
        proof {
            use_type_invariant(self);
        }
        self.position
    }

    /// How many images failed and were passed over.
    pub fn skipped(&self) -> (skipped: usize)
        ensures
            skipped == self@.skipped,
    {
        self.skipped
    }

    /// The outcome of the run, once it is over.
    pub fn outcome(&self) -> (outcome: Option<Result<(), Failure>>)
        ensures
            match outcome {
                Some(ended) => self@.progress == (ProgressModel::Ended {
                    outcome: outcome_model(ended),
                }),
                None => !(self@.progress is Ended),
            },
    {
        match &self.progress {
            Progress::Ended { outcome } => Some(copy_outcome(outcome)),
            _ => None,
        }
    }
}

/// Starts the sync of every image of `manifest` below `directory`, in the
/// order of the manifest.
pub fn sync_manifest<'a>(
    directory: &'a str,
    manifest: &'a Manifest,
    options: &'a Options,
) -> (started: (ManifestSync<'a>, Request))
    ensures
        (started.0@, started.1@) == RunModel::start(directory@, manifest@, options@),
        options.dry_run ==> !started.1@.changes_the_world(),
{
    ManifestSync::start_at(directory, manifest, options, 0, 0)
}

} // verus!
