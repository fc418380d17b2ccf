//! The sync of one image, as a machine that is stepped from outside.
//!
//! The machine decides and never acts. Each step hands back a request: a
//! directory to probe, create or list, a page of tags to fetch, a job to
//! print, run or submit. Whoever drives the machine carries the request out
//! and steps the machine with the event that says how it went, until the
//! request is to finish.

use crate::docker::{reference_parts, DockerImage, ImageModel};
use crate::error::{copy_outcome, outcome_model, Failure, FailureModel, SyncError};
use crate::job::{
    batch_script, build_arguments, command_line, describe, image_directory, target_directory,
    JobDescriptor, BUILDER, SUBMITTER,
};
use crate::options::{Options, OptionsModel};
use crate::registry::{
    bootstrap, bootstrap_tags, candidates, tags_after_timestamp, tags_url, tags_url_model,
    PageModel, TagPage,
};
use crate::scan::{high_water_mark, latest_sync_timestamp, DirEntry, EntryModel};
use crate::timestamp::Timestamp;
use vstd::prelude::*;

verus! {

/// What came of the request that the machine made last.
#[derive(Debug, PartialEq, Eq)]
pub enum Event {
    /// The probed directory exists, or does not.
    Directory { exists: bool },
    /// The listed directory holds these entries.
    Listing { entries: Vec<DirEntry> },
    /// The registry answered with this page.
    Page { page: TagPage },
    /// The directory was created, or the job was printed, run with success
    /// or accepted by the scheduler.
    Completed,
    /// The request could not be carried out, or the process that it started
    /// reported failure.
    Failed,
}

/// An event, with texts in place of strings.
pub ghost enum EventModel {
    Directory { exists: bool },
    Listing { entries: Seq<EntryModel> },
    Page { page: PageModel },
    Completed,
    Failed,
}

impl View for Event {
    type V = EventModel;

    open spec fn view(&self) -> EventModel {
        match self {
            Event::Directory { exists } => EventModel::Directory { exists: *exists },
            Event::Listing { entries } => EventModel::Listing { entries: entries.deep_view() },
            Event::Page { page } => EventModel::Page { page: page@ },
            Event::Completed => EventModel::Completed,
            Event::Failed => EventModel::Failed,
        }
    }
}

/// What the machine asks its driver to do next.
#[derive(Debug, PartialEq, Eq)]
pub enum Request {
    /// Find out whether the directory exists.
    Probe { directory: String },
    /// Create the directory.
    Create { directory: String },
    /// List the directory.
    List { directory: String },
    /// Fetch the page of tags at this address.
    Fetch { url: String },
    /// Print this text to standard output.
    Print { text: String },
    /// Run the program with these arguments and wait for it to end.
    Run { program: String, arguments: Vec<String> },
    /// Start the program and hand it the script on its standard input.
    Submit { program: String, script: String },
    /// Nothing is left to do.
    Finish { outcome: Result<(), Failure> },
}

/// A request, with texts in place of strings.
pub ghost enum RequestModel {
    Probe { directory: Seq<char> },
    Create { directory: Seq<char> },
    List { directory: Seq<char> },
    Fetch { url: Seq<char> },
    Print { text: Seq<char> },
    Run { program: Seq<char>, arguments: Seq<Seq<char>> },
    Submit { program: Seq<char>, script: Seq<char> },
    Finish { outcome: Result<(), FailureModel> },
}

impl RequestModel {
    /// The request writes to the file system or starts a process.
    pub open spec fn changes_the_world(self) -> bool {
        self is Create || self is Run || self is Submit
    }
}

impl View for Request {
    type V = RequestModel;

    open spec fn view(&self) -> RequestModel {
        match self {
            Request::Probe { directory } => RequestModel::Probe { directory: directory@ },
            Request::Create { directory } => RequestModel::Create { directory: directory@ },
            Request::List { directory } => RequestModel::List { directory: directory@ },
            Request::Fetch { url } => RequestModel::Fetch { url: url@ },
            Request::Print { text } => RequestModel::Print { text: text@ },
            Request::Run { program, arguments } => RequestModel::Run {
                program: program@,
                arguments: arguments.deep_view(),
            },
            Request::Submit { program, script } => RequestModel::Submit {
                program: program@,
                script: script@,
            },
            Request::Finish { outcome } => RequestModel::Finish {
                outcome: outcome_model(*outcome),
            },
        }
    }
}

impl Request {
    /// Whether the request writes to the file system or starts a process.
    pub fn changes_the_world(&self) -> (changes: bool)
        ensures
            changes == self@.changes_the_world(),
    {
        match self {
            Request::Create { .. } => true,
            Request::Run { .. } => true,
            Request::Submit { .. } => true,
            _ => false,
        }
    }
}

/// Where the sync of an image stands.
#[derive(Debug, PartialEq, Eq)]
pub enum Phase {
    /// Asked whether the target directory exists.
    Probing,
    /// Asked for the target directory to be created.
    Creating,
    /// Asked for the target directory's entries.
    Listing,
    /// Asked for the page of tags at `url`; `selected` holds the candidates
    /// of the pages before it.
    Fetching { mark: Timestamp, selected: Vec<String>, url: String },
    /// Asked for the job of `tags[next]`.
    Dispatching { tags: Vec<String>, next: usize },
    /// Over.
    Finished { outcome: Result<(), Failure> },
}

/// A phase, with texts in place of strings.
pub ghost enum PhaseModel {
    Probing,
    Creating,
    Listing,
    Fetching { mark: Timestamp, selected: Seq<Seq<char>>, url: Seq<char> },
    Dispatching { tags: Seq<Seq<char>>, next: nat },
    Finished { outcome: Result<(), FailureModel> },
}

impl View for Phase {
    type V = PhaseModel;

    open spec fn view(&self) -> PhaseModel {
        match self {
            Phase::Probing => PhaseModel::Probing,
            Phase::Creating => PhaseModel::Creating,
            Phase::Listing => PhaseModel::Listing,
            Phase::Fetching { mark, selected, url } => PhaseModel::Fetching {
                mark: *mark,
                selected: selected.deep_view(),
                url: url@,
            },
            Phase::Dispatching { tags, next } => PhaseModel::Dispatching {
                tags: tags.deep_view(),
                next: *next as nat,
            },
            Phase::Finished { outcome } => PhaseModel::Finished {
                outcome: outcome_model(*outcome),
            },
        }
    }
}

/// The sync ends here, with this outcome.
pub open spec fn finish(outcome: Result<(), FailureModel>) -> (PhaseModel, RequestModel) {
    (PhaseModel::Finished { outcome }, RequestModel::Finish { outcome })
}

/// The sync ends here, with this error about this subject.
pub open spec fn fail(error: SyncError, subject: Seq<char>) -> (PhaseModel, RequestModel) {
    finish(Err(FailureModel { error, subject }))
}

/// What the pending request is about: the target directory while it is
/// probed, created or listed, the address while a page is fetched, the
/// build as one line while a job is pending.
pub open spec fn pending_subject(
    named: ImageModel,
    directory: Seq<char>,
    options: OptionsModel,
    phase: PhaseModel,
) -> Seq<char> {
    match phase {
        PhaseModel::Probing => target_directory(directory, named),
        PhaseModel::Creating => target_directory(directory, named),
        PhaseModel::Listing => target_directory(directory, named),
        PhaseModel::Fetching { url, .. } => url,
        PhaseModel::Dispatching { tags, next } => if next < tags.len() {
            command_line(describe(directory, named, tags[next as int], options.force))
        } else {
            Seq::empty()
        },
        PhaseModel::Finished { .. } => Seq::empty(),
    }
}

/// The first step of every sync: probe the target directory.
pub open spec fn begin(named: ImageModel, directory: Seq<char>) -> (PhaseModel, RequestModel) {
    (PhaseModel::Probing, RequestModel::Probe { directory: target_directory(directory, named) })
}

/// With the mark known, ask for the first page of tags.
pub open spec fn fetch_first(named: ImageModel, mark: Timestamp) -> (PhaseModel, RequestModel) {
    (
        PhaseModel::Fetching { mark, selected: Seq::empty(), url: tags_url_model(named) },
        RequestModel::Fetch { url: tags_url_model(named) },
    )
}

/// The request for the job of one tag. A dry run prints what would be run
/// or submitted; a scheduled run submits the script; a direct run runs the
/// builder.
pub open spec fn job_request(
    named: ImageModel,
    directory: Seq<char>,
    options: OptionsModel,
    tag: Seq<char>,
) -> RequestModel {
    let job = describe(directory, named, tag, options.force);
    if options.dry_run {
        RequestModel::Print {
            text: if options.parallelize {
                batch_script(job, options.scheduler)
            } else {
                command_line(job)
            },
        }
    } else if options.parallelize {
        RequestModel::Submit { program: SUBMITTER@, script: batch_script(job, options.scheduler) }
    } else {
        RequestModel::Run { program: BUILDER@, arguments: build_arguments(job) }
    }
}

/// Ask for the job of `tags[next]`, or finish with success once every tag
/// has had its job.
pub open spec fn dispatch(
    named: ImageModel,
    directory: Seq<char>,
    options: OptionsModel,
    tags: Seq<Seq<char>>,
    next: nat,
) -> (PhaseModel, RequestModel) {
    if next < tags.len() {
        (
            PhaseModel::Dispatching { tags, next },
            job_request(named, directory, options, tags[next as int]),
        )
    } else {
        finish(Ok(()))
    }
}

/// One step of the sync of `named`: the phase that follows `phase` on
/// `event`, and the request that goes with it.
///
/// An absent target directory ends the sync unless `force` is set; with
/// `force` it is created, except in a dry run, which goes on as if the
/// directory were there and empty. The listing gives the high-water mark.
/// Each page adds its candidates to those selected so far, and the page
/// without a successor closes the list, which the bootstrap cap then cuts.
/// The tags get their jobs one after the other, and the first failure ends
/// the sync. An event that does not answer the pending request ends it too.
/// Every error comes with what the pending request was about.
pub open spec fn advance_model(
    named: ImageModel,
    directory: Seq<char>,
    options: OptionsModel,
    phase: PhaseModel,
    event: EventModel,
) -> (PhaseModel, RequestModel) {
    let subject = pending_subject(named, directory, options, phase);
    match phase {
        PhaseModel::Probing => match event {
            EventModel::Directory { exists } => if exists {
                (
                    PhaseModel::Listing,
                    RequestModel::List { directory: target_directory(directory, named) },
                )
            } else if !options.force {
                fail(SyncError::MissingDirectory, subject)
            } else if options.dry_run {
                fetch_first(named, Timestamp::spec_epoch())
            } else {
                (
                    PhaseModel::Creating,
                    RequestModel::Create { directory: target_directory(directory, named) },
                )
            },
            _ => fail(SyncError::UnexpectedEvent, subject),
        },
        PhaseModel::Creating => match event {
            EventModel::Completed => (
                PhaseModel::Listing,
                RequestModel::List { directory: target_directory(directory, named) },
            ),
            EventModel::Failed => fail(SyncError::DirectoryNotCreated, subject),
            _ => fail(SyncError::UnexpectedEvent, subject),
        },
        PhaseModel::Listing => match event {
            EventModel::Listing { entries } => fetch_first(
                named,
                high_water_mark(entries, named.image),
            ),
            EventModel::Failed => fail(SyncError::ScanFailed, subject),
            _ => fail(SyncError::UnexpectedEvent, subject),
        },
        PhaseModel::Fetching { mark, selected, url } => match event {
            EventModel::Page { page } => {
                let found = selected + candidates(page.results, mark, options.banned_tags);
                match page.next {
                    Some(next) => (
                        PhaseModel::Fetching { mark, selected: found, url: next },
                        RequestModel::Fetch { url: next },
                    ),
                    None => dispatch(
                        named,
                        directory,
                        options,
                        bootstrap(found, mark, options.first_sync),
                        0,
                    ),
                }
            },
            EventModel::Failed => fail(SyncError::RegistryFailed, subject),
            _ => fail(SyncError::UnexpectedEvent, subject),
        },
        PhaseModel::Dispatching { tags, next } => match event {
            EventModel::Completed => dispatch(named, directory, options, tags, next + 1),
            EventModel::Failed => fail(SyncError::JobFailed, subject),
            _ => fail(SyncError::UnexpectedEvent, subject),
        },
        PhaseModel::Finished { outcome } => finish(outcome),
    }
}

fn finished(outcome: Result<(), Failure>) -> (ended: (Phase, Request))
    ensures
        (ended.0@, ended.1@) == finish(outcome_model(outcome)),
{
    let copy = copy_outcome(&outcome);
    (Phase::Finished { outcome }, Request::Finish { outcome: copy })
}

fn failed(error: SyncError, subject: String) -> (ended: (Phase, Request))
    ensures
        (ended.0@, ended.1@) == fail(error, subject@),
{
    finished(Err(Failure { error, subject }))
}

fn first_fetch(named: &DockerImage, mark: Timestamp) -> (asked: (Phase, Request))
    ensures
        (asked.0@, asked.1@) == fetch_first(named@, mark),
{
    let selected: Vec<String> = Vec::new();
    assert(selected.deep_view() =~= Seq::<Seq<char>>::empty());
    let url = tags_url(named);
    (Phase::Fetching { mark, selected, url: url.clone() }, Request::Fetch { url })
}

/// The request for the job of `tag`.
pub fn request_job(named: &DockerImage, directory: &str, options: &Options, tag: &str) -> (request:
    Request)
    ensures
        request@ == job_request(named@, directory@, options@, tag@),
        options.dry_run ==> !request@.changes_the_world(),
{
    let job = JobDescriptor::new(directory, named, tag, options.force);
    if options.dry_run {
        if options.parallelize {
            Request::Print { text: job.batch_script(&options.scheduler) }
        } else {
            Request::Print { text: job.command_line() }
        }
    } else if options.parallelize {
        Request::Submit {
            program: String::from_str(SUBMITTER),
            script: job.batch_script(&options.scheduler),
        }
    } else {
        Request::Run { program: String::from_str(BUILDER), arguments: job.arguments() }
    }
}

fn dispatch_from(
    named: &DockerImage,
    directory: &str,
    options: &Options,
    tags: Vec<String>,
    next: usize,
) -> (asked: (Phase, Request))
    ensures
        (asked.0@, asked.1@) == dispatch(
            named@,
            directory@,
            options@,
            tags.deep_view(),
            next as nat,
        ),
{
    if next < tags.len() {
        let request = request_job(named, directory, options, tags[next].as_str());
        (Phase::Dispatching { tags, next }, request)
    } else {
        finished(Ok(()))
    }
}

fn pending_job(
    named: &DockerImage,
    directory: &str,
    options: &Options,
    tags: &Vec<String>,
    next: usize,
) -> (line: String)
    ensures
        line@ == pending_subject(
            named@,
            directory@,
            options@,
            PhaseModel::Dispatching { tags: tags.deep_view(), next: next as nat },
        ),
{
    if next < tags.len() {
        JobDescriptor::new(directory, named, tags[next].as_str(), options.force).command_line()
    } else {
        String::new()
    }
}

/// One step of the sync of `named`.
pub fn advance(
    named: &DockerImage,
    directory: &str,
    options: &Options,
    phase: Phase,
    event: Event,
) -> (next: (Phase, Request))
    ensures
        (next.0@, next.1@) == advance_model(named@, directory@, options@, phase@, event@),
{
    match phase {
        Phase::Probing => match event {
            Event::Directory { exists } => {
                if exists {
                    (Phase::Listing, Request::List { directory: image_directory(directory, named) })
                } else if !options.force {
                    failed(SyncError::MissingDirectory, image_directory(directory, named))
                } else if options.dry_run {
                    first_fetch(named, Timestamp::epoch())
                } else {
                    (
                        Phase::Creating,
                        Request::Create { directory: image_directory(directory, named) },
                    )
                }
            },
            _ => failed(SyncError::UnexpectedEvent, image_directory(directory, named)),
        },
        Phase::Creating => match event {
            Event::Completed => (
                Phase::Listing,
                Request::List { directory: image_directory(directory, named) },
            ),
            Event::Failed => failed(
                SyncError::DirectoryNotCreated,
                image_directory(directory, named),
            ),
            _ => failed(SyncError::UnexpectedEvent, image_directory(directory, named)),
        },
        Phase::Listing => match event {
            Event::Listing { entries } => {
                let mark = latest_sync_timestamp(&entries, named.image().as_str());
                first_fetch(named, mark)
            },
            Event::Failed => failed(SyncError::ScanFailed, image_directory(directory, named)),
            _ => failed(SyncError::UnexpectedEvent, image_directory(directory, named)),
        },
        Phase::Fetching { mark, selected, url } => match event {
            Event::Page { page } => {
                let mut found = selected;
                let mut fresh = tags_after_timestamp(&page.results, mark, &options.banned_tags);
                let ghost fresh_names = fresh.deep_view();
                found.append(&mut fresh);
                assert(found.deep_view() =~= selected.deep_view() + fresh_names);
                match page.next {
                    Some(next) => (
                        Phase::Fetching { mark, selected: found, url: next.clone() },
                        Request::Fetch { url: next },
                    ),
                    None => {
                        let tags = bootstrap_tags(found, mark, options.first_sync);
                        dispatch_from(named, directory, options, tags, 0)
                    },
                }
            },
            Event::Failed => failed(SyncError::RegistryFailed, url),
            _ => failed(SyncError::UnexpectedEvent, url),
        },
        Phase::Dispatching { tags, next } => match event {
            Event::Completed => {
                if next < tags.len() {
                    dispatch_from(named, directory, options, tags, next + 1)
                } else {
                    finished(Ok(()))
                }
            },
            Event::Failed => failed(
                SyncError::JobFailed,
                pending_job(named, directory, options, &tags, next),
            ),
            _ => failed(
                SyncError::UnexpectedEvent,
                pending_job(named, directory, options, &tags, next),
            ),
        },
        Phase::Finished { outcome } => finished(outcome),
    }
}

/// The sync of one image, in progress or over.
#[derive(Debug)]
pub struct ImageSync<'a> {
    named: DockerImage,
    directory: &'a str,
    options: &'a Options,
    phase: Phase,
}

/// The sync of one image: what is synced, where, how, and how far it is.
pub ghost struct ImageSyncModel {
    pub named: ImageModel,
    pub directory: Seq<char>,
    pub options: OptionsModel,
    pub phase: PhaseModel,
}

impl ImageSyncModel {
    /// The sync of `named` below `directory`, before its first event, and
    /// the request that it starts with.
    pub open spec fn start(named: ImageModel, directory: Seq<char>, options: OptionsModel) -> (
        ImageSyncModel,
        RequestModel,
    ) {
        (
            ImageSyncModel { named, directory, options, phase: begin(named, directory).0 },
            begin(named, directory).1,
        )
    }

    /// The sync after `event`, and the request that it then makes.
    pub open spec fn step(self, event: EventModel) -> (ImageSyncModel, RequestModel) {
        let (phase, request) = advance_model(
            self.named,
            self.directory,
            self.options,
            self.phase,
            event,
        );
        (ImageSyncModel { phase, ..self }, request)
    }

    /// The sync after each of `events` in turn.
    pub open spec fn run(self, events: Seq<EventModel>) -> ImageSyncModel
        decreases events.len(),
    {
        if events.len() == 0 {
            self
        } else {
            self.run(events.drop_last()).step(events.last()).0
        }
    }
}

impl<'a> View for ImageSync<'a> {
    type V = ImageSyncModel;

    closed spec fn view(&self) -> ImageSyncModel {
        ImageSyncModel {
            named: self.named@,
            directory: self.directory@,
            options: self.options@,
            phase: self.phase@,
        }
    }
}

impl<'a> ImageSync<'a> {
    /// Starts the sync of `named` below `directory`.
    pub fn start(named: DockerImage, directory: &'a str, options: &'a Options) -> (started: (
        ImageSync<'a>,
        Request,
    ))
        ensures
            (started.0@, started.1@) == ImageSyncModel::start(named@, directory@, options@),
    {
        let request = Request::Probe { directory: image_directory(directory, &named) };
        (ImageSync { named, directory, options, phase: Phase::Probing }, request)
    }

    /// Takes the event that answers the pending request, and makes the next
    /// request. A dry run never asks for anything that changes the world.
    pub fn step(self, event: Event) -> (next: (ImageSync<'a>, Request))
        ensures
            (next.0@, next.1@) == self@.step(event@),
            self@.options.dry_run ==> !next.1@.changes_the_world(),
    {
        let directory = self.directory;
        let options = self.options;
        let (phase, request) = advance(&self.named, directory, options, self.phase, event);
        (ImageSync { named: self.named, directory, options, phase }, request)
    }

    /// The outcome of the sync, once it is over.
    pub fn outcome(&self) -> (outcome: Option<Result<(), Failure>>)
        ensures
            match outcome {
                Some(ended) => self@.phase == (PhaseModel::Finished {
                    outcome: outcome_model(ended),
                }),
                None => !(self@.phase is Finished),
            },
    {
        match &self.phase {
            Phase::Finished { outcome } => Some(copy_outcome(outcome)),
            _ => None,
        }
    }

    /// The directory that holds the artifacts of the image.
    pub fn target(&self) -> (path: String)
        ensures
            path@ == target_directory(self@.directory, self@.named),
    {
        image_directory(self.directory, &self.named)
    }
}

/// Starts the sync of the image that `image` names. A reference that names
/// no image is refused, and the failure names the reference.
pub fn sync_docker_image<'a>(image: &str, directory: &'a str, options: &'a Options) -> (started:
    Result<(ImageSync<'a>, Request), Failure>)
    ensures
        match started {
            Ok((machine, request)) => reference_parts(image@) is Some && (machine@, request@)
                == ImageSyncModel::start(reference_parts(image@).unwrap(), directory@, options@),
            Err(failure) => failure@ == (FailureModel {
                error: SyncError::MalformedReference,
                subject: image@,
            }) && reference_parts(image@) is None,
        },
{
    match DockerImage::parse(image) {
        Ok(named) => Ok(ImageSync::start(named, directory, options)),
        Err(error) => Err(Failure { error, subject: String::from_str(image) }),
    }
}

} // verus!
