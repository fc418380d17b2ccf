//! Build jobs: what is built from what, and how a job is put to the builder
//! or to the batch scheduler.

use crate::docker::{DockerImage, ImageModel};
use crate::options::{Scheduler, SchedulerModel};
use crate::scan::ARTIFACT_SUFFIX;
use vstd::prelude::*;

verus! {

/// The executable that builds an artifact.
pub const BUILDER: &'static str = "singularity";

/// The executable that takes a job script on its standard input.
pub const SUBMITTER: &'static str = "sbatch";

/// The builder's subcommand.
pub const BUILD: &'static str = "build";

/// The builder's flag for overwriting an artifact that exists.
pub const FORCE_FLAG: &'static str = "-F";

/// Where a scheduled job writes its log. The scheduler puts the user's name
/// for `%u` and the job's number for `%j`.
pub const LOG_PATTERN: &'static str = "singularity-sync-%u-%j.out";

/// All that is needed to build one tag of an image.
#[derive(Debug, PartialEq, Eq)]
pub struct JobDescriptor {
    /// Where the artifact is written.
    pub artifact_path: String,
    /// What the artifact is built from.
    pub source_uri: String,
    /// The name under which the job is scheduled.
    pub label: String,
    /// Whether an artifact that exists is overwritten.
    pub force: bool,
}

/// A job, with texts in place of strings.
pub ghost struct JobModel {
    pub artifact_path: Seq<char>,
    pub source_uri: Seq<char>,
    pub label: Seq<char>,
    pub force: bool,
}

impl View for JobDescriptor {
    type V = JobModel;

    open spec fn view(&self) -> JobModel {
        JobModel {
            artifact_path: self.artifact_path@,
            source_uri: self.source_uri@,
            label: self.label@,
            force: self.force,
        }
    }
}

/// The directory that holds the artifacts of a repository:
/// `<directory>/<repository>`.
pub open spec fn target_directory(directory: Seq<char>, named: ImageModel) -> Seq<char> {
    directory + "/"@ + named.repository
}

/// The file name of the artifact of a tag: `<image>-<tag>.sif`.
pub open spec fn artifact_name(image: Seq<char>, tag: Seq<char>) -> Seq<char> {
    image + "-"@ + tag + ARTIFACT_SUFFIX@
}

/// The path of the artifact of a tag:
/// `<directory>/<repository>/<image>-<tag>.sif`.
pub open spec fn artifact_path(directory: Seq<char>, named: ImageModel, tag: Seq<char>) -> Seq<
    char,
> {
    target_directory(directory, named) + "/"@ + artifact_name(named.image, tag)
}

/// The source of a tag: `docker://<repository>/<image>:<tag>`.
pub open spec fn source_uri(named: ImageModel, tag: Seq<char>) -> Seq<char> {
    "docker://"@ + named.repository + "/"@ + named.image + ":"@ + tag
}

/// The name of the jobs of an image: `<repository>-<image>`.
pub open spec fn job_label(named: ImageModel) -> Seq<char> {
    named.repository + "-"@ + named.image
}

/// The job that builds `tag` of `named` below `directory`.
pub open spec fn describe(directory: Seq<char>, named: ImageModel, tag: Seq<char>, force: bool)
    -> JobModel {
    JobModel {
        artifact_path: artifact_path(directory, named, tag),
        source_uri: source_uri(named, tag),
        label: job_label(named),
        force,
    }
}

/// The force flag where the job overwrites, nothing where it does not.
pub open spec fn force_text(force: bool) -> Seq<char> {
    if force {
        FORCE_FLAG@
    } else {
        Seq::empty()
    }
}

/// The build as one line: the builder, its subcommand, the force flag or
/// nothing in its place, the artifact's path and the source, each parted
/// from the next by one blank.
pub open spec fn command_line(job: JobModel) -> Seq<char> {
    BUILDER@ + " "@ + BUILD@ + " "@ + force_text(job.force) + " "@ + job.artifact_path + " "@
        + job.source_uri
}

/// The arguments of the builder: the subcommand, the force flag where the
/// job overwrites, the artifact's path and the source.
pub open spec fn build_arguments(job: JobModel) -> Seq<Seq<char>> {
    if job.force {
        seq![BUILD@, FORCE_FLAG@, job.artifact_path, job.source_uri]
    } else {
        seq![BUILD@, job.artifact_path, job.source_uri]
    }
}

/// The script of a scheduled job: the scheduler's directives for the time
/// limit, the memory, the job's name and its log, the builder's cache and
/// temporary directories, and the build as one line.
pub open spec fn batch_script(job: JobModel, scheduler: SchedulerModel) -> Seq<char> {
    "#!/bin/bash\n"@ + "#SBATCH --time="@ + scheduler.time_limit + "\n"@ + "#SBATCH --mem="@
        + scheduler.memory + "\n"@ + "#SBATCH --job-name="@ + job.label + "\n"@
        + "#SBATCH --output="@ + LOG_PATTERN@ + "\n"@ + "export SINGULARITY_CACHEDIR="@
        + scheduler.cache_dir + "\n"@ + "export SINGULARITY_TMPDIR="@ + scheduler.tmp_dir + "\n"@
        + command_line(job) + "\n"@
}

/// The directory that holds the artifacts of the repository of `named`.
pub fn image_directory(directory: &str, named: &DockerImage) -> (path: String)
    ensures
        path@ == target_directory(directory@, named@),
{
    let mut path = String::from_str(directory);
    path.append("/");
    path.append(named.repository().as_str());
    path
}

impl JobDescriptor {
    /// The job that builds `tag` of `named` below `directory`.
    pub fn new(directory: &str, named: &DockerImage, tag: &str, force: bool) -> (job: JobDescriptor)
        ensures
            job@ == describe(directory@, named@, tag@, force),
    {
        let mut path = image_directory(directory, named);
        path.append("/");
        path.append(named.image().as_str());
        path.append("-");
        path.append(tag);
        path.append(ARTIFACT_SUFFIX);
        assert(path@ =~= artifact_path(directory@, named@, tag@));

        let mut uri = String::from_str("docker://");
        uri.append(named.repository().as_str());
        uri.append("/");
        uri.append(named.image().as_str());
        uri.append(":");
        uri.append(tag);

        let mut label = named.repository().clone();
        label.append("-");
        label.append(named.image().as_str());

        JobDescriptor { artifact_path: path, source_uri: uri, label, force }
    }

    /// The build as one line of text.
    pub fn command_line(&self) -> (line: String)
        ensures
            line@ == command_line(self@),
    {
        let mut line = String::from_str(BUILDER);
        line.append(" ");
        line.append(BUILD);
        line.append(" ");
        if self.force {
            line.append(FORCE_FLAG);
        }
        assert(line@ =~= BUILDER@ + " "@ + BUILD@ + " "@ + force_text(self.force));
        line.append(" ");
        line.append(self.artifact_path.as_str());
        line.append(" ");
        line.append(self.source_uri.as_str());
        line
    }

    /// The arguments to run the builder with.
    pub fn arguments(&self) -> (arguments: Vec<String>)
        ensures
            arguments.deep_view() == build_arguments(self@),
    {
        let mut arguments: Vec<String> = Vec::new();
        arguments.push(String::from_str(BUILD));
        if self.force {
            arguments.push(String::from_str(FORCE_FLAG));
        }
        arguments.push(self.artifact_path.clone());
        arguments.push(self.source_uri.clone());
        assert(arguments.deep_view() =~= build_arguments(self@));
        arguments
    }

    /// The script to submit to the batch scheduler.
    pub fn batch_script(&self, scheduler: &Scheduler) -> (script: String)
        ensures
            script@ == batch_script(self@, scheduler@),
    {
        let mut script = String::from_str("#!/bin/bash\n");
        script.append("#SBATCH --time=");
        script.append(scheduler.time_limit.as_str());
        script.append("\n");
        script.append("#SBATCH --mem=");
        script.append(scheduler.memory.as_str());
        script.append("\n");
        script.append("#SBATCH --job-name=");
        script.append(self.label.as_str());
        script.append("\n");
        script.append("#SBATCH --output=");
        script.append(LOG_PATTERN);
        script.append("\n");
        script.append("export SINGULARITY_CACHEDIR=");
        script.append(scheduler.cache_dir.as_str());
        script.append("\n");
        script.append("export SINGULARITY_TMPDIR=");
        script.append(scheduler.tmp_dir.as_str());
        script.append("\n");
        let line = self.command_line();
        script.append(line.as_str());
        script.append("\n");
        script
    }
}

} // verus!
