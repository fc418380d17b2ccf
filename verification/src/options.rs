//! The configuration of a sync run. It is resolved once, before the run,
//! and read by every step of it.

use vstd::prelude::*;

verus! {

/// How many tags the first sync of an image builds unless told otherwise.
pub const DEFAULT_FIRST_SYNC: usize = 5;

/// The memory a scheduled job asks for unless told otherwise.
pub const DEFAULT_MEMORY: &'static str = "8G";

/// The wall-clock limit of a scheduled job unless told otherwise.
pub const DEFAULT_TIME_LIMIT: &'static str = "8:00:00";

/// The builder's cache directory in a scheduled job unless told otherwise.
pub const DEFAULT_CACHE_DIR: &'static str = "${HOME}/scratch/singularity";

/// The builder's temporary directory in a scheduled job unless told otherwise.
pub const DEFAULT_TMP_DIR: &'static str = "${HOME}/scratch/tmp";

/// The environment variable that overrides the memory of a scheduled job.
pub const MEMORY_VARIABLE: &'static str = "SINGULARITY_SYNC_MEM";

/// The environment variable that overrides the time limit of a scheduled job.
pub const TIME_LIMIT_VARIABLE: &'static str = "SINGULARITY_SYNC_TIME";

/// The environment variable that overrides the builder's cache directory.
pub const CACHE_DIR_VARIABLE: &'static str = "SINGULARITY_CACHEDIR";

/// The environment variable that overrides the builder's temporary directory.
pub const TMP_DIR_VARIABLE: &'static str = "SINGULARITY_TMPDIR";

/// What a scheduled job asks of the batch scheduler, and where the builder
/// keeps its files while the job runs.
#[derive(Debug, PartialEq, Eq)]
pub struct Scheduler {
    pub memory: String,
    pub time_limit: String,
    pub cache_dir: String,
    pub tmp_dir: String,
}

/// The scheduler settings as texts.
pub ghost struct SchedulerModel {
    pub memory: Seq<char>,
    pub time_limit: Seq<char>,
    pub cache_dir: Seq<char>,
    pub tmp_dir: Seq<char>,
}

impl View for Scheduler {
    type V = SchedulerModel;

    open spec fn view(&self) -> SchedulerModel {
        SchedulerModel {
            memory: self.memory@,
            time_limit: self.time_limit@,
            cache_dir: self.cache_dir@,
            tmp_dir: self.tmp_dir@,
        }
    }
}

/// `given` where there is one, `fallback` otherwise.
pub open spec fn or_default(given: Option<String>, fallback: Seq<char>) -> Seq<char> {
    match given {
        Some(value) => value@,
        None => fallback,
    }
}

fn resolve_one(given: Option<String>, fallback: &str) -> (value: String)
    ensures
        value@ == or_default(given, fallback@),
{
    match given {
        Some(value) => value,
        None => String::from_str(fallback),
    }
}

impl Scheduler {
    /// Each setting is the override where one is given and the default
    /// otherwise.
    pub open spec fn resolved(
        memory: Option<String>,
        time_limit: Option<String>,
        cache_dir: Option<String>,
        tmp_dir: Option<String>,
    ) -> SchedulerModel {
        SchedulerModel {
            memory: or_default(memory, DEFAULT_MEMORY@),
            time_limit: or_default(time_limit, DEFAULT_TIME_LIMIT@),
            cache_dir: or_default(cache_dir, DEFAULT_CACHE_DIR@),
            tmp_dir: or_default(tmp_dir, DEFAULT_TMP_DIR@),
        }
    }

    /// The scheduler settings, from the overrides that the environment
    /// holds.
    pub fn resolve(
        memory: Option<String>,
        time_limit: Option<String>,
        cache_dir: Option<String>,
        tmp_dir: Option<String>,
    ) -> (scheduler: Scheduler)
        ensures
            scheduler@ == Scheduler::resolved(memory, time_limit, cache_dir, tmp_dir),
    {
        Scheduler {
            memory: resolve_one(memory, DEFAULT_MEMORY),
            time_limit: resolve_one(time_limit, DEFAULT_TIME_LIMIT),
            cache_dir: resolve_one(cache_dir, DEFAULT_CACHE_DIR),
            tmp_dir: resolve_one(tmp_dir, DEFAULT_TMP_DIR),
        }
    }
}

/// The tag-name fragments that disqualify a tag unless told otherwise.
pub open spec fn default_banned() -> Seq<Seq<char>> {
    seq!["latest"@, "dev"@, "rc"@, "test"@, "unstable"@]
}

/// The default banned fragments: `latest`, `dev`, `rc`, `test`, `unstable`.
pub fn default_banned_tags() -> (banned: Vec<String>)
    ensures
        banned.deep_view() == default_banned(),
{
    let mut banned: Vec<String> = Vec::new();
    banned.push(String::from_str("latest"));
    banned.push(String::from_str("dev"));
    banned.push(String::from_str("rc"));
    banned.push(String::from_str("test"));
    banned.push(String::from_str("unstable"));
    assert(banned.deep_view() =~= default_banned());
    banned
}

/// The configuration of a run.
#[derive(Debug, PartialEq, Eq)]
pub struct Options {
    /// Go on with the next image after one has failed, instead of ending
    /// the run.
    pub skip_errors: bool,
    /// Print what would be run or submitted, and change nothing.
    pub dry_run: bool,
    /// Create missing target directories and overwrite existing artifacts.
    pub force: bool,
    /// How many tags the first sync of an image builds at most.
    pub first_sync: usize,
    /// Submit each build to the batch scheduler instead of running it.
    pub parallelize: bool,
    /// A tag whose name holds one of these is never synced.
    pub banned_tags: Vec<String>,
    /// The settings of scheduled jobs.
    pub scheduler: Scheduler,
}

/// The configuration of a run, with texts in place of strings.
pub ghost struct OptionsModel {
    pub skip_errors: bool,
    pub dry_run: bool,
    pub force: bool,
    pub first_sync: nat,
    pub parallelize: bool,
    pub banned_tags: Seq<Seq<char>>,
    pub scheduler: SchedulerModel,
}

impl View for Options {
    type V = OptionsModel;

    open spec fn view(&self) -> OptionsModel {
        OptionsModel {
            skip_errors: self.skip_errors,
            dry_run: self.dry_run,
            force: self.force,
            first_sync: self.first_sync as nat,
            parallelize: self.parallelize,
            banned_tags: self.banned_tags.deep_view(),
            scheduler: self.scheduler@,
        }
    }
}

impl OptionsModel {
    /// A run that builds at once, ends on the first error, creates and
    /// overwrites nothing, and uses every default.
    pub open spec fn defaults() -> OptionsModel {
        OptionsModel {
            skip_errors: false,
            dry_run: false,
            force: false,
            first_sync: DEFAULT_FIRST_SYNC as nat,
            parallelize: false,
            banned_tags: default_banned(),
            scheduler: Scheduler::resolved(None, None, None, None),
        }
    }
}

impl Default for Options {
    fn default() -> (options: Options)
        ensures
            options@ == OptionsModel::defaults(),
    {
        Options {
            skip_errors: false,
            dry_run: false,
            force: false,
            first_sync: DEFAULT_FIRST_SYNC,
            parallelize: false,
            banned_tags: default_banned_tags(),
            scheduler: Scheduler::resolve(None, None, None, None),
        }
    }
}

} // verus!
