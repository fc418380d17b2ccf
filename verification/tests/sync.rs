use singularity_sync::docker::DockerImage;
use singularity_sync::error::{Failure, SyncError};
use singularity_sync::options::Options;
use singularity_sync::registry::{Tag, TagPage};
use singularity_sync::scan::DirEntry;
use singularity_sync::sync::{advance, request_job, sync_docker_image, Event, ImageSync, Phase, Request};
use singularity_sync::timestamp::Timestamp;

const FIRST_PAGE: &str = "https://registry.hub.docker.com/v2/repositories/foo/bar/tags";

fn tag(name: &str, secs: i64) -> Tag {
    Tag { name: String::from(name), last_updated: Timestamp::new(secs, 0) }
}

fn page(tags: Vec<Tag>, next: Option<&str>) -> Event {
    Event::Page { page: TagPage { results: tags, next: next.map(String::from) } }
}

fn artifact(name: &str, secs: i64) -> DirEntry {
    DirEntry {
        file_name: Some(String::from(name)),
        is_file: true,
        modified: Some(Timestamp::new(secs, 0)),
    }
}

fn run(tag: &str, force: bool) -> Request {
    let mut arguments = vec![String::from("build")];
    if force {
        arguments.push(String::from("-F"));
    }
    arguments.push(format!("/data/foo/bar-{}.sif", tag));
    arguments.push(format!("docker://foo/bar:{}", tag));
    Request::Run { program: String::from("singularity"), arguments }
}

fn probe() -> Request {
    Request::Probe { directory: String::from("/data/foo") }
}

fn list() -> Request {
    Request::List { directory: String::from("/data/foo") }
}

fn fetch(url: &str) -> Request {
    Request::Fetch { url: String::from(url) }
}

fn finish(outcome: Result<(), Failure>) -> Request {
    Request::Finish { outcome }
}

fn failure(error: SyncError, subject: &str) -> Result<(), Failure> {
    Err(Failure { error, subject: String::from(subject) })
}

/// Steps the machine with each event and collects the requests it makes.
fn drive<'a>(started: (ImageSync<'a>, Request), events: Vec<Event>) -> (ImageSync<'a>, Vec<Request>) {
    let (mut machine, first) = started;
    let mut requests = vec![first];
    for event in events {
        let (next, request) = machine.step(event);
        machine = next;
        requests.push(request);
    }
    (machine, requests)
}

#[test]
fn sync_begins_by_probing_the_target_directory() {
    let options = Options::default();
    let directory = String::from("/data");
    let named = DockerImage::parse("foo/bar").unwrap();
    let (machine, request) = named.sync(&directory, &options);
    assert_eq!(request, probe());
    assert_eq!(machine.outcome(), None);
}

#[test]
fn sync_of_a_malformed_reference_is_refused() {
    let options = Options::default();
    assert_eq!(
        sync_docker_image("foobar", "/data", &options).err(),
        Some(Failure { error: SyncError::MalformedReference, subject: String::from("foobar") })
    );
}

#[test]
fn cold_target_builds_the_first_tags_only() {
    let options = Options { first_sync: 2, ..Options::default() };
    let started = sync_docker_image("foo/bar", "/data", &options).unwrap();
    let (machine, requests) = drive(
        started,
        vec![
            Event::Directory { exists: true },
            Event::Listing { entries: Vec::new() },
            page(vec![tag("4.0", 40), tag("3.0", 30), tag("2.0", 20), tag("1.0", 10)], None),
            Event::Completed,
            Event::Completed,
        ],
    );
    assert_eq!(
        requests,
        vec![probe(), list(), fetch(FIRST_PAGE), run("4.0", false), run("3.0", false), finish(Ok(()))]
    );
    assert_eq!(machine.outcome(), Some(Ok(())));
}

#[test]
fn cold_target_builds_all_tags_below_the_cap() {
    let options = Options::default();
    let started = sync_docker_image("foo/bar", "/data", &options).unwrap();
    let (_, requests) = drive(
        started,
        vec![
            Event::Directory { exists: true },
            Event::Listing { entries: Vec::new() },
            page(vec![tag("2.0", 20), tag("latest", 30), tag("1.0", 10)], None),
            Event::Completed,
            Event::Completed,
        ],
    );
    assert_eq!(
        requests,
        vec![probe(), list(), fetch(FIRST_PAGE), run("2.0", false), run("1.0", false), finish(Ok(()))]
    );
}

#[test]
fn warm_target_builds_every_new_tag() {
    let options = Options { first_sync: 1, ..Options::default() };
    let started = sync_docker_image("foo/bar", "/data", &options).unwrap();
    let (_, requests) = drive(
        started,
        vec![
            Event::Directory { exists: true },
            Event::Listing { entries: vec![artifact("bar-1.0.sif", 15), artifact("baz-9.sif", 99)] },
            page(vec![tag("4.0", 40), tag("3.0", 30), tag("2.0", 20), tag("1.0", 10)], None),
            Event::Completed,
            Event::Completed,
            Event::Completed,
        ],
    );
    assert_eq!(
        requests,
        vec![
            probe(),
            list(),
            fetch(FIRST_PAGE),
            run("4.0", false),
            run("3.0", false),
            run("2.0", false),
            finish(Ok(())),
        ]
    );
}

#[test]
fn three_linked_pages_are_all_read() {
    let options = Options::default();
    let started = sync_docker_image("foo/bar", "/data", &options).unwrap();
    let (_, requests) = drive(
        started,
        vec![
            Event::Directory { exists: true },
            Event::Listing { entries: vec![artifact("bar-0.1.sif", 5)] },
            page(vec![tag("3.0", 30), tag("3.0-rc1", 29)], Some("https://registry.example/page2")),
            page(vec![tag("2.0", 20), tag("0.1", 4)], Some("https://registry.example/page3")),
            page(vec![tag("1.0", 10)], None),
            Event::Completed,
            Event::Completed,
            Event::Completed,
        ],
    );
    assert_eq!(
        requests,
        vec![
            probe(),
            list(),
            fetch(FIRST_PAGE),
            fetch("https://registry.example/page2"),
            fetch("https://registry.example/page3"),
            run("3.0", false),
            run("2.0", false),
            run("1.0", false),
            finish(Ok(())),
        ]
    );
}

#[test]
fn bootstrap_cap_counts_over_all_pages() {
    let options = Options { first_sync: 3, ..Options::default() };
    let started = sync_docker_image("foo/bar", "/data", &options).unwrap();
    let (_, requests) = drive(
        started,
        vec![
            Event::Directory { exists: true },
            Event::Listing { entries: Vec::new() },
            page(vec![tag("5.0", 50), tag("4.0", 40)], Some("next")),
            page(vec![tag("3.0", 30), tag("2.0", 20)], None),
            Event::Completed,
            Event::Completed,
            Event::Completed,
        ],
    );
    assert_eq!(
        requests,
        vec![
            probe(),
            list(),
            fetch(FIRST_PAGE),
            fetch("next"),
            run("5.0", false),
            run("4.0", false),
            run("3.0", false),
            finish(Ok(())),
        ]
    );
}

#[test]
fn second_sync_builds_nothing() {
    let options = Options { first_sync: 2, ..Options::default() };
    let tags = || vec![tag("3.0", 30), tag("2.0", 20), tag("1.0", 10)];

    let started = sync_docker_image("foo/bar", "/data", &options).unwrap();
    let (_, first) = drive(
        started,
        vec![
            Event::Directory { exists: true },
            Event::Listing { entries: Vec::new() },
            page(tags(), None),
            Event::Completed,
            Event::Completed,
        ],
    );
    assert_eq!(
        first,
        vec![probe(), list(), fetch(FIRST_PAGE), run("3.0", false), run("2.0", false), finish(Ok(()))]
    );

    let started = sync_docker_image("foo/bar", "/data", &options).unwrap();
    let (machine, second) = drive(
        started,
        vec![
            Event::Directory { exists: true },
            Event::Listing { entries: vec![artifact("bar-3.0.sif", 100), artifact("bar-2.0.sif", 101)] },
            page(tags(), None),
        ],
    );
    assert_eq!(second, vec![probe(), list(), fetch(FIRST_PAGE), finish(Ok(()))]);
    assert_eq!(machine.outcome(), Some(Ok(())));
}

#[test]
fn missing_directory_without_force_fails_the_image() {
    let options = Options::default();
    let started = sync_docker_image("foo/bar", "/data", &options).unwrap();
    let (machine, requests) = drive(started, vec![Event::Directory { exists: false }]);
    let missing = || failure(SyncError::MissingDirectory, "/data/foo");
    assert_eq!(requests, vec![probe(), finish(missing())]);
    assert_eq!(machine.outcome(), Some(missing()));
    assert_eq!(machine.target(), "/data/foo");

    let (machine, request) = machine.step(page(vec![tag("1.0", 10)], None));
    assert_eq!(request, finish(missing()));
    assert_eq!(machine.outcome(), Some(missing()));
}

#[test]
fn missing_directory_with_force_is_created() {
    let options = Options { force: true, ..Options::default() };
    let started = sync_docker_image("foo/bar", "/data", &options).unwrap();
    let (_, requests) = drive(
        started,
        vec![
            Event::Directory { exists: false },
            Event::Completed,
            Event::Listing { entries: Vec::new() },
            page(vec![tag("1.0", 10)], None),
            Event::Completed,
        ],
    );
    assert_eq!(
        requests,
        vec![
            probe(),
            Request::Create { directory: String::from("/data/foo") },
            list(),
            fetch(FIRST_PAGE),
            run("1.0", true),
            finish(Ok(())),
        ]
    );
}

#[test]
fn directory_that_cannot_be_created_fails_the_image() {
    let options = Options { force: true, ..Options::default() };
    let started = sync_docker_image("foo/bar", "/data", &options).unwrap();
    let (_, requests) = drive(started, vec![Event::Directory { exists: false }, Event::Failed]);
    assert_eq!(
        requests.last(),
        Some(&finish(failure(SyncError::DirectoryNotCreated, "/data/foo")))
    );
}

#[test]
fn directory_that_cannot_be_listed_fails_the_image() {
    let options = Options::default();
    let started = sync_docker_image("foo/bar", "/data", &options).unwrap();
    let (_, requests) = drive(started, vec![Event::Directory { exists: true }, Event::Failed]);
    assert_eq!(requests.last(), Some(&finish(failure(SyncError::ScanFailed, "/data/foo"))));
}

#[test]
fn failed_fetch_fails_the_image_without_a_job() {
    let options = Options::default();
    let started = sync_docker_image("foo/bar", "/data", &options).unwrap();
    let (_, requests) = drive(
        started,
        vec![
            Event::Directory { exists: true },
            Event::Listing { entries: Vec::new() },
            page(vec![tag("2.0", 20)], Some("next")),
            Event::Failed,
        ],
    );
    assert_eq!(
        requests,
        vec![
            probe(),
            list(),
            fetch(FIRST_PAGE),
            fetch("next"),
            finish(failure(SyncError::RegistryFailed, "next")),
        ]
    );
}

#[test]
fn failed_job_ends_the_sync_of_the_image() {
    let options = Options::default();
    let started = sync_docker_image("foo/bar", "/data", &options).unwrap();
    let (machine, requests) = drive(
        started,
        vec![
            Event::Directory { exists: true },
            Event::Listing { entries: Vec::new() },
            page(vec![tag("2.0", 20), tag("1.0", 10)], None),
            Event::Failed,
        ],
    );
    let failed = || {
        failure(
            SyncError::JobFailed,
            "singularity build  /data/foo/bar-2.0.sif docker://foo/bar:2.0",
        )
    };
    assert_eq!(
        requests,
        vec![probe(), list(), fetch(FIRST_PAGE), run("2.0", false), finish(failed())]
    );
    assert_eq!(machine.outcome(), Some(failed()));
}

#[test]
fn event_that_answers_nothing_ends_the_sync() {
    let options = Options::default();
    let started = sync_docker_image("foo/bar", "/data", &options).unwrap();
    let (_, requests) = drive(started, vec![Event::Completed]);
    assert_eq!(requests, vec![probe(), finish(failure(SyncError::UnexpectedEvent, "/data/foo"))]);

    let started = sync_docker_image("foo/bar", "/data", &options).unwrap();
    let (_, requests) = drive(
        started,
        vec![Event::Directory { exists: true }, Event::Directory { exists: true }],
    );
    assert_eq!(
        requests.last(),
        Some(&finish(failure(SyncError::UnexpectedEvent, "/data/foo")))
    );
}

#[test]
fn dry_run_prints_the_command() {
    let options = Options { dry_run: true, ..Options::default() };
    let started = sync_docker_image("foo/bar", "/data", &options).unwrap();
    let (_, requests) = drive(
        started,
        vec![
            Event::Directory { exists: true },
            Event::Listing { entries: Vec::new() },
            page(vec![tag("2.0", 20), tag("1.0", 10)], None),
            Event::Completed,
            Event::Completed,
        ],
    );
    assert_eq!(
        requests,
        vec![
            probe(),
            list(),
            fetch(FIRST_PAGE),
            Request::Print {
                text: String::from("singularity build  /data/foo/bar-2.0.sif docker://foo/bar:2.0"),
            },
            Request::Print {
                text: String::from("singularity build  /data/foo/bar-1.0.sif docker://foo/bar:1.0"),
            },
            finish(Ok(())),
        ]
    );
    assert!(requests.iter().all(|request| !request.changes_the_world()));
}

#[test]
fn dry_run_with_force_leaves_a_missing_directory_missing() {
    let options = Options { dry_run: true, force: true, ..Options::default() };
    let started = sync_docker_image("foo/bar", "/data", &options).unwrap();
    let (_, requests) = drive(
        started,
        vec![
            Event::Directory { exists: false },
            page(vec![tag("1.0", 10)], None),
            Event::Completed,
        ],
    );
    assert_eq!(
        requests,
        vec![
            probe(),
            fetch(FIRST_PAGE),
            Request::Print {
                text: String::from("singularity build -F /data/foo/bar-1.0.sif docker://foo/bar:1.0"),
            },
            finish(Ok(())),
        ]
    );
    assert!(requests.iter().all(|request| !request.changes_the_world()));
}

#[test]
fn dry_run_prints_the_script_of_a_scheduled_job() {
    let options = Options { dry_run: true, parallelize: true, ..Options::default() };
    let named = DockerImage::parse("foo/bar").unwrap();
    let expected = "#!/bin/bash\n\
#SBATCH --time=8:00:00\n\
#SBATCH --mem=8G\n\
#SBATCH --job-name=foo-bar\n\
#SBATCH --output=singularity-sync-%u-%j.out\n\
export SINGULARITY_CACHEDIR=${HOME}/scratch/singularity\n\
export SINGULARITY_TMPDIR=${HOME}/scratch/tmp\n\
singularity build  /data/foo/bar-1.0.sif docker://foo/bar:1.0\n";
    assert_eq!(
        request_job(&named, "/data", &options, "1.0"),
        Request::Print { text: String::from(expected) }
    );
}

#[test]
fn dry_run_renders_what_the_real_run_submits() {
    let dry = Options { dry_run: true, parallelize: true, force: true, ..Options::default() };
    let real = Options { dry_run: false, parallelize: true, force: true, ..Options::default() };
    let named = DockerImage::parse("foo/bar").unwrap();
    let printed = match request_job(&named, "/data", &dry, "1.0") {
        Request::Print { text } => text,
        other => panic!("unexpected request {:?}", other),
    };
    let submitted = request_job(&named, "/data", &real, "1.0");
    assert_eq!(submitted, Request::Submit { program: String::from("sbatch"), script: printed });
    assert!(submitted.changes_the_world());
}

#[test]
fn scheduled_run_submits_one_script_per_tag() {
    let options = Options { parallelize: true, ..Options::default() };
    let started = sync_docker_image("foo/bar", "/data", &options).unwrap();
    let (_, requests) = drive(
        started,
        vec![
            Event::Directory { exists: true },
            Event::Listing { entries: Vec::new() },
            page(vec![tag("2.0", 20), tag("1.0", 10)], None),
            Event::Completed,
            Event::Completed,
        ],
    );
    assert_eq!(requests.len(), 6);
    let named = DockerImage::parse("foo/bar").unwrap();
    assert_eq!(requests[3], request_job(&named, "/data", &options, "2.0"));
    assert_eq!(requests[4], request_job(&named, "/data", &options, "1.0"));
    assert!(matches!(requests[3], Request::Submit { .. }));
    assert!(matches!(requests[4], Request::Submit { .. }));
    assert_eq!(requests[5], finish(Ok(())));
}

#[test]
fn only_creating_running_and_submitting_change_the_world() {
    assert!(Request::Create { directory: String::new() }.changes_the_world());
    assert!(Request::Run { program: String::new(), arguments: Vec::new() }.changes_the_world());
    assert!(Request::Submit { program: String::new(), script: String::new() }.changes_the_world());
    assert!(!probe().changes_the_world());
    assert!(!list().changes_the_world());
    assert!(!fetch("x").changes_the_world());
    assert!(!Request::Print { text: String::new() }.changes_the_world());
    assert!(!finish(Ok(())).changes_the_world());
}

#[test]
fn advance_turns_the_listing_into_the_mark() {
    let options = Options::default();
    let named = DockerImage::parse("foo/bar").unwrap();
    let (phase, request) = advance(
        &named,
        "/data",
        &options,
        Phase::Listing,
        Event::Listing { entries: vec![artifact("bar-1.0.sif", 100), artifact("bar-2.0.sif", 200)] },
    );
    assert_eq!(
        phase,
        Phase::Fetching {
            mark: Timestamp::new(200, 0),
            selected: Vec::new(),
            url: String::from(FIRST_PAGE),
        }
    );
    assert_eq!(request, fetch(FIRST_PAGE));
}

#[test]
fn advance_past_the_last_tag_finishes() {
    let options = Options::default();
    let named = DockerImage::parse("foo/bar").unwrap();
    let tags = vec![String::from("1.0")];
    let (phase, request) =
        advance(&named, "/data", &options, Phase::Dispatching { tags, next: 0 }, Event::Completed);
    assert_eq!(phase, Phase::Finished { outcome: Ok(()) });
    assert_eq!(request, finish(Ok(())));

    let (phase, _) = advance(
        &named,
        "/data",
        &options,
        Phase::Dispatching { tags: Vec::new(), next: usize::MAX },
        Event::Completed,
    );
    assert_eq!(phase, Phase::Finished { outcome: Ok(()) });
}

#[test]
fn failed_first_fetch_names_the_first_page() {
    let options = Options::default();
    let started = sync_docker_image("foo/bar", "/data", &options).unwrap();
    let (_, requests) = drive(
        started,
        vec![
            Event::Directory { exists: true },
            Event::Listing { entries: Vec::new() },
            Event::Failed,
        ],
    );
    assert_eq!(requests.last(), Some(&finish(failure(SyncError::RegistryFailed, FIRST_PAGE))));
}

#[test]
fn failed_submission_names_the_build() {
    let options = Options { parallelize: true, force: true, ..Options::default() };
    let started = sync_docker_image("foo/bar", "/data", &options).unwrap();
    let (_, requests) = drive(
        started,
        vec![
            Event::Directory { exists: true },
            Event::Listing { entries: Vec::new() },
            page(vec![tag("2.0", 20), tag("1.0", 10)], None),
            Event::Completed,
            Event::Failed,
        ],
    );
    assert_eq!(
        requests.last(),
        Some(&finish(failure(
            SyncError::JobFailed,
            "singularity build -F /data/foo/bar-1.0.sif docker://foo/bar:1.0",
        )))
    );
}
