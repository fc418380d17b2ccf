//! What holds of every sync, whatever the directory, the registry and the
//! options are.

use crate::docker::ImageModel;
use crate::error::{FailureModel, SyncError};
use crate::job::{
    artifact_name, batch_script, build_arguments, command_line, describe, target_directory, BUILDER,
    SUBMITTER,
};
use crate::manifest::{ProgressModel, RunModel};
use crate::options::OptionsModel;
use crate::registry::{
    bootstrap, candidates, tags_url_model, is_banned, is_candidate, lemma_candidates_of_parts,
    lemma_candidates_push, tags_to_sync, PageModel, TagModel,
};
use crate::scan::{
    classify_model, has_artifact_extension, high_water_mark, lemma_mark_is_latest, EntryModel,
    Scanned, ARTIFACT_SUFFIX,
};
use crate::sync::{
    advance_model, dispatch, fail, fetch_first, finish, job_request, EventModel, ImageSyncModel,
    PhaseModel, RequestModel,
};
use crate::text::occurs_at;
use crate::timestamp::Timestamp;
use vstd::prelude::*;

verus! {

/// The artifact that a build of `tag` writes is one that the scanner counts
/// for the image: a regular file named `<image>-<tag>.sif` with a
/// modification time is an artifact of `image` with that time.
pub proof fn lemma_artifact_is_recognized(image: Seq<char>, tag: Seq<char>, modified: Timestamp)
    ensures
        classify_model(
            EntryModel {
                file_name: Some(artifact_name(image, tag)),
                is_file: true,
                modified: Some(modified),
            },
            image,
        ) == Scanned::Artifact(modified),
{
    reveal_strlit("-");
    let name = artifact_name(image, tag);
    assert(name.subrange(name.len() - ARTIFACT_SUFFIX@.len(), name.len() as int)
        =~= ARTIFACT_SUFFIX@);
    assert(has_artifact_extension(name));
    assert(name.subrange(0, image.len() as int) =~= image);
    assert(occurs_at(image, name, 0));
}

/// Where no tag was updated after the mark, no tag is selected.
pub proof fn lemma_nothing_new_selects_nothing(
    tags: Seq<TagModel>,
    mark: Timestamp,
    banned: Seq<Seq<char>>,
    cap: nat,
)
    requires
        forall|i: int| 0 <= i < tags.len() ==> !(#[trigger] tags[i]).last_updated.is_after(mark),
    ensures
        candidates(tags, mark, banned) == Seq::<Seq<char>>::empty(),
        tags_to_sync(tags, mark, banned, cap) == Seq::<Seq<char>>::empty(),
    decreases tags.len(),
{
    if tags.len() == 0 {
        lemma_candidates_of_parts(tags, tags, mark, banned);
        assert(tags + tags =~= tags);
        assert(candidates(tags, mark, banned).len() == 0);
        assert(candidates(tags, mark, banned) =~= Seq::<Seq<char>>::empty());
    } else {
        let front = tags.drop_last();
        assert forall|i: int| 0 <= i < front.len() implies !(#[trigger] front[i])
            .last_updated.is_after(mark) by {
            assert(front[i] == tags[i]);
        }
        lemma_nothing_new_selects_nothing(front, mark, banned, cap);
        lemma_candidates_push(front, tags.last(), mark, banned);
        assert(front.push(tags.last()) =~= tags);
    }
}

/// The listing holds an artifact of `image` that is no older than `tag`.
pub open spec fn has_artifact_since(entries: Seq<EntryModel>, image: Seq<char>, tag: TagModel)
    -> bool {
    exists|j: int|
        0 <= j < entries.len() && (#[trigger] classify_model(entries[j], image)
            matches Scanned::Artifact(built) && !tag.last_updated.is_after(built))
}

/// A sync selects nothing once the target directory holds, for every tag
/// that the registry lists, an artifact of the image that is no older than
/// the tag. So a second sync that finds the artifacts of the first, and no
/// tag updated since they were built, builds nothing.
pub proof fn lemma_sync_is_idempotent(
    entries: Seq<EntryModel>,
    image: Seq<char>,
    tags: Seq<TagModel>,
    banned: Seq<Seq<char>>,
    cap: nat,
)
    requires
        forall|i: int|
            0 <= i < tags.len() ==> has_artifact_since(entries, image, #[trigger] tags[i]),
    ensures
        tags_to_sync(tags, high_water_mark(entries, image), banned, cap) == Seq::<
            Seq<char>,
        >::empty(),
{
    let mark = high_water_mark(entries, image);
    lemma_mark_is_latest(Timestamp::spec_epoch(), entries, image);
    assert forall|i: int| 0 <= i < tags.len() implies !(#[trigger] tags[i]).last_updated.is_after(
        mark,
    ) by {
        assert(has_artifact_since(entries, image, tags[i]));
        let j = choose|j: int|
            0 <= j < entries.len() && (#[trigger] classify_model(entries[j], image)
                matches Scanned::Artifact(built) && !tags[i].last_updated.is_after(built));
        assert(classify_model(entries[j], image) is Artifact);
    }
    lemma_nothing_new_selects_nothing(tags, mark, banned, cap);
}

/// The bootstrap cap: the first sync of an image, which finds the mark at
/// the epoch, takes the first `cap` candidates in the registry's order where
/// there are more than `cap`, and all of them where there are not. A later
/// sync takes all candidates, however many there are.
pub proof fn lemma_bootstrap_cap(
    tags: Seq<TagModel>,
    mark: Timestamp,
    banned: Seq<Seq<char>>,
    cap: nat,
)
    ensures
        mark == Timestamp::spec_epoch() && candidates(tags, mark, banned).len() > cap ==> {
            &&& tags_to_sync(tags, mark, banned, cap).len() == cap
            &&& tags_to_sync(tags, mark, banned, cap) == candidates(tags, mark, banned).take(
                cap as int,
            )
        },
        mark == Timestamp::spec_epoch() && candidates(tags, mark, banned).len() <= cap
            ==> tags_to_sync(tags, mark, banned, cap) == candidates(tags, mark, banned),
        mark != Timestamp::spec_epoch() ==> tags_to_sync(tags, mark, banned, cap) == candidates(
            tags,
            mark,
            banned,
        ),
{
}

/// `name` is the name of one of `tags` that was updated after the mark and
/// holds no banned fragment.
pub open spec fn names_a_candidate(
    tags: Seq<TagModel>,
    mark: Timestamp,
    banned: Seq<Seq<char>>,
    name: Seq<char>,
) -> bool {
    exists|i: int|
        0 <= i < tags.len() && (#[trigger] tags[i]).name == name && is_candidate(
            tags[i],
            mark,
            banned,
        )
}

/// Every candidate is the name of a listed tag that was updated after the
/// mark and holds no banned fragment.
pub proof fn lemma_candidates_are_new_and_allowed(
    tags: Seq<TagModel>,
    mark: Timestamp,
    banned: Seq<Seq<char>>,
)
    ensures
        forall|k: int|
            0 <= k < candidates(tags, mark, banned).len() ==> names_a_candidate(
                tags,
                mark,
                banned,
                #[trigger] candidates(tags, mark, banned)[k],
            ),
    decreases tags.len(),
{
    if tags.len() == 0 {
        lemma_nothing_new_selects_nothing(tags, mark, banned, 0);
    } else {
        let front = tags.drop_last();
        let last = tags.last();
        lemma_candidates_are_new_and_allowed(front, mark, banned);
        lemma_candidates_push(front, last, mark, banned);
        assert(front.push(last) =~= tags);
        let all = candidates(tags, mark, banned);
        let before = candidates(front, mark, banned);
        assert forall|k: int| 0 <= k < all.len() implies names_a_candidate(
            tags,
            mark,
            banned,
            #[trigger] all[k],
        ) by {
            if k < before.len() {
                assert(all[k] == before[k]);
                assert(names_a_candidate(front, mark, banned, before[k]));
                let i = choose|i: int|
                    0 <= i < front.len() && (#[trigger] front[i]).name == before[k]
                        && is_candidate(front[i], mark, banned);
                assert(tags[i] == front[i]);
            } else {
                assert(tags[tags.len() - 1] == last);
            }
        }
    }
}

/// A tag whose name holds a banned fragment is never selected, whenever it
/// was updated: every selected name holds no banned fragment, and is the
/// name of a listed tag that was updated after the mark.
pub proof fn lemma_selected_are_new_and_allowed(
    tags: Seq<TagModel>,
    mark: Timestamp,
    banned: Seq<Seq<char>>,
    cap: nat,
)
    ensures
        forall|k: int|
            0 <= k < tags_to_sync(tags, mark, banned, cap).len() ==> {
                &&& !is_banned(#[trigger] tags_to_sync(tags, mark, banned, cap)[k], banned)
                &&& names_a_candidate(tags, mark, banned, tags_to_sync(tags, mark, banned, cap)[k])
            },
{
    lemma_candidates_are_new_and_allowed(tags, mark, banned);
    let all = candidates(tags, mark, banned);
    let kept = tags_to_sync(tags, mark, banned, cap);
    assert forall|k: int| 0 <= k < kept.len() implies {
        &&& !is_banned(#[trigger] kept[k], banned)
        &&& names_a_candidate(tags, mark, banned, kept[k])
    } by {
        assert(kept[k] == all[k]);
        assert(names_a_candidate(tags, mark, banned, all[k]));
    }
}

/// A listed tag that was updated after the mark and holds no banned
/// fragment is a candidate. It is selected by every sync but the first,
/// and by the first where the cap does not cut the candidates.
pub proof fn lemma_new_and_allowed_is_selected(
    tags: Seq<TagModel>,
    mark: Timestamp,
    banned: Seq<Seq<char>>,
    cap: nat,
    i: int,
)
    requires
        0 <= i < tags.len(),
        is_candidate(tags[i], mark, banned),
    ensures
        candidates(tags, mark, banned).contains(tags[i].name),
        mark != Timestamp::spec_epoch() || candidates(tags, mark, banned).len() <= cap
            ==> tags_to_sync(tags, mark, banned, cap).contains(tags[i].name),
    decreases tags.len(),
{
    let front = tags.drop_last();
    let last = tags.last();
    lemma_candidates_push(front, last, mark, banned);
    assert(front.push(last) =~= tags);
    let all = candidates(tags, mark, banned);
    let before = candidates(front, mark, banned);
    if i < front.len() {
        assert(front[i] == tags[i]);
        lemma_new_and_allowed_is_selected(front, mark, banned, cap, i);
        let k = choose|k: int| 0 <= k < before.len() && before[k] == tags[i].name;
        assert(all[k] == tags[i].name);
    } else {
        assert(all[all.len() - 1] == tags[i].name);
    }
}

/// The tags of `pages`, in the order of the pages.
pub open spec fn all_tags(pages: Seq<PageModel>) -> Seq<TagModel> {
    pages.map_values(|page: PageModel| page.results).flatten()
}

/// The events that report `pages`, one after the other.
pub open spec fn page_events(pages: Seq<PageModel>) -> Seq<EventModel> {
    pages.map_values(|page: PageModel| EventModel::Page { page })
}

/// Every page names a successor.
pub open spec fn all_have_successors(pages: Seq<PageModel>) -> bool {
    forall|i: int| 0 <= i < pages.len() ==> (#[trigger] pages[i]).next is Some
}

/// The address that is asked after `pages`: the successor that the last of
/// them names, and `url` where there is no page.
pub open spec fn address_after(url: Seq<char>, pages: Seq<PageModel>) -> Seq<char> {
    if pages.len() == 0 {
        url
    } else {
        pages.last().next.unwrap()
    }
}

/// While pages name successors the sync keeps fetching, and what it has
/// selected grows by the candidates of each page, in the order of the pages.
pub proof fn lemma_pages_accumulate(
    sync: ImageSyncModel,
    mark: Timestamp,
    selected: Seq<Seq<char>>,
    url: Seq<char>,
    pages: Seq<PageModel>,
)
    requires
        sync.phase == (PhaseModel::Fetching { mark, selected, url }),
        all_have_successors(pages),
    ensures
        sync.run(page_events(pages)) == (ImageSyncModel {
            phase: PhaseModel::Fetching {
                mark,
                selected: selected + candidates(all_tags(pages), mark, sync.options.banned_tags),
                url: address_after(url, pages),
            },
            ..sync
        }),
    decreases pages.len(),
{
    let banned = sync.options.banned_tags;
    if pages.len() == 0 {
        assert(all_tags(pages) =~= Seq::<TagModel>::empty());
        lemma_nothing_new_selects_nothing(all_tags(pages), mark, banned, 0);
        assert(selected + candidates(all_tags(pages), mark, banned) =~= selected);
    } else {
        let front = pages.drop_last();
        let last = pages.last();
        assert forall|i: int| 0 <= i < front.len() implies (#[trigger] front[i]).next is Some by {
            assert(front[i] == pages[i]);
        }
        lemma_pages_accumulate(sync, mark, selected, url, front);
        assert(page_events(pages).drop_last() =~= page_events(front));
        assert(page_events(pages).last() == EventModel::Page { page: last });
        assert(pages[pages.len() - 1].next is Some);
        lemma_all_tags_push(front, last);
        assert(front.push(last) =~= pages);
        lemma_candidates_of_parts(all_tags(front), last.results, mark, banned);
        assert(selected + candidates(all_tags(front), mark, banned) + candidates(
            last.results,
            mark,
            banned,
        ) =~= selected + candidates(all_tags(pages), mark, banned));
    }
}

/// The tags of one more page follow those of the pages before it.
pub proof fn lemma_all_tags_push(pages: Seq<PageModel>, page: PageModel)
    ensures
        all_tags(pages.push(page)) == all_tags(pages) + page.results,
{
    let results = |page: PageModel| page.results;
    pages.lemma_push_map_commute(results, page);
    pages.map_values(results).lemma_flatten_push(page.results);
}

/// Pagination is complete: when the registry answers with pages of which
/// each but the last names a successor, the sync fetches them all, and the
/// jobs that it then turns to are those of the tags selected from the tags
/// of all pages together, in the order of the pages.
pub proof fn lemma_pagination_is_complete(
    sync: ImageSyncModel,
    mark: Timestamp,
    url: Seq<char>,
    pages: Seq<PageModel>,
)
    requires
        sync.phase == (PhaseModel::Fetching { mark, selected: Seq::<Seq<char>>::empty(), url }),
        pages.len() > 0,
        all_have_successors(pages.drop_last()),
        pages.last().next is None,
    ensures
        ({
            let (phase, request) = dispatch(
                sync.named,
                sync.directory,
                sync.options,
                tags_to_sync(
                    all_tags(pages),
                    mark,
                    sync.options.banned_tags,
                    sync.options.first_sync,
                ),
                0,
            );
            sync.run(page_events(pages.drop_last())).step(EventModel::Page { page: pages.last() })
                == (ImageSyncModel { phase, ..sync }, request)
        }),
{
    let banned = sync.options.banned_tags;
    let front = pages.drop_last();
    let last = pages.last();
    lemma_pages_accumulate(sync, mark, Seq::<Seq<char>>::empty(), url, front);
    lemma_all_tags_push(front, last);
    assert(front.push(last) =~= pages);
    lemma_candidates_of_parts(all_tags(front), last.results, mark, banned);
    assert(Seq::<Seq<char>>::empty() + candidates(all_tags(front), mark, banned) + candidates(
        last.results,
        mark,
        banned,
    ) =~= candidates(all_tags(pages), mark, banned));
}

/// A sync that finds the artifacts of an earlier one, and no tag updated
/// since they were built, asks for no job: after the last page it finishes
/// with success.
pub proof fn lemma_second_sync_builds_nothing(
    sync: ImageSyncModel,
    entries: Seq<EntryModel>,
    pages: Seq<PageModel>,
)
    requires
        sync.phase == fetch_first(sync.named, high_water_mark(entries, sync.named.image)).0,
        pages.len() > 0,
        all_have_successors(pages.drop_last()),
        pages.last().next is None,
        forall|i: int|
            0 <= i < all_tags(pages).len() ==> has_artifact_since(
                entries,
                sync.named.image,
                #[trigger] all_tags(pages)[i],
            ),
    ensures
        sync.run(page_events(pages.drop_last())).step(EventModel::Page { page: pages.last() }) == (
            ImageSyncModel { phase: PhaseModel::Finished { outcome: Ok(()) }, ..sync },
            RequestModel::Finish { outcome: Ok(()) },
        ),
{
    let mark = high_water_mark(entries, sync.named.image);
    lemma_pagination_is_complete(sync, mark, tags_url_model(sync.named), pages);
    lemma_sync_is_idempotent(
        entries,
        sync.named.image,
        all_tags(pages),
        sync.options.banned_tags,
        sync.options.first_sync,
    );
}

/// `count` reports of success.
pub open spec fn completions(count: nat) -> Seq<EventModel> {
    Seq::new(count, |i: int| EventModel::Completed)
}

/// The selected tags get their jobs one by one, in their order: while the
/// job of `tags[next]` is pending, `count` reports of success bring the sync
/// to the job of `tags[next + count]`, and past the last tag to its end.
pub proof fn lemma_jobs_follow_in_order(
    sync: ImageSyncModel,
    tags: Seq<Seq<char>>,
    next: nat,
    count: nat,
)
    requires
        sync.phase == (PhaseModel::Dispatching { tags, next }),
        next < tags.len(),
        next + count <= tags.len(),
    ensures
        sync.run(completions(count)).phase == dispatch(
            sync.named,
            sync.directory,
            sync.options,
            tags,
            next + count,
        ).0,
        sync.run(completions(count)) == (ImageSyncModel {
            phase: sync.run(completions(count)).phase,
            ..sync
        }),
        count > 0 ==> sync.run(completions((count - 1) as nat)).step(EventModel::Completed).1
            == dispatch(sync.named, sync.directory, sync.options, tags, next + count).1,
    decreases count,
{
    if count > 0 {
        let before = (count - 1) as nat;
        lemma_jobs_follow_in_order(sync, tags, next, before);
        assert(completions(count).drop_last() =~= completions(before));
        assert(completions(count).last() == EventModel::Completed);
    }
}

/// A dry run changes nothing: whatever the phase and the event, the request
/// that follows neither creates a directory nor runs or submits a job.
pub proof fn lemma_dry_run_changes_nothing(
    named: ImageModel,
    directory: Seq<char>,
    options: OptionsModel,
    phase: PhaseModel,
    event: EventModel,
)
    requires
        options.dry_run,
    ensures
        !advance_model(named, directory, options, phase, event).1.changes_the_world(),
{
}

/// A dry run renders the job that the real run performs. With the same
/// options but for `dry_run`, what the one prints is the script that the
/// other submits, or the one-line form of the build that the other runs.
pub proof fn lemma_dry_run_renders_the_real_job(
    named: ImageModel,
    directory: Seq<char>,
    options: OptionsModel,
    tag: Seq<char>,
)
    ensures
        ({
            let job = describe(directory, named, tag, options.force);
            let dry = job_request(named, directory, OptionsModel { dry_run: true, ..options }, tag);
            let performed = job_request(
                named,
                directory,
                OptionsModel { dry_run: false, ..options },
                tag,
            );
            if options.parallelize {
                &&& dry == (RequestModel::Print { text: batch_script(job, options.scheduler) })
                &&& performed == (RequestModel::Submit {
                    program: SUBMITTER@,
                    script: batch_script(job, options.scheduler),
                })
            } else {
                &&& dry == (RequestModel::Print { text: command_line(job) })
                &&& performed == (RequestModel::Run {
                    program: BUILDER@,
                    arguments: build_arguments(job),
                })
            }
        }),
{
}

/// The one-line form of a build spells the builder and its arguments, each
/// parted from the next by one blank; where the job does not overwrite, a
/// second blank stands where the force flag would.
pub proof fn lemma_command_line_spells_the_arguments(
    named: ImageModel,
    directory: Seq<char>,
    tag: Seq<char>,
    force: bool,
)
    ensures
        ({
            let job = describe(directory, named, tag, force);
            let arguments = build_arguments(job);
            if force {
                command_line(job) == BUILDER@ + " "@ + arguments[0] + " "@ + arguments[1] + " "@
                    + arguments[2] + " "@ + arguments[3]
            } else {
                command_line(job) == BUILDER@ + " "@ + arguments[0] + " "@ + " "@ + arguments[1]
                    + " "@ + arguments[2]
            }
        }),
{
    let job = describe(directory, named, tag, force);
    let arguments = build_arguments(job);
    if force {
        assert(command_line(job) =~= BUILDER@ + " "@ + arguments[0] + " "@ + arguments[1] + " "@
            + arguments[2] + " "@ + arguments[3]);
    } else {
        assert(command_line(job) =~= BUILDER@ + " "@ + arguments[0] + " "@ + " "@ + arguments[1]
            + " "@ + arguments[2]);
    }
}

/// A dry run over a manifest changes nothing either, from its first request
/// on.
pub proof fn lemma_dry_run_of_manifest_changes_nothing(run: RunModel, event: EventModel)
    requires
        run.options.dry_run,
    ensures
        !RunModel::start(run.directory, run.manifest, run.options).1.changes_the_world(),
        !run.step(event).1.changes_the_world(),
{
    lemma_turning_to_an_image_changes_nothing(run.directory, run.manifest, run.options, 0, 0);
    lemma_turning_to_an_image_changes_nothing(
        run.directory,
        run.manifest,
        run.options,
        run.position + 1,
        run.skipped,
    );
    lemma_turning_to_an_image_changes_nothing(
        run.directory,
        run.manifest,
        run.options,
        run.position + 1,
        run.skipped + 1,
    );
}

/// Turning to the next image asks to probe its directory or to finish,
/// with or without a dry run.
pub proof fn lemma_turning_to_an_image_changes_nothing(
    directory: Seq<char>,
    manifest: Seq<Seq<char>>,
    options: OptionsModel,
    position: nat,
    skipped: nat,
)
    ensures
        !RunModel::start_at(directory, manifest, options, position, skipped).1.changes_the_world(),
    decreases manifest.len() - position,
{
    if position < manifest.len() {
        lemma_turning_to_an_image_changes_nothing(
            directory,
            manifest,
            options,
            position + 1,
            skipped + 1,
        );
    }
}

/// The policy for a missing target directory. Without `force` the sync of
/// the image fails at once with a failure that names the directory, and
/// nothing more is asked for it. With `force` the directory is created, and
/// once it is there the sync goes on to list it; a dry run leaves the
/// directory missing and goes on as for an empty one.
pub proof fn lemma_missing_directory_policy(
    named: ImageModel,
    directory: Seq<char>,
    options: OptionsModel,
    event: EventModel,
)
    ensures
        !options.force ==> advance_model(
            named,
            directory,
            options,
            PhaseModel::Probing,
            EventModel::Directory { exists: false },
        ) == fail(SyncError::MissingDirectory, target_directory(directory, named)),
        advance_model(
            named,
            directory,
            options,
            fail(SyncError::MissingDirectory, target_directory(directory, named)).0,
            event,
        ) == fail(SyncError::MissingDirectory, target_directory(directory, named)),
        options.force && !options.dry_run ==> advance_model(
            named,
            directory,
            options,
            PhaseModel::Probing,
            EventModel::Directory { exists: false },
        ) == (
            PhaseModel::Creating,
            RequestModel::Create { directory: target_directory(directory, named) },
        ),
        advance_model(named, directory, options, PhaseModel::Creating, EventModel::Completed) == (
            PhaseModel::Listing,
            RequestModel::List { directory: target_directory(directory, named) },
        ),
        options.force && options.dry_run ==> advance_model(
            named,
            directory,
            options,
            PhaseModel::Probing,
            EventModel::Directory { exists: false },
        ) == fetch_first(named, Timestamp::spec_epoch()),
{
}

/// Every failure names what the pending request was about: a request that
/// fails ends the sync with the target directory while a directory is
/// created or listed, with the address while a page is fetched, and with
/// the build as one line while a job is pending.
pub proof fn lemma_failure_names_its_subject(
    named: ImageModel,
    directory: Seq<char>,
    options: OptionsModel,
    mark: Timestamp,
    selected: Seq<Seq<char>>,
    url: Seq<char>,
    tags: Seq<Seq<char>>,
    next: nat,
)
    requires
        next < tags.len(),
    ensures
        advance_model(named, directory, options, PhaseModel::Creating, EventModel::Failed) == fail(
            SyncError::DirectoryNotCreated,
            target_directory(directory, named),
        ),
        advance_model(named, directory, options, PhaseModel::Listing, EventModel::Failed) == fail(
            SyncError::ScanFailed,
            target_directory(directory, named),
        ),
        advance_model(
            named,
            directory,
            options,
            PhaseModel::Fetching { mark, selected, url },
            EventModel::Failed,
        ) == fail(SyncError::RegistryFailed, url),
        advance_model(
            named,
            directory,
            options,
            PhaseModel::Dispatching { tags, next },
            EventModel::Failed,
        ) == fail(
            SyncError::JobFailed,
            command_line(describe(directory, named, tags[next as int], options.force)),
        ),
{
}

/// The error policy of a run. When the sync of an image ends with an error,
/// a run that skips errors turns to the next image and counts one more
/// image as passed over; a run that does not ends with that error, where it
/// stands.
pub proof fn lemma_error_policy(run: RunModel, event: EventModel, failure: FailureModel)
    requires
        run.progress matches ProgressModel::Syncing { named, phase } && advance_model(
            named,
            run.directory,
            run.options,
            phase,
            event,
        ).0 == (PhaseModel::Finished { outcome: Err(failure) }),
    ensures
        run.options.skip_errors ==> run.step(event) == RunModel::start_at(
            run.directory,
            run.manifest,
            run.options,
            run.position + 1,
            run.skipped + 1,
        ),
        !run.options.skip_errors ==> run.step(event) == RunModel::end_at(
            run.directory,
            run.manifest,
            run.options,
            run.position,
            run.skipped,
            Err(failure),
        ),
{
}

} // verus!
