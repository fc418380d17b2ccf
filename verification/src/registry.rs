//! The registry's tags: where they are listed, which of them are new, and
//! how many of them a first sync takes.

use crate::docker::{DockerImage, ImageModel};
use crate::error::SyncError;
use crate::text::{contains, is_infix};
use crate::timestamp::Timestamp;
use vstd::prelude::*;

verus! {

/// One tag of an image, as the registry reports it.
#[derive(Debug, PartialEq, Eq)]
pub struct Tag {
    pub name: String,
    pub last_updated: Timestamp,
}

/// A tag, with its name as a text.
pub ghost struct TagModel {
    pub name: Seq<char>,
    pub last_updated: Timestamp,
}

impl View for Tag {
    type V = TagModel;

    open spec fn view(&self) -> TagModel {
        TagModel { name: self.name@, last_updated: self.last_updated }
    }
}

impl DeepView for Tag {
    type V = TagModel;

    open spec fn deep_view(&self) -> TagModel {
        self@
    }
}

/// One page of the registry's answer: its tags, and where the next page is
/// found if there is one.
#[derive(Debug, PartialEq, Eq)]
pub struct TagPage {
    pub results: Vec<Tag>,
    pub next: Option<String>,
}

/// A page, with texts in place of strings.
pub ghost struct PageModel {
    pub results: Seq<TagModel>,
    pub next: Option<Seq<char>>,
}

impl View for TagPage {
    type V = PageModel;

    open spec fn view(&self) -> PageModel {
        PageModel {
            results: self.results.deep_view(),
            next: match self.next {
                Some(url) => Some(url@),
                None => None,
            },
        }
    }
}

/// Where the first page of an image's tags is found.
pub open spec fn tags_url_model(named: ImageModel) -> Seq<char> {
    "https://registry.hub.docker.com/v2/repositories/"@ + named.repository + "/"@ + named.image
        + "/tags"@
}

/// The address of the first page of the tags of `named`.
pub fn tags_url(named: &DockerImage) -> (url: String)
    ensures
        url@ == tags_url_model(named@),
{
    let mut url = String::from_str("https://registry.hub.docker.com/v2/repositories/");
    url.append(named.repository().as_str());
    url.append("/");
    url.append(named.image().as_str());
    url.append("/tags");
    url
}

/// The name holds one of the banned fragments. The match is by substring
/// and by case, on the name as the registry gave it.
pub open spec fn is_banned(name: Seq<char>, banned: Seq<Seq<char>>) -> bool {
    exists|i: int| 0 <= i < banned.len() && is_infix(#[trigger] banned[i], name)
}

/// A tag is a candidate when it was updated after the high-water mark and
/// its name holds no banned fragment.
pub open spec fn is_candidate(tag: TagModel, mark: Timestamp, banned: Seq<Seq<char>>) -> bool {
    tag.last_updated.is_after(mark) && !is_banned(tag.name, banned)
}

/// The names of the candidates among `tags`, in the order of `tags`.
pub open spec fn candidates(tags: Seq<TagModel>, mark: Timestamp, banned: Seq<Seq<char>>) -> Seq<
    Seq<char>,
> {
    tags.filter(|tag: TagModel| is_candidate(tag, mark, banned)).map_values(
        |tag: TagModel| tag.name,
    )
}

/// The first sync of an image, which finds the mark at the epoch, takes the
/// first `cap` names and no more; every later sync takes them all.
pub open spec fn bootstrap(names: Seq<Seq<char>>, mark: Timestamp, cap: nat) -> Seq<Seq<char>> {
    if mark == Timestamp::spec_epoch() && cap < names.len() {
        names.take(cap as int)
    } else {
        names
    }
}

/// The tags to build, from everything the registry lists.
pub open spec fn tags_to_sync(
    tags: Seq<TagModel>,
    mark: Timestamp,
    banned: Seq<Seq<char>>,
    cap: nat,
) -> Seq<Seq<char>> {
    bootstrap(candidates(tags, mark, banned), mark, cap)
}

/// The candidates of a list in two parts are those of the first part, then
/// those of the second.
pub proof fn lemma_candidates_of_parts(
    front: Seq<TagModel>,
    back: Seq<TagModel>,
    mark: Timestamp,
    banned: Seq<Seq<char>>,
)
    ensures
        candidates(front + back, mark, banned) == candidates(front, mark, banned) + candidates(
            back,
            mark,
            banned,
        ),
{
    let keep = |tag: TagModel| is_candidate(tag, mark, banned);
    Seq::filter_distributes_over_add(front, back, keep);
    assert(candidates(front + back, mark, banned) =~= candidates(front, mark, banned) + candidates(
        back,
        mark,
        banned,
    ));
}

/// One more tag adds its name to the candidates if it is one, and nothing
/// otherwise.
pub proof fn lemma_candidates_push(
    tags: Seq<TagModel>,
    tag: TagModel,
    mark: Timestamp,
    banned: Seq<Seq<char>>,
)
    ensures
        candidates(tags.push(tag), mark, banned) == if is_candidate(tag, mark, banned) {
            candidates(tags, mark, banned).push(tag.name)
        } else {
            candidates(tags, mark, banned)
        },
{
    let keep = |tag: TagModel| is_candidate(tag, mark, banned);
    Seq::lemma_filter_push(tags, tag, keep);
    if is_candidate(tag, mark, banned) {
        tags.filter(keep).lemma_push_map_commute(|tag: TagModel| tag.name, tag);
    }
}

/// Whether the name of a tag holds one of the banned fragments.
pub fn is_banned_image(tag_name: &str, banned_tags: &[&str]) -> (banned: Result<bool, SyncError>)
    ensures
        banned == Ok::<bool, SyncError>(is_banned(tag_name@, banned_tags.deep_view())),
{
    let mut i: usize = 0;
    while i < banned_tags.len()
        invariant
            i <= banned_tags.len(),
            forall|j: int|
                0 <= j < i ==> !is_infix(#[trigger] banned_tags.deep_view()[j], tag_name@),
        decreases banned_tags.len() - i,
    {
        if contains(tag_name, banned_tags[i]) {
            assert(is_infix(banned_tags.deep_view()[i as int], tag_name@));
            return Ok(true);
        }
        i = i + 1;
    }
    Ok(false)
}

/// The banned fragments as borrowed texts.
fn borrowed<'a>(banned_tags: &'a Vec<String>) -> (borrowed: Vec<&'a str>)
    ensures
        borrowed.deep_view() == banned_tags.deep_view(),
{
    let mut borrowed: Vec<&'a str> = Vec::new();
    let mut i: usize = 0;
    while i < banned_tags.len()
        invariant
            i <= banned_tags.len(),
            borrowed@.len() == i,
            forall|j: int| 0 <= j < i ==> borrowed@[j]@ == banned_tags@[j]@,
        decreases banned_tags.len() - i,
    {
        borrowed.push(banned_tags[i].as_str());
        i = i + 1;
    }
    assert(borrowed.deep_view() =~= banned_tags.deep_view());
    borrowed
}

/// The names of the tags that were updated after `latest_sync` and hold no
/// banned fragment, in the order in which the registry listed them.
pub fn tags_after_timestamp(
    tags: &Vec<Tag>,
    latest_sync: Timestamp,
    banned_tags: &Vec<String>,
) -> (names: Vec<String>)
    ensures
        names.deep_view() == candidates(tags.deep_view(), latest_sync, banned_tags.deep_view()),
{
    let banned = borrowed(banned_tags);
    let mut names: Vec<String> = Vec::new();
    let mut i: usize = 0;
    assert(tags.deep_view().take(0) =~= Seq::<TagModel>::empty());
    assert(names.deep_view() =~= Seq::<Seq<char>>::empty());
    while i < tags.len()
        invariant
            i <= tags.len(),
            banned.deep_view() == banned_tags.deep_view(),
            names.deep_view() == candidates(
                tags.deep_view().take(i as int),
                latest_sync,
                banned_tags.deep_view(),
            ),
        decreases tags.len() - i,
    {
        let tag = &tags[i];
        let ghost before = names.deep_view();
        proof {
            tags.deep_view().lemma_take_succ_push(i as int);
            lemma_candidates_push(
                tags.deep_view().take(i as int),
                tag@,
                latest_sync,
                banned_tags.deep_view(),
            );
        }
        if tag.last_updated.after(&latest_sync) {
            match is_banned_image(tag.name.as_str(), banned.as_slice()) {
                Ok(false) => {
                    names.push(tag.name.clone());
                    assert(names.deep_view() =~= before.push(tag@.name));
                },
                _ => {},
            }
        }
        i = i + 1;
    }
    assert(tags.deep_view().take(i as int) =~= tags.deep_view());
    names
}

/// Cuts the candidates of a first sync down to the first `first_sync` of
/// them; leaves those of a later sync as they are.
pub fn bootstrap_tags(names: Vec<String>, latest_sync: Timestamp, first_sync: usize) -> (kept: Vec<
    String,
>)
    ensures
        kept.deep_view() == bootstrap(names.deep_view(), latest_sync, first_sync as nat),
{
    let mut kept = names;
    if latest_sync.is_epoch() && first_sync < kept.len() {
        kept.truncate(first_sync);
        assert(kept.deep_view() =~= names.deep_view().take(first_sync as int));
    }
    kept
}

} // verus!
