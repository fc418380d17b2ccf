//! Image references: which image of which repository an entry of the
//! manifest names.

use crate::error::SyncError;
use crate::options::Options;
use crate::sync::{ImageSync, ImageSyncModel, Request};
use crate::text::{chars_of, find_last, slice_of};
use vstd::prelude::*;

verus! {

/// The character that parts the repository from the image.
pub const SEPARATOR: char = '/';

/// One image of a repository.
#[derive(Debug, PartialEq, Eq)]
pub struct DockerImage {
    repository: String,
    image: String,
}

/// A repository and an image of it, as texts.
pub ghost struct ImageModel {
    pub repository: Seq<char>,
    pub image: Seq<char>,
}

impl ImageModel {
    /// Neither part is empty, and the image is a single path segment.
    pub open spec fn well_formed(self) -> bool {
        &&& self.repository.len() > 0
        &&& self.image.len() > 0
        &&& !self.image.contains(SEPARATOR)
    }

    /// The reference that names this image: `repository/image`.
    pub open spec fn base(self) -> Seq<char> {
        self.repository + seq![SEPARATOR] + self.image
    }
}

/// What a reference names: the text after its last separator is the image,
/// the text before it the repository. A reference without a separator, or
/// with nothing before or after the last one, names no image.
pub open spec fn reference_parts(reference: Seq<char>) -> Option<ImageModel> {
    match reference.index_of_last(SEPARATOR) {
        Some(at) => if 0 < at && at + 1 < reference.len() {
            Some(ImageModel { repository: reference.take(at), image: reference.skip(at + 1) })
        } else {
            None
        },
        None => None,
    }
}

/// A reference names an image exactly when it is `repository/image` for a
/// well-formed pair, and it then names that pair.
pub proof fn lemma_reference_parts(reference: Seq<char>, named: ImageModel)
    ensures
        reference_parts(reference) == Some(named) <==> named.well_formed() && reference
            == named.base(),
{
    reference.index_of_last_ensures(SEPARATOR);
    if reference_parts(reference) == Some(named) {
        let at = reference.index_of_last(SEPARATOR).unwrap();
        assert(reference =~= named.base());
        assert forall|i: int| 0 <= i < named.image.len() implies named.image[i] != SEPARATOR by {
            assert(named.image[i] == reference[at + 1 + i]);
        }
    }
    if named.well_formed() && reference == named.base() {
        let at = named.repository.len() as int;
        assert(reference[at] == SEPARATOR);
        assert(reference.contains(SEPARATOR));
        let last = reference.index_of_last(SEPARATOR).unwrap();
        if last > at {
            assert(named.image[last - at - 1] == reference[last]);
            assert(named.image.contains(SEPARATOR));
        }
        assert(last == at);
        assert(reference.take(at) =~= named.repository);
        assert(reference.skip(at + 1) =~= named.image);
    }
}

impl View for DockerImage {
    type V = ImageModel;

    closed spec fn view(&self) -> ImageModel {
        ImageModel { repository: self.repository@, image: self.image@ }
    }
}

impl DockerImage {
    #[verifier::type_invariant]
    spec fn names_an_image(&self) -> bool {
        self@.well_formed()
    }

    /// Reads a reference of the form `repository/image`. The reference is
    /// parted at its last separator; it is malformed where it holds no
    /// separator or where either part is empty.
    pub fn parse(reference: &str) -> (parsed: Result<DockerImage, SyncError>)
        ensures
            match parsed {
                Ok(named) => reference_parts(reference@) == Some(named@) && named@.well_formed(),
                Err(error) => error == SyncError::MalformedReference && reference_parts(
                    reference@,
                ) is None,
            },
    {
        let chars = chars_of(reference);
        match find_last(&chars, SEPARATOR) {
            None => Err(SyncError::MalformedReference),
            Some(at) => {
                if 0 < at && at + 1 < chars.len() {
                    let repository = slice_of(reference, 0, at);
                    let image = slice_of(reference, at + 1, chars.len());
                    proof {
                        lemma_reference_parts(
                            reference@,
                            ImageModel { repository: repository@, image: image@ },
                        );
                    }
                    Ok(DockerImage { repository, image })
                } else {
                    Err(SyncError::MalformedReference)
                }
            },
        }
    }

    /// Reads a reference as `parse` does.
    pub fn from(string: &String) -> (parsed: Result<DockerImage, SyncError>)
        ensures
            match parsed {
                Ok(named) => reference_parts(string@) == Some(named@) && named@.well_formed(),
                Err(error) => error == SyncError::MalformedReference && reference_parts(
                    string@,
                ) is None,
            },
    {
        DockerImage::parse(string.as_str())
    }

    /// The repository namespace.
    pub fn repository(&self) -> (repository: &String)
        ensures
            repository@ == self@.repository,
            self@.well_formed(),
    {
        proof {
            use_type_invariant(self);
        }
        &self.repository
    }

    /// The image name.
    pub fn image(&self) -> (image: &String)
        ensures
            image@ == self@.image,
            self@.well_formed(),
    {
        proof {
            use_type_invariant(self);
        }
        &self.image
    }

    /// The reference that names this image.
    pub fn base(&self) -> (reference: String)
        ensures
            reference@ == self@.base(),
            reference_parts(reference@) == Some(self@),
    {
        proof {
            use_type_invariant(self);
            reveal_strlit("/");
            lemma_reference_parts(self@.base(), self@);
        }
        let mut reference = self.repository.clone();
        reference.append("/");
        reference.append(self.image.as_str());
        assert(reference@ =~= self@.base());
        reference
    }

    /// Starts the sync of this image below `directory`: hands back the
    /// machine that decides the steps of the sync, and its first request.
    pub fn sync<'a>(&self, directory: &'a String, options: &'a Options) -> (started: (
        ImageSync<'a>,
        Request,
    ))
        ensures
            (started.0@, started.1@) == ImageSyncModel::start(self@, directory@, options@),
            !started.1@.changes_the_world(),
    {
        ImageSync::start(self.duplicate(), directory.as_str(), options)
    }

    /// A second value that names the same image.
    pub fn duplicate(&self) -> (copy: DockerImage)
        ensures
            copy@ == self@,
    {
        proof {
            use_type_invariant(self);
        }
        DockerImage { repository: self.repository.clone(), image: self.image.clone() }
    }
}

} // verus!
