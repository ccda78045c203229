//! The photo gallery: a shuffled list of image paths shown one after another.
use vstd::prelude::*;
use rand::seq::SliceRandom;
use std::path::PathBuf;

verus! {

#[verifier::external_type_specification]
#[verifier::external_body]
pub struct ExPathBuf(PathBuf);

/// `PathBuf::new`, the empty path; nothing is claimed of it.
pub assume_specification[ PathBuf::new ]() -> PathBuf;

/// `PathBuf::clone`, which copies the path: the copy is the same path.
pub assume_specification[ <PathBuf as Clone>::clone ](p: &PathBuf) -> (r: PathBuf)
    ensures
        r == *p,
;

/// Calls `SliceRandom::shuffle` with the thread-local generator `rand::rng()`.
/// Trusted: the result is some permutation of the paths (the shuffle only
/// swaps elements); which one is left to chance and is not stated.
#[verifier::external_body]
fn shuffle(images: &mut Vec<PathBuf>)
    ensures
        final(images)@.to_multiset() == old(images)@.to_multiset(),
        final(images)@.len() == old(images)@.len(),
{
    images.shuffle(&mut rand::rng());
}

/// Why a gallery could not be made.
#[derive(Debug, Clone, Copy, PartialEq, Eq, Structural)]
pub enum GalleryError {
    /// No images found.
    NoImages,
}

/// A shuffled list of images and the one on show.
#[derive(Debug, PartialEq, Eq, Hash)]
pub struct Gallery {
    images: Vec<PathBuf>,
    current: usize,
}

impl Gallery {
    #[verifier::type_invariant]
    spec fn shows_an_image(self) -> bool {
        self.current < self.images@.len()
    }

    /// The images, in the order they are shown.
    pub closed spec fn images(&self) -> Seq<PathBuf> {
        self.images@
    }

    /// The position of the image on show.
    pub closed spec fn current(&self) -> nat {
        self.current as nat
    }

    /// A gallery of `images` in a random order, showing the first; refused
    /// when there are none.
    pub fn new(images: Vec<PathBuf>) -> (r: Result<Gallery, GalleryError>)
        ensures
            images@.len() == 0 <==> r is Err,
            r matches Err(e) ==> e == GalleryError::NoImages,
            r matches Ok(g) ==> g.images().to_multiset() == images@.to_multiset() && g.current() == 0
                && g.images().len() == images@.len(),
    {
        let mut images = images;
        if images.len() == 0 {
            return Err(GalleryError::NoImages);
        }
        shuffle(&mut images);
        Ok(Gallery { images, current: 0 })
    }

    /// The image on show.
    pub fn image(&self) -> (p: &PathBuf)
        ensures
            self.current() < self.images().len(),
            *p == self.images()[self.current() as int],
    {
        proof {
            use_type_invariant(self);
        }
        &self.images[self.current]
    }

    /// Moves to the next image; after the last one, starts over from the first
    /// of a fresh shuffle of the same images.
    pub fn next(&mut self)
        ensures
            final(self).images().to_multiset() == old(self).images().to_multiset(),
            final(self).images().len() == old(self).images().len(),
            final(self).current() < final(self).images().len(),
            old(self).current() + 1 < old(self).images().len() ==> final(self).current() == old(self).current() + 1
                && final(self).images() == old(self).images(),
            old(self).current() + 1 >= old(self).images().len() ==> final(self).current() == 0,
    {
        proof {
            use_type_invariant(&*self);
        }
        let len: usize = self.images.len();
        let stepped: usize = self.current + 1;
        if stepped >= len {
            // Take the gallery out, leaving a valid placeholder, so that its
            // invariant holds while the images are reshuffled.
            let mut taken = Gallery { images: vec![PathBuf::new()], current: 0 };
            std::mem::swap(self, &mut taken);
            let Gallery { images, current: _ } = taken;
            let mut images = images;
            shuffle(&mut images);
            *self = Gallery { images, current: 0 };
        } else {
            self.current = stepped;
        }
    }
}

impl Clone for Gallery {
    fn clone(&self) -> (g: Gallery)
        ensures
            g.current() == self.current(),
            g.images() == self.images(),
    {
        proof {
            use_type_invariant(self);
        }
        let images = self.images.clone();
        assert(images@ =~= self.images@);
        Gallery { images, current: self.current }
    }
}

/// Whether a directory entry is a JPEG picture: a regular file whose name is
/// `.jpg` or `.JPG` (the last path component compared as a whole).
pub fn is_image_file(file_name: Option<String>, is_file: bool) -> (b: bool)
    ensures
        b == (is_file && match file_name {
            Some(name) => name@ == ".jpg"@ || name@ == ".JPG"@,
            None => false,
        }),
{
    if !is_file {
        return false;
    }
    match file_name {
        Some(name) => {
            let lower = String::from_str(".jpg");
            let upper = String::from_str(".JPG");
            name == lower || name == upper
        },
        None => false,
    }
}

} // verus!
