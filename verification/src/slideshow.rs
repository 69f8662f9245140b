//! Cycling through the images of a directory.

use vstd::prelude::*;
use vstd::string::*;
use crate::errors::{ErrorView, WallrusError};
use crate::utils::str_eq;

verus! {

/// Whether a file with this extension is shown: `jpg` and `png` are.
pub open spec fn shown_extension(extension: Option<Seq<char>>) -> bool {
    extension matches Some(text) && (text == "jpg"@ || text == "png"@)
}

/// Whether a file with this extension is shown.
pub fn is_slideshow_image(extension: Option<&str>) -> (shown: bool)
    ensures
        shown == shown_extension(
            match extension {
                Some(text) => Some(text@),
                None => None,
            },
        ),
{
    match extension {
        Some(text) => str_eq(text, "jpg") || str_eq(text, "png"),
        None => false,
    }
}

/// An endless round through a number of images.
#[derive(Debug)]
pub struct Slideshow {
    count: usize,
    position: usize,
}

impl Slideshow {
    /// There is an image, and the position is that of one.
    #[verifier::type_invariant]
    pub closed spec fn wf(&self) -> bool {
        self.position < self.count
    }

    /// How many images there are.
    pub closed spec fn spec_count(&self) -> usize {
        self.count
    }

    /// The image that is shown next.
    pub closed spec fn spec_position(&self) -> usize {
        self.position
    }

    /// A slideshow of `count` images that starts at the first. Without an
    /// image it is refused as a configuration error.
    pub fn new(count: usize) -> (made: Result<Slideshow, WallrusError>)
        ensures
            count > 0 ==> (made matches Ok(show) && show.spec_count() == count
                && show.spec_position() == 0),
            count == 0 ==> (made matches Err(error) && error@ == ErrorView::Config(
                "No valid images found in directory"@,
            )),
    {
        if count == 0 {
            Err(WallrusError::Config("No valid images found in directory".to_owned()))
        } else {
            Ok(Slideshow { count, position: 0 })
        }
    }

    /// How many images there are.
    pub fn count(&self) -> (count: usize)
        ensures
            count == self.spec_count(),
            count > 0,
    {
        proof {
            use_type_invariant(self);
        }
        self.count
    }

    /// The image to show now, and moves on to the one after it; after the
    /// last comes the first.
    pub fn advance(&mut self) -> (shown: usize)
        ensures
            shown == old(self).spec_position(),
            shown < old(self).spec_count(),
            final(self).spec_count() == old(self).spec_count(),
            final(self).spec_position() == if old(self).spec_position() + 1 == old(
                self,
            ).spec_count() {
                0
            } else {
                old(self).spec_position() + 1
            },
    {
        proof {
            use_type_invariant(&*self);
        }
        let shown = self.position;
        let next = if shown + 1 == self.count {
            0
        } else {
            shown + 1
        };
        *self = Slideshow { count: self.count, position: next };
        shown
    }
}

} // verus!
