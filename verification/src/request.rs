//! The request to make an image the desktop background.

use vstd::prelude::*;
use vstd::string::*;
use crate::dispatcher::{BackendDispatcher, DispatchState};
use crate::environment::text_of;
use crate::errors::{ErrorView, WallrusError};
use crate::utils::{path_debug, path_debug_form, path_exists};

verus! {

/// The path of an image file that is already rendered.
#[derive(Debug)]
pub struct WallpaperRequest {
    path: String,
}

/// What the caller is told where no file is at a path, given the path in
/// its debug form.
pub open spec fn missing_file(quoted: Seq<char>) -> Seq<char> {
    "Wallpaper file does not exist: "@ + quoted
}

/// The error for a path at which no file is, given the path in its debug
/// form.
pub fn missing_file_error(quoted: &str) -> (error: WallrusError)
    ensures
        error@ == ErrorView::Config(missing_file(quoted@)),
{
    let mut text = "Wallpaper file does not exist: ".to_owned();
    text.append(quoted);
    WallrusError::Config(text)
}

impl WallpaperRequest {
    /// The path of the image.
    pub closed spec fn spec_path(&self) -> Seq<char> {
        self.path@
    }

    /// Makes the request for the image at `path`, given whether a file is
    /// there. Without one the request is refused as a configuration error
    /// that names the path in its debug form.
    pub fn new(path: &str, exists: bool) -> (made: Result<WallpaperRequest, WallrusError>)
        ensures
            exists ==> (made matches Ok(request) && request.spec_path() == path@),
            !exists ==> (made matches Err(error) && error@ == ErrorView::Config(
                missing_file(path_debug_form(path@)),
            )),
    {
        if exists {
            Ok(WallpaperRequest { path: path.to_owned() })
        } else {
            let quoted = path_debug(path);
            Err(missing_file_error(quoted.as_str()))
        }
    }

    /// Makes the request for the image at `path`. Whether a file is there is
    /// asked of the file system.
    pub fn open(path: &str) -> (made: Result<WallpaperRequest, WallrusError>)
        ensures
            match made {
                Ok(request) => request.spec_path() == path@,
                Err(error) => error@ == ErrorView::Config(
                    missing_file(path_debug_form(path@)),
                ),
            },
    {
        let exists = path_exists(path);
        WallpaperRequest::new(path, exists)
    }

    /// The path of the image.
    pub fn path(&self) -> (path: &str)
        ensures
            path@ == self.spec_path(),
    {
        self.path.as_str()
    }

    /// The coordinator for this request on the desktop that the signals of
    /// the environment stand for: the desktop identifier, where one is set,
    /// and the presence of the compositor's instance signal.
    pub fn dispatcher(&self, desktop: Option<&str>, instance_signal: bool) -> (dispatcher:
        BackendDispatcher)
        ensures
            dispatcher@ == DispatchState::detected(text_of(desktop), instance_signal),
    {
        BackendDispatcher::for_environment(desktop, instance_signal)
    }
}

} // verus!
