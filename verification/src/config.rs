//! The settings of the program and their validation.

use vstd::prelude::*;
use vstd::string::*;
use crate::errors::{ErrorView, WallrusError};
use crate::utils::path_exists;

verus! {

/// The image quality that is used where none is set.
pub const DEFAULT_IMAGE_QUALITY: u8 = 80;

/// The seconds between two slides where no interval is set.
pub const DEFAULT_SLIDESHOW_INTERVAL: u64 = 5;

/// The highest image quality.
pub const MAX_IMAGE_QUALITY: u8 = 100;

/// The settings of the program.
#[derive(Debug)]
pub struct Config {
    /// The access key of the image service.
    pub unsplash_access_key: String,
    /// The directory that images are kept in.
    pub image_path: String,
    /// The quality of encoded images, from 0 to 100.
    pub image_quality: u8,
    /// The seconds between two slides.
    pub slideshow_interval: u64,
}

/// The image quality that is used where none is set.
pub fn default_image_quality() -> (quality: u8)
    ensures
        quality == DEFAULT_IMAGE_QUALITY,
{
    DEFAULT_IMAGE_QUALITY
}

/// The seconds between two slides where no interval is set.
pub fn default_slideshow_interval() -> (seconds: u64)
    ensures
        seconds == DEFAULT_SLIDESHOW_INTERVAL,
{
    DEFAULT_SLIDESHOW_INTERVAL
}

/// What is wrong with settings, if anything, given whether the image path
/// exists: the first of an empty access key, a missing image path, and a
/// quality above 100.
pub open spec fn fault_of(
    access_key: Seq<char>,
    image_path_exists: bool,
    image_quality: u8,
) -> Option<Seq<char>> {
    if access_key.len() == 0 {
        Some("Unsplash access key is empty"@)
    } else if !image_path_exists {
        Some("Image path does not exist"@)
    } else if image_quality > MAX_IMAGE_QUALITY {
        Some("Image quality must be between 0 and 100"@)
    } else {
        None
    }
}

/// Whether `checked` reports `fault`, as a configuration error, or its
/// absence.
pub open spec fn reports(checked: Result<(), WallrusError>, fault: Option<Seq<char>>) -> bool {
    match fault {
        None => checked is Ok,
        Some(text) => checked matches Err(error) && error@ == ErrorView::Config(text),
    }
}

impl Config {
    /// What is wrong with these settings, if anything.
    pub open spec fn fault(&self, image_path_exists: bool) -> Option<Seq<char>> {
        fault_of(self.unsplash_access_key@, image_path_exists, self.image_quality)
    }

    /// Validates the settings, given whether the image path exists.
    pub fn validate_with(&self, image_path_exists: bool) -> (checked: Result<(), WallrusError>)
        ensures
            reports(checked, self.fault(image_path_exists)),
    {
        if self.unsplash_access_key.as_str().is_empty() {
            return Err(WallrusError::Config("Unsplash access key is empty".to_owned()));
        }
        if !image_path_exists {
            return Err(WallrusError::Config("Image path does not exist".to_owned()));
        }
        if self.image_quality > MAX_IMAGE_QUALITY {
            return Err(WallrusError::Config("Image quality must be between 0 and 100".to_owned()));
        }
        Ok(())
    }

    /// Validates the settings: the access key is not empty, the image path
    /// exists, and the quality is at most 100. Whether the path exists is
    /// asked of the file system; the rest is decided by the settings alone.
    pub fn validate(&self) -> (checked: Result<(), WallrusError>)
        ensures
            reports(checked, self.fault(true)) || reports(checked, self.fault(false)),
            self.unsplash_access_key@.len() == 0 ==> reports(checked, self.fault(true)),
            checked is Ok ==> self.unsplash_access_key@.len() > 0 && self.image_quality
                <= MAX_IMAGE_QUALITY,
    {
        let exists = path_exists(self.image_path.as_str());
        self.validate_with(exists)
    }

    /// What is wrong with the values taken from the environment, if
    /// anything: a variable that is not set, or a fault of the settings made
    /// of them with the default quality and interval.
    pub open spec fn load_fault(
        access_key: Option<String>,
        image_path: Option<String>,
        image_path_exists: bool,
    ) -> Option<Seq<char>> {
        match (access_key, image_path) {
            (None, _) => Some("UNSPLASH_ACCESS_KEY not found in environment"@),
            (Some(_), None) => Some("IMAGE_PATH not found in environment"@),
            (Some(key), Some(_)) => fault_of(key@, image_path_exists, DEFAULT_IMAGE_QUALITY),
        }
    }

    /// Makes the settings from the values of the two variables of the
    /// environment, given whether the image path exists, with the default
    /// quality and interval, and validates them.
    pub fn from_values(
        access_key: Option<String>,
        image_path: Option<String>,
        image_path_exists: bool,
    ) -> (loaded: Result<Config, WallrusError>)
        ensures
            match Self::load_fault(access_key, image_path, image_path_exists) {
                Some(text) => loaded matches Err(error) && error@ == ErrorView::Config(text),
                None => loaded matches Ok(config) && {
                    &&& access_key matches Some(key) && config.unsplash_access_key == key
                    &&& image_path matches Some(path) && config.image_path == path
                    &&& config.image_quality == DEFAULT_IMAGE_QUALITY
                    &&& config.slideshow_interval == DEFAULT_SLIDESHOW_INTERVAL
                },
            },
    {
        let unsplash_access_key = match access_key {
            Some(key) => key,
            None => {
                return Err(
                    WallrusError::Config("UNSPLASH_ACCESS_KEY not found in environment".to_owned()),
                );
            },
        };
        let image_path = match image_path {
            Some(path) => path,
            None => {
                return Err(WallrusError::Config("IMAGE_PATH not found in environment".to_owned()));
            },
        };
        let config = Config {
            unsplash_access_key,
            image_path,
            image_quality: default_image_quality(),
            slideshow_interval: default_slideshow_interval(),
        };
        match config.validate_with(image_path_exists) {
            Ok(_) => Ok(config),
            Err(error) => Err(error),
        }
    }

    /// Makes the settings from the values of the two variables of the
    /// environment and validates them. Whether the image path exists is
    /// asked of the file system.
    pub fn from_environment(access_key: Option<String>, image_path: Option<String>) -> (loaded:
        Result<Config, WallrusError>)
        ensures
            exists|image_path_exists: bool|
                match #[trigger] Self::load_fault(access_key, image_path, image_path_exists) {
                    Some(text) => loaded matches Err(error) && error@ == ErrorView::Config(text),
                    None => loaded matches Ok(config) && {
                        &&& access_key matches Some(key) && config.unsplash_access_key == key
                        &&& image_path matches Some(path) && config.image_path == path
                        &&& config.image_quality == DEFAULT_IMAGE_QUALITY
                        &&& config.slideshow_interval == DEFAULT_SLIDESHOW_INTERVAL
                    },
                },
    {
        let exists = match &image_path {
            Some(path) => path_exists(path.as_str()),
            None => false,
        };
        let loaded = Config::from_values(access_key, image_path, exists);
        assert(Self::load_fault(access_key, image_path, exists) is Some || Self::load_fault(
            access_key,
            image_path,
            exists,
        ) is None);
        loaded
    }
}

} // verus!
