//! Wallpaper-backend negotiation: deciding how an image becomes the desktop
//! background, and proving the decisions right.
//!
//! The library performs no input or output of its own beyond asking the
//! clock, the file system and the random number generator a question. It is
//! driven: the caller reports what the compositor or an external tool did,
//! and the library answers with what to do next.
//!
//! - [`environment`] tells the desktop from the signals of the environment.
//! - [`request`] and [`dispatcher`] coordinate the backends.
//! - [`native`], [`client`], [`surface`] and [`buffer`] are the native
//!   compositor client, [`scaler`] scales the image for it.
//! - [`tools`] and [`chain`] are the external tools and their order.
//! - [`config`], [`slideshow`], [`unsplash`], [`wallpaper`] and [`utils`]
//!   hold the rules of the program around the engine.

pub mod buffer;
pub mod chain;
pub mod client;
pub mod command;
pub mod config;
pub mod dispatcher;
pub mod environment;
pub mod errors;
pub mod native;
pub mod request;
pub mod scaler;
pub mod slideshow;
pub mod surface;
pub mod tools;
pub mod unsplash;
pub mod utils;
pub mod wallpaper;
