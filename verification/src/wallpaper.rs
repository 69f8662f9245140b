//! Choosing what kind of wallpaper to generate, and where to put it.

use vstd::prelude::*;
use vstd::string::*;
use crate::utils::{generate_unique_filename, stamped_filename};

verus! {

/// The kinds of generated wallpaper.
#[derive(Clone, Copy, Debug, PartialEq, Eq, Structural)]
pub enum WallpaperType {
    /// A colour gradient.
    Gradient,
    /// The traces of random walkers.
    RandomWalk,
    /// A cloud of random points.
    RandomPlot,
}

/// How many kinds there are.
pub const WALLPAPER_KINDS: u32 = 3;

/// A number below `bound`, drawn at random.
///
/// Trusted: calls `rand::Rng::gen_range` on `rand::thread_rng()` with the
/// range `0..bound` and claims that the number lies in that range. The range
/// must not be empty.
#[verifier::external_body]
fn random_below(bound: u32) -> (roll: u32)
    requires
        bound > 0,
    ensures
        roll < bound,
{
    rand::Rng::gen_range(&mut rand::thread_rng(), 0..bound)
}

impl WallpaperType {
    /// The kind that a roll stands for: 0 a gradient, 1 a random plot,
    /// anything else a random walk.
    pub open spec fn of_roll(roll: u32) -> WallpaperType {
        if roll == 0 {
            WallpaperType::Gradient
        } else if roll == 1 {
            WallpaperType::RandomPlot
        } else {
            WallpaperType::RandomWalk
        }
    }

    /// The kind that a roll stands for.
    pub fn from_roll(roll: u32) -> (kind: WallpaperType)
        ensures
            kind == Self::of_roll(roll),
    {
        match roll {
            0 => WallpaperType::Gradient,
            1 => WallpaperType::RandomPlot,
            _ => WallpaperType::RandomWalk,
        }
    }

    /// One of the kinds, drawn at random.
    pub fn random() -> (kind: WallpaperType)
        ensures
            exists|roll: u32| roll < WALLPAPER_KINDS && kind == #[trigger] Self::of_roll(roll),
    {
        let roll = random_below(WALLPAPER_KINDS);
        WallpaperType::from_roll(roll)
    }
}

/// What to generate, and the file to save it to.
#[derive(Debug)]
pub struct WallpaperPlan {
    /// The file to write.
    pub file_path: String,
    /// The kind of wallpaper to draw.
    pub kind: WallpaperType,
}

/// Plans one generated wallpaper: a kind drawn at random, and a file under
/// `directory` whose name is unique to the second and ends in `.jpg`.
pub fn plan_wallpaper(directory: &str) -> (plan: WallpaperPlan)
    ensures
        exists|stamp: Seq<char>|
            plan.file_path@ == #[trigger] stamped_filename(directory@, stamp, "jpg"@),
{
    let file_path = generate_unique_filename(directory, "jpg");
    let kind = WallpaperType::random();
    WallpaperPlan { file_path, kind }
}

} // verus!
