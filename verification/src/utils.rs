//! Small helpers on strings and file names.

use vstd::prelude::*;
use vstd::string::*;

verus! {

/// The pattern of the time stamp in a file name: year, month, day, hour,
/// minute and second, without anything between them.
pub const TIMESTAMP_PATTERN: &'static str = "%Y%m%d%H%M%S";

/// A path as the standard library writes it for debugging: in double
/// quotes, with what cannot be shown as it is escaped.
pub uninterp spec fn path_debug_form(path: Seq<char>) -> Seq<char>;

/// Whether two string slices hold the same characters.
pub(crate) fn str_eq(a: &str, b: &str) -> (same: bool)
    ensures
        same == (a@ == b@),
{
    a.to_owned() == b.to_owned()
}

/// Writes a path as the standard library writes it for debugging.
///
/// Trusted: formats `std::path::Path::new(path)` with `{:?}` and gives what
/// that writes the name `path_debug_form`. The contract claims only that the
/// text is a function of the path.
#[verifier::external_body]
pub(crate) fn path_debug(path: &str) -> (text: String)
    ensures
        text@ == path_debug_form(path@),
{
    format!("{:?}", std::path::Path::new(path))
}

/// Whether something exists at `path` right now.
///
/// Trusted: calls `std::path::Path::exists`. What it answers depends on the
/// file system, so the contract claims nothing of it.
#[verifier::external_body]
pub(crate) fn path_exists(path: &str) -> bool {
    std::path::Path::new(path).exists()
}

/// Whether a regular file is at `path` right now.
///
/// Trusted: calls `std::path::Path::is_file`. What it answers depends on the
/// file system, so the contract claims nothing of it.
#[verifier::external_body]
fn path_is_file(path: &str) -> bool {
    std::path::Path::new(path).is_file()
}

/// The current time in UTC, written after `pattern`.
///
/// Trusted: calls `chrono::Utc::now` and formats what it returns with
/// `pattern`. What it answers depends on the clock, so the contract claims
/// nothing of it. The pattern must be `TIMESTAMP_PATTERN`, which holds only
/// specifiers that chrono knows; with others the formatting would panic.
#[verifier::external_body]
fn utc_timestamp(pattern: &str) -> String
    requires
        pattern@ == TIMESTAMP_PATTERN@,
{
    chrono::Utc::now().format(pattern).to_string()
}

/// Borrows the text of an optional string.
pub fn str_option_to_slice(option: &Option<String>) -> (slice: Option<&str>)
    ensures
        option is Some <==> slice is Some,
        option matches Some(text) ==> slice->0@ == text@,
{
    match option {
        Some(text) => Some(text.as_str()),
        None => None,
    }
}

/// Whether `path` points to a file: it exists and is a regular file.
pub fn is_valid_file(path: &str) -> bool {
    path_is_file(path)
}

/// `base` as a directory prefix: with a `/` at its end.
pub open spec fn directory_prefix(base: Seq<char>) -> Seq<char> {
    if base.len() > 0 && base.last() == '/' {
        base
    } else {
        base + seq!['/']
    }
}

/// The file name for a wallpaper made at the time `stamp` stands for: the
/// directory, `Wallrus-`, the time stamp, a dot and the extension.
pub open spec fn stamped_filename(base: Seq<char>, stamp: Seq<char>, extension: Seq<char>) -> Seq<
    char,
> {
    directory_prefix(base) + "Wallrus-"@ + stamp + "."@ + extension
}

/// Builds the file name for a wallpaper made at the time `stamp` stands for.
pub fn filename_at(base_path: &str, stamp: &str, extension: &str) -> (name: String)
    ensures
        name@ == stamped_filename(base_path@, stamp@, extension@),
{
    let length = base_path.unicode_len();
    let mut name = base_path.to_owned();
    if length == 0 || base_path.get_char(length - 1) != '/' {
        name.append("/");
        proof {
            reveal_strlit("/");
            assert("/"@ =~= seq!['/']);
        }
    }
    assert(name@ == directory_prefix(base_path@));
    name.append("Wallrus-");
    name.append(stamp);
    name.append(".");
    name.append(extension);
    name
}

/// Builds a file name that is unique to the second: the directory,
/// `Wallrus-`, the current time in UTC written after `TIMESTAMP_PATTERN`, a
/// dot and the extension.
pub fn generate_unique_filename(base_path: &str, extension: &str) -> (name: String)
    ensures
        exists|stamp: Seq<char>| name@ == #[trigger] stamped_filename(base_path@, stamp, extension@),
{
    let stamp = utc_timestamp(TIMESTAMP_PATTERN);
    filename_at(base_path, stamp.as_str(), extension)
}

} // verus!
