//! What is asked of the image service, and how far a download has come.

use vstd::prelude::*;
use vstd::string::*;

verus! {

/// The text of an optional string slice, or `fallback` where there is none.
pub open spec fn text_or(text: Option<&str>, fallback: Seq<char>) -> Seq<char> {
    match text {
        Some(text) => text@,
        None => fallback,
    }
}

/// A parameter of the query: `name` and the value where there is one that
/// is not empty, else nothing.
pub open spec fn parameter(name: Seq<char>, value: Option<&str>) -> Seq<char> {
    match value {
        Some(text) => if text@.len() > 0 {
            name + text@
        } else {
            Seq::empty()
        },
        None => Seq::empty(),
    }
}

/// The address of a search: the query, `nature` where none is given, then
/// the collection and the artist where they are given.
pub open spec fn search_address(
    query: Option<&str>,
    collection: Option<&str>,
    artist: Option<&str>,
) -> Seq<char> {
    "https://api.unsplash.com/search/photos"@ + "?query="@ + text_or(query, "nature"@) + parameter(
        "&collections="@,
        collection,
    ) + parameter("&username="@, artist)
}

/// Builds the address of a search.
pub fn search_url(query: Option<&str>, collection: Option<&str>, artist: Option<&str>) -> (url:
    String)
    ensures
        url@ == search_address(query, collection, artist),
{
    let mut url = "https://api.unsplash.com/search/photos".to_owned();
    url.append("?query=");
    match query {
        Some(text) => url.append(text),
        None => url.append("nature"),
    }
    let ghost head = url@;
    match collection {
        Some(text) => {
            if !text.is_empty() {
                url.append("&collections=");
                url.append(text);
                assert(url@ =~= head + ("&collections="@ + text@));
            }
        },
        None => {},
    }
    assert(url@ =~= head + parameter("&collections="@, collection));
    let ghost middle = url@;
    match artist {
        Some(text) => {
            if !text.is_empty() {
                url.append("&username=");
                url.append(text);
                assert(url@ =~= middle + ("&username="@ + text@));
            }
        },
        None => {},
    }
    assert(url@ =~= middle + parameter("&username="@, artist));
    url
}

/// Builds the value of the authorization header: `Client-ID`, a space, and
/// the access key.
pub fn authorization(access_key: &str) -> (value: String)
    ensures
        value@ == "Client-ID "@ + access_key@,
{
    let mut value = "Client-ID ".to_owned();
    value.append(access_key);
    value
}

/// The bytes of a download that have arrived once a chunk is in: the sum,
/// capped at the total that was announced.
pub fn downloaded_after(downloaded: u64, chunk: u64, total: u64) -> (now: u64)
    ensures
        now == if downloaded + chunk <= total {
            downloaded + chunk
        } else {
            total as int
        },
{
    if downloaded <= total && chunk <= total - downloaded {
        downloaded + chunk
    } else {
        total
    }
}

} // verus!
