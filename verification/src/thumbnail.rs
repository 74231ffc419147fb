//! Where thumbnails are cached and where the high-resolution ones are fetched.
use vstd::prelude::*;
use std::path::PathBuf;
use crate::text::concat;

verus! {

#[verifier::external_type_specification]
#[verifier::external_body]
pub struct ExPathBuf(PathBuf);

/// Calls `dirs::cache_dir`: the user's cache directory, which the
/// environment decides (`$XDG_CACHE_HOME`, else `$HOME/.cache` on Linux);
/// nothing is claimed of it.
#[verifier::external_body]
fn user_cache_dir() -> Option<PathBuf> {
    dirs::cache_dir()
}

/// The path that `PathBuf::from` makes of the string `s`.
pub uninterp spec fn path_of_str(s: Seq<char>) -> PathBuf;

/// The path that `Path::join` makes of `base` with `part` adjoined.
pub uninterp spec fn joined_path(base: PathBuf, part: Seq<char>) -> PathBuf;

/// Calls `PathBuf::from` on a string; the result is the name `path_of_str`
/// of the string, which `PathBuf::from` alone decides.
#[verifier::external_body]
fn path_from(s: &str) -> (r: PathBuf)
    ensures
        r == path_of_str(s@),
{
    PathBuf::from(s)
}

/// Calls `Path::join`; the result is the name `joined_path` of the base and
/// the adjoined string, which `Path::join` alone decides.
#[verifier::external_body]
fn path_join(base: &PathBuf, part: &str) -> (r: PathBuf)
    ensures
        r == joined_path(*base, part@),
{
    base.join(part)
}

/// The base directory to use: the user's cache directory when there is one,
/// else `/tmp`.
pub open spec fn cache_base(user_dir: Option<PathBuf>) -> PathBuf {
    match user_dir {
        Some(p) => p,
        None => path_of_str("/tmp"@),
    }
}

/// The thumbnail cache under the directory `base`: `base/groovebox/thumbs`.
pub open spec fn thumbs_under(base: PathBuf) -> PathBuf {
    joined_path(joined_path(base, "groovebox"@), "thumbs"@)
}

/// Whether `p` is the thumbnail cache for some answer of the environment
/// about the user's cache directory.
pub open spec fn is_cache_dir(p: PathBuf) -> bool {
    exists|user_dir: Option<PathBuf>| p == #[trigger] thumbs_under(cache_base(user_dir))
}

/// The thumbnail cache: `groovebox/thumbs` under the user's cache
/// directory, or under `/tmp` when there is none. Which directory that is,
/// the environment decides.
pub fn cache_dir() -> (r: PathBuf)
    ensures
        is_cache_dir(r),
{
    let user_dir = user_cache_dir();
    let ghost g = user_dir;
    let r = cache_dir_in(user_dir);
    assert(r == thumbs_under(cache_base(g)));
    r
}

/// The thumbnail cache for the user's cache directory `user_dir` as the
/// environment reports it: `groovebox/thumbs` under it, or under `/tmp`
/// when there is none.
pub fn cache_dir_in(user_dir: Option<PathBuf>) -> (r: PathBuf)
    ensures
        r == thumbs_under(cache_base(user_dir)),
{
    let base = match user_dir {
        Some(p) => p,
        None => path_from("/tmp"),
    };
    let app = path_join(&base, "groovebox");
    path_join(&app, "thumbs")
}

/// The file name of a video's cached thumbnail.
pub fn thumbnail_file_name(youtube_id: &str) -> (r: String)
    ensures
        r@ == youtube_id@ + ".jpg"@,
{
    concat(youtube_id, ".jpg")
}

/// The file name of a video's cached high-resolution thumbnail.
pub fn hires_thumbnail_file_name(youtube_id: &str) -> (r: String)
    ensures
        r@ == youtube_id@ + "_hires.jpg"@,
{
    concat(youtube_id, "_hires.jpg")
}

/// Where a video's thumbnail is cached: `{id}.jpg` in `cache_dir`.
pub fn thumbnail_path(youtube_id: &str) -> (r: PathBuf)
    ensures
        exists|dir: PathBuf|
            is_cache_dir(dir) && r == #[trigger] joined_path(dir, youtube_id@ + ".jpg"@),
{
    let name = thumbnail_file_name(youtube_id);
    let dir = cache_dir();
    let r = path_join(&dir, name.as_str());
    assert(is_cache_dir(dir) && r == joined_path(dir, youtube_id@ + ".jpg"@));
    r
}

/// Where a video's high-resolution thumbnail is cached: `{id}_hires.jpg` in `cache_dir`.
pub fn hires_thumbnail_path(youtube_id: &str) -> (r: PathBuf)
    ensures
        exists|dir: PathBuf|
            is_cache_dir(dir) && r == #[trigger] joined_path(dir, youtube_id@ + "_hires.jpg"@),
{
    let name = hires_thumbnail_file_name(youtube_id);
    let dir = cache_dir();
    let r = path_join(&dir, name.as_str());
    assert(is_cache_dir(dir) && r == joined_path(dir, youtube_id@ + "_hires.jpg"@));
    r
}

/// The thumbnail URLs of a video, best first: 1280x720, 640x480, 480x360.
pub open spec fn spec_hires_candidates(id: Seq<char>) -> Seq<Seq<char>> {
    seq![
        "https://i.ytimg.com/vi/"@ + id + "/maxresdefault.jpg"@,
        "https://i.ytimg.com/vi/"@ + id + "/sddefault.jpg"@,
        "https://i.ytimg.com/vi/"@ + id + "/hqdefault.jpg"@,
    ]
}

/// The thumbnail URLs to try for a video, best first.
pub fn hires_candidates(youtube_id: &str) -> (r: Vec<String>)
    ensures
        r@.map_values(|s: String| s@) == spec_hires_candidates(youtube_id@),
{
    let base = concat("https://i.ytimg.com/vi/", youtube_id);
    let mut r: Vec<String> = Vec::new();
    r.push(concat(base.as_str(), "/maxresdefault.jpg"));
    r.push(concat(base.as_str(), "/sddefault.jpg"));
    r.push(concat(base.as_str(), "/hqdefault.jpg"));
    assert(r@.map_values(|s: String| s@) =~= spec_hires_candidates(youtube_id@));
    r
}

/// Whether a downloaded thumbnail is a real image: YouTube answers a
/// missing resolution with a placeholder of at most 2000 bytes.
pub fn is_real_thumbnail(len: usize) -> (r: bool)
    ensures
        r == (len > 2000),
{
    len > 2000
}

} // verus!
