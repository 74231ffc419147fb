//! Start-up checks: which external programs must be installed, and how the
//! user is offered to install the missing ones.
use vstd::prelude::*;
use crate::text::{chars_of, concat, str_eq, string_of_range, trim, trim_range};

verus! {

/// The programs the player runs: yt-dlp, mpv and ffmpeg.
pub open spec fn spec_required() -> Seq<Seq<char>> {
    seq!["yt-dlp"@, "mpv"@, "ffmpeg"@]
}

/// The programs the player needs, in the order they are checked.
pub fn required_dependencies() -> (r: Vec<&'static str>)
    ensures
        r@.map_values(|s: &str| s@) == spec_required(),
{
    let mut r: Vec<&'static str> = Vec::new();
    r.push("yt-dlp");
    r.push("mpv");
    r.push("ffmpeg");
    assert(r@.map_values(|s: &str| s@) =~= spec_required());
    r
}

/// The entries of `names` other than yt-dlp, in order.
pub open spec fn without_ytdlp(names: Seq<Seq<char>>) -> Seq<Seq<char>>
    decreases names.len(),
{
    if names.len() == 0 {
        Seq::empty()
    } else if names.last() == "yt-dlp"@ {
        without_ytdlp(names.drop_last())
    } else {
        without_ytdlp(names.drop_last()).push(names.last())
    }
}

/// The missing programs a package manager may install: all but yt-dlp,
/// whose distribution builds lag too far behind YouTube to play anything.
pub fn installable<'a>(missing: &Vec<&'a str>) -> (r: Vec<&'a str>)
    ensures
        r@.map_values(|s: &str| s@) == without_ytdlp(missing@.map_values(|s: &str| s@)),
{
    let mut r: Vec<&'a str> = Vec::new();
    let mut i: usize = 0;
    while i < missing.len()
        invariant
            0 <= i <= missing@.len(),
            r@.map_values(|s: &str| s@) == without_ytdlp(missing@.subrange(0, i as int).map_values(
                |s: &str| s@,
            )),
        decreases missing@.len() - i,
    {
        let name = missing[i];
        let ghost prev = missing@.subrange(0, i as int).map_values(|s: &str| s@);
        let ghost next = missing@.subrange(0, i + 1).map_values(|s: &str| s@);
        assert(next.drop_last() =~= prev);
        assert(next.last() == name@);
        if !str_eq(name, "yt-dlp") {
            r.push(name);
            assert(r@.map_values(|s: &str| s@) =~= without_ytdlp(prev).push(name@));
        }
        i = i + 1;
    }
    assert(missing@.subrange(0, missing@.len() as int) =~= missing@);
    r
}

/// The package managers the installer knows.
#[derive(Debug, Clone, Copy, PartialEq, Eq, Structural)]
pub enum PackageManager {
    Brew,
    Apt,
    Dnf,
    Pacman,
}

/// The package managers in the order they are looked for: Homebrew, apt,
/// dnf, pacman.
pub fn probe_order() -> (r: [PackageManager; 4])
    ensures
        r@ == seq![
            PackageManager::Brew,
            PackageManager::Apt,
            PackageManager::Dnf,
            PackageManager::Pacman,
        ],
{
    let r = [PackageManager::Brew, PackageManager::Apt, PackageManager::Dnf, PackageManager::Pacman];
    assert(r@ =~= seq![
        PackageManager::Brew,
        PackageManager::Apt,
        PackageManager::Dnf,
        PackageManager::Pacman,
    ]);
    r
}

/// The command line that installs `packages` with `manager`.
pub open spec fn spec_install_command(manager: PackageManager, packages: Seq<char>) -> Seq<char> {
    match manager {
        PackageManager::Brew => "brew install "@ + packages,
        PackageManager::Apt => "sudo apt install -y "@ + packages,
        PackageManager::Dnf => "sudo dnf install -y "@ + packages,
        PackageManager::Pacman => "sudo pacman -S --noconfirm "@ + packages,
    }
}

/// The command line that installs `packages` (space-separated) with `manager`.
pub fn install_command(manager: PackageManager, packages: &str) -> (r: String)
    ensures
        r@ == spec_install_command(manager, packages@),
{
    match manager {
        PackageManager::Brew => concat("brew install ", packages),
        PackageManager::Apt => concat("sudo apt install -y ", packages),
        PackageManager::Dnf => concat("sudo dnf install -y ", packages),
        PackageManager::Pacman => concat("sudo pacman -S --noconfirm ", packages),
    }
}

/// `s` in lower case, as `str::to_lowercase` maps it.
pub uninterp spec fn lowercase(s: Seq<char>) -> Seq<char>;

/// Calls `str::to_lowercase`; the result is the name `lowercase` of the argument.
#[verifier::external_body]
fn to_lowercase(s: &str) -> (r: String)
    ensures
        r@ == lowercase(s@),
{
    s.to_lowercase()
}

/// Whether a trimmed, lower-cased answer to "Run this command? [Y/n]" says
/// yes: empty (the default), `y` or `yes`.
pub open spec fn spec_is_yes(answer: Seq<char>) -> bool {
    answer == ""@ || answer == "y"@ || answer == "yes"@
}

/// Whether a trimmed, lower-cased answer says yes (see `spec_is_yes`).
pub fn is_yes_answer(answer: &str) -> (r: bool)
    ensures
        r == spec_is_yes(answer@),
{
    str_eq(answer, "") || str_eq(answer, "y") || str_eq(answer, "yes")
}

/// Whether the user's answer to the install prompt accepts: the answer is
/// trimmed, lower-cased, and then has to say yes.
pub fn accepts_install(answer: &str) -> (r: bool)
    ensures
        r == spec_is_yes(lowercase(trim(answer@))),
{
    let v = chars_of(answer);
    let (a, b) = trim_range(&v, 0, v.len());
    assert(v@.subrange(0, v@.len() as int) =~= answer@);
    let trimmed = string_of_range(&v, a, b);
    let lowered = to_lowercase(trimmed.as_str());
    is_yes_answer(lowered.as_str())
}

} // verus!
