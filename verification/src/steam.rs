//! Screenshots and title resolution.
//!
//! A screenshot is identified by its filesystem path, carried here as a plain
//! string of '/'-separated segments. The numeric application identifier is
//! parsed from the third-from-last segment, as the screenshot directory layout
//! `<app-id>/screenshots/<file>` dictates; anything unparsable yields 0.

use vstd::prelude::*;

verus! {

use vstd::string::*;
use crate::strutil::{parse_u64, spec_digits, spec_parse_u64, split_slash, split_slash_exec, u64_to_string};

/// The application identifier encoded in a screenshot path: the numeric value
/// of the third-from-last '/'-separated segment, or 0 when there is no such
/// segment or it is not a number. Segments are counted as split on '/'
/// keeping empty pieces, so a path with a trailing or doubled separator
/// counts an empty segment where a filesystem path walk would collapse it;
/// the event filter admits no such path (it ends in the image extension).
pub open spec fn spec_game_id(path: Seq<char>) -> u64 {
    let segs = split_slash(path);
    if segs.len() >= 3 {
        match spec_parse_u64(segs[segs.len() - 3]) {
            Some(n) => n,
            None => 0,
        }
    } else {
        0
    }
}

/// The file name of a screenshot path: its last '/'-separated segment, absent
/// when the path ends in a separator (or is empty).
pub open spec fn spec_file_name(path: Seq<char>) -> Option<Seq<char>> {
    let segs = split_slash(path);
    if segs.last().len() > 0 {
        Some(segs.last())
    } else {
        None
    }
}

#[derive(Clone)]
pub struct GameScreenshot {
    pub game_id: u64,
    pub path: String,
}

impl GameScreenshot {
    /// The identifier is the one its path encodes.
    pub open spec fn wf(&self) -> bool {
        self.game_id == spec_game_id(self.path@)
    }

    /// Builds a screenshot from its path, deriving the application identifier.
    pub fn from_path(path: &str) -> (r: GameScreenshot)
        ensures
            r.path@ == path@,
            r.game_id == spec_game_id(path@),
            r.wf(),
    {
        let segs = split_slash_exec(path);
        let game_id: u64 = if segs.len() >= 3 {
            match parse_u64(segs[segs.len() - 3].as_str()) {
                Some(n) => n,
                None => 0,
            }
        } else {
            0
        };
        GameScreenshot { game_id, path: path.to_owned() }
    }

    /// The last path segment, absent when the path ends in a separator.
    pub fn file_name(&self) -> (r: Option<String>)
        ensures
            match r {
                Some(f) => spec_file_name(self.path@) == Some(f@),
                None => spec_file_name(self.path@) is None,
            },
    {
        let segs = split_slash_exec(self.path.as_str());
        let last = &segs[segs.len() - 1];
        if last.as_str().unicode_len() > 0 {
            Some(last.clone())
        } else {
            None
        }
    }

    /// The destination name `<title>/<file name>` under which the screenshot
    /// is delivered, absent when the path has no file name.
    pub fn dest_name(&self, title: &str) -> (r: Option<String>)
        ensures
            match r {
                Some(d) => spec_file_name(self.path@) matches Some(f) && d@ == title@ + "/"@ + f,
                None => spec_file_name(self.path@) is None,
            },
    {
        match self.file_name() {
            Some(f) => {
                let mut d = String::from_str(title);
                d.append("/");
                d.append(f.as_str());
                Some(d)
            },
            None => None,
        }
    }
}

/// The sentinel title used when no name can be resolved for an application
/// identifier.
pub fn unknown_title() -> (r: &'static str)
    ensures
        r@ == "UNKNOWN_GAME"@,
{
    "UNKNOWN_GAME"
}

/// The built-in table of well-known non-game application identifiers.
pub open spec fn spec_builtin_title(game_id: u64) -> Option<Seq<char>> {
    if game_id == 7 {
        Some("Steam UI"@)
    } else {
        None
    }
}

pub fn builtin_title(game_id: u64) -> (r: Option<&'static str>)
    ensures
        match r {
            Some(t) => spec_builtin_title(game_id) == Some(t@),
            None => spec_builtin_title(game_id) is None,
        },
{
    if game_id == 7 {
        Some("Steam UI")
    } else {
        None
    }
}

/// What resolving a title requires next: either the built-in table already
/// answers, or the remote metadata service must be queried for the identifier.
pub enum TitleLookup {
    Builtin(String),
    Remote(u64),
}

/// The resolved title: the built-in table first, then the remote answer, then
/// the unknown-title sentinel.
pub open spec fn spec_game_name(game_id: u64, remote: Option<Seq<char>>) -> Seq<char> {
    match spec_builtin_title(game_id) {
        Some(t) => t,
        None => match remote {
            Some(n) => n,
            None => "UNKNOWN_GAME"@,
        },
    }
}

impl GameScreenshot {
    /// The first step of title resolution. Only a `Remote` result asks for a
    /// network query; a `Builtin` one is already resolved.
    pub fn title_lookup(&self) -> (r: TitleLookup)
        ensures
            match r {
                TitleLookup::Builtin(t) => spec_builtin_title(self.game_id) == Some(t@),
                TitleLookup::Remote(id) => id == self.game_id && spec_builtin_title(self.game_id)
                    is None,
            },
    {
        match builtin_title(self.game_id) {
            Some(t) => TitleLookup::Builtin(String::from_str(t)),
            None => TitleLookup::Remote(self.game_id),
        }
    }

    /// The resolved title of the screenshot, given what the remote lookup
    /// produced (`None` for a failed query, a missing identifier, or a query
    /// that was never needed). Every failure degrades to the sentinel; no
    /// input is an error.
    pub fn game_name(&self, remote: Option<String>) -> (r: String)
        ensures
            r@ == spec_game_name(
                self.game_id,
                match remote {
                    Some(n) => Some(n@),
                    None => None,
                },
            ),
    {
        match builtin_title(self.game_id) {
            Some(t) => String::from_str(t),
            None => match remote {
                Some(n) => n,
                None => String::from_str(unknown_title()),
            },
        }
    }
}

/// A known identifier resolves from the table alone: whatever any remote
/// lookup would have said, the built-in title is returned.
pub proof fn lemma_builtin_title_ignores_remote(game_id: u64, remote: Option<Seq<char>>)
    requires
        spec_builtin_title(game_id) is Some,
    ensures
        spec_game_name(game_id, remote) == spec_builtin_title(game_id)->Some_0,
{
}

/// A failed or empty remote lookup of an identifier outside the table yields
/// exactly the unknown-title sentinel.
pub proof fn lemma_unknown_title_on_failure(game_id: u64)
    requires
        spec_builtin_title(game_id) is None,
    ensures
        spec_game_name(game_id, None) == "UNKNOWN_GAME"@,
{
}

impl GameScreenshot {
    /// Saves this screenshot's path at the end of the retry queue, as the
    /// live path does after a failed delivery; an error means the store
    /// failed and nothing was queued.
    pub fn save(&self, queue: &mut crate::database::PersistentQueue) -> (r: Result<
        (),
        crate::database::QueueError,
    >)
        requires
            old(queue).wf(),
        ensures
            final(queue).wf(),
            r is Ok ==> final(queue).entries() == old(queue).entries().push(self.path@),
            r is Err ==> final(queue).entries() == old(queue).entries(),
    {
        queue.enqueue(self.path.as_str())
    }
}

/// The remote metadata query URL for an application identifier.
pub fn appdetails_url(game_id: u64) -> (r: String)
    ensures
        r@ == "https://store.steampowered.com/api/appdetails?appids="@ + spec_digits(
            game_id as nat,
        ),
{
    let mut url = String::from_str("https://store.steampowered.com/api/appdetails?appids=");
    let digits = u64_to_string(game_id);
    url.append(digits.as_str());
    url
}

} // verus!
