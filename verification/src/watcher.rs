//! The event filter: which filesystem notifications stand for a finished
//! screenshot write.
//!
//! The producer writes the screenshot image and then a thumbnail next to it,
//! so the filter accepts only close-after-write events whose path carries
//! the screenshot extension and no thumbnail marker; everything else is
//! silently discarded.

use vstd::prelude::*;

verus! {

use crate::strutil::{contains_seq, contains_sub, ends_with, is_suffix_of};

/// The shape of a filesystem notification, as the filter reads it: a file
/// was closed after being written, or anything else.
#[derive(PartialEq, Eq, Structural, Clone, Copy)]
pub enum FsEventKind {
    CloseWrite,
    Other,
}

/// A filesystem notification: its kind and the paths it concerns.
pub struct FsEvent {
    pub kind: FsEventKind,
    pub paths: Vec<String>,
}

/// A path that stands for a finished screenshot: the screenshot image
/// extension, and no thumbnail marker anywhere in it.
pub open spec fn spec_screenshot_path(p: Seq<char>) -> bool {
    is_suffix_of(".jpg"@, p) && !contains_seq(p, "thumbnail"@)
}

pub fn is_screenshot_path(path: &str) -> (r: bool)
    ensures
        r == spec_screenshot_path(path@),
{
    ends_with(path, ".jpg") && !contains_sub(path, "thumbnail")
}

/// The screenshot paths of a sequence of event paths, in order.
pub open spec fn spec_screenshot_paths(paths: Seq<Seq<char>>) -> Seq<Seq<char>>
    decreases paths.len(),
{
    if paths.len() == 0 {
        Seq::<Seq<char>>::empty()
    } else {
        let init = spec_screenshot_paths(paths.drop_last());
        if spec_screenshot_path(paths.last()) {
            init.push(paths.last())
        } else {
            init
        }
    }
}

/// What an event contributes to the pipeline: nothing unless it is a
/// close-after-write, and of such an event's paths exactly the screenshot
/// ones, in order.
pub open spec fn spec_accepted_paths(kind: FsEventKind, paths: Seq<Seq<char>>) -> Seq<Seq<char>> {
    if kind == FsEventKind::CloseWrite {
        spec_screenshot_paths(paths)
    } else {
        Seq::<Seq<char>>::empty()
    }
}

impl FsEvent {
    /// The paths of this event that the pipeline must deliver; every other
    /// event or path is discarded.
    pub fn accepted_paths(&self) -> (r: Vec<String>)
        ensures
            r@.map_values(|s: String| s@) == spec_accepted_paths(
                self.kind,
                self.paths@.map_values(|s: String| s@),
            ),
    {
        let mut r: Vec<String> = Vec::new();
        proof {
            assert(r@.map_values(|s: String| s@) =~= Seq::<Seq<char>>::empty());
        }
        if !matches!(self.kind, FsEventKind::CloseWrite) {
            return r;
        }
        let ghost all = self.paths@.map_values(|s: String| s@);
        let n = self.paths.len();
        let mut i: usize = 0;
        proof {
            assert(all.take(0) =~= Seq::<Seq<char>>::empty());
        }
        while i < n
            invariant
                n == self.paths.len(),
                i <= n,
                all == self.paths@.map_values(|s: String| s@),
                r@.map_values(|s: String| s@) == spec_screenshot_paths(all.take(i as int)),
            decreases n - i,
        {
            let ghost prefix1 = all.take(i + 1);
            proof {
                assert(prefix1.drop_last() =~= all.take(i as int));
                assert(prefix1.last() == all[i as int]);
            }
            let ghost before = r@;
            if is_screenshot_path(self.paths[i].as_str()) {
                r.push(self.paths[i].clone());
                proof {
                    assert(r@.map_values(|s: String| s@) =~= before.map_values(
                        |s: String| s@,
                    ).push(all[i as int]));
                }
            }
            i = i + 1;
        }
        proof {
            assert(all.take(n as int) =~= all);
        }
        r
    }
}

} // verus!
