//! The files built into the desktop application (fonts, icons, images):
//! which of them a lookup or a listing gives.

use crate::text::{chars_of, ends_with, has_prefix, starts_with};
use vstd::prelude::*;

verus! {

/// The files built into the application. Their paths and contents come from
/// the build; the functions here decide which of them a request gives.
pub struct Assets;

/// The paths among `paths` that start with `prefix`, in order.
pub open spec fn paths_under(paths: Seq<Seq<char>>, prefix: Seq<char>) -> Seq<Seq<char>>
    decreases paths.len(),
{
    if paths.len() == 0 {
        paths
    } else {
        let rest = paths_under(paths.drop_last(), prefix);
        if starts_with(paths.last(), prefix) {
            rest.push(paths.last())
        } else {
            rest
        }
    }
}

/// The font files among `paths`: those that end with `.ttf`, in order.
pub open spec fn font_files(paths: Seq<Seq<char>>) -> Seq<Seq<char>>
    decreases paths.len(),
{
    if paths.len() == 0 {
        paths
    } else {
        let rest = font_files(paths.drop_last());
        if ends_with(paths.last(), ".ttf"@) {
            rest.push(paths.last())
        } else {
            rest
        }
    }
}

/// The views of a sequence of strings.
pub open spec fn views(v: Seq<String>) -> Seq<Seq<char>> {
    v.map_values(|s: String| s@)
}

impl Assets {
    /// Whether a path is looked up at all: an empty path names no file.
    pub fn is_lookup(path: &str) -> (res: bool)
        ensures
            res <==> path@.len() > 0,
    {
        !path.is_empty()
    }

    /// The built-in paths that start with `prefix`, in order: what listing a
    /// directory gives.
    pub fn list(paths: &Vec<String>, prefix: &str) -> (res: Vec<String>)
        ensures
            views(res@) == paths_under(views(paths@), prefix@),
    {
        let p = chars_of(prefix);
        let mut out: Vec<String> = Vec::new();
        let mut i: usize = 0;
        while i < paths.len()
            invariant
                0 <= i <= paths@.len(),
                p@ == prefix@,
                views(out@) == paths_under(views(paths@).take(i as int), prefix@),
            decreases paths@.len() - i,
        {
            assert(views(paths@).take(i + 1).drop_last() =~= views(paths@).take(i as int));
            let path = &paths[i];
            if has_prefix(&chars_of(path.as_str()), &p) {
                out.push(path.clone());
                assert(views(out@) =~= views(out@).drop_last().push(path@));
            }
            i = i + 1;
        }
        assert(views(paths@).take(paths@.len() as int) =~= views(paths@));
        out
    }

    /// The font files (`.ttf`) among the paths, in order: what is loaded
    /// into the text system at start.
    pub fn font_paths(paths: &Vec<String>) -> (res: Vec<String>)
        ensures
            views(res@) == font_files(views(paths@)),
    {
        let ttf = chars_of(".ttf");
        let mut out: Vec<String> = Vec::new();
        let mut i: usize = 0;
        while i < paths.len()
            invariant
                0 <= i <= paths@.len(),
                ttf@ == ".ttf"@,
                views(out@) == font_files(views(paths@).take(i as int)),
            decreases paths@.len() - i,
        {
            assert(views(paths@).take(i + 1).drop_last() =~= views(paths@).take(i as int));
            let path = &paths[i];
            if crate::text::without_suffix(&chars_of(path.as_str()), &ttf).is_some() {
                out.push(path.clone());
                assert(views(out@) =~= views(out@).drop_last().push(path@));
            }
            i = i + 1;
        }
        assert(views(paths@).take(paths@.len() as int) =~= views(paths@));
        out
    }
}

} // verus!
