//! The command line: `<program> <path-to-media-file> <mime-type>`.

use vstd::prelude::*;

verus! {

/// The line printed when the arguments are missing.
pub fn usage() -> (r: &'static str)
    ensures
        r@.len() > 0,
{
    let r = "usage: example path-to-video-or-audio-file mime-type";
    proof {
        reveal_strlit("usage: example path-to-video-or-audio-file mime-type");
    }
    r
}

/// Picks the media file's path and its MIME type out of the program's
/// arguments (the program's name first). `None` when either is missing, in
/// which case nothing is to be opened.
pub fn parse_arguments(args: &Vec<String>) -> (r: Option<(String, String)>)
    ensures
        r is None <==> args@.len() < 3,
        r matches Some((path, mime)) ==> path@ == args@[1]@ && mime@ == args@[2]@,
{
    if args.len() < 3 {
        return None;
    }
    let path = args[1].clone();
    let mime = args[2].clone();
    Some((path, mime))
}

} // verus!
