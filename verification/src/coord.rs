//! Maven-coordinate resolution.
//!
//! A dependency coordinate `group:artifact:version[:classifier]` maps to
//! the relative repository path
//! `group-with-dots-as-slashes/artifact/version/artifact-version[-classifier].jar`.
//! A coordinate with fewer than three colon-separated parts falls back to
//! the coordinate itself with colons as slashes plus `.jar` — degraded but
//! deterministic, never an error.

use vstd::prelude::*;
use crate::text::{
    split_parts, replace_seq, split_chars, replace_chars, append_chars, append_str, char_vec1,
};

verus! {

/// The relative path a coordinate resolves to.
pub open spec fn maven_rel_path(coord: Seq<char>) -> Seq<char> {
    let parts = split_parts(coord, ':');
    if parts.len() < 3 {
        replace_seq(coord, seq![':'], seq!['/']) + ".jar"@
    } else {
        let group = replace_seq(parts[0], seq!['.'], seq!['/']);
        let tail = if parts.len() > 3 {
            "-"@ + parts[3]
        } else {
            Seq::<char>::empty()
        };
        group + "/"@ + parts[1] + "/"@ + parts[2] + "/"@ + parts[1] + "-"@ + parts[2] + tail
            + ".jar"@
    }
}

/// The relative path of the artifact classified `classifier` (as a native
/// jar is), when the coordinate has at least three parts.
pub open spec fn maven_classified_rel_path(coord: Seq<char>, classifier: Seq<char>) -> Option<
    Seq<char>,
> {
    let parts = split_parts(coord, ':');
    if parts.len() < 3 {
        None
    } else {
        let group = replace_seq(parts[0], seq!['.'], seq!['/']);
        Some(
            group + "/"@ + parts[1] + "/"@ + parts[2] + "/"@ + parts[1] + "-"@ + parts[2] + "-"@
                + classifier + ".jar"@,
        )
    }
}

/// Resolve a coordinate to its relative repository path.
pub fn maven_path_chars(coord: &Vec<char>) -> (r: Vec<char>)
    ensures
        r@ == maven_rel_path(coord@),
{
    let colon = char_vec1(':');
    let parts = split_chars(coord, ':');
    proof {
        assert(parts.deep_view().len() == parts@.len());
    }
    if parts.len() < 3 {
        let slash = char_vec1('/');
        let mut r = replace_chars(coord, &colon, &slash);
        append_str(&mut r, ".jar");
        r
    } else {
        proof {
            assert(parts.deep_view()[0] == parts@[0]@);
            assert(parts.deep_view()[1] == parts@[1]@);
            assert(parts.deep_view()[2] == parts@[2]@);
            if parts@.len() > 3 {
                assert(parts.deep_view()[3] == parts@[3]@);
            }
        }
        let dot = char_vec1('.');
        let slash = char_vec1('/');
        let mut r = replace_chars(&parts[0], &dot, &slash);
        append_str(&mut r, "/");
        append_chars(&mut r, &parts[1]);
        append_str(&mut r, "/");
        append_chars(&mut r, &parts[2]);
        append_str(&mut r, "/");
        append_chars(&mut r, &parts[1]);
        append_str(&mut r, "-");
        append_chars(&mut r, &parts[2]);
        if parts.len() > 3 {
            append_str(&mut r, "-");
            append_chars(&mut r, &parts[3]);
        }
        append_str(&mut r, ".jar");
        proof {
            assert(r@ =~= maven_rel_path(coord@));
        }
        r
    }
}

/// Resolve a coordinate plus classifier to a relative repository path.
pub fn maven_classified_path_chars(coord: &Vec<char>, classifier: &Vec<char>) -> (r: Option<
    Vec<char>,
>)
    ensures
        match r {
            Some(v) => maven_classified_rel_path(coord@, classifier@) == Some(v@),
            None => maven_classified_rel_path(coord@, classifier@) is None,
        },
{
    let parts = split_chars(coord, ':');
    if parts.len() < 3 {
        return None;
    }
    proof {
        assert(parts.deep_view()[0] == parts@[0]@);
        assert(parts.deep_view()[1] == parts@[1]@);
        assert(parts.deep_view()[2] == parts@[2]@);
    }
    let dot = char_vec1('.');
    let slash = char_vec1('/');
    let mut r = replace_chars(&parts[0], &dot, &slash);
    append_str(&mut r, "/");
    append_chars(&mut r, &parts[1]);
    append_str(&mut r, "/");
    append_chars(&mut r, &parts[2]);
    append_str(&mut r, "/");
    append_chars(&mut r, &parts[1]);
    append_str(&mut r, "-");
    append_chars(&mut r, &parts[2]);
    append_str(&mut r, "-");
    append_chars(&mut r, classifier);
    append_str(&mut r, ".jar");
    proof {
        assert(r@ =~= maven_classified_rel_path(coord@, classifier@).unwrap());
    }
    Some(r)
}

} // verus!
