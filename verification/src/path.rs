//! Joining of slash-separated paths, on sequences of characters.

use vstd::prelude::*;

verus! {

/// A path is absolute when it starts at the root.
pub open spec fn is_absolute(p: Seq<char>) -> bool {
    p.len() > 0 && p[0] == '/'
}

/// A separator goes between `base` and what is adjoined to it unless `base`
/// is empty or already ends in one.
pub open spec fn needs_separator(base: Seq<char>) -> bool {
    base.len() > 0 && base[base.len() - 1] != '/'
}

/// `part` adjoined to `base`: an absolute `part` replaces `base`; any other
/// is appended to it, after a separator where `base` needs one.
pub open spec fn join_spec(base: Seq<char>, part: Seq<char>) -> Seq<char> {
    if is_absolute(part) {
        part
    } else if needs_separator(base) {
        base + seq!['/'] + part
    } else {
        base + part
    }
}

/// Adjoins `part` to `base`.
pub fn join(base: &str, part: &str) -> (joined: String)
    ensures
        joined@ == join_spec(base@, part@),
{
    let part_len: usize = part.unicode_len();
    if part_len > 0 && part.get_char(0) == '/' {
        return part.to_owned();
    }
    let base_len: usize = base.unicode_len();
    let mut joined = base.to_owned();
    if base_len > 0 && base.get_char(base_len - 1) != '/' {
        proof {
            reveal_strlit("/");
        }
        joined.append("/");
        assert("/"@ =~= seq!['/']);
    }
    joined.append(part);
    joined
}

} // verus!
