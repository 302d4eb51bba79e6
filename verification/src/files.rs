//! Which directory entries the file pipeline keeps: hidden names are
//! skipped, and only files with the Nix extension are candidates.

use vstd::prelude::*;
use vstd::string::StrSliceExecFns;

verus! {

/// A name is hidden when it starts with a dot.
pub open spec fn hidden_name(s: Seq<char>) -> bool {
    s.len() > 0 && s[0] == '.'
}

/// A name is a candidate when it ends in the Nix extension.
pub open spec fn nix_file_name(s: Seq<char>) -> bool {
    s.len() >= 4 && s.subrange(s.len() - 4, s.len() as int) == ".nix"@
}

/// Whether a directory entry's name is hidden and its subtree skipped.
pub fn is_hidden(name: &str) -> (r: bool)
    ensures
        r == hidden_name(name@),
{
    let n = name.unicode_len();
    if n == 0 {
        false
    } else {
        name.get_char(0) == '.'
    }
}

/// Whether a directory entry's name makes it a candidate file.
pub fn is_nix_file(name: &str) -> (r: bool)
    ensures
        r == nix_file_name(name@),
{
    proof {
        reveal_strlit(".nix");
    }
    let n = name.unicode_len();
    if n < 4 {
        return false;
    }
    let r = name.get_char(n - 4) == '.' && name.get_char(n - 3) == 'n' && name.get_char(n - 2)
        == 'i' && name.get_char(n - 1) == 'x';
    proof {
        let s = name@;
        let tail = s.subrange(s.len() - 4, s.len() as int);
        if r {
            assert(tail =~= ".nix"@);
        } else {
            if tail == ".nix"@ {
                assert(s[s.len() - 4] == tail[0]);
                assert(s[s.len() - 3] == tail[1]);
                assert(s[s.len() - 2] == tail[2]);
                assert(s[s.len() - 1] == tail[3]);
                assert(false);
            }
        }
    }
    r
}

} // verus!
