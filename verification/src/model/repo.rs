//! A GitHub repository identified by `owner/name`.

use vstd::prelude::*;
use crate::text::{find_char, find_char_from};

verus! {

/// A GitHub repository identified by owner/name.
#[derive(Debug)]
pub struct Repo {
    /// Full name in "owner/repo" format
    pub full_name: String,
}

/// The part of `s` before its first `/` (all of `s` when it has none).
pub open spec fn owner_part(s: Seq<char>) -> Seq<char> {
    s.subrange(0, find_char(s, '/', 0))
}

/// The part of `s` between its first and second `/` (up to the end when
/// there is no second one); empty when `s` has no `/`.
pub open spec fn name_part(s: Seq<char>) -> Seq<char> {
    let i = find_char(s, '/', 0);
    if i >= s.len() {
        Seq::empty()
    } else {
        s.subrange(i + 1, find_char(s, '/', i + 1))
    }
}

impl Clone for Repo {
    fn clone(&self) -> (r: Self)
        ensures
            r == *self,
    {
        Repo { full_name: self.full_name.clone() }
    }
}

impl Repo {
    pub fn new(full_name: &str) -> (r: Self)
        ensures
            r.full_name@ == full_name@,
    {
        Repo { full_name: full_name.to_owned() }
    }

    /// Returns the owner portion (before the slash).
    pub fn owner(&self) -> (r: &str)
        ensures
            r@ == owner_part(self.full_name@),
    {
        let s = self.full_name.as_str();
        let i = find_char_from(s, '/', 0);
        s.substring_char(0, i)
    }

    /// Returns the repo name portion (after the slash).
    pub fn name(&self) -> (r: &str)
        ensures
            r@ == name_part(self.full_name@),
    {
        let s = self.full_name.as_str();
        let n = s.unicode_len();
        let i = find_char_from(s, '/', 0);
        if i >= n {
            proof {
                reveal_strlit("");
            }
            ""
        } else {
            let j = find_char_from(s, '/', i + 1);
            s.substring_char(i + 1, j)
        }
    }

    /// The text a `Repo` is shown as: its full name.
    pub fn to_string(&self) -> (r: String)
        ensures
            r@ == self.full_name@,
    {
        self.full_name.clone()
    }
}

} // verus!
