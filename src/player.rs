//! The identity of a player.
use vstd::prelude::*;
use vstd::string::StrSliceExecFns;

verus! {

/// Whether a character has Unicode's `White_Space` property.
pub uninterp spec fn is_whitespace_char(c: char) -> bool;

/// Relies on `char::is_whitespace`: whether `c` has Unicode's `White_Space` property.
#[verifier::external_body]
fn char_is_whitespace(c: char) -> (r: bool)
    ensures
        r == is_whitespace_char(c),
{
    c.is_whitespace()
}

/// Whether a name is empty or holds white space only.
pub open spec fn is_blank(name: Seq<char>) -> bool {
    forall|i: int| 0 <= i < name.len() ==> is_whitespace_char(#[trigger] name[i])
}

fn blank(name: &str) -> (r: bool)
    ensures
        r == is_blank(name@),
{
    let len = name.unicode_len();
    let mut i: usize = 0;
    while i < len
        invariant
            i <= len,
            len == name@.len(),
            forall|j: int| 0 <= j < i ==> is_whitespace_char(#[trigger] name@[j]),
        decreases len - i,
    {
        if !char_is_whitespace(name.get_char(i)) {
            return false;
        }
        i = i + 1;
    }
    true
}

#[derive(Debug, PartialEq, Eq)]
pub enum NewPlayerError {
    /// The name is empty or white space only
    InvalidName(String),
}

#[derive(Debug, PartialEq, Eq)]
pub struct Player {
    name: String,
}

impl Clone for Player {
    fn clone(&self) -> (r: Self)
        ensures
            r == *self,
    {
        Player { name: self.name.clone() }
    }
}

impl View for Player {
    type V = Seq<char>;

    /// The player's name.
    closed spec fn view(&self) -> Seq<char> {
        self.name@
    }
}

impl Player {
    /// A player of the given name; fails on a name that is empty or white space only.
    pub fn new(name: &str) -> (r: Result<Player, NewPlayerError>)
        ensures
            is_blank(name@) ==> (r matches Err(NewPlayerError::InvalidName(n)) && n@ == name@),
            !is_blank(name@) ==> (r matches Ok(p) && p@ == name@),
    {
        let owned_name = name.to_owned();
        if blank(name) {
            Err(NewPlayerError::InvalidName(owned_name))
        } else {
            Ok(Player { name: owned_name })
        }
    }

    pub fn name(&self) -> (r: &str)
        ensures
            r@ == self@,
    {
        self.name.as_str()
    }
}

} // verus!
