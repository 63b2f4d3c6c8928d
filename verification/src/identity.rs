//! The closed set of principal capability levels and its string codec.
//!
//! Decoding is case-insensitive and deliberately fail-open: any text outside
//! the known set falls back to `Guest`. That default-substitution policy is
//! part of the interface contract, not an accident of a catch-all branch.

use vstd::prelude::*;
use vstd::string::*;

use crate::text::str_eq;

verus! {

/// The capability level carried by an authenticated principal.
#[derive(Debug, Clone, Copy, PartialEq, Eq, Structural)]
pub enum Identity {
    Guest,
    Member,
    Vip,
    Admin,
}

/// ASCII lower-casing of one character; anything outside `A..Z` is untouched.
pub open spec fn lower_char(c: char) -> char {
    if c == 'A' {
        'a'
    } else if c == 'B' {
        'b'
    } else if c == 'C' {
        'c'
    } else if c == 'D' {
        'd'
    } else if c == 'E' {
        'e'
    } else if c == 'F' {
        'f'
    } else if c == 'G' {
        'g'
    } else if c == 'H' {
        'h'
    } else if c == 'I' {
        'i'
    } else if c == 'J' {
        'j'
    } else if c == 'K' {
        'k'
    } else if c == 'L' {
        'l'
    } else if c == 'M' {
        'm'
    } else if c == 'N' {
        'n'
    } else if c == 'O' {
        'o'
    } else if c == 'P' {
        'p'
    } else if c == 'Q' {
        'q'
    } else if c == 'R' {
        'r'
    } else if c == 'S' {
        's'
    } else if c == 'T' {
        't'
    } else if c == 'U' {
        'u'
    } else if c == 'V' {
        'v'
    } else if c == 'W' {
        'w'
    } else if c == 'X' {
        'x'
    } else if c == 'Y' {
        'y'
    } else if c == 'Z' {
        'z'
    } else {
        c
    }
}

/// ASCII lower-casing of a whole string.
pub open spec fn lower_chars(s: Seq<char>) -> Seq<char> {
    s.map_values(|c: char| lower_char(c))
}

/// The canonical lowercase string form of each level.
pub open spec fn identity_chars(i: Identity) -> Seq<char> {
    match i {
        Identity::Guest => "guest"@,
        Identity::Member => "member"@,
        Identity::Vip => "vip"@,
        Identity::Admin => "admin"@,
    }
}

/// What decoding yields: the level whose canonical form the input matches
/// up to case, and `Guest` for everything else.
pub open spec fn identity_from_chars(s: Seq<char>) -> Identity {
    if lower_chars(s) == "member"@ {
        Identity::Member
    } else if lower_chars(s) == "vip"@ {
        Identity::Vip
    } else if lower_chars(s) == "admin"@ {
        Identity::Admin
    } else {
        Identity::Guest
    }
}

fn lower_char_exec(c: char) -> (r: char)
    ensures
        r == lower_char(c),
{
    match c {
        'A' => 'a',
        'B' => 'b',
        'C' => 'c',
        'D' => 'd',
        'E' => 'e',
        'F' => 'f',
        'G' => 'g',
        'H' => 'h',
        'I' => 'i',
        'J' => 'j',
        'K' => 'k',
        'L' => 'l',
        'M' => 'm',
        'N' => 'n',
        'O' => 'o',
        'P' => 'p',
        'Q' => 'q',
        'R' => 'r',
        'S' => 's',
        'T' => 't',
        'U' => 'u',
        'V' => 'v',
        'W' => 'w',
        'X' => 'x',
        'Y' => 'y',
        'Z' => 'z',
        _ => c,
    }
}

/// Whether `s` equals `t` after ASCII lower-casing of `s`.
fn eq_lowered(s: &str, t: &str) -> (r: bool)
    ensures
        r == (lower_chars(s@) == t@),
{
    let n = s.unicode_len();
    if n != t.unicode_len() {
        assert(lower_chars(s@).len() == s@.len());
        return false;
    }
    let mut i: usize = 0;
    while i < n
        invariant
            i <= n,
            n == s@.len(),
            n == t@.len(),
            forall|j: int| 0 <= j < i ==> lower_char(#[trigger] s@[j]) == t@[j],
        decreases n - i,
    {
        if lower_char_exec(s.get_char(i)) != t.get_char(i) {
            assert(lower_chars(s@)[i as int] != t@[i as int]);
            return false;
        }
        i = i + 1;
    }
    proof {
        assert(lower_chars(s@) =~= t@);
    }
    true
}

impl Identity {
    /// The canonical lowercase string form of this level.
    pub fn as_str(&self) -> (r: &'static str)
        ensures
            r@ == identity_chars(*self),
    {
        match self {
            Identity::Guest => "guest",
            Identity::Member => "member",
            Identity::Vip => "vip",
            Identity::Admin => "admin",
        }
    }

    /// Decodes a level from text, case-insensitively; unknown text falls
    /// back to `Guest` rather than failing.
    pub fn from_str(s: &str) -> (r: Identity)
        ensures
            r == identity_from_chars(s@),
    {
        if eq_lowered(s, "member") {
            Identity::Member
        } else if eq_lowered(s, "vip") {
            Identity::Vip
        } else if eq_lowered(s, "admin") {
            Identity::Admin
        } else {
            Identity::Guest
        }
    }

    /// Decodes the exact lowercase forms the data store uses; anything else
    /// is an error naming the offending value.
    pub fn from_db_value(s: &str) -> (r: Result<Identity, String>)
        ensures
            s@ == "guest"@ ==> r == Result::<Identity, String>::Ok(Identity::Guest),
            s@ == "member"@ ==> r == Result::<Identity, String>::Ok(Identity::Member),
            s@ == "vip"@ ==> r == Result::<Identity, String>::Ok(Identity::Vip),
            s@ == "admin"@ ==> r == Result::<Identity, String>::Ok(Identity::Admin),
            s@ != "guest"@ && s@ != "member"@ && s@ != "vip"@ && s@ != "admin"@ ==> (r matches Err(
                m,
            ) && m@ == "Invalid identity value from DB: "@ + s@),
    {
        proof {
            reveal_strlit("guest");
            reveal_strlit("member");
            reveal_strlit("vip");
            reveal_strlit("admin");
            assert("guest"@[0] == 'g' && "member"@[0] == 'm' && "vip"@[0] == 'v' && "admin"@[0]
                == 'a');
            assert("guest"@.len() == 5 && "member"@.len() == 6 && "vip"@.len() == 3
                && "admin"@.len() == 5);
        }
        if str_eq(s, "guest") {
            Ok(Identity::Guest)
        } else if str_eq(s, "member") {
            Ok(Identity::Member)
        } else if str_eq(s, "vip") {
            Ok(Identity::Vip)
        } else if str_eq(s, "admin") {
            Ok(Identity::Admin)
        } else {
            let mut m = String::from_str("Invalid identity value from DB: ");
            m.append(s);
            Err(m)
        }
    }
}

/// Decoding any text outside the four known forms yields `Guest`:
/// the fail-open default is total, never an error.
pub proof fn lemma_identity_fallback_to_guest(s: Seq<char>)
    requires
        lower_chars(s) != "member"@,
        lower_chars(s) != "vip"@,
        lower_chars(s) != "admin"@,
    ensures
        identity_from_chars(s) == Identity::Guest,
{
}

/// Each canonical form decodes back to the level it encodes.
pub proof fn lemma_identity_roundtrip(i: Identity)
    ensures
        identity_from_chars(identity_chars(i)) == i,
{
    reveal_strlit("guest");
    reveal_strlit("member");
    reveal_strlit("vip");
    reveal_strlit("admin");
    match i {
        Identity::Guest => {
            assert(lower_chars("guest"@) =~= "guest"@);
            assert("guest"@[0] == 'g' && "member"@[0] == 'm' && "vip"@[0] == 'v' && "admin"@[0]
                == 'a');
        },
        Identity::Member => {
            assert(lower_chars("member"@) =~= "member"@);
        },
        Identity::Vip => {
            assert(lower_chars("vip"@) =~= "vip"@);
            assert(lower_chars("vip"@) != "member"@);
        },
        Identity::Admin => {
            assert(lower_chars("admin"@) =~= "admin"@);
            assert(lower_chars("admin"@) != "member"@);
            assert(lower_chars("admin"@) != "vip"@);
        },
    }
}

} // verus!
