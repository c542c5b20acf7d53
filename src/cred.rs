//! A `USERNAME:PASSWORD` pair as it stands on one line of a password file.

use vstd::prelude::*;

verus! {

/// Unicode's White_Space characters, which surrounding a line are ignored.
pub open spec fn is_ws(c: char) -> bool {
    let x = c as u32;
    (9 <= x <= 13) || x == 32 || x == 0x85 || x == 0xA0 || x == 0x1680 || (0x2000 <= x <= 0x200A)
        || x == 0x2028 || x == 0x2029 || x == 0x202F || x == 0x205F || x == 0x3000
}

/// `s` without its leading white space.
pub open spec fn trim_front(s: Seq<char>) -> Seq<char>
    decreases s.len(),
{
    if s.len() > 0 && is_ws(s[0]) {
        trim_front(s.drop_first())
    } else {
        s
    }
}

/// `s` without its trailing white space.
pub open spec fn trim_back(s: Seq<char>) -> Seq<char>
    decreases s.len(),
{
    if s.len() > 0 && is_ws(s.last()) {
        trim_back(s.drop_last())
    } else {
        s
    }
}

/// `s` without white space at either end.
pub open spec fn trimmed(s: Seq<char>) -> Seq<char> {
    trim_back(trim_front(s))
}

/// `s` holds a colon.
pub open spec fn has_colon(s: Seq<char>) -> bool {
    exists|i: int| 0 <= i < s.len() && s[i] == ':'
}

/// The line is a well-formed pair: it holds a colon, and not as its first
/// character (the user name is not empty).
pub open spec fn well_formed(t: Seq<char>) -> bool {
    has_colon(t) && t[0] != ':'
}

/// Why a line is not a credential pair.
#[derive(Clone, Copy, Debug, PartialEq, Eq)]
pub enum CredError {
    /// The line is not of the form `USERNAME:PASSWORD`.
    Format,
}

/// A user name and a password.
#[derive(Clone, Debug, PartialEq, Eq, PartialOrd, Ord)]
pub struct Cred {
    pub user: String,
    pub pass: String,
}

fn is_whitespace(c: char) -> (r: bool)
    ensures
        r == is_ws(c),
{
    let x = c as u32;
    (9 <= x && x <= 13) || x == 32 || x == 0x85 || x == 0xA0 || x == 0x1680 || (0x2000 <= x && x
        <= 0x200A) || x == 0x2028 || x == 0x2029 || x == 0x202F || x == 0x205F || x == 0x3000
}

/// The bounds of `s` without white space at either end.
fn trim_bounds(s: &str) -> (r: (usize, usize))
    ensures
        r.0 <= r.1 <= s@.len(),
        s@.subrange(r.0 as int, r.1 as int) == trimmed(s@),
{
    let n = s.unicode_len();
    let mut a: usize = 0;
    assert(s@.subrange(0, n as int) =~= s@);
    while a < n && is_whitespace(s.get_char(a))
        invariant
            n == s@.len(),
            a <= n,
            trim_front(s@) == trim_front(s@.subrange(a as int, n as int)),
        decreases n - a,
    {
        assert(s@.subrange(a as int, n as int).drop_first() =~= s@.subrange(a + 1, n as int));
        a = a + 1;
    }
    assert(trim_front(s@) == s@.subrange(a as int, n as int));
    let mut b: usize = n;
    while b > a && is_whitespace(s.get_char(b - 1))
        invariant
            n == s@.len(),
            a <= b <= n,
            trimmed(s@) == trim_back(s@.subrange(a as int, b as int)),
        decreases b,
    {
        assert(s@.subrange(a as int, b as int).drop_last() =~= s@.subrange(a as int, b - 1));
        b = b - 1;
    }
    (a, b)
}

impl Cred {
    pub fn new(user: &str, pass: &str) -> (r: Cred)
        ensures
            r.user@ == user@,
            r.pass@ == pass@,
    {
        Cred { user: String::from_str(user), pass: String::from_str(pass) }
    }

    /// Splits a colon-separated `USERNAME:PASSWORD` pair at its first colon,
    /// ignoring white space around the line. The user name must not be empty;
    /// the password may be.
    pub fn from_str(line: &str) -> (r: Result<Cred, CredError>)
        ensures
            r is Ok <==> well_formed(trimmed(line@)),
            r is Ok ==> ({
                let c = r->Ok_0;
                &&& !has_colon(c.user@)
                &&& trimmed(line@) == c.user@ + seq![':'] + c.pass@
            }),
            r is Err ==> r == Err::<Cred, CredError>(CredError::Format),
    {
        let (a, b) = trim_bounds(line);
        let ghost t = trimmed(line@);
        let mut i: usize = a;
        while i < b && line.get_char(i) != ':'
            invariant
                a <= i <= b <= line@.len(),
                t == line@.subrange(a as int, b as int),
                forall|j: int| a <= j < i ==> line@[j] != ':',
            decreases b - i,
        {
            i = i + 1;
        }
        if i == b {
            assert forall|j: int| 0 <= j < t.len() implies t[j] != ':' by {
                assert(t[j] == line@[a + j]);
            }
            return Err(CredError::Format);
        }
        if i == a {
            assert(t[0] == ':');
            return Err(CredError::Format);
        }
        let user = line.substring_char(a, i);
        let pass = line.substring_char(i + 1, b);
        proof {
            assert(t[i - a] == ':');
            assert(t[0] == line@[a as int]);
            assert forall|j: int| 0 <= j < user@.len() implies user@[j] != ':' by {
                assert(user@[j] == line@[a + j]);
            }
            assert(t =~= user@ + seq![':'] + pass@);
        }
        Ok(Cred::new(user, pass))
    }

    /// The pair as a line: user name, colon, password.
    pub fn to_line(&self) -> (r: String)
        ensures
            r@ == self.user@ + seq![':'] + self.pass@,
    {
        let mut r = String::from_str(self.user.as_str());
        proof {
            reveal_strlit(":");
        }
        r.append(":");
        r.append(self.pass.as_str());
        r
    }
}

} // verus!
