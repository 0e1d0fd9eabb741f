//! Identifiers and the data that the server and the sessions exchange.
pub mod commands;
pub mod ids;
pub mod messages;
pub mod ws;

use vstd::prelude::*;
use rand::Rng;

verus! {

/// A session is identified by the 128-bit value of its UUID.
pub type SessionId = u128;

/// A room is identified by the 128-bit value of its UUID.
pub type RoomId = u128;

/// Calls `rand::thread_rng().sample_iter(&rand::distributions::Alphanumeric)`
/// and keeps `len` of the sampled bytes, as characters: each is drawn from
/// the ASCII letters and digits (`A`-`Z`, `a`-`z`, `0`-`9`). Which ones are
/// drawn is left open.
#[verifier::external_body]
fn random_alphanumeric(len: usize) -> (s: String)
    ensures
        s@.len() == len,
        forall|i: int| 0 <= i < len ==> is_alphanumeric(#[trigger] s@[i]),
{
    rand::thread_rng().sample_iter(&rand::distributions::Alphanumeric).take(len).map(char::from).collect()
}

/// `c` is an ASCII letter or digit.
pub open spec fn is_alphanumeric(c: char) -> bool {
    ('A' <= c <= 'Z') || ('a' <= c <= 'z') || ('0' <= c <= '9')
}

/// What a client is called in a room.
#[derive(Debug, PartialEq, Eq)]
pub struct UserInfo {
    pub nickname: String,
}

impl UserInfo {
    /// The user called `User-` followed by `suffix`.
    pub fn with_suffix(suffix: String) -> (u: Self)
        ensures
            u.nickname@ == "User-"@ + suffix@,
    {
        UserInfo { nickname: "User-".to_owned().concat(suffix.as_str()) }
    }
}

impl Default for UserInfo {
    /// A user with a random nickname: `User-` and 15 random ASCII letters
    /// and digits.
    fn default() -> (u: Self)
        ensures
            u.nickname@.len() == 20,
            u.nickname@.take(5) == "User-"@,
            forall|i: int| 5 <= i < 20 ==> is_alphanumeric(#[trigger] u.nickname@[i]),
    {
        let suffix = random_alphanumeric(15);
        let u = UserInfo::with_suffix(suffix);
        proof {
            reveal_strlit("User-");
            assert(u.nickname@.take(5) =~= "User-"@);
            assert forall|i: int| 5 <= i < 20 implies is_alphanumeric(#[trigger] u.nickname@[i]) by {
                assert(u.nickname@[i] == suffix@[i - 5]);
            }
        }
        u
    }
}

} // verus!
