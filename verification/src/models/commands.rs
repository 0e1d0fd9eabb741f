//! Slash commands: `/create` opens a room, `/join <room-id>` joins one.
use vstd::prelude::*;
use vstd::std_specs::iter::IteratorSpec;
use crate::models::RoomId;
use crate::models::ids::{parse_uuid, uuid_parse};

verus! {

/// Whether `c` has the Unicode `White_Space` property: tab, line feed,
/// vertical tab, form feed, carriage return, space, next line, no-break
/// space, ogham space mark, the spaces U+2000 to U+200A, line separator,
/// paragraph separator, narrow no-break space, medium mathematical space and
/// ideographic space.
pub open spec fn white_space(c: char) -> bool {
    let n = c as u32;
    ||| 0x9 <= n <= 0xd
    ||| n == 0x20
    ||| n == 0x85
    ||| n == 0xa0
    ||| n == 0x1680
    ||| 0x2000 <= n <= 0x200a
    ||| n == 0x2028
    ||| n == 0x2029
    ||| n == 0x202f
    ||| n == 0x205f
    ||| n == 0x3000
}

/// Whether `c` has the Unicode `White_Space` property.
fn is_whitespace(c: char) -> (b: bool)
    ensures
        b == white_space(c),
{
    let n = c as u32;
    (0x9 <= n && n <= 0xd) || n == 0x20 || n == 0x85 || n == 0xa0 || n == 0x1680 || (0x2000 <= n
        && n <= 0x200a) || n == 0x2028 || n == 0x2029 || n == 0x202f || n == 0x205f || n == 0x3000
}

/// `s` begins with `p`.
pub open spec fn starts_with(s: Seq<char>, p: Seq<char>) -> bool {
    p.len() <= s.len() && s.take(p.len() as int) == p
}

/// `s` without its trailing white space.
pub open spec fn trim_end(s: Seq<char>) -> Seq<char>
    decreases s.len(),
{
    if s.len() > 0 && white_space(s.last()) {
        trim_end(s.drop_last())
    } else {
        s
    }
}

/// The run of non-white-space characters at the end of `s`.
pub open spec fn trailing_word(s: Seq<char>) -> Seq<char>
    decreases s.len(),
{
    if s.len() > 0 && !white_space(s.last()) {
        trailing_word(s.drop_last()).push(s.last())
    } else {
        Seq::empty()
    }
}

/// The last of the white-space separated words of `s`, or the empty text
/// when `s` has none.
pub open spec fn last_word(s: Seq<char>) -> Seq<char> {
    trailing_word(trim_end(s))
}

/// A line that is not a valid command.
#[derive(Debug, PartialEq, Eq)]
pub struct CommandError;

impl CommandError {
    /// The error's text.
    pub fn to_string(&self) -> (s: String)
        ensures
            s@ == "Invalid command"@,
    {
        "Invalid command".to_owned()
    }
}

/// A slash command.
#[derive(Debug, PartialEq, Eq)]
pub enum Command {
    Create,
    Join(RoomId),
}

/// What a line means: `/create…` opens a room; `/join…` joins the room
/// whose id is the line's last word; anything else is no command.
pub open spec fn command_of(s: Seq<char>) -> Result<Command, CommandError> {
    if starts_with(s, "/create"@) {
        Ok(Command::Create)
    } else if starts_with(s, "/join"@) {
        match uuid_parse(last_word(s)) {
            Ok(room) => Ok(Command::Join(room)),
            Err(_) => Err(CommandError),
        }
    } else {
        Err(CommandError)
    }
}

/// The characters of `s`, in order.
fn chars_of(s: &str) -> (v: Vec<char>)
    ensures
        v@ == s@,
{
    let mut v: Vec<char> = Vec::new();
    for c in it: s.chars()
        invariant
            it.seq() == s@,
            v@ == it.seq().take(it.index()),
    {
        v.push(c);
        proof {
            assert(v@ =~= it.seq().take(it.index() + 1));
        }
    }
    proof {
        assert(s@.take(s@.len() as int) =~= s@);
    }
    v
}

/// Whether `s` begins with `p`.
fn has_prefix(s: &Vec<char>, prefix: &str) -> (b: bool)
    ensures
        b == starts_with(s@, prefix@),
{
    let p = chars_of(prefix);
    if p.len() > s.len() {
        return false;
    }
    let mut i: usize = 0;
    while i < p.len()
        invariant
            p@ == prefix@,
            p.len() <= s.len(),
            0 <= i <= p.len(),
            forall|j: int| 0 <= j < i ==> s@[j] == p@[j],
        decreases p.len() - i,
    {
        if s[i] != p[i] {
            proof {
                assert(s@.take(p.len() as int)[i as int] != p@[i as int]);
            }
            return false;
        }
        i += 1;
    }
    proof {
        assert(s@.take(p.len() as int) =~= p@);
    }
    true
}

impl Command {
    /// Reads a slash command from a line.
    pub fn parse(s: &str) -> (r: Result<Command, CommandError>)
        ensures
            r == command_of(s@),
    {
        proof {
            reveal_strlit("/create");
            reveal_strlit("/join");
        }
        let v = chars_of(s);
        if has_prefix(&v, "/create") {
            Ok(Command::Create)
        } else if has_prefix(&v, "/join") {
            let mut end: usize = v.len();
            proof {
                assert(v@.take(end as int) =~= v@);
            }
            while end > 0 && is_whitespace(v[end - 1])
                invariant
                    0 <= end <= v.len(),
                    trim_end(v@.take(end as int)) == trim_end(v@),
                decreases end,
            {
                proof {
                    assert(v@.take(end as int).drop_last() =~= v@.take(end - 1));
                }
                end -= 1;
            }
            proof {
                if end > 0 {
                    assert(v@.take(end as int).last() == v@[end - 1]);
                }
                assert(trim_end(v@.take(end as int)) == v@.take(end as int));
            }
            let mut start: usize = end;
            proof {
                assert(v@.subrange(start as int, end as int) =~= Seq::<char>::empty());
                assert(trailing_word(v@.take(end as int)) =~= trailing_word(v@.take(start as int))
                    + v@.subrange(start as int, end as int));
            }
            while start > 0 && !is_whitespace(v[start - 1])
                invariant
                    0 <= start <= end <= v.len(),
                    trailing_word(v@.take(end as int)) == trailing_word(v@.take(start as int))
                        + v@.subrange(start as int, end as int),
                decreases start,
            {
                proof {
                    let t = v@.take(start as int);
                    assert(t.drop_last() =~= v@.take(start - 1));
                    assert(t.last() == v@[start - 1]);
                    assert(v@.subrange(start - 1, end as int) =~= seq![v@[start - 1]]
                        + v@.subrange(start as int, end as int));
                }
                start -= 1;
            }
            proof {
                if start > 0 {
                    assert(v@.take(start as int).last() == v@[start - 1]);
                }
                assert(trailing_word(v@.take(start as int)) =~= Seq::<char>::empty());
                assert(last_word(s@) =~= v@.subrange(start as int, end as int));
            }
            let word = s.substring_char(start, end);
            match parse_uuid(word) {
                Ok(room) => Ok(Command::Join(room)),
                Err(_) => Err(CommandError),
            }
        } else {
            Err(CommandError)
        }
    }
}

impl core::str::FromStr for Command {
    type Err = CommandError;

    fn from_str(s: &str) -> (r: Result<Command, CommandError>)
        ensures
            r == command_of(s@),
    {
        Command::parse(s)
    }
}

} // verus!
