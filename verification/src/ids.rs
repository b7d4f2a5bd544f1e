//! Matrix identifiers and the trimming of typed text: the calls into
//! `ruma-identifiers`, with what they are trusted to do, and a verified
//! trim.

use vstd::prelude::*;
use vstd::string::*;

use ruma_identifiers::{RoomId, ServerName};

verus! {

/// Whether a character has the Unicode `White_Space` property.
pub open spec fn is_white_space(c: char) -> bool {
    let u = c as u32;
    ||| 0x9 <= u <= 0xD
    ||| u == 0x20
    ||| u == 0x85
    ||| u == 0xA0
    ||| u == 0x1680
    ||| 0x2000 <= u <= 0x200A
    ||| u == 0x2028
    ||| u == 0x2029
    ||| u == 0x202F
    ||| u == 0x205F
    ||| u == 0x3000
}

/// `s` without its leading and trailing white space.
#[verifier::opaque]
pub open spec fn trimmed(s: Seq<char>) -> Seq<char> {
    if exists|i: int| 0 <= i < s.len() && !is_white_space(#[trigger] s[i]) {
        let a = choose|a: int|
            0 <= a < s.len() && !is_white_space(s[a]) && forall|j: int|
                0 <= j < a ==> is_white_space(#[trigger] s[j]);
        let b = choose|b: int|
            a <= b < s.len() && !is_white_space(s[b]) && forall|j: int|
                b < j < s.len() ==> is_white_space(#[trigger] s[j]);
        s.subrange(a, b + 1)
    } else {
        Seq::empty()
    }
}

/// Whether `c` has the Unicode `White_Space` property.
fn white_space(c: char) -> (r: bool)
    ensures
        r == is_white_space(c),
{
    let u = c as u32;
    (0x9 <= u && u <= 0xD) || u == 0x20 || u == 0x85 || u == 0xA0 || u == 0x1680 || (0x2000 <= u
        && u <= 0x200A) || u == 0x2028 || u == 0x2029 || u == 0x202F || u == 0x205F || u == 0x3000
}

/// `s` without its leading and trailing white space, as `str::trim` gives
/// it.
pub fn trim(s: &str) -> (r: &str)
    ensures
        r@ == trimmed(s@),
{
    let n = s.unicode_len();
    let mut a: usize = 0;
    while a < n && white_space(s.get_char(a))
        invariant
            n == s@.len(),
            a <= n,
            forall|j: int| 0 <= j < a ==> is_white_space(#[trigger] s@[j]),
        decreases n - a,
    {
        a = a + 1;
    }
    if a == n {
        proof {
            reveal(trimmed);
        }
        return s.substring_char(0, 0);
    }
    let mut b: usize = n - 1;
    while white_space(s.get_char(b))
        invariant
            n == s@.len(),
            a < n,
            a <= b < n,
            !is_white_space(s@[a as int]),
            forall|j: int| b < j < n ==> is_white_space(#[trigger] s@[j]),
        decreases b,
    {
        b = b - 1;
    }
    proof {
        reveal(trimmed);
        let ss = s@;
        assert(!is_white_space(ss[a as int]));
        let ca = choose|x: int|
            0 <= x < ss.len() && !is_white_space(ss[x]) && forall|j: int|
                0 <= j < x ==> is_white_space(#[trigger] ss[j]);
        assert(ca == a) by {
            if ca < a {
                assert(is_white_space(ss[ca]));
            } else if ca > a {
                assert(is_white_space(ss[a as int]));
            }
        }
        let cb = choose|y: int|
            ca <= y < ss.len() && !is_white_space(ss[y]) && forall|j: int|
                y < j < ss.len() ==> is_white_space(#[trigger] ss[j]);
        assert(!is_white_space(ss[b as int]));
        assert(cb == b) by {
            if cb < b {
                assert(is_white_space(ss[b as int]));
            } else if cb > b {
                assert(is_white_space(ss[cb]));
            }
        }
    }
    s.substring_char(a, b + 1)
}

/// Whether `<&RoomId>::try_from` accepts the string as a room id.
pub open spec fn is_room_id(s: Seq<char>) -> bool {
    room_id_error(s) is None
}

/// Why `<&RoomId>::try_from` refuses the string as a room id; `None` when it
/// accepts it.
pub uninterp spec fn room_id_error(s: Seq<char>) -> Option<ruma_identifiers::Error>;

/// Whether `<&ServerName>::try_from` accepts the string as a server name.
pub uninterp spec fn is_server_name(s: Seq<char>) -> bool;

/// Calls `<&RoomId>::try_from`, which accepts a room id ("!", a local part,
/// ":" and a server name, at most 255 bytes long) and refuses anything else
/// with the reason, the one `room_id_error` names. An accepted id is given
/// back as it was written.
#[verifier::external_body]
pub(crate) fn parse_room_id(s: &str) -> (r: Result<String, ruma_identifiers::Error>)
    ensures
        r is Ok <==> is_room_id(s@),
        r matches Ok(id) ==> id@ == s@ && id@.len() > 0 && id@[0] == '!' && id@.contains(':'),
        r matches Err(e) ==> room_id_error(s@) == Some(e),
{
    match <&RoomId>::try_from(s) {
        Ok(id) => Ok(id.as_str().to_owned()),
        Err(e) => Err(e),
    }
}

/// Whether `c` is an ASCII letter or digit.
pub open spec fn is_ascii_alphanumeric(c: char) -> bool {
    ||| 'a' <= c <= 'z'
    ||| 'A' <= c <= 'Z'
    ||| '0' <= c <= '9'
}

/// The shape of a room id that `RoomId::new` makes on `server`: "!", 18
/// ASCII letters and digits, ":" and the server name.
pub open spec fn is_new_room_id(id: Seq<char>, server: Seq<char>) -> bool {
    &&& id.len() == server.len() + 20
    &&& id[0] == '!'
    &&& forall|i: int| 1 <= i < 19 ==> is_ascii_alphanumeric(#[trigger] id[i])
    &&& id[19] == ':'
    &&& id.subrange(20, id.len() as int) == server
}

/// Parses `server` with `<&ServerName>::try_from` and, when it is a server
/// name, calls `RoomId::new` on it: a new room id made of "!", 18 random
/// ASCII letters and digits, ":" and the server name. What the random part
/// is, is not stated.
#[verifier::external_body]
pub(crate) fn new_room_id(server: &str) -> (r: Option<String>)
    ensures
        r is Some <==> is_server_name(server@),
        r matches Some(id) ==> is_new_room_id(id@, server@),
{
    match <&ServerName>::try_from(server) {
        Ok(name) => Some(RoomId::new(name).as_str().to_owned()),
        Err(_) => None,
    }
}

} // verus!
