//! Addresses and credentials of the calls to the remote metadata service.

use vstd::arithmetic::power::pow;
use vstd::prelude::*;

verus! {

/// The lower-case hexadecimal digits.
pub open spec fn hex_digits() -> Seq<char> {
    seq!['0', '1', '2', '3', '4', '5', '6', '7', '8', '9', 'a', 'b', 'c', 'd', 'e', 'f']
}

/// The `j`-th of the 32 hexadecimal digits of `id`, most significant first.
pub open spec fn nibble(id: u128, j: int) -> int {
    (id as int / pow(16, (31 - j) as nat)) % 16
}

/// Which digit stands at position `i` of the text, once the hyphens before it
/// are skipped.
pub open spec fn digit_index(i: int) -> int {
    if i < 8 {
        i
    } else if i < 13 {
        i - 1
    } else if i < 18 {
        i - 2
    } else if i < 23 {
        i - 3
    } else {
        i - 4
    }
}

/// The text form of a 128-bit identifier: its 32 lower-case hexadecimal digits,
/// most significant first, in groups of 8, 4, 4, 4 and 12 joined by `-`.
pub open spec fn uuid_text(id: u128) -> Seq<char> {
    Seq::new(
        36,
        |i: int|
            if i == 8 || i == 13 || i == 18 || i == 23 {
                '-'
            } else {
                hex_digits()[nibble(id, digit_index(i))]
            },
    )
}

/// Relies on uuid's `Display` for `Uuid`, applied to `Uuid::from_u128(id)`:
/// the identifier's bytes in big-endian order, written as hyphenated
/// lower-case hexadecimal.
#[verifier::external_body]
fn id_text(id: u128) -> (r: String)
    ensures
        r@ == uuid_text(id),
{
    uuid::Uuid::from_u128(id).to_string()
}

/// The collection of tracked entries on the service.
pub open spec fn files_path() -> Seq<char> {
    seq!['/', 'v', '1', '/', 'f', 'i', 'l', 'e', 's']
}

/// The address of one tracked entry.
pub open spec fn file_path(id: u128) -> Seq<char> {
    files_path() + seq!['/'] + uuid_text(id)
}

/// The value of the `Authorization` header that carries `token`.
pub open spec fn bearer_spec(token: Seq<char>) -> Seq<char> {
    seq!['b', 'e', 'a', 'r', 'e', 'r', ' '] + token
}

/// Where registrations are posted.
pub fn files_endpoint() -> (r: String)
    ensures
        r@ == files_path(),
{
    proof {
        reveal_strlit("/v1/files");
    }
    "/v1/files".to_owned()
}

/// Where the entry `id` is updated.
pub fn file_endpoint(id: u128) -> (r: String)
    ensures
        r@ == file_path(id),
{
    proof {
        reveal_strlit("/");
    }
    let mut r = files_endpoint();
    r.append("/");
    let t = id_text(id);
    r.append(t.as_str());
    r
}

/// The `Authorization` header value for `token`.
pub fn bearer(token: &String) -> (r: String)
    ensures
        r@ == bearer_spec(token@),
{
    proof {
        reveal_strlit("bearer ");
    }
    let mut r = "bearer ".to_owned();
    r.append(token.as_str());
    r
}

} // verus!
