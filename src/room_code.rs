use vstd::prelude::*;

verus! {

/// A lowercase hexadecimal digit.
pub open spec fn is_lower_hex(c: char) -> bool {
    ('0' <= c && c <= '9') || ('a' <= c && c <= 'f')
}

/// The positions of the four hyphens in a hyphenated identifier.
pub open spec fn is_hyphen_position(i: int) -> bool {
    i == 8 || i == 13 || i == 18 || i == 23
}

/// The canonical hyphenated form of a 128-bit identifier: 36 characters,
/// hyphens at positions 8, 13, 18 and 23, lowercase hex digits elsewhere.
pub open spec fn is_canonical_code(s: Seq<char>) -> bool {
    &&& s.len() == 36
    &&& forall|i: int|
        0 <= i < 36 ==> if is_hyphen_position(i) {
            s[i] == '-'
        } else {
            is_lower_hex(#[trigger] s[i])
        }
}

/// A canonical identifier that carries the marks of a random (version 4,
/// RFC 4122 variant) identifier.
pub open spec fn is_random_code(s: Seq<char>) -> bool {
    &&& is_canonical_code(s)
    &&& s[14] == '4'
    &&& (s[19] == '8' || s[19] == '9' || s[19] == 'a' || s[19] == 'b')
}

/// The address prefix under which a room is reached by its code.
pub open spec fn chat_prefix() -> Seq<char> {
    seq!['/', 'c', 'h', 'a', 't', '?', 'c', 'o', 'd', 'e', '=']
}

/// The address of the room with the given code.
pub open spec fn chat_path_of(code: Seq<char>) -> Seq<char> {
    chat_prefix() + code
}

/// Relies on uuid's `Uuid::new_v4` and its `Display`: a random identifier in
/// lowercase hyphenated form, with version digit 4 and variant digit 8 to b.
#[verifier::external_body]
fn new_random_code() -> (r: String)
    ensures
        is_random_code(r@),
{
    uuid::Uuid::new_v4().to_string()
}

/// Mints a fresh invitation code. Uniqueness is probabilistic: nothing is
/// known of a code but its form.
pub fn generate_code() -> (r: String)
    ensures
        is_random_code(r@),
        r@.len() > 0,
{
    new_random_code()
}

/// The code carried by the navigation context, or the empty string, which
/// stands for "no code", when the context carries none.
pub fn resolve_code(param: Option<String>) -> (r: String)
    ensures
        r@ == match param {
            Some(c) => c@,
            None => Seq::<char>::empty(),
        },
{
    match param {
        Some(c) => c,
        None => String::new(),
    }
}

/// The address of the room with the given code.
pub fn chat_path(code: &str) -> (r: String)
    ensures
        r@ == chat_path_of(code@),
{
    let mut path = "/chat?code=".to_owned();
    proof {
        reveal_strlit("/chat?code=");
    }
    assert(path@ =~= chat_prefix());
    path.append(code);
    path
}

} // verus!
