use vstd::prelude::*;

verus! {

/// A separator character allowed inside an identity.
pub open spec fn is_separator(c: char) -> bool {
    c == '-' || c == '_' || c == '.'
}

/// A lowercase-alphanumeric identity character.
pub open spec fn is_identity_char(c: char) -> bool {
    ('a' <= c && c <= 'z') || ('0' <= c && c <= '9')
}

/// A syntactically valid host identity: 2 to 64 characters, each a
/// lowercase alphanumeric or one of the separators '-', '_' and '.',
/// where a separator never starts or ends the identity and never
/// follows another separator.
pub open spec fn valid_identity(s: Seq<char>) -> bool {
    &&& 2 <= s.len() <= 64
    &&& forall|i: int|
        0 <= i < s.len() ==> is_identity_char(#[trigger] s[i]) || is_separator(s[i])
    &&& forall|i: int|
        0 < i < s.len() ==> !(is_separator(s[i - 1]) && #[trigger] is_separator(s[i]))
    &&& !is_separator(s[0])
    &&& !is_separator(s[s.len() - 1])
}

/// Relies on near_sdk::AccountId::validate: an account id is accepted
/// exactly when it is 2 to 64 bytes of lowercase alphanumerics and the
/// separators '-', '_' and '.', with no separator first, last, or next
/// to another separator. A string of those characters is one byte per
/// character, so byte counts and character counts coincide; a string
/// with any other character is rejected by both descriptions.
#[verifier::external_body]
pub(crate) fn check_identity(s: &String) -> (r: bool)
    ensures
        r == valid_identity(s@),
{
    near_sdk::AccountId::validate(s.as_str()).is_ok()
}

} // verus!
