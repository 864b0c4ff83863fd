//! Shared secrets, kept in memory that is locked and wiped by `secstr`.

use secstr::SecUtf8;
use vstd::prelude::*;

verus! {

/// `secstr::SecUtf8`: a text in memory that is locked while it lives and
/// wiped when it is dropped. Nothing of its inside is known here.
#[verifier::external_type_specification]
#[verifier::external_body]
pub struct ExSecUtf8(secstr::SecUtf8);

/// The text that a secret holds.
pub uninterp spec fn secret_text(secret: SecUtf8) -> Seq<char>;

/// Moves `text` into a secret. `SecUtf8::from` keeps the bytes of the string
/// it is given, so the secret holds exactly `text`.
#[verifier::external_body]
pub(crate) fn seal(text: String) -> (secret: SecUtf8)
    ensures
        secret_text(secret) == text@,
{
    SecUtf8::from(text)
}

/// `SecUtf8::unsecure` borrows the text that the secret holds.
pub assume_specification[ SecUtf8::unsecure ](secret: &SecUtf8) -> (text: &str)
    ensures
        text@ == secret_text(*secret),
;

/// Whether two secrets hold the same text. `SecUtf8`'s `==` compares the
/// lengths and then every byte of the two texts, in time that does not
/// depend on where they differ.
#[verifier::external_body]
pub(crate) fn same_secret(left: &SecUtf8, right: &SecUtf8) -> (same: bool)
    ensures
        same == (secret_text(*left) == secret_text(*right)),
{
    left == right
}

} // verus!
