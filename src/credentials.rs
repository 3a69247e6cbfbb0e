use vstd::prelude::*;

verus! {

/// The lowercase hex SHA-256 digest of the UTF-8 bytes of `s`.
pub uninterp spec fn sha256_hex(s: Seq<char>) -> Seq<char>;

/// Relies on `sha256::digest` on a `&str`: the hex encoding of the SHA-256
/// digest of its bytes, two digits for each of the 32 bytes.
#[verifier::external_body]
fn digest_hex(s: &String) -> (r: String)
    ensures
        r@ == sha256_hex(s@),
        r@.len() == 64,
{
    sha256::digest(s.as_str())
}

/// Relies on `uuid::Uuid::new_v4` and the hyphenated form that its
/// `to_string` writes: a random identifier of 36 characters.
#[verifier::external_body]
pub(crate) fn new_uuid() -> (r: String)
    ensures
        r@.len() == 36,
{
    uuid::Uuid::new_v4().to_string()
}

/// What the credential store keeps of an identity after a registration or
/// a login: the name, the digest of the password and a fresh session token.
#[derive(Debug)]
pub struct Credential {
    pub name: String,
    pub password_hash: String,
    pub token: String,
}

/// The credential record for `name` with `password`, under a fresh token.
pub fn credential_for(name: String, password: &String) -> (r: Credential)
    ensures
        r.name@ == name@,
        r.password_hash@ == sha256_hex(password@),
        r.token@.len() == 36,
{
    let password_hash = digest_hex(password);
    let token = new_uuid();
    Credential { name, password_hash, token }
}

} // verus!
