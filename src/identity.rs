use vstd::prelude::*;

verus! {

/// A character of lowercase hexadecimal.
pub open spec fn is_hex_digit(c: char) -> bool {
    ('0' <= c && c <= '9') || ('a' <= c && c <= 'f')
}

/// The shape of a hex-encoded 256-bit digest: 64 lowercase hex digits.
pub open spec fn is_digest_hex(s: Seq<char>) -> bool {
    s.len() == 64 && forall|i: int| 0 <= i < s.len() ==> is_hex_digit(#[trigger] s[i])
}

/// The identifier could not be built, most often because the platform's
/// system identifier could not be read.
#[derive(Clone, Debug, PartialEq, Eq)]
pub struct IdentityError {
    pub message: String,
}

/// Relies on machineid_rs::IdBuilder::build, set up with SHA-256 over the
/// system identifier and the CPU core count: on success it returns the
/// HMAC-SHA256 of those properties under `key`, hex-encoded by
/// hex::encode (lowercase). Its error is handed back as its message.
#[verifier::external_body]
fn machine_digest(key: &str) -> (r: Result<String, String>)
    ensures
        r matches Ok(s) ==> is_digest_hex(s@),
{
    let mut builder = machineid_rs::IdBuilder::new(machineid_rs::Encryption::SHA256);
    builder
        .add_component(machineid_rs::HWIDComponent::SystemID)
        .add_component(machineid_rs::HWIDComponent::CPUCores);
    builder.build(key).map_err(|e| e.to_string())
}

/// Derives the machine identifier from the platform's system identifier and
/// CPU core count, keyed by `key`. It reads live system properties, so only
/// the digest's shape is known here; a failure carries the probe's message.
pub fn build_id(key: &str) -> (r: Result<String, IdentityError>)
    ensures
        r matches Ok(s) ==> is_digest_hex(s@),
{
    match machine_digest(key) {
        Ok(s) => Ok(s),
        Err(message) => Err(IdentityError { message }),
    }
}

} // verus!
