use vstd::prelude::*;

verus! {

/// The lowercase hexadecimal SHA-256 digest of `data`.
pub uninterp spec fn sha256_hex_of(data: Seq<u8>) -> Seq<char>;

/// Relies on sha256::digest on a byte slice: it hex-encodes the 32-byte
/// SHA-256 digest of exactly those bytes, so the text depends on the bytes
/// alone and has 64 characters.
#[verifier::external_body]
fn sha256_hex(data: &[u8]) -> (r: String)
    ensures
        r@ == sha256_hex_of(data@),
        r@.len() == 64,
{
    sha256::digest(data)
}

/// The digest of a key file's whole content.
pub fn key_digest(content: &Vec<u8>) -> (r: String)
    ensures
        r@ == sha256_hex_of(content@),
        r@.len() == 64,
{
    sha256_hex(content.as_slice())
}

/// Equal key contents give equal digests.
pub proof fn lemma_digest_deterministic(a: Seq<u8>, b: Seq<u8>)
    requires
        a == b,
    ensures
        sha256_hex_of(a) == sha256_hex_of(b),
{
}

/// The path of `key` under the mount point `mount_point`.
pub open spec fn key_path_under(mount_point: Seq<char>, key: Seq<char>) -> Seq<char> {
    mount_point + seq!['/'] + key
}

/// Joins a mount point and a relative key path with a `/`.
pub fn key_location(mount_point: &str, key: &str) -> (r: String)
    ensures
        r@ == key_path_under(mount_point@, key@),
{
    let mut r = String::from_str(mount_point);
    r.append("/");
    r.append(key);
    proof {
        reveal_strlit("/");
    }
    r
}

} // verus!
