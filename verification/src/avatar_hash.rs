//! The path under which a user's uploaded avatar is stored.

use sha1::{Digest, Sha1};
use vstd::prelude::*;
use vstd::string::*;
use vstd::utf8::encode_utf8;

use crate::avatar::AvatarSettings;
use crate::text::{bytes_to_hex, decimal, hex_lower, int_to_string};
use crate::types::{RealmId, UserId};

verus! {

/// The SHA-1 digest of a byte string.
pub uninterp spec fn sha1_digest(data: Seq<u8>) -> Seq<u8>;

/// Calls `Sha1::digest`. Trusted: the result is the SHA-1 digest of `data`,
/// which depends on the bytes of `data` alone.
#[verifier::external_body]
fn sha1(data: &[u8]) -> (r: Vec<u8>)
    ensures
        r@ == sha1_digest(data@),
{
    Sha1::digest(data).to_vec()
}

/// The salted hash of a user id: the SHA-1 digest, in lowercase hexadecimal,
/// of the id's text followed by the salt.
pub open spec fn avatar_hash_of(uid: Seq<char>, avatar_salt: Seq<char>) -> Seq<char> {
    hex_lower(sha1_digest(encode_utf8(uid) + encode_utf8(avatar_salt)))
}

/// The storage path of a user's avatar: the realm, a slash, the salted hash
/// of the user id.
pub open spec fn avatar_path_of(
    user_profile_id: UserId,
    realm_id: RealmId,
    avatar_salt: Seq<char>,
) -> Seq<char> {
    decimal(realm_id as int) + "/"@ + avatar_hash_of(decimal(user_profile_id as int), avatar_salt)
}

// Stored avatars are found again by this hash: to change it is to lose
// them. The salt dates from the time when the email address was hashed, and
// kept the scheme apart from Gravatar's.
pub fn user_avatar_hash(uid: &str, avatar_salt: &str) -> (r: String)
    ensures
        r@ == avatar_hash_of(uid@, avatar_salt@),
{
    let mut data: Vec<u8> = Vec::new();
    data.extend_from_slice(uid.as_bytes());
    data.extend_from_slice(avatar_salt.as_bytes());
    assert(data@ =~= encode_utf8(uid@) + encode_utf8(avatar_salt@));
    let digest = sha1(data.as_slice());
    bytes_to_hex(digest.as_slice())
}

/// The storage path of the avatar that `user_profile_id` of `realm_id`
/// uploaded.
pub fn user_avatar_path_from_ids(
    user_profile_id: UserId,
    realm_id: RealmId,
    settings: &AvatarSettings,
) -> (r: String)
    ensures
        r@ == avatar_path_of(user_profile_id, realm_id, settings.avatar_salt@),
{
    let uid = int_to_string(user_profile_id as i64);
    let user_id_hash = user_avatar_hash(uid.as_str(), settings.avatar_salt.as_str());
    let mut path = int_to_string(realm_id as i64);
    path.append("/");
    path.append(user_id_hash.as_str());
    assert(path@ =~= avatar_path_of(user_profile_id, realm_id, settings.avatar_salt@));
    path
}

} // verus!
