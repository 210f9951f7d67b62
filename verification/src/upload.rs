//! Where uploaded avatars are served from.

use vstd::prelude::*;
use vstd::string::*;

verus! {

/// The edge, in pixels, of a medium-sized avatar.
pub const MEDIUM_AVATAR_SIZE: i32 = 500;

/// The suffix that tells a medium-sized upload from the full-sized one.
pub open spec fn medium_suffix(medium: bool) -> Seq<char> {
    if medium {
        "-medium"@
    } else {
        Seq::empty()
    }
}

/// The URL path of the upload stored under `hash_key`.
pub open spec fn avatar_url_of(hash_key: Seq<char>, medium: bool) -> Seq<char> {
    "/user_avatars/"@ + hash_key + medium_suffix(medium) + ".png"@
}

/// The URL path under which the avatar stored under `hash_key` is served.
pub fn get_avatar_url(hash_key: &str, medium: bool) -> (r: String)
    ensures
        r@ == avatar_url_of(hash_key@, medium),
{
    let mut url = String::from_str("/user_avatars/");
    url.append(hash_key);
    if medium {
        url.append("-medium");
    }
    url.append(".png");
    assert(url@ =~= avatar_url_of(hash_key@, medium));
    url
}

} // verus!
