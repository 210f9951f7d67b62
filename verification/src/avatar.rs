//! The avatar URL that goes into a message payload.

use gravatar_rs::Generator;
use url::Url;
use vstd::prelude::*;
use vstd::string::*;

use crate::avatar_hash::{avatar_path_of, user_avatar_path_from_ids};
use crate::text::{
    decimal, int_to_string, is_substring, lemma_decimal_is_short, str_contains, str_eq, text_view,
};
use crate::types::{RealmId, UserId};
use crate::upload::{avatar_url_of, get_avatar_url, MEDIUM_AVATAR_SIZE};

verus! {

/// Where a user's avatar comes from.
#[derive(Clone, Copy, Debug, PartialEq, Eq, Structural)]
pub enum AvatarSource {
    /// Gravatar, written `G`.
    Gravatar,
    /// An upload of the user's, written `U`.
    User,
}

impl AvatarSource {
    /// The one-letter code of the source.
    pub open spec fn code(self) -> Seq<char> {
        match self {
            AvatarSource::Gravatar => "G"@,
            AvatarSource::User => "U"@,
        }
    }

    /// The source that `code` stands for, if any.
    pub open spec fn of_code(code: Seq<char>) -> Option<AvatarSource> {
        if code == "G"@ {
            Some(AvatarSource::Gravatar)
        } else if code == "U"@ {
            Some(AvatarSource::User)
        } else {
            None
        }
    }

    /// The one-letter code of the source.
    pub fn as_str(&self) -> (r: &'static str)
        ensures
            r@ == self.code(),
    {
        match self {
            AvatarSource::Gravatar => "G",
            AvatarSource::User => "U",
        }
    }

    /// Reads a one-letter code: `G` or `U`.
    pub fn from_code(code: &str) -> (r: Option<AvatarSource>)
        ensures
            r == Self::of_code(code@),
    {
        if str_eq(code, "G") {
            Some(AvatarSource::Gravatar)
        } else if str_eq(code, "U") {
            Some(AvatarSource::User)
        } else {
            None
        }
    }
}

/// Reading back the code of a source gives the source.
pub proof fn law_avatar_source_code_round_trip(source: AvatarSource)
    ensures
        AvatarSource::of_code(source.code()) == Some(source),
{
    reveal_strlit("G");
    reveal_strlit("U");
    assert("G"@[0] != "U"@[0]);
}

/// How avatar URLs are built on this server.
pub struct AvatarSettings {
    pub enable_gravatar: bool,
    pub default_avatar_uri: String,
    pub avatar_salt: String,
}

/// The longest URL, in bytes, that is handed to the URL parser.
pub const MAX_URL_BYTES: usize = 0x100_0000;

/// The Gravatar image URL for `email` with the given default image and size.
pub uninterp spec fn gravatar_image_url(
    email: Seq<char>,
    default_image: Seq<char>,
    image_size: Option<i32>,
) -> Seq<char>;

/// Calls `Generator::generate` on a default `Generator` whose
/// `default_image` and `image_size` are set as given. Trusted: the result is
/// the Gravatar URL for these three values, and depends on nothing else.
#[verifier::external_body]
fn gravatar_generate(email: &str, default_image: &str, image_size: Option<i32>) -> (r: String)
    ensures
        r@ == gravatar_image_url(email@, default_image@, image_size),
{
    let mut generator = Generator::default();
    generator.default_image = Some(default_image.to_string());
    generator.image_size = image_size;
    generator.generate(email)
}

/// The text of the URL `url` once the pair `key=value` is added to its
/// query; `None` where `url` does not parse as an absolute URL.
pub uninterp spec fn url_with_query_pair(
    url: Seq<char>,
    key: Seq<char>,
    value: Seq<char>,
) -> Option<Seq<char>>;

/// Calls `Url::parse`, then `Url::query_pairs_mut` and `append_pair` on what
/// was parsed, and gives the URL's text. Trusted: the result depends on the
/// three texts alone, and is `None` exactly where `Url::parse` fails. The
/// bound keeps the URL within the length that the `url` crate can index.
#[verifier::external_body]
fn url_append_query_pair(url: &str, key: &str, value: &str) -> (r: Option<String>)
    requires
        url.spec_bytes().len() <= MAX_URL_BYTES,
        key.spec_bytes().len() <= MAX_URL_BYTES,
        value.spec_bytes().len() <= MAX_URL_BYTES,
    ensures
        match r {
            Some(text) => url_with_query_pair(url@, key@, value@) == Some(text@),
            None => url_with_query_pair(url@, key@, value@) is None,
        },
{
    match Url::parse(url) {
        Ok(mut parsed) => {
            parsed.query_pairs_mut().append_pair(key, value);
            Some(parsed.to_string())
        },
        Err(_) => None,
    }
}

/// Whether the client is left to compute the Gravatar URL itself.
pub open spec fn client_computes_avatar(
    avatar_source: AvatarSource,
    client_gravatar: bool,
    settings: &AvatarSettings,
) -> bool {
    settings.enable_gravatar && client_gravatar && avatar_source == AvatarSource::Gravatar
}

/// The size asked of Gravatar: `MEDIUM_AVATAR_SIZE` for a medium avatar,
/// Gravatar's own default otherwise.
pub open spec fn gravatar_size(medium: bool) -> Option<i32> {
    if medium {
        Some(MEDIUM_AVATAR_SIZE)
    } else {
        None
    }
}

/// The Gravatar URL of `email` where Gravatar is enabled, with `identicon`
/// as the default image; the server's default avatar otherwise.
pub open spec fn unversioned_gravatar_url(
    email: Seq<char>,
    medium: bool,
    settings: &AvatarSettings,
) -> Seq<char> {
    if settings.enable_gravatar {
        gravatar_image_url(email, "identicon"@, gravatar_size(medium))
    } else {
        settings.default_avatar_uri@
    }
}

/// The avatar URL before the version is added: that of the upload for an
/// uploaded avatar, that of Gravatar otherwise.
pub open spec fn unversioned_avatar_url(
    user_profile_id: UserId,
    avatar_source: AvatarSource,
    realm_id: RealmId,
    email: Seq<char>,
    medium: bool,
    settings: &AvatarSettings,
) -> Seq<char> {
    match avatar_source {
        AvatarSource::User => avatar_url_of(
            avatar_path_of(user_profile_id, realm_id, settings.avatar_salt@),
            medium,
        ),
        AvatarSource::Gravatar => unversioned_gravatar_url(email, medium, settings),
    }
}

/// `url` with `version=<avatar_version>` added as plain text: after a `&`
/// where the text holds a `?` already, after a `?` otherwise.
pub open spec fn plainly_versioned(url: Seq<char>, avatar_version: i32) -> Seq<char> {
    url + (if is_substring("?"@, url) {
        "&version="@
    } else {
        "?version="@
    }) + decimal(avatar_version as int)
}

/// `url` with `version=<avatar_version>` added to its query. An absolute
/// URL of at most `MAX_URL_BYTES` is rewritten by the URL parser; to any
/// other text, such as the path of an upload, the version is added as
/// plain text.
pub open spec fn versioned_url(url: Seq<char>, avatar_version: i32) -> Seq<char> {
    if vstd::utf8::encode_utf8(url).len() > MAX_URL_BYTES {
        plainly_versioned(url, avatar_version)
    } else {
        match url_with_query_pair(url, "version"@, decimal(avatar_version as int)) {
            Some(text) => text,
            None => plainly_versioned(url, avatar_version),
        }
    }
}

/// The avatar field of a payload: absent where the client computes the
/// Gravatar URL itself, else the versioned avatar URL.
pub open spec fn avatar_field(
    user_id: UserId,
    realm_id: RealmId,
    email: Seq<char>,
    avatar_source: AvatarSource,
    avatar_version: i32,
    medium: bool,
    client_gravatar: bool,
    settings: &AvatarSettings,
) -> Option<Seq<char>> {
    if client_computes_avatar(avatar_source, client_gravatar, settings) {
        None
    } else {
        Some(
            versioned_url(
                unversioned_avatar_url(user_id, avatar_source, realm_id, email, medium, settings),
                avatar_version,
            ),
        )
    }
}

/// The versioned URL, given what the URL parser made of `url`: its
/// rewriting where there is one, and else `url` with the version added as
/// plain text.
pub fn finish_versioned_url(url: &str, avatar_version: i32, rewritten: Option<String>) -> (r:
    String)
    ensures
        r@ == match rewritten {
            Some(text) => text@,
            None => plainly_versioned(url@, avatar_version),
        },
{
    match rewritten {
        Some(text) => text,
        None => {
            let mut out = String::from_str(url);
            if str_contains(url, "?") {
                out.append("&version=");
            } else {
                out.append("?version=");
            }
            let version = int_to_string(avatar_version as i64);
            out.append(version.as_str());
            out
        },
    }
}

fn add_version(url: &str, avatar_version: i32) -> (r: String)
    ensures
        r@ == versioned_url(url@, avatar_version),
{
    if url.as_bytes().len() > MAX_URL_BYTES {
        return finish_versioned_url(url, avatar_version, None);
    }
    let version = int_to_string(avatar_version as i64);
    proof {
        reveal_strlit("version");
        lemma_decimal_is_short(avatar_version as int);
        vstd::utf8::is_ascii_chars_encode_utf8("version"@);
    }
    let rewritten = url_append_query_pair(url, "version", version.as_str());
    finish_versioned_url(url, avatar_version, rewritten)
}

/// The avatar field of a message payload.
///
/// Most parameters are the fields of the same name of the user's profile.
/// `medium` asks for a medium-sized avatar: it sets the size asked of
/// Gravatar, or picks the medium-sized upload. `client_gravatar` says that
/// the client can compute Gravatar URLs itself; for such a client no URL is
/// computed here, which saves bandwidth.
pub fn get_avatar_field(
    user_id: UserId,
    realm_id: RealmId,
    email: &str,
    avatar_source: AvatarSource,
    avatar_version: i32,
    medium: bool,
    client_gravatar: bool,
    settings: &AvatarSettings,
) -> (r: Option<String>)
    ensures
        text_view(r) == avatar_field(
            user_id,
            realm_id,
            email@,
            avatar_source,
            avatar_version,
            medium,
            client_gravatar,
            settings,
        ),
{
    // A client that knows how to compute Gravatar hashes gets no URL and
    // computes it itself.
    if settings.enable_gravatar && client_gravatar && avatar_source == AvatarSource::Gravatar {
        return None;
    }
    // Otherwise the URL is that of an upload or of Gravatar, and carries the
    // avatar's version so that caches do not serve a stale image.

    let url = get_unversioned_avatar_url(
        user_id,
        avatar_source,
        realm_id,
        Some(email),
        medium,
        settings,
    );
    Some(add_version(url.as_str(), avatar_version))
}

/// The Gravatar URL of `email`, or the server's default avatar where
/// Gravatar is disabled.
pub fn get_unversioned_gravatar_url(email: &str, medium: bool, settings: &AvatarSettings) -> (r:
    String)
    ensures
        r@ == unversioned_gravatar_url(email@, medium, settings),
{
    if settings.enable_gravatar {
        let image_size = if medium {
            Some(MEDIUM_AVATAR_SIZE)
        } else {
            None
        };
        gravatar_generate(email, "identicon", image_size)
    } else {
        settings.default_avatar_uri.clone()
    }
}

/// The avatar URL before the version is added. The email is read for a
/// Gravatar avatar only.
pub fn get_unversioned_avatar_url(
    user_profile_id: UserId,
    avatar_source: AvatarSource,
    realm_id: RealmId,
    email: Option<&str>,
    medium: bool,
    settings: &AvatarSettings,
) -> (r: String)
    requires
        avatar_source == AvatarSource::Gravatar ==> email is Some,
    ensures
        avatar_source == AvatarSource::Gravatar ==> r@ == unversioned_gravatar_url(
            email->0@,
            medium,
            settings,
        ),
        avatar_source == AvatarSource::User ==> r@ == avatar_url_of(
            avatar_path_of(user_profile_id, realm_id, settings.avatar_salt@),
            medium,
        ),
{
    match avatar_source {
        AvatarSource::User => {
            let hash_key = user_avatar_path_from_ids(user_profile_id, realm_id, settings);
            get_avatar_url(hash_key.as_str(), medium)
        },
        AvatarSource::Gravatar => {
            match email {
                Some(email) => get_unversioned_gravatar_url(email, medium, settings),
                None => String::new(),
            }
        },
    }
}

} // verus!
