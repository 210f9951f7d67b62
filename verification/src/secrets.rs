//! The secrets that the service reads from its configuration.

use configparser::ini::Ini;
use vstd::prelude::*;
use vstd::string::*;

use crate::text::text_view;

verus! {

/// A parsed configuration: `configparser::ini::Ini`, of which nothing is
/// known here but what `ini_read` and `ini_get` say.
#[verifier::external_type_specification]
#[verifier::external_body]
pub struct ExIni(Ini);

/// What a configuration holds: for a section and a key, as `Ini::get` is
/// asked for them, the value that it gives.
pub uninterp spec fn ini_entries(ini: Ini) -> Map<(Seq<char>, Seq<char>), Seq<char>>;

/// What `Ini::read` makes of a text, on a configuration made by
/// `Ini::new`: the entries that it then holds, or the message with which
/// the text is refused.
pub uninterp spec fn ini_read_result(contents: Seq<char>) -> Result<
    Map<(Seq<char>, Seq<char>), Seq<char>>,
    Seq<char>,
>;

/// The longest configuration, in bytes, that is handed to the parser.
pub const MAX_CONFIG_BYTES: usize = 0x100_0000;

/// What is said of a configuration that is longer than `MAX_CONFIG_BYTES`.
pub const TOO_LONG: &'static str = "the configuration is too long";

/// Calls `Ini::new` and `Ini::read`. Trusted: whether the text is taken,
/// and what the configuration then holds, depends on the text alone. The
/// bound keeps the number of lines within what the parser can count.
#[verifier::external_body]
fn ini_read(contents: String) -> (r: Result<Ini, String>)
    requires
        vstd::utf8::encode_utf8(contents@).len() <= MAX_CONFIG_BYTES,
    ensures
        match r {
            Ok(ini) => ini_read_result(contents@) == Ok::<
                Map<(Seq<char>, Seq<char>), Seq<char>>,
                Seq<char>,
            >(ini_entries(ini)),
            Err(why) => ini_read_result(contents@) == Err::<
                Map<(Seq<char>, Seq<char>), Seq<char>>,
                Seq<char>,
            >(why@),
        },
{
    let mut ini = Ini::new();
    match ini.read(contents) {
        Ok(_) => Ok(ini),
        Err(why) => Err(why),
    }
}

/// Calls `Ini::get`. Trusted: the result is the value that the
/// configuration holds for the section and the key, if it holds one.
#[verifier::external_body]
fn ini_get(ini: &Ini, section: &str, key: &str) -> (r: Option<String>)
    ensures
        match r {
            Some(value) => ini_entries(*ini).contains_key((section@, key@)) && ini_entries(
                *ini,
            )[(section@, key@)] == value@,
            None => !ini_entries(*ini).contains_key((section@, key@)),
        },
{
    ini.get(section, key)
}

/// The secrets of the service.
#[derive(Debug, PartialEq, Eq)]
pub struct Secrets {
    pub local_database_password: String,
    pub rabbitmq_password: String,
    pub secret_key: String,
    pub shared_secret: String,
    pub avatar_salt: String,
}

/// What a `Secrets` holds.
pub struct SecretsView {
    pub local_database_password: Seq<char>,
    pub rabbitmq_password: Seq<char>,
    pub secret_key: Seq<char>,
    pub shared_secret: Seq<char>,
    pub avatar_salt: Seq<char>,
}

impl View for Secrets {
    type V = SecretsView;

    open spec fn view(&self) -> SecretsView {
        SecretsView {
            local_database_password: self.local_database_password@,
            rabbitmq_password: self.rabbitmq_password@,
            secret_key: self.secret_key@,
            shared_secret: self.shared_secret@,
            avatar_salt: self.avatar_salt@,
        }
    }
}

/// One of the secrets, by the key under which it is configured.
#[derive(Clone, Copy, Debug, PartialEq, Eq, Structural)]
pub enum SecretKey {
    LocalDatabasePassword,
    RabbitmqPassword,
    SecretKey,
    SharedSecret,
    AvatarSalt,
}

impl SecretKey {
    /// The key in the `secrets` section.
    pub open spec fn name(self) -> Seq<char> {
        match self {
            SecretKey::LocalDatabasePassword => "local_database_password"@,
            SecretKey::RabbitmqPassword => "rabbitmq_password"@,
            SecretKey::SecretKey => "secret_key"@,
            SecretKey::SharedSecret => "shared_secret"@,
            SecretKey::AvatarSalt => "avatar_salt"@,
        }
    }

    /// The key in the `secrets` section.
    pub fn as_str(&self) -> (r: &'static str)
        ensures
            r@ == self.name(),
    {
        match self {
            SecretKey::LocalDatabasePassword => "local_database_password",
            SecretKey::RabbitmqPassword => "rabbitmq_password",
            SecretKey::SecretKey => "secret_key",
            SecretKey::SharedSecret => "shared_secret",
            SecretKey::AvatarSalt => "avatar_salt",
        }
    }
}

/// Why the secrets could not be read.
#[derive(Debug, PartialEq, Eq)]
pub enum SecretsError {
    /// The configuration is not well formed; the message says why.
    Unreadable(String),
    /// A secret is not configured.
    Missing(SecretKey),
}

/// What `SecretsError` holds.
pub enum SecretsErrorView {
    Unreadable(Seq<char>),
    Missing(SecretKey),
}

impl View for SecretsError {
    type V = SecretsErrorView;

    open spec fn view(&self) -> SecretsErrorView {
        match self {
            SecretsError::Unreadable(why) => SecretsErrorView::Unreadable(why@),
            SecretsError::Missing(key) => SecretsErrorView::Missing(*key),
        }
    }
}

impl SecretsError {
    /// A sentence that names what is missing or wrong.
    pub fn message(&self) -> (r: String)
        ensures
            match self {
                SecretsError::Unreadable(why) => r@ == why@,
                SecretsError::Missing(key) => r@ == "missing "@ + key.name(),
            },
    {
        match self {
            SecretsError::Unreadable(why) => why.clone(),
            SecretsError::Missing(key) => {
                let mut message = String::from_str("missing ");
                message.append(key.as_str());
                message
            },
        }
    }
}

/// The secrets made of the five values, or the first of them, in the
/// order of the fields, that is missing.
pub open spec fn secrets_of(
    local_database_password: Option<Seq<char>>,
    rabbitmq_password: Option<Seq<char>>,
    secret_key: Option<Seq<char>>,
    shared_secret: Option<Seq<char>>,
    avatar_salt: Option<Seq<char>>,
) -> Result<SecretsView, SecretsErrorView> {
    if local_database_password is None {
        Err(SecretsErrorView::Missing(SecretKey::LocalDatabasePassword))
    } else if rabbitmq_password is None {
        Err(SecretsErrorView::Missing(SecretKey::RabbitmqPassword))
    } else if secret_key is None {
        Err(SecretsErrorView::Missing(SecretKey::SecretKey))
    } else if shared_secret is None {
        Err(SecretsErrorView::Missing(SecretKey::SharedSecret))
    } else if avatar_salt is None {
        Err(SecretsErrorView::Missing(SecretKey::AvatarSalt))
    } else {
        Ok(
            SecretsView {
                local_database_password: local_database_password->0,
                rabbitmq_password: rabbitmq_password->0,
                secret_key: secret_key->0,
                shared_secret: shared_secret->0,
                avatar_salt: avatar_salt->0,
            },
        )
    }
}

/// The value of a key of the `secrets` section, if there is one.
pub open spec fn secret_value(
    entries: Map<(Seq<char>, Seq<char>), Seq<char>>,
    key: SecretKey,
) -> Option<Seq<char>> {
    if entries.contains_key(("secrets"@, key.name())) {
        Some(entries[("secrets"@, key.name())])
    } else {
        None
    }
}

/// The secrets that a configuration with these entries gives.
pub open spec fn secrets_in(entries: Map<(Seq<char>, Seq<char>), Seq<char>>) -> Result<
    SecretsView,
    SecretsErrorView,
> {
    secrets_of(
        secret_value(entries, SecretKey::LocalDatabasePassword),
        secret_value(entries, SecretKey::RabbitmqPassword),
        secret_value(entries, SecretKey::SecretKey),
        secret_value(entries, SecretKey::SharedSecret),
        secret_value(entries, SecretKey::AvatarSalt),
    )
}

/// The secrets that the text of a configuration gives: none for a text of
/// more than `MAX_CONFIG_BYTES` or one that the parser refuses, and else
/// those of the entries that the parser finds.
pub open spec fn secrets_read(contents: Seq<char>) -> Result<SecretsView, SecretsErrorView> {
    if vstd::utf8::encode_utf8(contents).len() > MAX_CONFIG_BYTES {
        Err(SecretsErrorView::Unreadable(TOO_LONG@))
    } else {
        match ini_read_result(contents) {
            Ok(entries) => secrets_in(entries),
            Err(why) => Err(SecretsErrorView::Unreadable(why)),
        }
    }
}

/// The view of a result.
pub open spec fn outcome_view(r: Result<Secrets, SecretsError>) -> Result<
    SecretsView,
    SecretsErrorView,
> {
    match r {
        Ok(secrets) => Ok(secrets@),
        Err(e) => Err(e@),
    }
}

impl Secrets {
    /// The secrets made of the five values; the first that is missing, in
    /// the order of the fields, is reported.
    pub fn from_values(
        local_database_password: Option<String>,
        rabbitmq_password: Option<String>,
        secret_key: Option<String>,
        shared_secret: Option<String>,
        avatar_salt: Option<String>,
    ) -> (r: Result<Secrets, SecretsError>)
        ensures
            outcome_view(r) == secrets_of(
                text_view(local_database_password),
                text_view(rabbitmq_password),
                text_view(secret_key),
                text_view(shared_secret),
                text_view(avatar_salt),
            ),
    {
        let local_database_password = match local_database_password {
            Some(value) => value,
            None => {
                return Err(SecretsError::Missing(SecretKey::LocalDatabasePassword));
            },
        };
        let rabbitmq_password = match rabbitmq_password {
            Some(value) => value,
            None => {
                return Err(SecretsError::Missing(SecretKey::RabbitmqPassword));
            },
        };
        let secret_key = match secret_key {
            Some(value) => value,
            None => {
                return Err(SecretsError::Missing(SecretKey::SecretKey));
            },
        };
        let shared_secret = match shared_secret {
            Some(value) => value,
            None => {
                return Err(SecretsError::Missing(SecretKey::SharedSecret));
            },
        };
        let avatar_salt = match avatar_salt {
            Some(value) => value,
            None => {
                return Err(SecretsError::Missing(SecretKey::AvatarSalt));
            },
        };
        Ok(
            Secrets {
                local_database_password,
                rabbitmq_password,
                secret_key,
                shared_secret,
                avatar_salt,
            },
        )
    }

    /// Reads the secrets from the text of a configuration: the five keys of
    /// its `secrets` section. A text of more than `MAX_CONFIG_BYTES` is
    /// not read.
    pub fn parse(contents: String) -> (r: Result<Secrets, SecretsError>)
        ensures
            outcome_view(r) == secrets_read(contents@),
    {
        if contents.as_str().as_bytes().len() > MAX_CONFIG_BYTES {
            return Err(SecretsError::Unreadable(String::from_str(TOO_LONG)));
        }
        let ini = match ini_read(contents) {
            Ok(ini) => ini,
            Err(why) => {
                return Err(SecretsError::Unreadable(why));
            },
        };
        Secrets::from_values(
            ini_get(&ini, "secrets", SecretKey::LocalDatabasePassword.as_str()),
            ini_get(&ini, "secrets", SecretKey::RabbitmqPassword.as_str()),
            ini_get(&ini, "secrets", SecretKey::SecretKey.as_str()),
            ini_get(&ini, "secrets", SecretKey::SharedSecret.as_str()),
            ini_get(&ini, "secrets", SecretKey::AvatarSalt.as_str()),
        )
    }
}

} // verus!
