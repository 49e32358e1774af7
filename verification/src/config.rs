//! Application settings, where they are kept, and where the API key comes
//! from. The key never enters the settings: it is read from the environment
//! or from the operating system's credential store.

use vstd::prelude::*;

use crate::agent::{is_not_blank, not_blank, DEFAULT_MODEL};
use crate::llm::DEFAULT_BASE_URL;
use crate::error::{config_error, is_config_error, AgentError};
use crate::model::{opt_view, owned};
use crate::paths::{join_path, join_spec};
use crate::text::has_prefix;
use crate::permission::PermissionMode;

verus! {

/// The user name used when the environment names none.
pub const DEFAULT_USER: &'static str = "local-user";

/// The credential-store service under which the API key is kept.
pub const KEYRING_SERVICE: &'static str = "agent-demo.deepseek";

/// The credential-store account under which the API key is kept.
pub const KEYRING_ACCOUNT: &'static str = "default";

/// The settings file's name inside the configuration directory.
pub const CONFIG_FILE: &'static str = "config.json";

/// The database file's name inside the data directory.
pub const DATABASE_FILE: &'static str = "agent.db";

/// The persisted settings.
#[derive(Debug, Clone, PartialEq, Eq)]
pub struct AppConfig {
    pub model: String,
    pub base_url: String,
    pub user_id: String,
    pub default_permission: PermissionMode,
    pub workspace: String,
    pub database: Option<String>,
}

impl AppConfig {
    /// The settings of a fresh installation for the given local user: the
    /// default model and endpoint, approval required, the current directory
    /// as workspace and the default database.
    pub fn for_user(user_id: &str) -> (c: AppConfig)
        ensures
            c.model@ == DEFAULT_MODEL@,
            c.base_url@ == DEFAULT_BASE_URL@,
            c.user_id@ == user_id@,
            c.default_permission == PermissionMode::RequireApproval,
            c.workspace@ == "."@,
            c.database is None,
    {
        AppConfig {
            model: owned(DEFAULT_MODEL),
            base_url: owned(DEFAULT_BASE_URL),
            user_id: owned(user_id),
            default_permission: PermissionMode::RequireApproval,
            workspace: owned("."),
            database: None,
        }
    }
}

/// The local user: the `USERNAME` variable when it is set, otherwise `USER`;
/// a blank or missing name gives `local-user`.
pub open spec fn local_user_spec(username: Option<Seq<char>>, user: Option<Seq<char>>) -> Seq<char> {
    let found = match username {
        Some(v) => Some(v),
        None => user,
    };
    match found {
        Some(v) => if not_blank(v) {
            v
        } else {
            DEFAULT_USER@
        },
        None => DEFAULT_USER@,
    }
}

/// The local user, from the values of `USERNAME` and `USER`.
pub fn local_user_id(username: Option<String>, user: Option<String>) -> (r: String)
    ensures
        r@ == local_user_spec(opt_view(username), opt_view(user)),
{
    let found = match username {
        Some(v) => Some(v),
        None => user,
    };
    match found {
        Some(v) => if is_not_blank(v.as_str()) {
            v
        } else {
            owned(DEFAULT_USER)
        },
        None => owned(DEFAULT_USER),
    }
}

/// Where the settings file and the default database live.
#[derive(Debug, Clone)]
pub struct ConfigStore {
    config_path: String,
    default_database: String,
}

/// Whether `r` is a store with these two locations.
pub open spec fn store_at(r: Result<ConfigStore, AgentError>, config: Seq<char>, database: Seq<char>) -> bool {
    match r {
        Ok(s) => s.config_path_view() == config && s.default_database_view() == database,
        Err(_) => false,
    }
}

impl ConfigStore {
    /// The settings file's location.
    pub closed spec fn config_path_view(&self) -> Seq<char> {
        self.config_path@
    }

    /// The database used when the settings name none.
    pub closed spec fn default_database_view(&self) -> Seq<char> {
        self.default_database@
    }

    /// A store with the given settings file and default database.
    pub fn at(config_path: &str, default_database: &str) -> (s: ConfigStore)
        ensures
            s.config_path_view() == config_path@,
            s.default_database_view() == default_database@,
    {
        ConfigStore { config_path: owned(config_path), default_database: owned(default_database) }
    }

    /// The store from the directories that the environment and the platform
    /// name. An explicit configuration directory wins, with the database in
    /// the explicit data directory or else beside the settings; otherwise the
    /// platform's configuration and local data directories are used, and
    /// without them there is no store.
    pub fn from_locations(
        config_dir: Option<String>,
        data_dir: Option<String>,
        platform: Option<(String, String)>,
    ) -> (r: Result<ConfigStore, AgentError>)
        ensures
            match config_dir {
                Some(c) => store_at(
                    r,
                    join_spec(c@, CONFIG_FILE@),
                    join_spec(
                        match data_dir {
                            Some(d) => d@,
                            None => c@,
                        },
                        DATABASE_FILE@,
                    ),
                ),
                None => match platform {
                    Some((c, d)) => store_at(
                        r,
                        join_spec(c@, CONFIG_FILE@),
                        join_spec(d@, DATABASE_FILE@),
                    ),
                    None => r matches Err(e) && is_config_error(
                        e,
                        "cannot determine the user configuration directory"@,
                    ),
                },
            },
    {
        match config_dir {
            Some(c) => {
                let data = match data_dir {
                    Some(d) => d,
                    None => c.clone(),
                };
                Ok(
                    ConfigStore {
                        config_path: join_path(c.as_str(), CONFIG_FILE),
                        default_database: join_path(data.as_str(), DATABASE_FILE),
                    },
                )
            },
            None => match platform {
                Some((c, d)) => Ok(
                    ConfigStore {
                        config_path: join_path(c.as_str(), CONFIG_FILE),
                        default_database: join_path(d.as_str(), DATABASE_FILE),
                    },
                ),
                None => Err(
                    AgentError::Config(owned("cannot determine the user configuration directory")),
                ),
            },
        }
    }

    /// The settings file's location.
    pub fn path(&self) -> (r: &str)
        ensures
            r@ == self.config_path_view(),
    {
        self.config_path.as_str()
    }

    /// The database that the settings select: theirs when they name one,
    /// the store's default otherwise.
    pub fn database_path(&self, config: &AppConfig) -> (r: String)
        ensures
            r@ == match config.database {
                Some(d) => d@,
                None => self.default_database_view(),
            },
    {
        match &config.database {
            Some(d) => d.clone(),
            None => self.default_database.clone(),
        }
    }
}

/// A place that keeps the API key.
pub trait CredentialStore {
    /// The stored key, if there is one.
    fn get(&self) -> Result<Option<String>, AgentError>;

    /// Stores a key.
    fn set(&self, secret: &str) -> Result<(), AgentError>;
}

/// The key that the environment provides: its value when it is not blank.
pub open spec fn env_key(environment: Option<Seq<char>>) -> Option<Seq<char>> {
    match environment {
        Some(v) => if not_blank(v) {
            Some(v)
        } else {
            None
        },
        None => None,
    }
}

/// Whether `r` is the key `k`.
pub open spec fn is_key(r: Result<Option<String>, AgentError>, k: Seq<char>) -> bool {
    match r {
        Ok(Some(v)) => v@ == k,
        _ => false,
    }
}

/// The API key from the environment's value and what the credential store
/// answered: the environment wins when it is not blank.
pub fn choose_api_key(environment: Option<String>, stored: Result<Option<String>, AgentError>) -> (r:
    Result<Option<String>, AgentError>)
    ensures
        match env_key(opt_view(environment)) {
            Some(k) => is_key(r, k),
            None => r == stored,
        },
{
    match environment {
        Some(v) => if is_not_blank(v.as_str()) {
            Ok(Some(v))
        } else {
            stored
        },
        None => stored,
    }
}

/// The API key: the environment's value when it is not blank, otherwise
/// whatever the credential store holds. The store is asked only when the
/// environment provides no key.
pub fn resolve_api_key<C: CredentialStore>(environment: Option<String>, credentials: &C) -> (r:
    Result<Option<String>, AgentError>)
    ensures
        env_key(opt_view(environment)) matches Some(k) ==> is_key(r, k),
        env_key(opt_view(environment)) is None ==> call_ensures(C::get, (credentials,), r),
{
    let provided = match &environment {
        Some(v) => is_not_blank(v.as_str()),
        None => false,
    };
    if provided {
        choose_api_key(environment, Ok(None))
    } else {
        choose_api_key(environment, credentials.get())
    }
}

#[verifier::external_type_specification]
#[verifier::external_body]
pub struct ExKeyringEntry(keyring::Entry);

/// How reading a password from the credential store ended.
pub enum PasswordRead {
    Found(String),
    Missing,
    Failed(String),
}

/// `keyring::Entry::new`: the entry for a service and account, or the
/// message of the error. What it returns depends on the platform's store;
/// nothing is claimed of it. The crate documents one panic, when its own
/// credential-builder lock is poisoned, which no argument can bring about.
#[verifier::external_body]
fn keyring_entry(service: &str, account: &str) -> Result<keyring::Entry, String> {
    match keyring::Entry::new(service, account) {
        Ok(entry) => Ok(entry),
        Err(error) => Err(error.to_string()),
    }
}

/// `keyring::Entry::get_password`: the stored password, `Missing` for the
/// crate's `NoEntry` error, or the message of another error. What it returns
/// depends on the platform's store; nothing is claimed of it.
#[verifier::external_body]
fn entry_password(entry: &keyring::Entry) -> PasswordRead {
    match entry.get_password() {
        Ok(password) => PasswordRead::Found(password),
        Err(keyring::Error::NoEntry) => PasswordRead::Missing,
        Err(error) => PasswordRead::Failed(error.to_string()),
    }
}

/// `keyring::Entry::set_password`: stores the password, or gives the message
/// of the error. Whether it succeeds depends on the platform's store; nothing
/// is claimed of it.
#[verifier::external_body]
fn entry_set_password(entry: &keyring::Entry, password: &str) -> Result<(), String> {
    match entry.set_password(password) {
        Ok(()) => Ok(()),
        Err(error) => Err(error.to_string()),
    }
}

/// What a password read means for the key: a found password is the key, a
/// missing entry is no key, and a failure is a configuration error.
pub fn read_result(read: PasswordRead) -> (r: Result<Option<String>, AgentError>)
    ensures
        match read {
            PasswordRead::Found(p) => is_key(r, p@),
            PasswordRead::Missing => r == Ok::<Option<String>, AgentError>(None),
            PasswordRead::Failed(m) => r matches Err(e) && is_config_error(
                e,
                "cannot read API key: "@ + m@,
            ),
        },
{
    match read {
        PasswordRead::Found(p) => Ok(Some(p)),
        PasswordRead::Missing => Ok(None),
        PasswordRead::Failed(m) => Err(config_error("cannot read API key: ", m.as_str())),
    }
}

/// Refuses a blank key before anything is stored.
pub fn check_secret(secret: &str) -> (r: Result<(), AgentError>)
    ensures
        r is Ok <==> not_blank(secret@),
        r matches Err(e) ==> is_config_error(e, "API key cannot be empty"@),
{
    if is_not_blank(secret) {
        Ok(())
    } else {
        Err(AgentError::Config(owned("API key cannot be empty")))
    }
}

/// Whether `e` is a configuration error whose message starts with `prefix`.
pub open spec fn is_config_error_from(e: AgentError, prefix: Seq<char>) -> bool {
    e matches AgentError::Config(m) && has_prefix(m@, prefix)
}

/// A configuration error built from a prefix and a detail starts with the
/// prefix.
proof fn lemma_config_error_from(e: AgentError, prefix: Seq<char>, detail: Seq<char>)
    requires
        is_config_error(e, prefix + detail),
    ensures
        is_config_error_from(e, prefix),
{
    assert((prefix + detail).take(prefix.len() as int) =~= prefix);
}

/// The API key kept in the operating system's credential store.
pub struct KeyringCredentialStore;

impl KeyringCredentialStore {
    /// The store's entry for the key.
    fn entry(&self) -> (r: Result<keyring::Entry, AgentError>)
        ensures
            r matches Err(e) ==> is_config_error_from(e, "credential store unavailable: "@),
    {
        match keyring_entry(KEYRING_SERVICE, KEYRING_ACCOUNT) {
            Ok(entry) => Ok(entry),
            Err(m) => {
                let e = config_error("credential store unavailable: ", m.as_str());
                proof {
                    lemma_config_error_from(e, "credential store unavailable: "@, m@);
                }
                Err(e)
            },
        }
    }
}

impl CredentialStore for KeyringCredentialStore {
    fn get(&self) -> (r: Result<Option<String>, AgentError>)
        ensures
            r matches Err(e) ==> is_config_error_from(e, "credential store unavailable: "@)
                || is_config_error_from(e, "cannot read API key: "@),
    {
        match self.entry() {
            Ok(entry) => {
                let read = entry_password(&entry);
                let ghost failure: Seq<char> = if read is Failed {
                    read->Failed_0@
                } else {
                    Seq::empty()
                };
                let r = read_result(read);
                proof {
                    if r is Err {
                        lemma_config_error_from(r->Err_0, "cannot read API key: "@, failure);
                    }
                }
                r
            },
            Err(e) => Err(e),
        }
    }

    fn set(&self, secret: &str) -> (r: Result<(), AgentError>)
        ensures
            !not_blank(secret@) ==> (r matches Err(e) && is_config_error(e, "API key cannot be empty"@)),
            r matches Err(e) ==> e is Config,
    {
        match check_secret(secret) {
            Ok(()) => {},
            Err(e) => {
                return Err(e);
            },
        }
        let entry = match self.entry() {
            Ok(entry) => entry,
            Err(e) => {
                return Err(e);
            },
        };
        match entry_set_password(&entry, secret) {
            Ok(()) => Ok(()),
            Err(m) => Err(config_error("cannot store API key: ", m.as_str())),
        }
    }
}

} // verus!
