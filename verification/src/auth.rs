//! Preparing credentials for the repository service and for the
//! workplace-suite directory.
//!
//! The values come from the caller, who reads them from wherever they are
//! kept; what is decided here is which of them to use and whether they are
//! well formed.

use vstd::prelude::*;
use vstd::string::StringSliceAdditionalSpecFns;
use vstd::utf8::encode_utf8;
use crate::codec::{base64_decoding, bytes_view, decode_base64, decode_pem, pem_block_data};
use crate::numbers::{parse_u64, parsed_u64};

verus! {

/// Why credentials cannot be used.
#[derive(Debug, Clone, Copy, PartialEq, Eq, Structural)]
pub enum CredentialError {
    /// The application id is not an unsigned number.
    AppId,
    /// The installation id is not an unsigned number.
    InstallationId,
    /// The key is not valid base-64.
    KeyEncoding,
    /// The decoded key does not start with a well-formed PEM block.
    KeyBlock,
    /// The token that was issued is empty.
    EmptyToken,
}

/// What is needed to sign in as an installation of an application.
#[derive(Debug, Clone, PartialEq, Eq)]
pub struct AppCredentials {
    pub app_id: u64,
    pub installation_id: u64,
    /// The private key, as the payload of its PEM block.
    pub private_key: Vec<u8>,
}

pub struct AppCredentialsView {
    pub app_id: u64,
    pub installation_id: u64,
    pub private_key: Seq<u8>,
}

impl View for AppCredentials {
    type V = AppCredentialsView;

    open spec fn view(&self) -> AppCredentialsView {
        AppCredentialsView {
            app_id: self.app_id,
            installation_id: self.installation_id,
            private_key: self.private_key@,
        }
    }
}

/// The view of a key or of the reason there is none.
pub open spec fn key_view(key: Result<Vec<u8>, CredentialError>) -> Result<
    Seq<u8>,
    CredentialError,
> {
    match key {
        Ok(bytes) => Ok(bytes@),
        Err(e) => Err(e),
    }
}

/// The view of credentials or of the reason there are none.
pub open spec fn credentials_view(credentials: Result<AppCredentials, CredentialError>) -> Result<
    AppCredentialsView,
    CredentialError,
> {
    match credentials {
        Ok(c) => Ok(c@),
        Err(e) => Err(e),
    }
}

/// The PEM payload of a decoded key.
pub open spec fn pem_payload(decoded: Option<Seq<u8>>) -> Result<Seq<u8>, CredentialError> {
    match decoded {
        None => Err(CredentialError::KeyEncoding),
        Some(pem) => match pem_block_data(pem) {
            None => Err(CredentialError::KeyBlock),
            Some(key) => Ok(key),
        },
    }
}

/// The private key held in `encoded`: base-64 around a PEM block.
pub open spec fn private_key(encoded: Seq<char>) -> Result<Seq<u8>, CredentialError> {
    pem_payload(base64_decoding(encode_utf8(encoded)))
}

/// The credentials that two ids and a key make.  A malformed application id
/// is reported before a malformed installation id, and both before a
/// problem with the key.
pub open spec fn app_credentials(
    app_id: Seq<char>,
    installation_id: Seq<char>,
    key: Result<Seq<u8>, CredentialError>,
) -> Result<AppCredentialsView, CredentialError> {
    match (parsed_u64(app_id), parsed_u64(installation_id), key) {
        (None, _, _) => Err(CredentialError::AppId),
        (Some(_), None, _) => Err(CredentialError::InstallationId),
        (Some(_), Some(_), Err(e)) => Err(e),
        (Some(app), Some(installation), Ok(private_key)) => Ok(
            AppCredentialsView { app_id: app, installation_id: installation, private_key },
        ),
    }
}

/// Extracts the PEM payload of a key that has been through base-64
/// decoding.
pub fn payload_of(decoded: Option<Vec<u8>>) -> (key: Result<Vec<u8>, CredentialError>)
    ensures
        key_view(key) == pem_payload(bytes_view(decoded)),
{
    match decoded {
        None => Err(CredentialError::KeyEncoding),
        Some(pem) => match decode_pem(pem.as_slice()) {
            None => Err(CredentialError::KeyBlock),
            Some(key) => Ok(key),
        },
    }
}

/// Extracts the private key from its base-64 text.
pub fn read_private_key(encoded: &str) -> (key: Result<Vec<u8>, CredentialError>)
    ensures
        key_view(key) == private_key(encoded@),
{
    payload_of(decode_base64(encoded.as_bytes()))
}

/// Puts credentials together from the two ids as text and the key as
/// extracted.
pub fn assemble_credentials(
    app_id: &str,
    installation_id: &str,
    key: Result<Vec<u8>, CredentialError>,
) -> (credentials: Result<AppCredentials, CredentialError>)
    ensures
        credentials_view(credentials) == app_credentials(app_id@, installation_id@, key_view(key)),
{
    let app = match parse_u64(app_id) {
        Some(app) => app,
        None => {
            return Err(CredentialError::AppId);
        },
    };
    let installation = match parse_u64(installation_id) {
        Some(installation) => installation,
        None => {
            return Err(CredentialError::InstallationId);
        },
    };
    match key {
        Ok(private_key) => Ok(
            AppCredentials { app_id: app, installation_id: installation, private_key },
        ),
        Err(e) => Err(e),
    }
}

/// Prepares the credentials of an application installation from the
/// application id, the installation id and the base-64 text of the
/// PEM-wrapped private key.
pub fn authenticate_github_jwt(app_id: &str, installation_id: &str, encoded_key: &str) -> (credentials:
    Result<AppCredentials, CredentialError>)
    ensures
        credentials_view(credentials) == app_credentials(
            app_id@,
            installation_id@,
            private_key(encoded_key@),
        ),
{
    let key = read_private_key(encoded_key);
    assemble_credentials(app_id, installation_id, key)
}

/// Where the service-account key is to be read from.
#[derive(Debug, Clone, PartialEq, Eq)]
pub enum KeySource {
    /// A file that already holds the key.
    File { path: String },
    /// The key itself, to be written to a file first.
    Inline { key: Vec<u8> },
}

pub enum KeySourceView {
    File { path: Seq<char> },
    Inline { key: Seq<u8> },
}

impl View for KeySource {
    type V = KeySourceView;

    open spec fn view(&self) -> KeySourceView {
        match *self {
            KeySource::File { path } => KeySourceView::File { path: path@ },
            KeySource::Inline { key } => KeySourceView::Inline { key: key@ },
        }
    }
}

/// The view of a key source or of the reason there is none.
pub open spec fn source_view(source: Result<KeySource, CredentialError>) -> Result<
    KeySourceView,
    CredentialError,
> {
    match source {
        Ok(s) => Ok(s@),
        Err(e) => Err(e),
    }
}

/// The key source for a configured file path and what the configured
/// base-64 key decodes to, if it was looked at.  The key is looked at only
/// where no path is configured and a key is.
pub open spec fn key_source(
    credential_file: Seq<char>,
    encoded_key: Seq<char>,
    decoded: Option<Seq<u8>>,
) -> Result<KeySourceView, CredentialError> {
    if credential_file.len() == 0 && encoded_key.len() > 0 {
        match decoded {
            Some(key) => Ok(KeySourceView::Inline { key }),
            None => Err(CredentialError::KeyEncoding),
        }
    } else {
        Ok(KeySourceView::File { path: credential_file })
    }
}

/// Chooses the key source, given what the configured key decodes to.
pub fn choose_key_source(credential_file: &str, encoded_key: &str, decoded: Option<Vec<u8>>) -> (source:
    Result<KeySource, CredentialError>)
    ensures
        source_view(source) == key_source(credential_file@, encoded_key@, bytes_view(decoded)),
{
    if credential_file.is_empty() && !encoded_key.is_empty() {
        match decoded {
            Some(key) => Ok(KeySource::Inline { key }),
            None => Err(CredentialError::KeyEncoding),
        }
    } else {
        Ok(KeySource::File { path: credential_file.to_owned() })
    }
}

/// Chooses where the service-account key comes from: the configured file
/// if there is one, else the configured base-64 key, decoded.  With neither
/// configured the answer is the empty path.
pub fn gsuite_key_source(credential_file: &str, encoded_key: &str) -> (source: Result<
    KeySource,
    CredentialError,
>)
    ensures
        source_view(source) == key_source(
            credential_file@,
            encoded_key@,
            base64_decoding(encode_utf8(encoded_key@)),
        ),
{
    let decoded = if credential_file.is_empty() && !encoded_key.is_empty() {
        decode_base64(encoded_key.as_bytes())
    } else {
        None
    };
    choose_key_source(credential_file, encoded_key, decoded)
}

/// Name of the file, in the directory for temporary files, that an inline
/// key is written to.
pub fn gsuite_key_file_name() -> (name: &'static str)
    ensures
        name@ == "gsuite_key.json"@,
{
    "gsuite_key.json"
}

/// The scopes a workplace-suite token is asked for: directory groups,
/// calendar resources and users, group settings, spreadsheets and drive.
pub open spec fn gsuite_scope_list() -> Seq<Seq<char>> {
    seq![
        "https://www.googleapis.com/auth/admin.directory.group"@,
        "https://www.googleapis.com/auth/admin.directory.resource.calendar"@,
        "https://www.googleapis.com/auth/admin.directory.user"@,
        "https://www.googleapis.com/auth/apps.groups.settings"@,
        "https://www.googleapis.com/auth/spreadsheets"@,
        "https://www.googleapis.com/auth/drive"@,
    ]
}

/// The scopes a workplace-suite token is asked for.
pub fn gsuite_scopes() -> (scopes: Vec<&'static str>)
    ensures
        scopes@.len() == gsuite_scope_list().len(),
        forall|i: int| 0 <= i < scopes@.len() ==> (#[trigger] scopes@[i])@ == gsuite_scope_list()[i],
{
    let mut scopes: Vec<&'static str> = Vec::new();
    scopes.push("https://www.googleapis.com/auth/admin.directory.group");
    scopes.push("https://www.googleapis.com/auth/admin.directory.resource.calendar");
    scopes.push("https://www.googleapis.com/auth/admin.directory.user");
    scopes.push("https://www.googleapis.com/auth/apps.groups.settings");
    scopes.push("https://www.googleapis.com/auth/spreadsheets");
    scopes.push("https://www.googleapis.com/auth/drive");
    scopes
}

/// Accepts a token that was issued, unless it is empty.
pub fn accept_token(token: &str) -> (accepted: Result<(), CredentialError>)
    ensures
        accepted == if token@.len() == 0 {
            Err::<(), CredentialError>(CredentialError::EmptyToken)
        } else {
            Ok::<(), CredentialError>(())
        },
{
    if token.is_empty() {
        Err(CredentialError::EmptyToken)
    } else {
        Ok(())
    }
}

/// How the client for the repository service is set up.
#[derive(Debug, Clone, PartialEq, Eq)]
pub struct ClientSettings {
    /// Base address of the service.
    pub host: String,
    /// What the client calls itself: product name, a slash, product version.
    pub user_agent: String,
    /// Directory of the on-disk response cache.
    pub cache_dir: String,
}

/// What a client calls itself.
pub open spec fn user_agent(product: Seq<char>, version: Seq<char>) -> Seq<char> {
    product + "/"@ + version
}

/// Where responses are cached, under the home directory `home`.
pub open spec fn cache_dir(home: Seq<char>) -> Seq<char> {
    home + "/.cache/github"@
}

/// Sets up the client for the repository service.
pub fn client_settings(product: &str, version: &str, home: &str) -> (settings: ClientSettings)
    ensures
        settings.host@ == "https://api.github.com"@,
        settings.user_agent@ == user_agent(product@, version@),
        settings.cache_dir@ == cache_dir(home@),
{
    let mut agent = String::from_str(product);
    agent.append("/");
    agent.append(version);
    let mut cache = String::from_str(home);
    cache.append("/.cache/github");
    ClientSettings { host: String::from_str("https://api.github.com"), user_agent: agent, cache_dir: cache }
}

} // verus!
