//! Startup configuration: the Grist connection settings and the directory
//! that holds the kiosk's local assets.

use vstd::prelude::*;
use vstd::string::{StrSliceExecFns, StringExecFns};
use crate::text::{join_path, path_join};

verus! {

/// Connection settings of the Grist document: the bearer token, the server's
/// base URL and the document's identifier.
pub struct RemoteConfig {
    pub api_key: String,
    pub base_url: String,
    pub document_id: String,
}

/// The three environment variables that configure the Grist connection.
#[derive(PartialEq, Eq, Structural, Clone, Copy, Debug)]
pub enum ConfigVar {
    ApiKey,
    BaseUrl,
    DocumentId,
}

/// Startup cannot go on: the variable named is absent or empty.
#[derive(PartialEq, Eq, Structural, Clone, Copy, Debug)]
pub struct ConfigError {
    pub missing: ConfigVar,
}

pub open spec fn var_name(v: ConfigVar) -> Seq<char> {
    match v {
        ConfigVar::ApiKey => "GRIST_API_KEY"@,
        ConfigVar::BaseUrl => "GRIST_BASE_URL"@,
        ConfigVar::DocumentId => "GRIST_DOCUMENT_ID"@,
    }
}

impl ConfigVar {
    /// The variable's name in the environment.
    pub fn name(&self) -> (r: &'static str)
        ensures
            r@ == var_name(*self),
    {
        match self {
            ConfigVar::ApiKey => "GRIST_API_KEY",
            ConfigVar::BaseUrl => "GRIST_BASE_URL",
            ConfigVar::DocumentId => "GRIST_DOCUMENT_ID",
        }
    }
}

impl ConfigError {
    /// The text startup stops with.
    pub fn message(&self) -> (r: String)
        ensures
            r@ == "Missing "@ + var_name(self.missing),
    {
        String::from_str("Missing ").concat(self.missing.name())
    }
}

/// A variable that is set to a non-empty value.
pub open spec fn present(v: Option<String>) -> bool {
    v is Some && v->Some_0@.len() > 0
}

/// The first of the three variables, in the order API key, base URL,
/// document, that is absent or empty; `None` when all three are set.
pub open spec fn first_missing(
    api_key: Option<String>,
    base_url: Option<String>,
    document_id: Option<String>,
) -> Option<ConfigVar> {
    if !present(api_key) {
        Some(ConfigVar::ApiKey)
    } else if !present(base_url) {
        Some(ConfigVar::BaseUrl)
    } else if !present(document_id) {
        Some(ConfigVar::DocumentId)
    } else {
        None
    }
}

fn is_present(v: &Option<String>) -> (r: bool)
    ensures
        r == present(*v),
{
    match v {
        Some(s) => s.as_str().unicode_len() > 0,
        None => false,
    }
}

impl RemoteConfig {
    /// Every setting is non-empty.
    pub open spec fn wf(&self) -> bool {
        self.api_key@.len() > 0 && self.base_url@.len() > 0 && self.document_id@.len() > 0
    }

    /// The settings from the values of the three variables, or the first
    /// one that is absent or empty.
    pub fn from_values(
        api_key: Option<String>,
        base_url: Option<String>,
        document_id: Option<String>,
    ) -> (r: Result<RemoteConfig, ConfigError>)
        ensures
            r is Err <==> first_missing(api_key, base_url, document_id) is Some,
            r is Err ==> r->Err_0.missing == first_missing(api_key, base_url, document_id)->Some_0,
            r is Ok ==> r->Ok_0.wf() && Some(r->Ok_0.api_key) == api_key && Some(r->Ok_0.base_url)
                == base_url && Some(r->Ok_0.document_id) == document_id,
    {
        if !is_present(&api_key) {
            return Err(ConfigError { missing: ConfigVar::ApiKey });
        }
        if !is_present(&base_url) {
            return Err(ConfigError { missing: ConfigVar::BaseUrl });
        }
        if !is_present(&document_id) {
            return Err(ConfigError { missing: ConfigVar::DocumentId });
        }
        match (api_key, base_url, document_id) {
            (Some(api_key), Some(base_url), Some(document_id)) => Ok(
                RemoteConfig { api_key, base_url, document_id },
            ),
            _ => unreached(),
        }
    }
}

/// Whether the path `path` ends with the components of `child`.
pub uninterp spec fn path_ends_with(path: Seq<char>, child: Seq<char>) -> bool;

/// Relies on std::path::Path::ends_with: whether the last components of
/// `path` are those of `child`; the answer depends on the two texts alone.
#[verifier::external_body]
fn ends_with_component(path: &str, child: &str) -> (r: bool)
    ensures
        r == path_ends_with(path@, child@),
{
    std::path::Path::new(path).ends_with(child)
}

/// Name of the directory that holds the application's sources and assets.
pub const APP_DIR: &'static str = "src-tauri";

/// The development base directory: the working directory when it already is
/// the application directory, else that directory inside it.
pub open spec fn dev_dir(current_dir: Seq<char>, inside_app_dir: bool) -> Seq<char> {
    if inside_app_dir {
        current_dir
    } else {
        path_join(current_dir, APP_DIR@)
    }
}

/// The directory assets are read from: in development, the application
/// directory found from the working directory; once installed, the
/// installation's resource directory.
pub open spec fn base_path(dev: bool, current_dir: Seq<char>, installed_dir: Seq<char>) -> Seq<
    char,
> {
    if dev {
        dev_dir(current_dir, path_ends_with(current_dir, APP_DIR@))
    } else {
        installed_dir
    }
}

/// The development base directory, `inside_app_dir` telling whether the
/// working directory already ends with the application directory.
pub fn dev_resource_dir(current_dir: &str, inside_app_dir: bool) -> (r: String)
    ensures
        r@ == dev_dir(current_dir@, inside_app_dir),
{
    if inside_app_dir {
        String::from_str(current_dir)
    } else {
        join_path(current_dir, APP_DIR)
    }
}

/// The directory assets are read from, for a development build (`dev`) or
/// an installed one.
pub fn resolve_base_path(dev: bool, current_dir: &str, installed_dir: &str) -> (r: String)
    ensures
        r@ == base_path(dev, current_dir@, installed_dir@),
{
    if dev {
        let inside = ends_with_component(current_dir, APP_DIR);
        dev_resource_dir(current_dir, inside)
    } else {
        String::from_str(installed_dir)
    }
}

} // verus!
