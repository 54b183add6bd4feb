//! Application settings: where the database, logs, schemas and exports live,
//! and which embedding provider to use. Paths are held as text.
use vstd::prelude::*;
use crate::text::{chars_of, starts_with, starts_with_exec, string_of, text_of};

verus! {

/// Application configuration.
#[derive(Clone, Debug)]
pub struct Config {
    /// Path (or URL) of the SQLite database.
    pub database_url: String,
    /// Log level for console output.
    pub log_level_console: String,
    /// Log level for file output.
    pub log_level_file: String,
    /// Path of the log file.
    pub log_file: String,
    /// Directory of the schema files.
    pub schema_dir: String,
    pub embeddings: EmbeddingsConfig,
    pub export: ExportConfig,
}

/// Which embedding provider is active, and the settings of each.
#[derive(Clone, Debug)]
pub struct EmbeddingsConfig {
    pub provider: String,
    pub http_provider: Option<HttpEmbeddingsConfig>,
    pub native_provider: Option<NativeEmbeddingsConfig>,
}

/// An embedding provider reached over HTTP.
#[derive(Clone, Debug)]
pub struct HttpEmbeddingsConfig {
    pub url: String,
    pub api_key: Option<String>,
    pub model: Option<String>,
}

/// A local embedding model.
#[derive(Clone, Debug)]
pub struct NativeEmbeddingsConfig {
    pub model_path: String,
}

/// Where exports go and in which format by default.
#[derive(Clone, Debug)]
pub struct ExportConfig {
    pub default_export_dir: String,
    pub default_format: String,
}

/// Whether `r` ends with `path` less its leading `~`: what a home-directory
/// expansion of `path` leaves, whether or not the home directory was known.
pub open spec fn expands_home(path: Seq<char>, r: Seq<char>) -> bool {
    if starts_with(path, "~"@) {
        r.len() >= path.len() - 1 && r.skip(r.len() - (path.len() - 1)) == path.skip(1)
    } else {
        r == path
    }
}

/// Relies on `shellexpand::tilde`: a path that opens with `~` has it replaced
/// by the home directory when that is known (else it is unchanged), so the
/// rest of the path ends the result; any other path is unchanged.
#[verifier::external_body]
fn expand_home(path: &str) -> (r: String)
    ensures
        expands_home(path@, r@),
{
    shellexpand::tilde(path).into_owned()
}

impl Default for HttpEmbeddingsConfig {
    fn default() -> (r: HttpEmbeddingsConfig)
        ensures
            r.url@ == "http://localhost:8008/embed"@,
            r.api_key is None,
            r.model is None,
    {
        HttpEmbeddingsConfig { url: text_of("http://localhost:8008/embed"), api_key: None, model: None }
    }
}

impl Default for EmbeddingsConfig {
    fn default() -> (r: EmbeddingsConfig)
        ensures
            r.provider@ == "http"@,
            r.http_provider matches Some(h) && h.url@ == "http://localhost:8008/embed"@
                && h.api_key is None && h.model is None,
            r.native_provider is None,
    {
        EmbeddingsConfig {
            provider: text_of("http"),
            http_provider: Some(HttpEmbeddingsConfig::default()),
            native_provider: None,
        }
    }
}

impl Default for ExportConfig {
    fn default() -> (r: ExportConfig)
        ensures
            expands_home("~/Documents/LLMDocs_Exports"@, r.default_export_dir@),
            r.default_format@ == "markdown"@,
    {
        ExportConfig {
            default_export_dir: expand_home("~/Documents/LLMDocs_Exports"),
            default_format: text_of("markdown"),
        }
    }
}

impl Default for Config {
    fn default() -> (r: Config)
        ensures
            expands_home("~/.llmdocs/llmdocs.sqlite"@, r.database_url@),
            r.log_level_console@ == "info"@,
            r.log_level_file@ == "debug"@,
            expands_home("~/.llmdocs/logs/llmdocs.log"@, r.log_file@),
            expands_home("~/.llmdocs/schemas"@, r.schema_dir@),
            r.embeddings.provider@ == "http"@,
            r.embeddings.native_provider is None,
            r.export.default_format@ == "markdown"@,
            expands_home("~/Documents/LLMDocs_Exports"@, r.export.default_export_dir@),
    {
        Config {
            database_url: expand_home("~/.llmdocs/llmdocs.sqlite"),
            log_level_console: text_of("info"),
            log_level_file: text_of("debug"),
            log_file: expand_home("~/.llmdocs/logs/llmdocs.log"),
            schema_dir: expand_home("~/.llmdocs/schemas"),
            embeddings: EmbeddingsConfig::default(),
            export: ExportConfig::default(),
        }
    }
}

/// Whether `s` holds a `:` anywhere.
pub open spec fn has_colon(s: Seq<char>) -> bool {
    exists|i: int| 0 <= i < s.len() && s[i] == ':'
}

/// The file path named by a database URL: the text after a leading
/// `sqlite:`, or the URL itself when it has no scheme (no `:`).
pub open spec fn database_path(url: Seq<char>) -> Option<Seq<char>> {
    if starts_with(url, "sqlite:"@) {
        Some(url.skip(7))
    } else if !has_colon(url) {
        Some(url)
    } else {
        None
    }
}

impl Config {
    /// The file path of the database, when `database_url` names a file.
    pub fn database_url_as_path(&self) -> (r: Option<String>)
        ensures
            r matches Some(p) ==> database_path(self.database_url@) == Some(p@),
            r is None ==> database_path(self.database_url@) is None,
    {
        let v = chars_of(self.database_url.as_str());
        let prefix = chars_of("sqlite:");
        proof {
            reveal_strlit("sqlite:");
        }
        if starts_with_exec(&v, &prefix) {
            assert(v@.subrange(7, v.len() as int) =~= v@.skip(7));
            return Some(string_of(&v, 7, v.len()));
        }
        let mut i: usize = 0;
        while i < v.len()
            invariant
                i <= v.len(),
                v@ == self.database_url@,
                !starts_with(v@, "sqlite:"@),
                forall|j: int| 0 <= j < i ==> v@[j] != ':',
            decreases v.len() - i,
        {
            if v[i] == ':' {
                assert(has_colon(self.database_url@)) by {
                    assert(self.database_url@[i as int] == ':');
                }
                return None;
            }
            i = i + 1;
        }
        Some(self.database_url.clone())
    }
}

} // verus!
