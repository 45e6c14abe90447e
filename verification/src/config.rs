//! The settings of the server: what the environment gives, with a default for
//! each setting that it does not give, and the banner that shows them.

use crate::decimal::{decimal_digits, decimal_text, parse_decimal, parsed_decimal};
use crate::model::opt_view;
use vstd::prelude::*;

verus! {

/// The host to listen on, unless the environment names one.
pub const DEFAULT_HOST: &'static str = "127.0.0.1";

/// The port to listen on, unless the environment names one.
pub const DEFAULT_PORT: &'static str = "3000";

/// Where the backend is reached, unless the environment says.
pub const DEFAULT_BASE_URL: &'static str = "https://api.dify.ai";

/// The backend credential, unless the environment gives one.
pub const DEFAULT_API_KEY: &'static str = "your_api_key";

/// The seconds to wait for the backend, unless the environment says.
pub const DEFAULT_TIMEOUT_SECS: u64 = 10;

/// What the environment gives for each setting, if anything.
#[derive(Debug, Clone, PartialEq)]
pub struct Environment {
    pub host: Option<String>,
    pub port: Option<String>,
    pub dify_base_url: Option<String>,
    pub dify_api_key: Option<String>,
    /// The timeout in seconds, as text.
    pub dify_timeout: Option<String>,
}

/// The view of an [`Environment`].
pub struct EnvironmentView {
    pub host: Option<Seq<char>>,
    pub port: Option<Seq<char>>,
    pub dify_base_url: Option<Seq<char>>,
    pub dify_api_key: Option<Seq<char>>,
    pub dify_timeout: Option<Seq<char>>,
}

impl View for Environment {
    type V = EnvironmentView;

    open spec fn view(&self) -> EnvironmentView {
        EnvironmentView {
            host: opt_view(self.host),
            port: opt_view(self.port),
            dify_base_url: opt_view(self.dify_base_url),
            dify_api_key: opt_view(self.dify_api_key),
            dify_timeout: opt_view(self.dify_timeout),
        }
    }
}

/// The settings that the server runs with.
#[derive(Debug, Clone, PartialEq)]
pub struct ServerConfig {
    /// The address to listen on: host, colon, port.
    pub server_url: String,
    pub dify_base_url: String,
    pub dify_api_key: String,
    /// The seconds to wait for the backend.
    pub dify_timeout: u64,
}

/// The view of a [`ServerConfig`].
pub struct ServerConfigView {
    pub server_url: Seq<char>,
    pub dify_base_url: Seq<char>,
    pub dify_api_key: Seq<char>,
    pub dify_timeout: u64,
}

impl View for ServerConfig {
    type V = ServerConfigView;

    open spec fn view(&self) -> ServerConfigView {
        ServerConfigView {
            server_url: self.server_url@,
            dify_base_url: self.dify_base_url@,
            dify_api_key: self.dify_api_key@,
            dify_timeout: self.dify_timeout,
        }
    }
}

/// A setting: what was given, or the default.
pub open spec fn setting(given: Option<Seq<char>>, default: Seq<char>) -> Seq<char> {
    match given {
        Some(text) => text,
        None => default,
    }
}

/// A number setting: what was given where it reads as a decimal number of at
/// most `max`, else the default.
pub open spec fn number_setting(given: Option<Seq<char>>, max: u64, default: u64) -> u64 {
    match given {
        Some(text) => match parsed_decimal(text, max) {
            Some(n) => n,
            None => default,
        },
        None => default,
    }
}

/// The settings for an environment.
pub open spec fn resolved(env: EnvironmentView) -> ServerConfigView {
    ServerConfigView {
        server_url: setting(env.host, DEFAULT_HOST@) + ":"@ + setting(env.port, DEFAULT_PORT@),
        dify_base_url: setting(env.dify_base_url, DEFAULT_BASE_URL@),
        dify_api_key: setting(env.dify_api_key, DEFAULT_API_KEY@),
        dify_timeout: number_setting(env.dify_timeout, u64::MAX, DEFAULT_TIMEOUT_SECS),
    }
}

/// The banner for the given settings.
pub open spec fn banner_text(config: ServerConfigView) -> Seq<char> {
    "Welcome to the Dify OpenAI API Server!\n\n- Address Listen: "@ + config.server_url
        + "\n- Dify Base URL:  "@ + config.dify_base_url + "\n- Dify API Key:   "@
        + config.dify_api_key + "\n- Dify Timeout:   "@ + decimal_digits(
        config.dify_timeout as nat,
    ) + " seconds"@
}

/// Returns what was given, or the default.
fn text_setting(given: Option<String>, default: &str) -> (r: String)
    ensures
        r@ == setting(opt_view(given), default@),
{
    match given {
        Some(text) => text,
        None => default.to_owned(),
    }
}

/// Returns the number that was given, where it reads as a decimal number of
/// at most `max`, else the default.
fn read_number(given: Option<&str>, max: u64, default: u64) -> (r: u64)
    ensures
        r == number_setting(
            match given {
                Some(t) => Some(t@),
                None => None,
            },
            max,
            default,
        ),
{
    match given {
        Some(text) => match parse_decimal(text, max) {
            Some(n) => n,
            None => default,
        },
        None => default,
    }
}

impl ServerConfig {
    /// Resolves the settings: each one is what the environment gives, or its
    /// default. A timeout that does not read as a number of seconds counts as
    /// not given.
    pub fn from_environment(env: Environment) -> (config: ServerConfig)
        ensures
            config@ == resolved(env@),
    {
        let dify_timeout: u64 = match &env.dify_timeout {
            Some(text) => read_number(Some(text.as_str()), u64::MAX, DEFAULT_TIMEOUT_SECS),
            None => DEFAULT_TIMEOUT_SECS,
        };
        let mut server_url = text_setting(env.host, DEFAULT_HOST);
        let port = text_setting(env.port, DEFAULT_PORT);
        server_url.append(":");
        server_url.append(port.as_str());
        ServerConfig {
            server_url,
            dify_base_url: text_setting(env.dify_base_url, DEFAULT_BASE_URL),
            dify_api_key: text_setting(env.dify_api_key, DEFAULT_API_KEY),
            dify_timeout,
        }
    }

    /// Writes the banner that shows the settings.
    pub fn banner(&self) -> (text: String)
        ensures
            text@ == banner_text(self@),
    {
        let mut text = "Welcome to the Dify OpenAI API Server!\n\n- Address Listen: ".to_owned();
        text.append(self.server_url.as_str());
        text.append("\n- Dify Base URL:  ");
        text.append(self.dify_base_url.as_str());
        text.append("\n- Dify API Key:   ");
        text.append(self.dify_api_key.as_str());
        text.append("\n- Dify Timeout:   ");
        text.append(decimal_text(self.dify_timeout).as_str());
        text.append(" seconds");
        text
    }
}

/// The number of worker threads: what was configured, where it reads as a
/// decimal number that fits the machine's word, else the number of
/// processors.
pub open spec fn worker_count(configured: Option<Seq<char>>, cpus: usize) -> usize {
    number_setting(configured, usize::MAX as u64, cpus as u64) as usize
}

/// Picks the number of worker threads.
pub fn worker_threads(configured: Option<&str>, cpus: usize) -> (n: usize)
    ensures
        n == worker_count(
            match configured {
                Some(t) => Some(t@),
                None => None,
            },
            cpus,
        ),
{
    let n: u64 = read_number(configured, usize::MAX as u64, cpus as u64);
    n as usize
}

} // verus!
