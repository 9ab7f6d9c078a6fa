//! What the gateway is started with: its name and version, the one cache
//! it stands in front of, and where it listens.

use vstd::prelude::*;
use vstd::string::StringExecFns;

verus! {

/// The name and version under which the service describes itself.
#[derive(Clone, Debug, PartialEq, Eq)]
pub struct ServiceInfo {
    pub name: String,
    pub version: String,
}

/// What a `ServiceInfo` holds.
pub struct ServiceInfoView {
    pub name: Seq<char>,
    pub version: Seq<char>,
}

impl View for ServiceInfo {
    type V = ServiceInfoView;

    open spec fn view(&self) -> ServiceInfoView {
        ServiceInfoView { name: self.name@, version: self.version@ }
    }
}

/// The value of the `Server` header: name, a `/`, version.
pub open spec fn server_header_of(info: ServiceInfoView) -> Seq<char> {
    info.name + "/"@ + info.version
}

impl ServiceInfo {
    /// The service under its own name, `memproxy`, in the given version.
    pub fn new(version: &str) -> (info: ServiceInfo)
        ensures
            info@.name == "memproxy"@,
            info@.version == version@,
    {
        ServiceInfo { name: String::from_str("memproxy"), version: String::from_str(version) }
    }

    /// The value to send in the `Server` header of every reply.
    pub fn server_header(&self) -> (header: String)
        ensures
            header@ == server_header_of(self@),
    {
        let mut header = self.name.clone();
        header.append("/");
        header.append(self.version.as_str());
        header
    }
}

/// One cache that the gateway may stand in front of.
#[derive(Clone, Debug, PartialEq, Eq)]
pub struct UpstreamConfig {
    /// Host and port of the cache, as `host:port`.
    pub endpoint: String,
}

/// The configuration that is read at start-up.
#[derive(Clone, Debug, PartialEq, Eq)]
pub struct ServerConfig {
    pub upstream: Vec<UpstreamConfig>,
}

impl View for ServerConfig {
    /// The endpoints, in the order of the configuration.
    type V = Seq<Seq<char>>;

    open spec fn view(&self) -> Seq<Seq<char>> {
        Seq::new(self.upstream@.len(), |i: int| self.upstream@[i].endpoint@)
    }
}

/// Why a configuration cannot be served.
#[derive(Clone, Copy, Debug, PartialEq, Eq, Structural)]
pub enum ConfigError {
    /// The configuration names this many caches, and the gateway serves
    /// exactly one.
    UpstreamCount(usize),
}

/// The address to connect to for a cache at `endpoint`.
pub open spec fn memcache_url(endpoint: Seq<char>) -> Seq<char> {
    "memcache://"@ + endpoint
}

/// What `upstream_url` returns for the given endpoints.
pub open spec fn upstream_url_of(endpoints: Seq<Seq<char>>) -> Result<Seq<char>, ConfigError> {
    if endpoints.len() == 1 {
        Ok(memcache_url(endpoints[0]))
    } else {
        Err(ConfigError::UpstreamCount(endpoints.len() as usize))
    }
}

/// The address of the one cache that the configuration names. A
/// configuration that names no cache, or more than one, is refused.
pub fn upstream_url(config: &ServerConfig) -> (found: Result<String, ConfigError>)
    ensures
        found is Ok == upstream_url_of(config@) is Ok,
        found matches Ok(url) ==> upstream_url_of(config@) == Ok::<Seq<char>, ConfigError>(url@),
        found matches Err(why) ==> upstream_url_of(config@) == Err::<Seq<char>, ConfigError>(why),
{
    if config.upstream.len() == 1 {
        let mut url = String::from_str("memcache://");
        url.append(config.upstream[0].endpoint.as_str());
        Ok(url)
    } else {
        Err(ConfigError::UpstreamCount(config.upstream.len()))
    }
}

/// Where the gateway finds its configuration and where it listens.
#[derive(Clone, Debug, PartialEq, Eq)]
pub struct Settings {
    /// Path of the configuration file.
    pub config_file: String,
    /// Address to listen on.
    pub bind_addr: String,
    /// Port to listen on.
    pub bind_port: String,
}

/// What a `Settings` holds.
pub struct SettingsView {
    pub config_file: Seq<char>,
    pub bind_addr: Seq<char>,
    pub bind_port: Seq<char>,
}

impl View for Settings {
    type V = SettingsView;

    open spec fn view(&self) -> SettingsView {
        SettingsView {
            config_file: self.config_file@,
            bind_addr: self.bind_addr@,
            bind_port: self.bind_port@,
        }
    }
}

/// What was asked for, or the default where nothing was.
pub open spec fn chosen(asked: Option<String>, default: Seq<char>) -> Seq<char> {
    match asked {
        Some(text) => text@,
        None => default,
    }
}

/// The settings for what the command line asked for: the configuration
/// file defaults to `cfg-memproxy.json`, the address to `127.0.0.1` and the
/// port to `8080`.
pub open spec fn settings_of(
    config_file: Option<String>,
    bind_addr: Option<String>,
    bind_port: Option<String>,
) -> SettingsView {
    SettingsView {
        config_file: chosen(config_file, "cfg-memproxy.json"@),
        bind_addr: chosen(bind_addr, "127.0.0.1"@),
        bind_port: chosen(bind_port, "8080"@),
    }
}

/// The socket address to listen on: address, a `:`, port.
pub open spec fn bind_pair_of(settings: SettingsView) -> Seq<char> {
    settings.bind_addr + ":"@ + settings.bind_port
}

/// Takes what was asked for, or the default.
fn choose_text(asked: Option<String>, default: &str) -> (text: String)
    ensures
        text@ == chosen(asked, default@),
{
    match asked {
        Some(text) => text,
        None => String::from_str(default),
    }
}

impl Settings {
    /// The settings for what the command line asked for, with the default
    /// in place of each option that was not given.
    pub fn from_flags(
        config_file: Option<String>,
        bind_addr: Option<String>,
        bind_port: Option<String>,
    ) -> (settings: Settings)
        ensures
            settings@ == settings_of(config_file, bind_addr, bind_port),
    {
        Settings {
            config_file: choose_text(config_file, "cfg-memproxy.json"),
            bind_addr: choose_text(bind_addr, "127.0.0.1"),
            bind_port: choose_text(bind_port, "8080"),
        }
    }

    /// The socket address to listen on.
    pub fn bind_pair(&self) -> (pair: String)
        ensures
            pair@ == bind_pair_of(self@),
    {
        let mut pair = self.bind_addr.clone();
        pair.append(":");
        pair.append(self.bind_port.as_str());
        pair
    }
}

} // verus!
