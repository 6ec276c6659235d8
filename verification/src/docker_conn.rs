//! Docker connection settings, the choice of transport that they make, and
//! the process-wide slot that holds the connected client.

use crate::base_err::{base_err_text, prefixed, BaseErr};
use crate::text::{
    decimal_text, has_prefix, is_digit, law_trim_idempotent, law_trim_is_a_slice,
    lemma_decimal_text, lemma_parse_decimal, only_at, parse_usize, parse_usize_spec,
    split_at_only, split_once_exactly, starts_with, trim, trimmed,
};
use bollard::Docker;
use std::sync::Arc;
use vstd::prelude::*;
use vstd::string::*;

verus! {

#[verifier::external_type_specification]
#[verifier::external_body]
pub struct ExDocker(bollard::Docker);

#[verifier::external_type_specification]
#[verifier::external_body]
pub struct ExBollardError(bollard::errors::Error);

/// What can go wrong while connecting to the Docker daemon or using the
/// shared connection.
#[derive(Debug)]
pub enum DockerConnError {
    /// The address or socket path is missing, empty or not usable for the
    /// chosen transport.
    MissingAddrOrPath,
    /// The shared connection has not been set up yet.
    NotInitialized,
    /// The shared connection has already been set up.
    AlreadyInitialized,
    /// The Docker client reported an error.
    Bollard(bollard::errors::Error),
    /// One of the errors shared by every module.
    Base(BaseErr),
}

impl DockerConnError {
    /// The message that describes this error.
    pub fn message(&self) -> (r: String)
        ensures
            match self {
                DockerConnError::MissingAddrOrPath => r@
                    == "Docker address or path is missing, empty or invalid"@,
                DockerConnError::NotInitialized => r@
                    == "Docker connection has not been initialized"@,
                DockerConnError::AlreadyInitialized => r@
                    == "Docker connection has already been initialized"@,
                DockerConnError::Bollard(b) => exists|t: String|
                    to_string_from_display_ensures::<bollard::errors::Error>(b, t) && r@
                        == "Docker daemon error: "@ + t@,
                DockerConnError::Base(b) => r@ == base_err_text(*b),
            },
    {
        match self {
            DockerConnError::MissingAddrOrPath => String::from_str(
                "Docker address or path is missing, empty or invalid",
            ),
            DockerConnError::NotInitialized => String::from_str(
                "Docker connection has not been initialized",
            ),
            DockerConnError::AlreadyInitialized => String::from_str(
                "Docker connection has already been initialized",
            ),
            DockerConnError::Bollard(b) => {
                let t = b.to_string();
                prefixed("Docker daemon error: ", t.as_str())
            },
            DockerConnError::Base(b) => b.message(),
        }
    }
}

impl From<BaseErr> for DockerConnError {
    fn from(e: BaseErr) -> (r: Self) {
        DockerConnError::Base(e)
    }
}

impl vstd::std_specs::convert::FromSpecImpl<BaseErr> for DockerConnError {
    open spec fn obeys_from_spec() -> bool {
        true
    }

    open spec fn from_spec(e: BaseErr) -> Self {
        DockerConnError::Base(e)
    }
}

impl From<bollard::errors::Error> for DockerConnError {
    fn from(e: bollard::errors::Error) -> (r: Self) {
        DockerConnError::Bollard(e)
    }
}

impl vstd::std_specs::convert::FromSpecImpl<bollard::errors::Error> for DockerConnError {
    open spec fn obeys_from_spec() -> bool {
        true
    }

    open spec fn from_spec(e: bollard::errors::Error) -> Self {
        DockerConnError::Bollard(e)
    }
}

/// How to reach the Docker daemon.
#[derive(Clone, Copy, Debug, PartialEq, Eq, Structural)]
pub enum DefaultConnectionType {
    HTTP,
    SOCKET,
    LOCAL,
}

impl Default for DefaultConnectionType {
    fn default() -> (r: Self)
        ensures
            r == DefaultConnectionType::SOCKET,
    {
        DefaultConnectionType::SOCKET
    }
}

/// The `[docker]` settings.
#[derive(Clone, Debug)]
pub struct DockerConfig {
    pub default_conn_type: DefaultConnectionType,
    pub addr_or_path: Option<String>,
    /// Read/write timeout of every request, in seconds.
    pub timeout: u64,
    /// The API version to speak, written `major.minor`.
    pub client_version: Option<String>,
}

impl Default for DockerConfig {
    fn default() -> (r: Self)
        ensures
            r.default_conn_type == DefaultConnectionType::SOCKET,
            r.addr_or_path is None,
            r.timeout == 120,
            r.client_version is None,
    {
        DockerConfig {
            default_conn_type: DefaultConnectionType::SOCKET,
            addr_or_path: None,
            timeout: 120,
            client_version: None,
        }
    }
}

/// A Docker API version.
#[derive(Clone, Copy, Debug, PartialEq, Eq, Structural)]
pub struct ClientVersion {
    pub major_version: usize,
    pub minor_version: usize,
}

/// The API version that the Docker client speaks unless told otherwise.
pub open spec fn default_client_version() -> ClientVersion {
    ClientVersion { major_version: 1, minor_version: 53 }
}

/// `bollard::API_DEFAULT_VERSION`, the client's default API version; its
/// source defines it as version 1.53.
#[verifier::external_body]
fn api_default_version() -> (r: ClientVersion)
    ensures
        r == default_client_version(),
{
    let v = bollard::API_DEFAULT_VERSION;
    ClientVersion { major_version: v.major_version, minor_version: v.minor_version }
}

/// A client of the Docker daemon, with the constructor call that built it.
pub struct DockerClient {
    client: Arc<Docker>,
    origin: Ghost<ClientOrigin>,
}

impl DockerClient {
    /// The constructor call, with its arguments, that built this client.
    pub closed spec fn origin(&self) -> ClientOrigin {
        self.origin@
    }

    /// The client itself.
    pub closed spec fn docker(&self) -> Docker {
        *self.client
    }
}

/// A call of one of the Docker client's constructors, by the values of its
/// arguments.
pub enum ClientOrigin {
    /// `connect_with_local(path, timeout, version)`.
    Local { path: Seq<char>, timeout: u64, version: ClientVersion },
    /// `connect_with_local_defaults()`.
    LocalDefaults,
    /// `connect_with_socket(path, timeout, version)`.
    Socket { path: Seq<char>, timeout: u64, version: ClientVersion },
    /// `connect_with_socket_defaults()`.
    SocketDefaults,
    /// `connect_with_http(url, timeout, version)`.
    Http { url: Seq<char>, timeout: u64, version: ClientVersion },
}

/// `bollard::Docker::connect_with_http`: builds a client for an HTTP
/// daemon address. Its source returns `Ok` on every input; of the client,
/// only the call that built it is recorded.
#[verifier::external_body]
fn connect_with_http(addr: &str, timeout: u64, version: ClientVersion) -> (r: Result<
    DockerClient,
    bollard::errors::Error,
>)
    ensures
        r is Ok,
        r matches Ok(c) ==> c.origin() == (ClientOrigin::Http { url: addr@, timeout, version }),
{
    let v = bollard::ClientVersion {
        major_version: version.major_version,
        minor_version: version.minor_version,
    };
    match Docker::connect_with_http(addr, timeout, &v) {
        Ok(d) => Ok(
            DockerClient {
                client: Arc::new(d),
                origin: Ghost(ClientOrigin::Http { url: addr@, timeout, version }),
            },
        ),
        Err(e) => Err(e),
    }
}

/// `bollard::Docker::connect_with_local`: builds a client for a local
/// socket path. Whether it succeeds depends on what is on disk; a client it
/// builds records this call.
#[verifier::external_body]
fn connect_with_local(path: &str, timeout: u64, version: ClientVersion) -> (r: Result<
    DockerClient,
    bollard::errors::Error,
>)
    ensures
        r matches Ok(c) ==> c.origin() == (ClientOrigin::Local { path: path@, timeout, version }),
{
    let v = bollard::ClientVersion {
        major_version: version.major_version,
        minor_version: version.minor_version,
    };
    match Docker::connect_with_local(path, timeout, &v) {
        Ok(d) => Ok(
            DockerClient {
                client: Arc::new(d),
                origin: Ghost(ClientOrigin::Local { path: path@, timeout, version }),
            },
        ),
        Err(e) => Err(e),
    }
}

/// `bollard::Docker::connect_with_local_defaults`: builds a client from
/// the environment and the default socket; whether it succeeds is not said,
/// a client it builds records this call.
#[verifier::external_body]
fn connect_with_local_defaults() -> (r: Result<DockerClient, bollard::errors::Error>)
    ensures
        r matches Ok(c) ==> c.origin() == ClientOrigin::LocalDefaults,
{
    match Docker::connect_with_local_defaults() {
        Ok(d) => Ok(
            DockerClient { client: Arc::new(d), origin: Ghost(ClientOrigin::LocalDefaults) },
        ),
        Err(e) => Err(e),
    }
}

/// `bollard::Docker::connect_with_socket`: builds a client for a socket
/// path after checking that it exists on disk; whether it succeeds is not
/// said, a client it builds records this call.
#[verifier::external_body]
fn connect_with_socket(path: &str, timeout: u64, version: ClientVersion) -> (r: Result<
    DockerClient,
    bollard::errors::Error,
>)
    ensures
        r matches Ok(c) ==> c.origin() == (ClientOrigin::Socket { path: path@, timeout, version }),
{
    let v = bollard::ClientVersion {
        major_version: version.major_version,
        minor_version: version.minor_version,
    };
    match Docker::connect_with_socket(path, timeout, &v) {
        Ok(d) => Ok(
            DockerClient {
                client: Arc::new(d),
                origin: Ghost(ClientOrigin::Socket { path: path@, timeout, version }),
            },
        ),
        Err(e) => Err(e),
    }
}

/// `bollard::Docker::connect_with_socket_defaults`: builds a client for the
/// default socket; whether it succeeds is not said, a client it builds
/// records this call.
#[verifier::external_body]
fn connect_with_socket_defaults() -> (r: Result<DockerClient, bollard::errors::Error>)
    ensures
        r matches Ok(c) ==> c.origin() == ClientOrigin::SocketDefaults,
{
    match Docker::connect_with_socket_defaults() {
        Ok(d) => Ok(
            DockerClient { client: Arc::new(d), origin: Ghost(ClientOrigin::SocketDefaults) },
        ),
        Err(e) => Err(e),
    }
}

/// The view of an optional string slice.
pub open spec fn opt_view(o: Option<&str>) -> Option<Seq<char>> {
    match o {
        Some(s) => Some(s@),
        None => None,
    }
}

/// The configured address with surrounding white space removed, if that
/// leaves anything.
pub open spec fn given_address(raw: Option<String>) -> Option<Seq<char>> {
    match raw {
        Some(s) => if trimmed(s@).len() > 0 {
            Some(trimmed(s@))
        } else {
            None
        },
        None => None,
    }
}

/// The `major.minor` version that `text` asks for, if it is one.
pub open spec fn requested_version(text: Seq<char>) -> Option<ClientVersion> {
    match split_once_exactly(text, '.') {
        Some((a, b)) => match (parse_usize_spec(a), parse_usize_spec(b)) {
            (Some(major), Some(minor)) => Some(
                ClientVersion { major_version: major, minor_version: minor },
            ),
            _ => None,
        },
        None => None,
    }
}

/// The API version used for a configured version string.
pub open spec fn chosen_version(raw: Option<String>) -> ClientVersion {
    match raw {
        Some(s) => match requested_version(s@) {
            Some(v) => v,
            None => default_client_version(),
        },
        None => default_client_version(),
    }
}

pub open spec fn tcp_scheme() -> Seq<char> {
    seq!['t', 'c', 'p', ':', '/', '/']
}

pub open spec fn http_scheme() -> Seq<char> {
    seq!['h', 't', 't', 'p', ':', '/', '/']
}

pub open spec fn https_scheme() -> Seq<char> {
    seq!['h', 't', 't', 'p', 's', ':', '/', '/']
}

/// The HTTP URL for a daemon address: `tcp://` becomes `http://`, `http://`
/// and `https://` addresses stay as they are, other addresses have none.
pub open spec fn http_url_for(addr: Seq<char>) -> Option<Seq<char>> {
    if starts_with(addr, tcp_scheme()) {
        Some(http_scheme() + addr.skip(6))
    } else if starts_with(addr, http_scheme()) || starts_with(addr, https_scheme()) {
        Some(addr)
    } else {
        None
    }
}

/// The HTTP URL that a configured address leads to.
pub open spec fn http_target(raw: Option<String>) -> Option<Seq<char>> {
    match given_address(raw) {
        Some(a) => http_url_for(a),
        None => None,
    }
}

/// The settings with which to connect.
#[derive(Clone, Debug)]
pub struct DockerConnection {
    pub config: DockerConfig,
}

impl DockerConnection {
    /// The configured address or socket path, trimmed; `None` where it is
    /// absent or only white space.
    pub fn addr_or_path(&self) -> (r: Option<&str>)
        ensures
            opt_view(r) == given_address(self.config.addr_or_path),
    {
        match &self.config.addr_or_path {
            Some(s) => {
                let t = trim(s.as_str());
                if t.unicode_len() == 0 {
                    None
                } else {
                    Some(t)
                }
            },
            None => None,
        }
    }

    /// The configured API version where it reads `major.minor`, each part a
    /// number that fits a `usize`; the client's default version otherwise.
    pub fn parse_client_version(&self) -> (r: ClientVersion)
        ensures
            r == chosen_version(self.config.client_version),
    {
        match &self.config.client_version {
            Some(c) => match split_at_only(c.as_str(), '.') {
                Some((a, b)) => match (parse_usize(a), parse_usize(b)) {
                    (Some(major), Some(minor)) => ClientVersion {
                        major_version: major,
                        minor_version: minor,
                    },
                    _ => api_default_version(),
                },
                None => api_default_version(),
            },
            None => api_default_version(),
        }
    }

    /// The URL of an HTTP daemon: the trimmed address with `tcp://` turned
    /// into `http://`; `MissingAddrOrPath` where there is no address or it
    /// has another scheme.
    pub fn http_url(&self) -> (r: Result<String, DockerConnError>)
        ensures
            match http_target(self.config.addr_or_path) {
                Some(u) => r matches Ok(s) && s@ == u,
                None => r matches Err(DockerConnError::MissingAddrOrPath),
            },
    {
        let raw = match self.addr_or_path() {
            Some(a) => a,
            None => return Err(DockerConnError::MissingAddrOrPath),
        };
        proof {
            reveal_strlit("tcp://");
            reveal_strlit("http://");
            reveal_strlit("https://");
            assert("tcp://"@ =~= tcp_scheme());
            assert("http://"@ =~= http_scheme());
            assert("https://"@ =~= https_scheme());
        }
        if has_prefix(raw, "tcp://") {
            let n: usize = raw.unicode_len();
            let rest = raw.substring_char(6, n);
            let mut url = String::from_str("http://");
            url.append(rest);
            assert(rest@ =~= raw@.skip(6));
            Ok(url)
        } else if has_prefix(raw, "http://") || has_prefix(raw, "https://") {
            Ok(String::from_str(raw))
        } else {
            Err(DockerConnError::MissingAddrOrPath)
        }
    }

    /// The client constructor that the configured transport calls, with
    /// its arguments: a local socket at the configured path (or the client's
    /// local defaults where no path is given), a Unix socket likewise where
    /// `unix` holds (on other systems the socket transport is the local
    /// one), or an HTTP daemon at the configured address.
    pub fn connect_request(&self, unix: bool) -> (r: Result<ConnectRequest, DockerConnError>)
        ensures
            request_matches(self.config, unix, r),
    {
        let timeout = self.config.timeout;
        let local = match self.config.default_conn_type {
            DefaultConnectionType::HTTP => {
                return match self.http_url() {
                    Ok(url) => Ok(
                        ConnectRequest::Http { url, timeout, version: self.parse_client_version() },
                    ),
                    Err(e) => Err(e),
                };
            },
            DefaultConnectionType::LOCAL => true,
            DefaultConnectionType::SOCKET => !unix,
        };
        match self.addr_or_path() {
            Some(p) => {
                let path = String::from_str(p);
                let version = self.parse_client_version();
                if local {
                    Ok(ConnectRequest::Local { path, timeout, version })
                } else {
                    Ok(ConnectRequest::Socket { path, timeout, version })
                }
            },
            None => if local {
                Ok(ConnectRequest::LocalDefaults)
            } else {
                Ok(ConnectRequest::SocketDefaults)
            },
        }
    }

    /// Builds a client for the configured transport (`unix`: whether the
    /// program runs on a Unix system).
    pub fn connection(&self, unix: bool) -> (r: Result<DockerClient, DockerConnError>)
        ensures
            connection_outcome(self.config, unix, r),
    {
        match self.connect_request(unix) {
            Ok(request) => open_client(request),
            Err(e) => Err(e),
        }
    }
}

/// A call of one of the Docker client's constructors.
#[derive(Clone, Debug)]
pub enum ConnectRequest {
    /// A local socket at `path`.
    Local { path: String, timeout: u64, version: ClientVersion },
    /// The local socket that the client finds by itself.
    LocalDefaults,
    /// A Unix socket at `path`.
    Socket { path: String, timeout: u64, version: ClientVersion },
    /// The default Unix socket.
    SocketDefaults,
    /// An HTTP daemon at `url`.
    Http { url: String, timeout: u64, version: ClientVersion },
}

/// The constructor call that `q` asks for.
pub open spec fn origin_of(q: ConnectRequest) -> ClientOrigin {
    match q {
        ConnectRequest::Local { path, timeout, version } => ClientOrigin::Local {
            path: path@,
            timeout,
            version,
        },
        ConnectRequest::LocalDefaults => ClientOrigin::LocalDefaults,
        ConnectRequest::Socket { path, timeout, version } => ClientOrigin::Socket {
            path: path@,
            timeout,
            version,
        },
        ConnectRequest::SocketDefaults => ClientOrigin::SocketDefaults,
        ConnectRequest::Http { url, timeout, version } => ClientOrigin::Http {
            url: url@,
            timeout,
            version,
        },
    }
}

/// The constructor call that `config` leads to (`unix`: whether the program
/// runs on a Unix system); none where the HTTP transport has no usable
/// address.
pub open spec fn intended_origin(config: DockerConfig, unix: bool) -> Option<ClientOrigin> {
    let timeout = config.timeout;
    let version = chosen_version(config.client_version);
    let local = config.default_conn_type == DefaultConnectionType::LOCAL
        || (config.default_conn_type == DefaultConnectionType::SOCKET && !unix);
    if config.default_conn_type == DefaultConnectionType::HTTP {
        match http_target(config.addr_or_path) {
            Some(u) => Some(ClientOrigin::Http { url: u, timeout, version }),
            None => None,
        }
    } else {
        match given_address(config.addr_or_path) {
            Some(a) => if local {
                Some(ClientOrigin::Local { path: a, timeout, version })
            } else {
                Some(ClientOrigin::Socket { path: a, timeout, version })
            },
            None => if local {
                Some(ClientOrigin::LocalDefaults)
            } else {
                Some(ClientOrigin::SocketDefaults)
            },
        }
    }
}

/// Whether `r` is the request that `config` leads to.
pub open spec fn request_matches(
    config: DockerConfig,
    unix: bool,
    r: Result<ConnectRequest, DockerConnError>,
) -> bool {
    match intended_origin(config, unix) {
        Some(o) => r matches Ok(q) && origin_of(q) == o,
        None => r matches Err(DockerConnError::MissingAddrOrPath),
    }
}

/// Calls the constructor that `request` names; errors of the client become
/// `DockerConnError::Bollard`.
fn open_client(request: ConnectRequest) -> (r: Result<DockerClient, DockerConnError>)
    ensures
        r matches Ok(c) ==> c.origin() == origin_of(request),
        request is Http ==> r is Ok,
        r matches Err(e) ==> e is Bollard,
{
    let made = match request {
        ConnectRequest::Local { path, timeout, version } => connect_with_local(
            path.as_str(),
            timeout,
            version,
        ),
        ConnectRequest::LocalDefaults => connect_with_local_defaults(),
        ConnectRequest::Socket { path, timeout, version } => connect_with_socket(
            path.as_str(),
            timeout,
            version,
        ),
        ConnectRequest::SocketDefaults => connect_with_socket_defaults(),
        ConnectRequest::Http { url, timeout, version } => connect_with_http(
            url.as_str(),
            timeout,
            version,
        ),
    };
    match made {
        Ok(c) => Ok(c),
        Err(e) => Err(DockerConnError::Bollard(e)),
    }
}

/// What is known of a connection attempt with `config` whatever the daemon
/// and the disk hold: without a usable HTTP address it fails with
/// `MissingAddrOrPath`; otherwise a client it gives was built by the
/// constructor call that `config` leads to, an HTTP connection always
/// succeeds, and the socket transports fail only with errors of the Docker
/// client.
pub open spec fn connection_outcome(
    config: DockerConfig,
    unix: bool,
    r: Result<DockerClient, DockerConnError>,
) -> bool {
    match intended_origin(config, unix) {
        None => r matches Err(DockerConnError::MissingAddrOrPath),
        Some(o) => {
            &&& r matches Ok(c) ==> c.origin() == o
            &&& r matches Err(e) ==> e is Bollard
            &&& o is Http ==> r is Ok
        },
    }
}

/// `std::sync::Arc::clone`: another handle to the same value.
#[verifier::external_body]
fn share(a: &Arc<Docker>) -> (r: Arc<Docker>)
    ensures
        *r == **a,
{
    Arc::clone(a)
}

/// Setting up the shared connection: the connected client is kept where
/// none is held yet; a failed connection leaves the slot as it was.
pub open spec fn init_step(
    current: Option<DockerClient>,
    connected: Result<DockerClient, DockerConnError>,
) -> (Option<DockerClient>, Result<(), DockerConnError>) {
    match connected {
        Err(e) => (current, Err(e)),
        Ok(d) => if current is Some {
            (current, Err(DockerConnError::AlreadyInitialized))
        } else {
            (Some(d), Ok(()))
        },
    }
}

/// Replacing the shared connection: the connected client takes the place
/// of the held one; nothing changes where none is held or the connection
/// failed.
pub open spec fn reload_step(
    current: Option<DockerClient>,
    connected: Result<DockerClient, DockerConnError>,
) -> (Option<DockerClient>, Result<(), DockerConnError>) {
    match connected {
        Err(e) => (current, Err(e)),
        Ok(d) => if current is Some {
            (Some(d), Ok(()))
        } else {
            (current, Err(DockerConnError::NotInitialized))
        },
    }
}

/// What a lookup of the shared connection gives.
pub open spec fn lookup(current: Option<DockerClient>) -> Result<DockerClient, DockerConnError> {
    match current {
        Some(d) => Ok(d),
        None => Err(DockerConnError::NotInitialized),
    }
}

/// The slot for the one Docker client that the whole program shares.
pub struct DockerRegistry {
    slot: Option<DockerClient>,
}

impl DockerRegistry {
    /// The client held, if any.
    pub closed spec fn current(&self) -> Option<DockerClient> {
        self.slot
    }

    /// An empty slot.
    pub fn new() -> (r: Self)
        ensures
            r.current() is None,
    {
        DockerRegistry { slot: None }
    }

    /// Keeps `connected` if it is a client and no client is held yet.
    pub fn install(&mut self, connected: Result<DockerClient, DockerConnError>) -> (r: Result<
        (),
        DockerConnError,
    >)
        ensures
            (final(self).current(), r) == init_step(old(self).current(), connected),
    {
        match connected {
            Err(e) => Err(e),
            Ok(d) => {
                if self.slot.is_some() {
                    Err(DockerConnError::AlreadyInitialized)
                } else {
                    self.slot = Some(d);
                    Ok(())
                }
            },
        }
    }

    /// Puts `connected` in place of the held client, if it is a client and
    /// one is held.
    pub fn replace(&mut self, connected: Result<DockerClient, DockerConnError>) -> (r: Result<
        (),
        DockerConnError,
    >)
        ensures
            (final(self).current(), r) == reload_step(old(self).current(), connected),
    {
        match connected {
            Err(e) => Err(e),
            Ok(d) => {
                if self.slot.is_some() {
                    self.slot = Some(d);
                    Ok(())
                } else {
                    Err(DockerConnError::NotInitialized)
                }
            },
        }
    }
}

impl DockerConnection {
    /// Connects with `config` (`unix`: whether the program runs on a Unix
    /// system) and keeps the client in `registry`, which must not hold one
    /// yet.
    pub fn init_global(registry: &mut DockerRegistry, config: DockerConfig, unix: bool) -> (r:
        Result<(), DockerConnError>)
        ensures
            exists|c: Result<DockerClient, DockerConnError>|
                connection_outcome(config, unix, c) && (final(registry).current(), r)
                    == init_step(old(registry).current(), c),
    {
        let conn = DockerConnection { config };
        let connected = conn.connection(unix);
        registry.install(connected)
    }

    /// A handle to the shared client; `NotInitialized` before `init_global`.
    pub fn global(registry: &DockerRegistry) -> (r: Result<Arc<Docker>, DockerConnError>)
        ensures
            match lookup(registry.current()) {
                Ok(d) => r matches Ok(a) && *a == d.docker(),
                Err(e) => r == Err::<Arc<Docker>, DockerConnError>(e),
            },
    {
        match &registry.slot {
            Some(d) => Ok(share(&d.client)),
            None => Err(DockerConnError::NotInitialized),
        }
    }

    /// Connects with `config` (`unix`: whether the program runs on a Unix
    /// system) and puts the client in place of the shared one, which must
    /// have been set up.
    pub fn reload_global(registry: &mut DockerRegistry, config: DockerConfig, unix: bool) -> (r:
        Result<(), DockerConnError>)
        ensures
            exists|c: Result<DockerClient, DockerConnError>|
                connection_outcome(config, unix, c) && (final(registry).current(), r)
                    == reload_step(old(registry).current(), c),
    {
        let conn = DockerConnection { config };
        let connected = conn.connection(unix);
        registry.replace(connected)
    }

    /// Whether the shared client has been set up.
    pub fn is_initialized(registry: &DockerRegistry) -> (r: bool)
        ensures
            r == registry.current() is Some,
    {
        registry.slot.is_some()
    }
}

/// A set-up whose connection failed reports that failure and leaves the
/// slot as it was.
pub proof fn law_setup_reports_failed_connection(current: Option<DockerClient>, e: DockerConnError)
    ensures
        init_step(current, Err(e)) == (current, Err::<(), DockerConnError>(e)),
{
}

/// A set-up succeeds exactly when the slot was empty and the connection
/// succeeded, and the slot then holds the freshly connected client.
pub proof fn law_setup_succeeds_only_with_new_client(
    current: Option<DockerClient>,
    connected: Result<DockerClient, DockerConnError>,
)
    ensures
        init_step(current, connected).1 is Ok <==> current is None && connected is Ok,
        init_step(current, connected).1 is Ok ==> init_step(current, connected).0 == Some(
            connected->Ok_0,
        ),
        init_step(current, connected).1 is Err ==> init_step(current, connected).0 == current,
{
}

/// A reload whose connection failed reports that failure and leaves the
/// held client in place.
pub proof fn law_reload_reports_failed_connection(current: Option<DockerClient>, e: DockerConnError)
    ensures
        reload_step(current, Err(e)) == (current, Err::<(), DockerConnError>(e)),
{
}

/// A reload succeeds exactly when a client was held and the connection
/// succeeded, and the slot then holds the freshly connected client.
pub proof fn law_reload_succeeds_only_with_new_client(
    current: Option<DockerClient>,
    connected: Result<DockerClient, DockerConnError>,
)
    ensures
        reload_step(current, connected).1 is Ok <==> current is Some && connected is Ok,
        reload_step(current, connected).1 is Ok ==> reload_step(current, connected).0 == Some(
            connected->Ok_0,
        ),
        reload_step(current, connected).1 is Err ==> reload_step(current, connected).0
            == current,
{
}

/// What `init_global` and `reload_global` state, for the connection `c` that
/// they made: where they report success, the registry holds a client built
/// by the constructor call that the settings lead to; where the connection
/// failed, they report its error and the registry is as it was.
pub proof fn law_shared_client_is_the_configured_one(
    config: DockerConfig,
    unix: bool,
    c: Result<DockerClient, DockerConnError>,
    before: Option<DockerClient>,
)
    requires
        connection_outcome(config, unix, c),
    ensures
        init_step(before, c).1 is Ok ==> (init_step(before, c).0 matches Some(d)
            && intended_origin(config, unix) == Some(d.origin())),
        reload_step(before, c).1 is Ok ==> (reload_step(before, c).0 matches Some(d)
            && intended_origin(config, unix) == Some(d.origin())),
        c is Err ==> init_step(before, c) == (before, Err::<(), DockerConnError>(c->Err_0))
            && reload_step(before, c) == (before, Err::<(), DockerConnError>(c->Err_0)),
{
}

/// The version that the settings ask for: the configured `major.minor`
/// where it reads as one, else the client's default, version 1.53.
pub proof fn law_version_is_the_configured_one(raw: Option<String>)
    ensures
        chosen_version(raw) == match raw {
            Some(s) => match requested_version(s@) {
                Some(v) => v,
                None => ClientVersion { major_version: 1, minor_version: 53 },
            },
            None => ClientVersion { major_version: 1, minor_version: 53 },
        },
{
}

/// Every constructor call gets the configured transport, address, timeout
/// and API version: HTTP goes to the URL of the trimmed address, the local
/// transport is used where asked for or where a Unix socket is asked for
/// off Unix, sockets go to the trimmed path, and only HTTP without a usable
/// address has no call.
pub proof fn law_constructor_gets_configured_settings(config: DockerConfig, unix: bool)
    ensures
        intended_origin(config, unix) is None <==> config.default_conn_type
            == DefaultConnectionType::HTTP && http_target(config.addr_or_path) is None,
        intended_origin(config, unix) matches Some(ClientOrigin::Http { url, timeout, version })
            ==> config.default_conn_type == DefaultConnectionType::HTTP && http_target(
            config.addr_or_path,
        ) == Some(url) && timeout == config.timeout && version == chosen_version(
            config.client_version,
        ),
        intended_origin(config, unix) matches Some(ClientOrigin::Socket { path, timeout, version })
            ==> config.default_conn_type == DefaultConnectionType::SOCKET && unix && given_address(
            config.addr_or_path,
        ) == Some(path) && timeout == config.timeout && version == chosen_version(
            config.client_version,
        ),
        intended_origin(config, unix) matches Some(ClientOrigin::Local { path, timeout, version })
            ==> (config.default_conn_type == DefaultConnectionType::LOCAL || (
            config.default_conn_type == DefaultConnectionType::SOCKET && !unix)) && given_address(
            config.addr_or_path,
        ) == Some(path) && timeout == config.timeout && version == chosen_version(
            config.client_version,
        ),
        intended_origin(config, unix) matches Some(ClientOrigin::SocketDefaults) ==> config.default_conn_type
            == DefaultConnectionType::SOCKET && unix && given_address(config.addr_or_path) is None,
        intended_origin(config, unix) matches Some(ClientOrigin::LocalDefaults) ==> (
        config.default_conn_type == DefaultConnectionType::LOCAL || (config.default_conn_type
            == DefaultConnectionType::SOCKET && !unix)) && given_address(config.addr_or_path) is None,
        config.default_conn_type == DefaultConnectionType::HTTP ==> !(intended_origin(config, unix) matches Some(
            ClientOrigin::Local { .. } | ClientOrigin::LocalDefaults | ClientOrigin::Socket { .. }
            | ClientOrigin::SocketDefaults,
        )),
        config.default_conn_type != DefaultConnectionType::HTTP ==> (intended_origin(config, unix) is Some && !(intended_origin(config, unix) matches Some(ClientOrigin::Http { .. }))),
{
}

/// The request that `connect_request` gives carries the configured
/// timeout and API version, and the trimmed address or its URL.
pub proof fn law_request_carries_settings(
    config: DockerConfig,
    unix: bool,
    r: Result<ConnectRequest, DockerConnError>,
)
    requires
        request_matches(config, unix, r),
    ensures
        r matches Ok(ConnectRequest::Http { url, timeout, version }) ==> http_target(
            config.addr_or_path,
        ) == Some(url@) && timeout == config.timeout && version == chosen_version(
            config.client_version,
        ),
        r matches Ok(ConnectRequest::Socket { path, timeout, version }) ==> given_address(
            config.addr_or_path,
        ) == Some(path@) && timeout == config.timeout && version == chosen_version(
            config.client_version,
        ),
        r matches Ok(ConnectRequest::Local { path, timeout, version }) ==> given_address(
            config.addr_or_path,
        ) == Some(path@) && timeout == config.timeout && version == chosen_version(
            config.client_version,
        ),
        r is Err ==> r == Err::<ConnectRequest, DockerConnError>(
            DockerConnError::MissingAddrOrPath,
        ),
{
    law_constructor_gets_configured_settings(config, unix);
}

/// Once a client is set up in an empty slot, lookups give that client.
pub proof fn law_lookup_after_setup(d: DockerClient)
    ensures
        init_step(None, Ok(d)) == (Some(d), Ok::<(), DockerConnError>(())),
        lookup(init_step(None, Ok(d)).0) == Ok::<DockerClient, DockerConnError>(d),
{
}

/// The shared connection is set up at most once: on a slot that holds a
/// client, setting up changes nothing and fails, with `AlreadyInitialized`
/// where the connection itself succeeded.
pub proof fn law_setup_only_once(
    current: Option<DockerClient>,
    connected: Result<DockerClient, DockerConnError>,
)
    requires
        current is Some,
    ensures
        init_step(current, connected).0 == current,
        init_step(current, connected).1 is Err,
        connected is Ok ==> init_step(current, connected).1 == Err::<(), DockerConnError>(
            DockerConnError::AlreadyInitialized,
        ),
{
}

/// A reload before set-up changes nothing and fails, with `NotInitialized`
/// where the connection itself succeeded.
pub proof fn law_reload_needs_setup(connected: Result<DockerClient, DockerConnError>)
    ensures
        reload_step(None, connected).0 is None,
        reload_step(None, connected).1 is Err,
        connected is Ok ==> reload_step(None, connected).1 == Err::<(), DockerConnError>(
            DockerConnError::NotInitialized,
        ),
{
}

/// After a successful reload, lookups give the new client.
pub proof fn law_lookup_after_reload(current: Option<DockerClient>, d: DockerClient)
    requires
        current is Some,
    ensures
        reload_step(current, Ok(d)).1 is Ok,
        lookup(reload_step(current, Ok(d)).0) == Ok::<DockerClient, DockerConnError>(d),
{
}

/// Once set up, the shared connection stays set up through every set-up
/// and reload, whatever their outcome.
pub proof fn law_stays_initialized(
    current: Option<DockerClient>,
    connected: Result<DockerClient, DockerConnError>,
)
    requires
        current is Some,
    ensures
        init_step(current, connected).0 is Some,
        reload_step(current, connected).0 is Some,
{
}

/// The connection counts as set up exactly when a lookup succeeds.
pub proof fn law_initialized_iff_lookup_succeeds(current: Option<DockerClient>)
    ensures
        (current is Some) == (lookup(current) is Ok),
{
}

/// A URL that the address normalisation produced normalises to itself.
pub proof fn law_http_url_stable(addr: Seq<char>)
    ensures
        http_url_for(addr) matches Some(u) ==> http_url_for(u) == Some(u),
{
    if let Some(u) = http_url_for(addr) {
        if starts_with(addr, tcp_scheme()) {
            assert(u.take(7) =~= http_scheme());
            assert(u[0] != tcp_scheme()[0]);
            assert(!starts_with(u, tcp_scheme())) by {
                if starts_with(u, tcp_scheme()) {
                    assert(u.take(6)[0] == tcp_scheme()[0]);
                }
            }
        } else {
            if starts_with(addr, http_scheme()) {
                assert(!starts_with(u, tcp_scheme())) by {
                    if starts_with(u, tcp_scheme()) {
                        assert(u.take(6)[0] == tcp_scheme()[0]);
                        assert(u.take(7)[0] == http_scheme()[0]);
                    }
                }
            } else {
                assert(!starts_with(u, tcp_scheme())) by {
                    if starts_with(u, tcp_scheme()) {
                        assert(u.take(6)[0] == tcp_scheme()[0]);
                        assert(u.take(8)[0] == https_scheme()[0]);
                    }
                }
            }
        }
    }
}

/// The address used is never empty and has no surrounding white space:
/// trimming it again changes nothing.
pub proof fn law_address_is_trimmed(raw: Option<String>)
    ensures
        given_address(raw) matches Some(a) ==> a.len() > 0 && trimmed(a) == a,
{
    if let Some(s) = raw {
        law_trim_idempotent(s@);
    }
}

/// The address used is one contiguous stretch of the configured text.
pub proof fn law_address_within_config(raw: Option<String>)
    ensures
        given_address(raw) matches Some(a) ==> (raw matches Some(s) && exists|i: int, j: int|
            0 <= i <= j <= s@.len() && a == s@.subrange(i, j)),
{
    if let Some(s) = raw {
        law_trim_is_a_slice(s@);
    }
}

/// A version written `major.minor` in decimal is read back as that version.
pub proof fn law_version_text_round_trip(major: usize, minor: usize)
    ensures
        requested_version(decimal_text(major as nat) + seq!['.'] + decimal_text(minor as nat))
            == Some(ClientVersion { major_version: major, minor_version: minor }),
{
    let a = decimal_text(major as nat);
    let b = decimal_text(minor as nat);
    let s = a + seq!['.'] + b;
    lemma_decimal_text(major as nat);
    lemma_decimal_text(minor as nat);
    lemma_parse_decimal(major);
    lemma_parse_decimal(minor);
    let p = a.len() as int;
    assert forall|k: int| 0 <= k < s.len() && k != p implies s[k] != '.' by {
        if k < p {
            assert(s[k] == a[k]);
            assert(is_digit(a[k]));
        } else {
            assert(s[k] == b[k - p - 1]);
            assert(is_digit(b[k - p - 1]));
        }
    }
    assert(s[p] == '.');
    assert(only_at(s, '.', p));
    let q = choose|q: int| only_at(s, '.', q);
    assert(q == p);
    assert(s.take(p) =~= a);
    assert(s.skip(p + 1) =~= b);
}

} // verus!