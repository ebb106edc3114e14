//! The methods of the authenticated server, and its configuration.
//!
//! The methods live in an `RpcModule` of `jsonrpsee`. This crate never looks
//! inside one; it knows a module by the names of the methods that it holds,
//! and states of each call what the source of `jsonrpsee` shows it to do to
//! those names.
use jsonrpsee::server::RegisterMethodError;
use jsonrpsee::{MethodCallback, Methods, RpcModule};
use tower::layer::util::Identity;
use vstd::prelude::*;

verus! {

/// `jsonrpsee::RpcModule`: a set of methods with the context that they
/// share.
#[verifier::external_type_specification]
#[verifier::external_body]
#[verifier::reject_recursive_types(Context)]
pub struct ExRpcModule<Context>(RpcModule<Context>);

/// `jsonrpsee::Methods`: a set of methods.
#[verifier::external_type_specification]
#[verifier::external_body]
pub struct ExMethods(Methods);

/// `jsonrpsee::MethodCallback`: what a method runs when it is called.
#[verifier::external_type_specification]
#[verifier::external_body]
pub struct ExMethodCallback(MethodCallback);

/// `jsonrpsee::server::RegisterMethodError`: why a method could not be
/// added.
#[verifier::external_type_specification]
#[verifier::external_body]
pub struct ExRegisterMethodError(RegisterMethodError);

/// `tower::layer::util::Identity`: the middleware that does nothing.
#[verifier::external_type_specification]
#[verifier::external_body]
pub struct ExIdentity(Identity);

/// `Identity::new`: a middleware that does nothing. It holds nothing, so
/// there is nothing to say of it.
pub assume_specification[ Identity::new ]() -> Identity
;

/// `Clone` for `RpcModule`. Nothing is claimed of the copy.
pub assume_specification<Context>[ <RpcModule<Context> as Clone>::clone ](
    source: &RpcModule<Context>,
) -> RpcModule<Context> where Context: Clone
;

/// The names of the methods that a module holds.
pub uninterp spec fn module_names(module: RpcModule<()>) -> Set<Seq<char>>;

/// The names of the methods that a set of methods holds.
pub uninterp spec fn method_names(methods: Methods) -> Set<Seq<char>>;

/// The names in `names`, as a set.
pub open spec fn names_of(names: Seq<&'static str>) -> Set<Seq<char>> {
    Set::new(|name: Seq<char>| exists|i: int| 0 <= i < names.len() && (#[trigger] names[i])@ == name)
}

/// `Methods::merge`, through the module: adds every method of `other`,
/// unless one of their names is taken, in which case nothing is added.
#[verifier::external_body]
fn merge(module: &mut RpcModule<()>, other: Methods) -> (merged: Result<(), RegisterMethodError>)
    ensures
        merged is Ok <==> module_names(*old(module)).disjoint(method_names(other)),
        merged is Ok ==> module_names(*final(module)) == module_names(*old(module)).union(
            method_names(other),
        ),
        merged is Err ==> module_names(*final(module)) == module_names(*old(module)),
{
    module.merge(other)
}

/// `RpcModule::remove_method`: takes the method of that name out, and hands
/// it back if there was one.
#[verifier::external_body]
fn remove_method(module: &mut RpcModule<()>, method_name: &'static str) -> (removed: Option<
    MethodCallback,
>)
    ensures
        removed is Some <==> module_names(*old(module)).contains(method_name@),
        module_names(*final(module)) == module_names(*old(module)).remove(method_name@),
{
    module.remove_method(method_name)
}

/// `Methods::method_names`: the names of the methods, each once, in no
/// order that could be told in advance.
#[verifier::external_body]
fn names_in(methods: &Methods) -> (names: Vec<&'static str>)
    ensures
        names_of(names@) == method_names(*methods),
{
    methods.method_names().collect()
}

/// The methods that the authenticated server offers.
#[derive(Debug, Clone)]
pub struct AuthRpcModule {
    pub(crate) inner: RpcModule<()>,
}

impl AuthRpcModule {
    /// The names of the methods that are installed.
    pub closed spec fn names(&self) -> Set<Seq<char>> {
        module_names(self.inner)
    }

    /// The module of the engine API as the authenticated module.
    pub fn new(engine: RpcModule<()>) -> (module: Self)
        ensures
            module.names() == module_names(engine),
    {
        AuthRpcModule { inner: engine }
    }

    /// The module inside.
    pub fn module_mut(&mut self) -> (module: &mut RpcModule<()>)
        ensures
            module_names(*module) == old(self).names(),
            final(self).names() == module_names(*final(module)),
    {
        &mut self.inner
    }

    /// Adds the methods of `other`. Fails, and adds nothing, if the name of
    /// one of them is taken.
    pub fn merge_auth_methods(&mut self, other: Methods) -> (merged: Result<
        bool,
        RegisterMethodError,
    >)
        ensures
            merged is Ok <==> old(self).names().disjoint(method_names(other)),
            merged matches Ok(done) ==> done && final(self).names() == old(self).names().union(
                method_names(other),
            ),
            merged is Err ==> final(self).names() == old(self).names(),
    {
        match merge(&mut self.inner, other) {
            Ok(_) => Ok(true),
            Err(error) => Err(error),
        }
    }

    /// Takes the method of that name out. Returns `true` if there was one.
    pub fn remove_auth_method(&mut self, method_name: &'static str) -> (removed: bool)
        ensures
            removed == old(self).names().contains(method_name@),
            final(self).names() == old(self).names().remove(method_name@),
    {
        remove_method(&mut self.inner, method_name).is_some()
    }

    /// Takes the methods of those names out.
    pub fn remove_auth_methods(&mut self, methods: Vec<&'static str>)
        ensures
            final(self).names() == old(self).names().difference(names_of(methods@)),
    {
        let mut i: usize = 0;
        while i < methods.len()
            invariant
                i <= methods.len(),
                self.names() == old(self).names().difference(names_of(methods@.take(i as int))),
            decreases methods.len() - i,
        {
            let name = methods[i];
            self.remove_auth_method(name);
            proof {
                let before = methods@.take(i as int);
                let after = methods@.take(i + 1);
                assert(after =~= before.push(name));
                assert forall|n: Seq<char>| names_of(after).contains(n) <==> (names_of(
                    before,
                ).contains(n) || n == name@) by {
                    if names_of(after).contains(n) {
                        let j = choose|j: int| 0 <= j < after.len() && (#[trigger] after[j])@ == n;
                        if j < before.len() {
                            assert(before[j]@ == n);
                        }
                    }
                    if names_of(before).contains(n) {
                        let j = choose|j: int|
                            0 <= j < before.len() && (#[trigger] before[j])@ == n;
                        assert(after[j]@ == n);
                    }
                    if n == name@ {
                        assert(after[i as int]@ == n);
                    }
                }
                assert(self.names() =~= old(self).names().difference(names_of(after)));
            }
            i = i + 1;
        }
        proof {
            assert(methods@.take(methods@.len() as int) =~= methods@);
        }
    }

    /// Puts the methods of `other` in the place of the methods of the same
    /// names. This never fails: the names are free by the time the methods
    /// are added.
    pub fn replace_auth_methods(&mut self, other: Methods) -> (replaced: Result<
        bool,
        RegisterMethodError,
    >)
        ensures
            replaced matches Ok(done) && done,
            final(self).names() == old(self).names().union(method_names(other)),
    {
        let names = names_in(&other);
        self.remove_auth_methods(names);
        proof {
            assert(self.names().disjoint(method_names(other)));
            assert(self.names().union(method_names(other)) =~= old(self).names().union(
                method_names(other),
            ));
        }
        self.merge_auth_methods(other)
    }
}

/// An internet address.
#[derive(Debug, Clone, Copy, PartialEq, Eq, Structural)]
pub enum IpAddress {
    /// An address of version 4: four bytes.
    V4(u8, u8, u8, u8),
    /// An address of version 6: eight groups of sixteen bits.
    V6(u16, u16, u16, u16, u16, u16, u16, u16),
}

/// An address that a server listens on.
#[derive(Debug, Clone, Copy, PartialEq, Eq, Structural)]
pub struct SocketAddress {
    /// The internet address.
    pub ip: IpAddress,
    /// The port.
    pub port: u16,
}

/// The secret that callers of the authenticated server sign their tokens
/// with: 32 bytes.
#[derive(Debug, Clone, Copy, PartialEq, Eq)]
pub struct JwtSecret(pub [u8; 32]);

/// How a server names its subscriptions.
#[derive(Debug, Clone, Copy, PartialEq, Eq, Structural)]
pub enum IdProvider {
    /// As the server library does by itself.
    Default,
    /// As Ethereum clients do.
    EthSubscription,
}

/// The limits of a server.
#[derive(Debug, Clone, Copy, PartialEq, Eq, Structural)]
pub struct ServerConfig {
    /// The largest body of a response, in bytes.
    pub max_response_body_size: u32,
    /// The most connections at a time.
    pub max_connections: u32,
    /// The largest body of a request, in bytes.
    pub max_request_body_size: u32,
    /// How subscriptions are named.
    pub id_provider: IdProvider,
}

/// The port of the authenticated server, unless told otherwise.
pub const DEFAULT_AUTH_PORT: u16 = 8551;

/// The largest body of a response, unless told otherwise: 750 MiB, enough
/// for the largest answers about logs and payload bodies.
pub const DEFAULT_MAX_RESPONSE_BODY_SIZE: u32 = 786_432_000;

/// The most connections at a time, unless told otherwise. Every caller is
/// authenticated, so this is ample for the consensus clients of a node.
pub const DEFAULT_MAX_CONNECTIONS: u32 = 500;

/// The largest body of a request, unless told otherwise: 128 MiB.
pub const DEFAULT_MAX_REQUEST_BODY_SIZE: u32 = 134_217_728;

/// The address of the authenticated server, unless told otherwise: the
/// local host, at the usual port.
pub open spec fn default_address() -> SocketAddress {
    SocketAddress { ip: IpAddress::V4(127, 0, 0, 1), port: DEFAULT_AUTH_PORT }
}

/// The limits of the authenticated server, unless told otherwise.
pub open spec fn default_server_config() -> ServerConfig {
    ServerConfig {
        max_response_body_size: DEFAULT_MAX_RESPONSE_BODY_SIZE,
        max_connections: DEFAULT_MAX_CONNECTIONS,
        max_request_body_size: DEFAULT_MAX_REQUEST_BODY_SIZE,
        id_provider: IdProvider::EthSubscription,
    }
}

/// The path of the socket of the engine API, unless told otherwise.
pub fn default_ipc_endpoint() -> (path: &'static str)
    ensures
        path@ == "/tmp/reth_engine_api.ipc"@,
{
    "/tmp/reth_engine_api.ipc"
}

/// The configuration of the authenticated server.
#[derive(Debug)]
pub struct AuthServerConfig<RpcMiddleware> {
    /// Where the server listens.
    pub(crate) socket_addr: SocketAddress,
    /// The secret of the authentication layer.
    pub(crate) secret: JwtSecret,
    /// The limits of the server for HTTP and WebSocket.
    pub(crate) server_config: ServerConfig,
    /// The limits of the server for IPC, where there is one.
    pub(crate) ipc_server_config: Option<ServerConfig>,
    /// The path of the socket for IPC.
    pub(crate) ipc_endpoint: Option<String>,
    /// The middleware of the RPC layer.
    pub(crate) rpc_middleware: RpcMiddleware,
}

impl AuthServerConfig<Identity> {
    /// A builder of a configuration with this secret.
    pub fn builder(secret: JwtSecret) -> (builder: AuthServerConfigBuilder<Identity>)
        ensures
            builder.spec_secret() == secret,
            builder.spec_socket_addr() is None,
            builder.spec_server_config() is None,
            builder.spec_ipc_server_config() is None,
            builder.spec_ipc_endpoint() is None,
    {
        AuthServerConfigBuilder::new(secret)
    }
}

impl<RpcMiddleware> AuthServerConfig<RpcMiddleware> {
    /// Where the server listens.
    pub closed spec fn spec_socket_addr(&self) -> SocketAddress {
        self.socket_addr
    }

    /// The secret of the authentication layer.
    pub closed spec fn spec_secret(&self) -> JwtSecret {
        self.secret
    }

    /// The limits of the server for HTTP and WebSocket.
    pub closed spec fn spec_server_config(&self) -> ServerConfig {
        self.server_config
    }

    /// The limits of the server for IPC, where there is one.
    pub closed spec fn spec_ipc_server_config(&self) -> Option<ServerConfig> {
        self.ipc_server_config
    }

    /// The path of the socket for IPC.
    pub closed spec fn spec_ipc_endpoint(&self) -> Option<String> {
        self.ipc_endpoint
    }

    /// The middleware of the RPC layer.
    pub closed spec fn spec_rpc_middleware(&self) -> RpcMiddleware {
        self.rpc_middleware
    }

    /// The address that the server will listen on.
    pub fn address(&self) -> (address: SocketAddress)
        ensures
            address == self.spec_socket_addr(),
    {
        self.socket_addr
    }

    /// The secret of the authentication layer.
    pub fn secret(&self) -> (secret: JwtSecret)
        ensures
            secret == self.spec_secret(),
    {
        self.secret
    }

    /// The limits of the server for HTTP and WebSocket.
    pub fn server_config(&self) -> (config: ServerConfig)
        ensures
            config == self.spec_server_config(),
    {
        self.server_config
    }

    /// The limits of the server for IPC, where there is one.
    pub fn ipc_server_config(&self) -> (config: Option<ServerConfig>)
        ensures
            config == self.spec_ipc_server_config(),
    {
        self.ipc_server_config
    }

    /// The path of the socket for IPC, where one was set.
    pub fn ipc_endpoint(&self) -> (path: Option<String>)
        ensures
            path is Some <==> self.spec_ipc_endpoint() is Some,
            path matches Some(text) ==> text@ == self.spec_ipc_endpoint()->Some_0@,
    {
        match &self.ipc_endpoint {
            Some(endpoint) => Some(endpoint.clone()),
            None => None,
        }
    }

    /// The configuration with another middleware of the RPC layer.
    pub fn with_rpc_middleware<T>(self, rpc_middleware: T) -> (config: AuthServerConfig<T>)
        ensures
            config.spec_socket_addr() == self.spec_socket_addr(),
            config.spec_secret() == self.spec_secret(),
            config.spec_server_config() == self.spec_server_config(),
            config.spec_ipc_server_config() == self.spec_ipc_server_config(),
            config.spec_ipc_endpoint() == self.spec_ipc_endpoint(),
            config.spec_rpc_middleware() == rpc_middleware,
    {
        AuthServerConfig {
            socket_addr: self.socket_addr,
            secret: self.secret,
            server_config: self.server_config,
            ipc_server_config: self.ipc_server_config,
            ipc_endpoint: self.ipc_endpoint,
            rpc_middleware,
        }
    }

    /// The path of the socket that the server for IPC is started on: none
    /// where no server for IPC is configured, else the path that was set,
    /// or the usual one.
    pub fn ipc_path(&self) -> (path: Option<String>)
        ensures
            path is Some <==> self.spec_ipc_server_config() is Some,
            path matches Some(text) ==> text@ == (match self.spec_ipc_endpoint() {
                Some(endpoint) => endpoint@,
                None => "/tmp/reth_engine_api.ipc"@,
            }),
    {
        if self.ipc_server_config.is_none() {
            return None;
        }
        match &self.ipc_endpoint {
            Some(endpoint) => Some(endpoint.clone()),
            None => Some(default_ipc_endpoint().to_owned()),
        }
    }
}

/// A builder of the configuration of the authenticated server.
#[derive(Debug)]
pub struct AuthServerConfigBuilder<RpcMiddleware> {
    socket_addr: Option<SocketAddress>,
    secret: JwtSecret,
    server_config: Option<ServerConfig>,
    ipc_server_config: Option<ServerConfig>,
    ipc_endpoint: Option<String>,
    rpc_middleware: RpcMiddleware,
}

impl AuthServerConfigBuilder<Identity> {
    /// A builder with this secret and nothing else set.
    pub fn new(secret: JwtSecret) -> (builder: Self)
        ensures
            builder.spec_secret() == secret,
            builder.spec_socket_addr() is None,
            builder.spec_server_config() is None,
            builder.spec_ipc_server_config() is None,
            builder.spec_ipc_endpoint() is None,
    {
        AuthServerConfigBuilder {
            socket_addr: None,
            secret,
            server_config: None,
            ipc_server_config: None,
            ipc_endpoint: None,
            rpc_middleware: Identity::new(),
        }
    }
}

impl<RpcMiddleware> AuthServerConfigBuilder<RpcMiddleware> {
    /// The address that was set.
    pub closed spec fn spec_socket_addr(&self) -> Option<SocketAddress> {
        self.socket_addr
    }

    /// The secret.
    pub closed spec fn spec_secret(&self) -> JwtSecret {
        self.secret
    }

    /// The limits that were set for HTTP and WebSocket.
    pub closed spec fn spec_server_config(&self) -> Option<ServerConfig> {
        self.server_config
    }

    /// The limits that were set for IPC.
    pub closed spec fn spec_ipc_server_config(&self) -> Option<ServerConfig> {
        self.ipc_server_config
    }

    /// The path that was set for IPC.
    pub closed spec fn spec_ipc_endpoint(&self) -> Option<String> {
        self.ipc_endpoint
    }

    /// The middleware of the RPC layer.
    pub closed spec fn spec_rpc_middleware(&self) -> RpcMiddleware {
        self.rpc_middleware
    }

    /// Whether `other` is this builder but for the fields that the caller
    /// names as changed.
    pub open spec fn same_but(
        &self,
        other: &Self,
        socket_addr: bool,
        secret: bool,
        server_config: bool,
        ipc_server_config: bool,
        ipc_endpoint: bool,
    ) -> bool {
        &&& socket_addr || self.spec_socket_addr() == other.spec_socket_addr()
        &&& secret || self.spec_secret() == other.spec_secret()
        &&& server_config || self.spec_server_config() == other.spec_server_config()
        &&& ipc_server_config || self.spec_ipc_server_config() == other.spec_ipc_server_config()
        &&& ipc_endpoint || self.spec_ipc_endpoint() == other.spec_ipc_endpoint()
        &&& self.spec_rpc_middleware() == other.spec_rpc_middleware()
    }

    /// The builder with another middleware of the RPC layer.
    pub fn with_rpc_middleware<T>(self, rpc_middleware: T) -> (builder: AuthServerConfigBuilder<T>)
        ensures
            builder.spec_socket_addr() == self.spec_socket_addr(),
            builder.spec_secret() == self.spec_secret(),
            builder.spec_server_config() == self.spec_server_config(),
            builder.spec_ipc_server_config() == self.spec_ipc_server_config(),
            builder.spec_ipc_endpoint() == self.spec_ipc_endpoint(),
            builder.spec_rpc_middleware() == rpc_middleware,
    {
        AuthServerConfigBuilder {
            socket_addr: self.socket_addr,
            secret: self.secret,
            server_config: self.server_config,
            ipc_server_config: self.ipc_server_config,
            ipc_endpoint: self.ipc_endpoint,
            rpc_middleware,
        }
    }

    /// Sets the address that the server listens on.
    pub fn socket_addr(self, socket_addr: SocketAddress) -> (builder: Self)
        ensures
            builder.spec_socket_addr() == Some(socket_addr),
            builder.same_but(&self, true, false, false, false, false),
    {
        let mut builder = self;
        builder.socket_addr = Some(socket_addr);
        builder
    }

    /// Sets the address that the server listens on, or takes it back.
    pub fn maybe_socket_addr(self, socket_addr: Option<SocketAddress>) -> (builder: Self)
        ensures
            builder.spec_socket_addr() == socket_addr,
            builder.same_but(&self, true, false, false, false, false),
    {
        let mut builder = self;
        builder.socket_addr = socket_addr;
        builder
    }

    /// Sets the secret.
    pub fn secret(self, secret: JwtSecret) -> (builder: Self)
        ensures
            builder.spec_secret() == secret,
            builder.same_but(&self, false, true, false, false, false),
    {
        let mut builder = self;
        builder.secret = secret;
        builder
    }

    /// Sets the limits of the server for HTTP and WebSocket. Whatever the
    /// limits say, subscriptions are named as Ethereum clients do.
    pub fn with_server_config(self, config: ServerConfig) -> (builder: Self)
        ensures
            builder.spec_server_config() == Some(
                ServerConfig { id_provider: IdProvider::EthSubscription, ..config },
            ),
            builder.same_but(&self, false, false, true, false, false),
    {
        let mut builder = self;
        builder.server_config = Some(
            ServerConfig { id_provider: IdProvider::EthSubscription, ..config },
        );
        builder
    }

    /// Sets the path of the socket for IPC.
    pub fn ipc_endpoint(self, ipc_endpoint: String) -> (builder: Self)
        ensures
            builder.spec_ipc_endpoint() == Some(ipc_endpoint),
            builder.same_but(&self, false, false, false, false, true),
    {
        let mut builder = self;
        builder.ipc_endpoint = Some(ipc_endpoint);
        builder
    }

    /// Sets the limits of the server for IPC. Whatever the limits say,
    /// subscriptions are named as Ethereum clients do.
    pub fn with_ipc_config(self, config: ServerConfig) -> (builder: Self)
        ensures
            builder.spec_ipc_server_config() == Some(
                ServerConfig { id_provider: IdProvider::EthSubscription, ..config },
            ),
            builder.same_but(&self, false, false, false, true, false),
    {
        let mut builder = self;
        builder.ipc_server_config = Some(
            ServerConfig { id_provider: IdProvider::EthSubscription, ..config },
        );
        builder
    }

    /// Builds the configuration.
    ///
    /// An address that was not set is the local host at the usual port.
    /// Limits for HTTP and WebSocket that were not set are the usual ones;
    /// limits that were set are kept. A server for IPC is configured only
    /// where limits for it were set, and then with the usual limits in their
    /// place.
    pub fn build(self) -> (config: AuthServerConfig<RpcMiddleware>)
        ensures
            config.spec_socket_addr() == (match self.spec_socket_addr() {
                Some(address) => address,
                None => default_address(),
            }),
            config.spec_secret() == self.spec_secret(),
            config.spec_server_config() == (match self.spec_server_config() {
                Some(limits) => limits,
                None => default_server_config(),
            }),
            config.spec_ipc_server_config() == (match self.spec_ipc_server_config() {
                Some(_) => Some(default_server_config()),
                None => None,
            }),
            config.spec_ipc_endpoint() == self.spec_ipc_endpoint(),
            config.spec_rpc_middleware() == self.spec_rpc_middleware(),
    {
        AuthServerConfig {
            socket_addr: match self.socket_addr {
                Some(address) => address,
                None => SocketAddress { ip: IpAddress::V4(127, 0, 0, 1), port: DEFAULT_AUTH_PORT },
            },
            secret: self.secret,
            server_config: match self.server_config {
                Some(limits) => limits,
                None => ServerConfig {
                    max_response_body_size: DEFAULT_MAX_RESPONSE_BODY_SIZE,
                    max_connections: DEFAULT_MAX_CONNECTIONS,
                    max_request_body_size: DEFAULT_MAX_REQUEST_BODY_SIZE,
                    id_provider: IdProvider::EthSubscription,
                },
            },
            ipc_server_config: match self.ipc_server_config {
                Some(_) => Some(
                    ServerConfig {
                        max_response_body_size: DEFAULT_MAX_RESPONSE_BODY_SIZE,
                        max_connections: DEFAULT_MAX_CONNECTIONS,
                        max_request_body_size: DEFAULT_MAX_REQUEST_BODY_SIZE,
                        id_provider: IdProvider::EthSubscription,
                    },
                ),
                None => None,
            },
            ipc_endpoint: self.ipc_endpoint,
            rpc_middleware: self.rpc_middleware,
        }
    }
}

} // verus!
