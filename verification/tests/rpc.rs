use alloy_eips::{BlockId, BlockNumberOrTag, RpcBlockHash};
use alloy_primitives::{Address, B256};
use chain_sync::block::{Header, RecoveredBlock, SealedBlock, SealedHeader};
use chain_sync::rpc::auth::{
    default_ipc_endpoint, AuthRpcModule, AuthServerConfig, AuthServerConfigBuilder, IdProvider,
    IpAddress, JwtSecret, ServerConfig, SocketAddress, DEFAULT_AUTH_PORT,
};
use chain_sync::rpc::pending_block::{PendingBlock, PendingBlockEnv, PendingBlockEnvOrigin};
use jsonrpsee::{Methods, RpcModule};
use std::sync::Arc;
use std::time::Instant;
use tower::layer::util::Identity;

fn header(number: u64) -> Header {
    Header {
        parent_hash: B256::repeat_byte(number as u8),
        number,
        gas_limit: 30_000_000,
        gas_used: 21_000,
        timestamp: 1_700_000_000,
    }
}

fn block(number: u64) -> RecoveredBlock<u64> {
    let sealed = SealedHeader::new(header(number), B256::repeat_byte(number as u8 + 1));
    SealedBlock::new_sealed(sealed, vec![7]).with_senders(vec![Address::repeat_byte(9)])
}

fn module(names: &[&'static str]) -> RpcModule<()> {
    let mut module = RpcModule::new(());
    for name in names {
        module.register_method(name, |_, _, _| "ok").unwrap();
    }
    module
}

fn names(module: &mut AuthRpcModule) -> Vec<&'static str> {
    let mut names: Vec<_> = module.module_mut().method_names().collect();
    names.sort();
    names
}

#[test]
fn pending_origin_of_the_actual_pending_block() {
    let pending = Arc::new(block(5));
    let origin: PendingBlockEnvOrigin<u64, u8> =
        PendingBlockEnvOrigin::ActualPending(pending.clone(), Arc::new(vec![1]));
    assert!(origin.is_actual_pending());
    assert_eq!(origin.state_block_id(), BlockId::Number(BlockNumberOrTag::Pending));
    assert!(origin.state_block_id().is_pending());
    // The block is built on its parent.
    assert_eq!(origin.build_target_hash(), B256::repeat_byte(5));
    assert_eq!(origin.into_actual_pending(), Some(pending));
}

#[test]
fn pending_origin_derived_from_the_latest_header() {
    let latest = SealedHeader::new(header(5), B256::repeat_byte(6));
    let origin: PendingBlockEnvOrigin<u64, u8> = PendingBlockEnvOrigin::DerivedFromLatest(latest);
    assert!(!origin.is_actual_pending());
    assert_eq!(
        origin.state_block_id(),
        BlockId::Hash(RpcBlockHash { block_hash: B256::repeat_byte(6), require_canonical: None })
    );
    assert_eq!(origin.state_block_id(), BlockId::from(B256::repeat_byte(6)));
    // The block is built on the latest block itself.
    assert_eq!(origin.build_target_hash(), B256::repeat_byte(6));
    assert_eq!(origin.into_actual_pending(), None);
}

#[test]
fn pending_block_and_env_hold_their_parts() {
    let now = Instant::now();
    let pending: PendingBlock<u64, u8> = PendingBlock::new(now, Arc::new(block(3)), Arc::new(vec![1, 2]));
    assert_eq!(pending.expires_at, now);
    assert_eq!(pending.block.number(), 3);
    assert_eq!(*pending.receipts, vec![1, 2]);
    let env: PendingBlockEnv<u64, u8, &str> = PendingBlockEnv::new(
        "env",
        PendingBlockEnvOrigin::DerivedFromLatest(SealedHeader::new(header(1), B256::ZERO)),
    );
    assert_eq!(env.evm_env, "env");
    assert!(!env.origin.is_actual_pending());
}

#[test]
fn merge_adds_methods_unless_a_name_is_taken() {
    let mut auth = AuthRpcModule::new(module(&["engine_newPayloadV1", "engine_getPayloadV1"]));
    assert_eq!(names(&mut auth), vec!["engine_getPayloadV1", "engine_newPayloadV1"]);

    let other: Methods = module(&["eth_chainId", "eth_syncing"]).into();
    assert_eq!(auth.merge_auth_methods(other).unwrap(), true);
    assert_eq!(
        names(&mut auth),
        vec!["engine_getPayloadV1", "engine_newPayloadV1", "eth_chainId", "eth_syncing"]
    );

    // One name is taken: nothing is added.
    let other: Methods = module(&["eth_blockNumber", "eth_chainId"]).into();
    assert!(auth.merge_auth_methods(other).is_err());
    assert_eq!(
        names(&mut auth),
        vec!["engine_getPayloadV1", "engine_newPayloadV1", "eth_chainId", "eth_syncing"]
    );

    // Merging nothing is fine.
    assert_eq!(auth.merge_auth_methods(Methods::new()).unwrap(), true);
}

#[test]
fn remove_takes_methods_out() {
    let mut auth = AuthRpcModule::new(module(&["a", "b", "c", "d"]));
    assert!(auth.remove_auth_method("b"));
    assert!(!auth.remove_auth_method("b"));
    assert!(!auth.remove_auth_method("x"));
    assert_eq!(names(&mut auth), vec!["a", "c", "d"]);
    auth.remove_auth_methods(vec!["a", "x", "d", "a"]);
    assert_eq!(names(&mut auth), vec!["c"]);
    auth.remove_auth_methods(vec![]);
    assert_eq!(names(&mut auth), vec!["c"]);
}

#[test]
fn replace_never_fails() {
    let mut auth = AuthRpcModule::new(module(&["a", "b", "c"]));
    let mut other = RpcModule::new(());
    other.register_method("b", |_, _, _| "new").unwrap();
    other.register_method("z", |_, _, _| "new").unwrap();
    assert_eq!(auth.replace_auth_methods(other.into()).unwrap(), true);
    assert_eq!(names(&mut auth), vec!["a", "b", "c", "z"]);
    assert_eq!(auth.replace_auth_methods(Methods::new()).unwrap(), true);
    assert_eq!(names(&mut auth), vec!["a", "b", "c", "z"]);
}

const SECRET: JwtSecret = JwtSecret([7; 32]);

fn limits(n: u32) -> ServerConfig {
    ServerConfig {
        max_response_body_size: n,
        max_connections: n + 1,
        max_request_body_size: n + 2,
        id_provider: IdProvider::Default,
    }
}

#[test]
fn config_defaults() {
    let config = AuthServerConfig::builder(SECRET).build();
    assert_eq!(DEFAULT_AUTH_PORT, 8551);
    assert_eq!(config.address(), SocketAddress { ip: IpAddress::V4(127, 0, 0, 1), port: 8551 });
    assert_eq!(config.secret(), SECRET);
    assert_eq!(
        config.server_config(),
        ServerConfig {
            max_response_body_size: 750 * 1024 * 1024,
            max_connections: 500,
            max_request_body_size: 128 * 1024 * 1024,
            id_provider: IdProvider::EthSubscription,
        }
    );
    assert_eq!(config.ipc_server_config(), None);
    assert_eq!(config.ipc_path(), None);
}

#[test]
fn config_keeps_what_was_set() {
    let address = SocketAddress { ip: IpAddress::V6(0, 0, 0, 0, 0, 0, 0, 1), port: 9000 };
    let config = AuthServerConfigBuilder::new(SECRET)
        .socket_addr(address)
        .secret(JwtSecret([1; 32]))
        .with_server_config(limits(10))
        .with_ipc_config(limits(20))
        .build();
    assert_eq!(config.address(), address);
    assert_eq!(config.secret(), JwtSecret([1; 32]));
    // The limits for HTTP are kept, but for the naming of subscriptions.
    assert_eq!(
        config.server_config(),
        ServerConfig { id_provider: IdProvider::EthSubscription, ..limits(10) }
    );
    // The limits for IPC give way to the usual ones.
    assert_eq!(config.ipc_server_config(), Some(AuthServerConfig::builder(SECRET).build().server_config()));
    assert_eq!(config.ipc_path(), Some("/tmp/reth_engine_api.ipc".to_string()));
    assert_eq!(default_ipc_endpoint(), "/tmp/reth_engine_api.ipc");

    let config = AuthServerConfigBuilder::new(SECRET)
        .ipc_endpoint("/run/engine.ipc".to_string())
        .maybe_socket_addr(Some(address))
        .maybe_socket_addr(None)
        .build();
    // A path alone starts no server for IPC.
    assert_eq!(config.ipc_path(), None);
    assert_eq!(config.address().port, 8551);

    let config = AuthServerConfigBuilder::new(SECRET)
        .with_ipc_config(limits(1))
        .ipc_endpoint("/run/engine.ipc".to_string())
        .with_rpc_middleware(5u8)
        .build()
        .with_rpc_middleware(Identity::new());
    assert_eq!(config.ipc_path(), Some("/run/engine.ipc".to_string()));
}
