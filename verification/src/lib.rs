pub mod grpc_client;
pub mod rpc_path;
pub mod span;
