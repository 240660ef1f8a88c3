//! Node configuration sections and command line commands.

use vstd::prelude::*;

verus! {

/// Node identity and storage directory.
#[derive(Debug, Clone)]
pub struct NodeSection {
    /// Node name.
    pub name: String,
    /// Data directory.
    pub data_dir: String,
    /// Log level.
    pub log_level: String,
}

/// Network settings.
#[derive(Debug, Clone)]
pub struct NetworkSection {
    /// Listen address.
    pub listen_addr: String,
    /// Listen port.
    pub listen_port: u16,
    /// Bootstrap nodes.
    pub bootstrap_nodes: Vec<String>,
    /// Maximum number of peers.
    pub max_peers: usize,
    /// Local discovery.
    pub mdns_enabled: bool,
}

/// Storage settings.
#[derive(Debug, Clone)]
pub struct StorageSection {
    /// Storage engine.
    pub engine: String,
    /// Maximum size in GB.
    pub max_size_gb: u32,
    /// Compression.
    pub compression: String,
    /// Cache size in MB.
    pub cache_size_mb: u32,
}

/// AI agent settings.
#[derive(Debug, Clone)]
pub struct AiSection {
    /// Path of the ONNX model.
    pub onnx_model_path: String,
    /// Embedding dimensions.
    pub embedding_dimensions: u32,
    /// Maximum batch size.
    pub max_batch_size: u32,
    /// Seconds between agent checks.
    pub agent_check_interval_secs: u64,
}

/// API settings.
#[derive(Debug, Clone)]
pub struct ApiSection {
    /// Whether the API is served.
    pub enabled: bool,
    /// Bind address.
    pub bind_addr: String,
    /// Allowed CORS origins.
    pub cors_origins: Vec<String>,
    /// Requests per second allowed.
    pub rate_limit_per_sec: u32,
}

/// Commands of the node's command line.
#[derive(Debug, Clone)]
pub enum Commands {
    /// Initialise a node in a data directory.
    Init {
        /// Data directory.
        data_dir: String,
    },
    /// Show the node's state.
    Status,
}

} // verus!
