//! The decisions of a client for the mimo PC channel, apart from its requests.
//!
//! The crate says what to send, what to make of each reply, when to refresh the
//! service token, and how a quota reply is read. It performs no request itself:
//! a caller runs the requests and hands back what came of them.

pub mod client;
pub mod config;
pub mod cookie;
pub mod error;
pub mod exchange;
pub mod headers;
pub mod models;
pub mod quota;
pub mod refresh;
pub mod session;
pub mod status;
pub mod text;

pub use crate::client::MimoClient;
pub use crate::config::{
    mimo_host, upstream_timeout, ClientConfig, MIMO_HOST, PATH_CHAT, PATH_MCP_STREAMABLE,
    PATH_QUOTA, PATH_RESPONSES,
};
pub use crate::error::BridgeError;
pub use crate::exchange::{Action, Event, Exchange, Method, Request};
pub use crate::headers::{build_headers, cookie_shape};
pub use crate::models::{known_models, ModelInfo, MODEL_DEFAULT};
pub use crate::quota::{
    check_quota_status, read_quota_reply, read_quota_reply_at, QuotaData, QuotaEnvelope,
    QuotaError, QuotaSnapshot, Standing, UsageRatio,
};
pub use crate::refresh::{RefreshAction, RefreshEvent, TokenRefresh};
pub use crate::session::{AuthSnapshot, AuthState, Session};
pub use crate::status::Status;
