//! Middleware pipeline for request-processing servers: authentication, rate
//! limiting, request identification, tracing and error normalization around a
//! handler, with each layer's decisions stated and proved.

pub mod auth;
pub mod config;
pub mod environment;
pub mod error;
pub mod grpc_config;
pub mod headers;
pub mod json_error;
pub mod message;
pub mod metrics;
pub mod pipeline;
pub mod ratelimit;
pub mod request_id;
pub mod text;
pub mod trace;

pub use auth::{AuthError, AuthInterceptor, AuthLayer, AuthService, Claims, TokenValidator};
pub use config::{ConfigBuilder, ConfigError, ConfigFormat, LoadPlan, ServerConfig};
pub use environment::{Environment, LogFormat};
pub use error::{ErrorResponse, HttpError};
pub use grpc_config::{ChannelConfig, ChannelConfigBuilder, GrpcServerConfig};
pub use headers::{HeaderKey, RequestExt};
pub use json_error::{JsonErrorLayer, JsonErrorService};
pub use message::{Request, Response, Step};
pub use metrics::{Metrics, MetricsLayer, MetricsService};
pub use pipeline::{Entered, Pipeline};
pub use ratelimit::{RateLimitLayer, TokenBucket};
pub use request_id::{RequestIdInterceptor, RequestIdLayer, RequestIdService, REQUEST_ID_HEADER};
pub use trace::{DefaultTraceLayer, RequestSpan, TraceLayer, TraceService};
