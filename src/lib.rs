//! Local loopback media server: directory resolution, configuration,
//! response headers, startup decisions and the single-shot published address.

pub mod config;
pub mod decimal;
pub mod header;
pub mod resolver;
pub mod startup;
pub mod state;

pub use config::{
    cache_control_text, resolve_max_age, resolve_port, ServerConfig, DEFAULT_MAX_AGE, DEFAULT_PORT,
};
pub use decimal::{parse_u64, push_decimal};
pub use header::{allow_any_origin_header, cache_control_header};
pub use resolver::{choose_media_source, MediaBase, MediaProbe, MediaSource};
pub use startup::{Startup, StartupAction, StartupEvent, StartupFailure, StartupPhase};
pub use state::{PublishedState, QueryError, ServerInfo};
