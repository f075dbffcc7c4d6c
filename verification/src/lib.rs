//! Framework-agnostic login core: configuration, session drivers, session
//! enrichment, cookie and URL helpers, and the decisions of the OAuth 2.0
//! Authorization Code flow.
//!
//! The library decides and computes; it performs no I/O. The authorization
//! server, the AEAD cipher, the session and liveness stores and the metrics
//! recorder are reached by the caller, which hands each answer to the function
//! that says what follows from it. A session is sealed into browser cookies
//! ([`CookieSessionStore`]) or kept in an external store behind a pointer
//! cookie ([`StoreBackedSessionStore`]).
//!
//! What holds across functions stands in proof functions named `law_…`, next
//! to the functions they relate.

pub mod codec;
pub mod completed_login;
pub mod config;
pub mod cookie;
pub mod cookie_session;
pub mod engine;
pub mod enrich;
pub mod extra;
pub mod headers;
pub mod liveness;
pub mod metrics;
pub mod session;
pub mod session_state;
pub mod store_session;
pub mod text;
pub mod time;
pub mod url;

pub use completed_login::{AddressClaims, CompletedLogin, IdTokenClaims, ProfileClaims};
pub use config::{
    ActivityPolicy, ConfigError, InvalidRoutePath, LoginConfig, LoginConfigBuilder, LogoutConfig,
    RoutePath, SessionLifetime,
};
pub use cookie::{CookieName, InvalidCookieName};
pub use cookie_session::{CookieSession, CookieSessionStore};
pub use engine::base::{LoginEngine, TeardownReason};
pub use engine::load::{LoadedSession, PendingPersist};
pub use engine::response::{
    DefaultErrorPage, DefaultPersistFailurePolicy, ErrorPageResponse, LoginResponse,
    PersistFailurePolicy, SetCookies,
};
pub use enrich::NoEnrichment;
pub use extra::ExtraFields;
pub use liveness::{LivenessConfig, LivenessVerdict};
pub use metrics::{
    normalize_as_error, DecryptResult, LoginCompleteResult, LoginStartResult, RefreshResult,
};
pub use session::{SessionDriver, SessionError, SessionErrorKind};
pub use session_state::{
    AccessToken, CookiePayload, RefreshToken, Session, SessionState, TokenResponse,
};
pub use store_session::{
    PersistedSession, PersistedSessionState, SaveOutcome, SessionNotFound,
    StoreBackedSessionStore, VersionConflict,
};
pub use time::{Duration, Timestamp};
pub use url::EndpointUrl;
