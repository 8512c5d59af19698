//! Sign a browserless device in to a Hugging Face account, and keep it signed in.
//!
//! A robot that only ever talks to a client on its own LAN needs no account. An account is what
//! makes one reachable from *outside* the LAN: a rendezvous service resolves a bearer token to an
//! identity, shows a client only its own robots, and the pair of those is the authorisation a
//! session arrives with. This crate owns the credential and nothing else — it neither knows nor
//! cares what the token is later presented to.
//!
//! # The flow is RFC 8628, because the device has no browser
//!
//! The robot asks Hugging Face for a code, says *"open hf.co/oauth/device and type
//! `M8HJ-FMGN`"*, and polls. No redirect URI, no hostname, and no requirement that the authorising
//! device can reach the robot at all — a phone on cellular is fine. It also yields a **refresh
//! token**, which is what keeps a robot signed in past its first month.
//!
//! # Three consequences shape this API
//!
//! - **A login gives a code, not a token.** [`Account::login`] and [`Account::login_answered`]
//!   come to a [`LoginCode`] and a [`Flow`]; the waiting is the flow's, and the caller comes back
//!   to [`Account::status`].
//! - **The caller displays the code, and the code has to be typed.** Hugging Face sends no
//!   `verification_uri_complete`, and its device page ignores `?user_code=` — so no URL carries
//!   the code, which makes showing it the caller's whole job.
//! - **A token expires in 30 days and its refresh token rotates.** So [`maintain`] renews well
//!   before expiry, and the store is written atomically — see [`FileStore::save`] for the one
//!   window that cannot be closed.
//!
//! # Conversations
//!
//! Nothing here waits, sends or writes. What takes time is a conversation: a function says what
//! to do next, whoever runs it does that and comes back with how it went. Every such function
//! states which events it accepts, and says what each of them leads to; `accepts` and
//! [`Account::can_answer`] test that before a call. [`promises`] and [`calls`] hold what each answer
//! means, [`laws`] and [`disk`] what follows for whole conversations, whatever else happens
//! meanwhile.
//!
//! # What is deliberately not here
//!
//! **Any notion of what the token is for.** No relay, no rendezvous, no IPC. A daemon wraps these
//! operations in whatever protocol it serves and maps [`Error`] onto whatever error codes it has.
//!
//! **Windows.** The credential is a file with an owner, a group and a mode.

pub mod account;
pub mod calls;
pub mod config;
pub mod disk;
pub mod error;
pub mod laws;
pub mod oauth;
pub mod promises;
pub mod status;
pub mod store;
pub mod text;
pub mod time;

pub use account::{
    maintain, Account, Flow, FlowAction, FlowEvent, MaintainAction, MaintainEvent, Naming,
    NamingEvent, Renewal, RenewalEvent, UpkeepAction, UpkeepPhase, WITHDRAWN,
};
pub use config::{Config, ENDPOINT_VAR, HUGGINGFACE, HUGGINGFACE_CLIENT_ID, USER_AGENT};
pub use error::Error;
pub use oauth::{
    built_client, classify, client_settings, device_code_request, http_client, poll_request, poll_status,
    poll_token, refresh, refresh_request, request_device_code, userinfo, userinfo_request,
    ClientSettings, DeviceCode, DeviceCodeResponse, Method, OAuthError, Poll, Reply, Request, TokenAnswer,
    TokenResponse, UserInfo, DEFAULT_EXPIRES_IN, DEFAULT_POLL_INTERVAL, MAX_REDIRECTS,
};
pub use status::{Identity, LoginCode, Status};
pub use store::{
    read_access_token, Contents, Credential, Directory, FileStore, Removed, SaveAction, SaveEvent,
    SavePhase, Saving, Stored, Temp, TEMP_EXTENSION, TEMP_SUFFIX,
};
pub use time::{now_secs, Moment, Span};
