//! A scrobbling client for a Last.fm-style service: request signing, the three
//! remote calls as signed query parameter lists, timestamps placed inside the
//! current week, and the scheduler that drives authentication and the
//! submission cycle. Everything here computes; sending a request, waiting and
//! printing are left to the program that drives the scheduler.

pub mod bindings;
pub mod client;
pub mod config;
pub mod error;
pub mod scheduler;
pub mod signer;
pub mod text;
pub mod timestamp;

pub use client::{ApiRequest, LastFmClient, Operation, Session, SessionResponse, TokenResponse};
pub use config::{ApiConfig, Config, ScrobblerConfig, SongConfig};
pub use error::ScrobbleError;
pub use scheduler::{Action, Event, Outcome, Phase, RawResponse, Scheduler, Stage};
pub use signer::{md5_hash, sign, Param};
