//! Client-side addressing for a release-distribution service: projects,
//! channels within a project, and releases within a channel.
//!
//! Every URL of the service is the base endpoint with a route of path
//! segments pushed onto it. The routes, and which identifier each lookup
//! accepts, are stated and proved here; the percent-encoding of segments is
//! the `url` crate's.

pub mod address;
pub mod botifactory_api;
pub mod channel;
pub mod error;
pub mod release;
pub mod util;

pub use address::Url;
pub use botifactory_api::Botifactory;
pub use channel::ChannelAPI;
pub use error::BotifactoryError;
pub use release::{NewRelease, ReleaseAPI, ReleaseBody, ReleaseResponse};
pub use util::Identifier;
