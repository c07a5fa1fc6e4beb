use vstd::prelude::*;
use vstd::string::*;

use crate::address::{join_route, route_outcome, Url};
use crate::channel::ChannelAPI;
use crate::error::BotifactoryError;
use crate::util::{decimal, decimal_text, Identifier};

verus! {

/// A local file path, carried through to the upload of a release.
#[verifier::external_type_specification]
#[verifier::external_body]
pub struct ExPathBuf(std::path::PathBuf);

/// The server's representation of a release.
#[derive(Clone, Debug)]
pub struct ReleaseResponse {
    pub id: i64,
    pub version: String,
    /// The content digest of the release's binary.
    pub hash: Vec<u8>,
    pub created_at: i64,
    pub updated_at: i64,
}

/// A release as the server wraps it in its responses.
#[derive(Debug)]
pub struct ReleaseBody {
    pub release: ReleaseResponse,
}

/// What an upload of a new release sends: its version, and the path of
/// the binary.
#[derive(Debug)]
pub struct NewRelease {
    pub version: String,
    pub path: std::path::PathBuf,
}

impl NewRelease {
    /// The upload of the binary at `path` as release `version`.
    pub fn new(version: String, path: std::path::PathBuf) -> (r: NewRelease)
        ensures
            r.version == version,
            r.path == path,
    {
        NewRelease { version, path }
    }
}

/// A release scope: a channel scope narrowed to one release, by name
/// (which may be a pseudo-name such as `latest`) or by id.
pub struct ReleaseAPI {
    pub channel: ChannelAPI,
    pub identifier: Identifier,
}

impl ReleaseAPI {
    /// What looking the release up by name gives: for a name, the URL of
    /// route `<channel route>/<name>`; for an id, `InvalidIdentifier`.
    pub open spec fn by_name_outcome(self, r: Result<Url, BotifactoryError>) -> bool {
        match self.identifier {
            Identifier::Name(name) => route_outcome(
                r,
                self.channel.base.url@,
                self.channel.channel_route().push(name@),
            ),
            Identifier::Id(_) => r matches Err(e) && e is InvalidIdentifier,
        }
    }

    /// What looking the release up by id gives: for an id, the URL of route
    /// `release/<id>`; for a name, `InvalidIdentifier`.
    pub open spec fn by_id_outcome(self, r: Result<Url, BotifactoryError>) -> bool {
        match self.identifier {
            Identifier::Id(id) => route_outcome(
                r,
                self.channel.base.url@,
                seq!["release"@, decimal(id as int)],
            ),
            Identifier::Name(_) => r matches Err(e) && e is InvalidIdentifier,
        }
    }

    /// Narrows `channel` to the release that `identifier` locates.
    pub fn new(channel: ChannelAPI, identifier: Identifier) -> (r: ReleaseAPI)
        ensures
            r.channel == channel,
            r.identifier == identifier,
    {
        ReleaseAPI { channel, identifier }
    }

    /// The URL of the release looked up by name under its channel; only a
    /// `Name` identifier has one.
    pub fn get_release_by_name_url(&self) -> (r: Result<Url, BotifactoryError>)
        ensures
            self.by_name_outcome(r),
    {
        match &self.identifier {
            Identifier::Name(name) => {
                let mut route = self.channel.channel_segments();
                route.push(name.clone());
                assert(route.deep_view() =~= self.channel.channel_route().push(name@));
                join_route(&self.channel.base.url, &route)
            },
            Identifier::Id(_) => Err(BotifactoryError::InvalidIdentifier),
        }
    }

    /// The URL of the release looked up by its global id; only an `Id`
    /// identifier has one.
    pub fn get_release_by_id_url(&self) -> (r: Result<Url, BotifactoryError>)
        ensures
            self.by_id_outcome(r),
    {
        match &self.identifier {
            Identifier::Id(id) => {
                let mut route: Vec<String> = Vec::new();
                route.push(String::from_str("release"));
                route.push(decimal_text(*id));
                assert(route.deep_view() =~= seq!["release"@, decimal(*id as int)]);
                join_route(&self.channel.base.url, &route)
            },
            Identifier::Name(_) => Err(BotifactoryError::InvalidIdentifier),
        }
    }

    /// The URL of the release by whichever lookup its identifier serves; it
    /// never fails with `InvalidIdentifier`.
    pub fn release_url(&self) -> (r: Result<Url, BotifactoryError>)
        ensures
            match self.identifier {
                Identifier::Id(_) => self.by_id_outcome(r),
                Identifier::Name(_) => self.by_name_outcome(r),
            },
            !(r matches Err(e) && e is InvalidIdentifier),
    {
        match &self.identifier {
            Identifier::Id(_) => self.get_release_by_id_url(),
            Identifier::Name(_) => self.get_release_by_name_url(),
        }
    }
}

} // verus!
