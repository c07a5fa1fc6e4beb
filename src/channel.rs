use vstd::prelude::*;
use vstd::string::*;

use crate::address::{join_route, route_outcome, Url};
use crate::botifactory_api::Botifactory;
use crate::error::BotifactoryError;
use crate::release::ReleaseAPI;
use crate::util::{decimal, decimal_text, Identifier};

verus! {

/// A channel scope: a project scope narrowed to one channel, by name or by
/// id.
pub struct ChannelAPI {
    pub base: Botifactory,
    pub identifier: Identifier,
}

impl ChannelAPI {
    /// The route of the channel: `<project>/<name>` for a name,
    /// `channel/<id>` for an id.
    pub open spec fn channel_route(self) -> Seq<Seq<char>> {
        match self.identifier {
            Identifier::Name(name) => seq![self.base.project_name@, name@],
            Identifier::Id(id) => seq!["channel"@, decimal(id as int)],
        }
    }

    /// Narrows `base` to the channel that `identifier` locates.
    pub fn new(base: Botifactory, identifier: Identifier) -> (r: ChannelAPI)
        ensures
            r.base == base,
            r.identifier == identifier,
    {
        ChannelAPI { base, identifier }
    }

    pub(crate) fn channel_segments(&self) -> (r: Vec<String>)
        ensures
            r.deep_view() == self.channel_route(),
    {
        let mut route: Vec<String> = Vec::new();
        match &self.identifier {
            Identifier::Name(name) => {
                route.push(self.base.project_name.clone());
                route.push(name.clone());
            },
            Identifier::Id(id) => {
                route.push(String::from_str("channel"));
                route.push(decimal_text(*id));
            },
        }
        assert(route.deep_view() =~= self.channel_route());
        route
    }

    /// The URL of the channel.
    pub fn get_channel_url(&self) -> (r: Result<Url, BotifactoryError>)
        ensures
            route_outcome(r, self.base.url@, self.channel_route()),
    {
        let route = self.channel_segments();
        join_route(&self.base.url, &route)
    }

    /// Narrows this scope to one release of the channel.
    pub fn release(self, identifier: Identifier) -> (r: ReleaseAPI)
        ensures
            r.channel == self,
            r.identifier == identifier,
    {
        ReleaseAPI::new(self, identifier)
    }

    /// The URL of the channel's latest release: the channel's URL with
    /// `latest` appended.
    pub fn latest_release_url(&self) -> (r: Result<Url, BotifactoryError>)
        ensures
            route_outcome(r, self.base.url@, self.channel_route().push("latest"@)),
    {
        let mut route = self.channel_segments();
        route.push(String::from_str("latest"));
        assert(route.deep_view() =~= self.channel_route().push("latest"@));
        join_route(&self.base.url, &route)
    }

    /// The URL of the channel's previous release: the channel's URL with
    /// `previous` appended.
    pub fn previous_release_url(&self) -> (r: Result<Url, BotifactoryError>)
        ensures
            route_outcome(r, self.base.url@, self.channel_route().push("previous"@)),
    {
        let mut route = self.channel_segments();
        route.push(String::from_str("previous"));
        assert(route.deep_view() =~= self.channel_route().push("previous"@));
        join_route(&self.base.url, &route)
    }

    /// The URL to which a new release of the channel is posted: the
    /// channel's URL with `new` appended.
    pub fn new_release_url(&self) -> (r: Result<Url, BotifactoryError>)
        ensures
            route_outcome(r, self.base.url@, self.channel_route().push("new"@)),
    {
        let mut route = self.channel_segments();
        route.push(String::from_str("new"));
        assert(route.deep_view() =~= self.channel_route().push("new"@));
        join_route(&self.base.url, &route)
    }
}

} // verus!
