use vstd::prelude::*;
use vstd::string::*;

use crate::address::{join_route, route_outcome, Url};
use crate::channel::ChannelAPI;
use crate::error::BotifactoryError;
use crate::util::Identifier;

verus! {

/// The root scope: the service's base endpoint and the project that
/// requests address.
pub struct Botifactory {
    pub url: Url,
    pub project_name: String,
}

impl Botifactory {
    /// The route that creates a project: `project/new`.
    pub open spec fn new_project_route() -> Seq<Seq<char>> {
        seq!["project"@, "new"@]
    }

    /// The route that creates a channel in this project:
    /// `<project>/channel/new`.
    pub open spec fn create_channel_route(self) -> Seq<Seq<char>> {
        seq![self.project_name@, "channel"@, "new"@]
    }

    /// The route of this project: `project/<project>`.
    pub open spec fn project_route(self) -> Seq<Seq<char>> {
        seq!["project"@, self.project_name@]
    }

    /// A scope over `project_name` at the endpoint `url`. Nothing is checked
    /// or requested.
    pub fn new(url: Url, project_name: &str) -> (r: Botifactory)
        ensures
            r.url == url,
            r.project_name@ == project_name@,
    {
        Botifactory { url, project_name: String::from_str(project_name) }
    }

    /// The URL to which a new project is posted.
    pub fn new_project_url(&self) -> (r: Result<Url, BotifactoryError>)
        ensures
            route_outcome(r, self.url@, Self::new_project_route()),
    {
        let mut route: Vec<String> = Vec::new();
        route.push(String::from_str("project"));
        route.push(String::from_str("new"));
        assert(route.deep_view() =~= Self::new_project_route());
        join_route(&self.url, &route)
    }

    /// The URL to which a new channel of this project is posted.
    pub fn create_channel_url(&self) -> (r: Result<Url, BotifactoryError>)
        ensures
            route_outcome(r, self.url@, self.create_channel_route()),
    {
        let mut route: Vec<String> = Vec::new();
        route.push(self.project_name.clone());
        route.push(String::from_str("channel"));
        route.push(String::from_str("new"));
        assert(route.deep_view() =~= self.create_channel_route());
        join_route(&self.url, &route)
    }

    /// The URL of this project.
    pub fn get_project_url(&self) -> (r: Result<Url, BotifactoryError>)
        ensures
            route_outcome(r, self.url@, self.project_route()),
    {
        let mut route: Vec<String> = Vec::new();
        route.push(String::from_str("project"));
        route.push(self.project_name.clone());
        assert(route.deep_view() =~= self.project_route());
        join_route(&self.url, &route)
    }

    /// Narrows this scope to one channel of the project.
    pub fn channel(self, identifier: Identifier) -> (r: ChannelAPI)
        ensures
            r.base == self,
            r.identifier == identifier,
    {
        ChannelAPI::new(self, identifier)
    }
}

} // verus!
