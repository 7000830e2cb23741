//! The local configuration: where the platform is, and the teams with their keys.
use crate::team::Team;
use std::collections::HashMap;
use vstd::prelude::*;

verus! {

#[derive(Debug, Clone)]
pub struct Config {
    base_url: String,
    api_endpoint: String,
    default_team: String,
    teams: HashMap<String, Team>,
}

impl Config {
    pub closed spec fn spec_base_url(&self) -> Seq<char> {
        self.base_url@
    }

    pub closed spec fn spec_api_endpoint(&self) -> Seq<char> {
        self.api_endpoint@
    }

    pub closed spec fn spec_default_team(&self) -> String {
        self.default_team
    }

    pub closed spec fn spec_teams(&self) -> HashMap<String, Team> {
        self.teams
    }

    pub fn new(
        base_url: String,
        api_endpoint: String,
        default_team: String,
        teams: HashMap<String, Team>,
    ) -> (r: Self)
        ensures
            r.spec_base_url() == base_url@,
            r.spec_api_endpoint() == api_endpoint@,
            r.spec_default_team() == default_team,
            r.spec_teams() == teams,
    {
        Config { base_url, api_endpoint, default_team, teams }
    }

    pub fn base_url(&self) -> (r: &str)
        ensures
            r@ == self.spec_base_url(),
    {
        self.base_url.as_str()
    }

    pub fn api_endpoint(&self) -> (r: &str)
        ensures
            r@ == self.spec_api_endpoint(),
    {
        self.api_endpoint.as_str()
    }

    pub fn default_team(&self) -> (r: &String)
        ensures
            *r == self.spec_default_team(),
    {
        &self.default_team
    }

    pub fn teams(&self) -> (r: &HashMap<String, Team>)
        ensures
            *r == self.spec_teams(),
    {
        &self.teams
    }
}

} // verus!
