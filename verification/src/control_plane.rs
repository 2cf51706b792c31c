//! The control-plane (management) client: keys, users, budgets, pricing and
//! usage, authenticated with `Authorization: Bearer <admin key>`.

use vstd::prelude::*;

use crate::client::{check_header_value, header_value_ok, user_agent, user_agent_text};
use crate::text::concat2;

verus! {

/// Where and how the control-plane endpoints are reached.
#[derive(Debug, Clone)]
pub struct Configuration {
    /// The gateway's base URL.
    pub base_path: String,
    /// The User-Agent sent.
    pub user_agent: Option<String>,
    /// The `Authorization` header's value, where it could be built.
    pub authorization: Option<String>,
}

/// The configuration for the control plane of the gateway at `api_base`
/// with `admin_key`: the bearer header is left out where the key cannot
/// stand in a header.
pub open spec fn control_plane_config(api_base: Seq<char>, admin_key: Seq<char>) -> (
    Seq<char>,
    Option<Seq<char>>,
    Option<Seq<char>>,
) {
    let bearer = "Bearer "@ + admin_key;
    (
        api_base,
        Some(user_agent_text()),
        if header_value_ok(bearer) {
            Some(bearer)
        } else {
            None
        },
    )
}

/// The model of a configuration.
pub open spec fn configuration_view(c: Configuration) -> (
    Seq<char>,
    Option<Seq<char>>,
    Option<Seq<char>>,
) {
    (c.base_path@, crate::gateway::opt_text(c.user_agent), crate::gateway::opt_text(c.authorization))
}

impl Configuration {
    /// The control-plane configuration for the gateway at `api_base`,
    /// authenticated with `admin_key`.
    pub fn for_admin(api_base: &str, admin_key: &str) -> (r: Self)
        ensures
            configuration_view(r) == control_plane_config(api_base@, admin_key@),
    {
        proof {
            reveal_strlit("Bearer ");
        }
        let bearer = concat2("Bearer ", admin_key);
        let authorization = match check_header_value(bearer.as_str()) {
            Ok(()) => Some(bearer),
            Err(_) => None,
        };
        Configuration {
            base_path: String::from_str(api_base),
            user_agent: Some(String::from_str(user_agent())),
            authorization,
        }
    }
}

/// Control-plane client wrapping a configuration.
#[derive(Debug)]
pub struct ControlPlane {
    config: Configuration,
}

/// API-keys management endpoints.
pub struct Keys<'a> {
    pub config: &'a Configuration,
}

/// Users management endpoints.
pub struct Users<'a> {
    pub config: &'a Configuration,
}

/// Budgets management endpoints.
pub struct Budgets<'a> {
    pub config: &'a Configuration,
}

/// Model-pricing management endpoints.
pub struct Pricing<'a> {
    pub config: &'a Configuration,
}

/// Usage-log management endpoints.
pub struct Usage<'a> {
    pub config: &'a Configuration,
}

impl ControlPlane {
    /// The configuration the client was made with.
    pub closed spec fn spec_config(&self) -> Configuration {
        self.config
    }

    /// Wrap a configuration.
    pub fn new(config: Configuration) -> (r: Self)
        ensures
            r.spec_config() == config,
    {
        ControlPlane { config }
    }

    /// The underlying configuration.
    pub fn config(&self) -> (r: &Configuration)
        ensures
            *r == self.spec_config(),
    {
        &self.config
    }

    /// API-keys management endpoints.
    pub fn keys(&self) -> (r: Keys<'_>)
        ensures
            *r.config == self.spec_config(),
    {
        Keys { config: &self.config }
    }

    /// Users management endpoints.
    pub fn users(&self) -> (r: Users<'_>)
        ensures
            *r.config == self.spec_config(),
    {
        Users { config: &self.config }
    }

    /// Budgets management endpoints.
    pub fn budgets(&self) -> (r: Budgets<'_>)
        ensures
            *r.config == self.spec_config(),
    {
        Budgets { config: &self.config }
    }

    /// Model-pricing management endpoints.
    pub fn pricing(&self) -> (r: Pricing<'_>)
        ensures
            *r.config == self.spec_config(),
    {
        Pricing { config: &self.config }
    }

    /// Usage-log management endpoints.
    pub fn usage(&self) -> (r: Usage<'_>)
        ensures
            *r.config == self.spec_config(),
    {
        Usage { config: &self.config }
    }
}

} // verus!
