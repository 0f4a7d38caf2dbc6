//! The provider's endpoints.

use vstd::prelude::*;
use vstd::string::*;
use crate::text::{replace_all, replaced};

verus! {

/// The kind of a self-service flow.
#[derive(Clone, Copy, Debug, PartialEq, Eq, Structural)]
pub enum FlowType {
    Registration,
    Login,
    Logout,
    Recovery,
}

/// How a flow is initiated: for a native client, which is answered with the
/// flow itself, or for a browser, which is answered with a redirect.
#[derive(Clone, Copy, Debug, PartialEq, Eq, Structural)]
pub enum FlowMode {
    Api,
    Browser,
}

impl FlowType {
    /// The name of the flow in the provider's paths.
    pub open spec fn endpoint(self) -> Seq<char> {
        match self {
            FlowType::Registration => "registration"@,
            FlowType::Login => "login"@,
            FlowType::Logout => "logout"@,
            FlowType::Recovery => "recovery"@,
        }
    }

    /// The name of the flow in the provider's paths.
    pub fn endpoint_name(self) -> (name: &'static str)
        ensures
            name@ == self.endpoint(),
    {
        match self {
            FlowType::Registration => "registration",
            FlowType::Login => "login",
            FlowType::Logout => "logout",
            FlowType::Recovery => "recovery",
        }
    }
}

impl FlowMode {
    /// The name of the mode in the provider's paths.
    pub open spec fn segment(self) -> Seq<char> {
        match self {
            FlowMode::Api => "api"@,
            FlowMode::Browser => "browser"@,
        }
    }

    /// The name of the mode in the provider's paths.
    pub fn segment_name(self) -> (name: &'static str)
        ensures
            name@ == self.segment(),
    {
        match self {
            FlowMode::Api => "api",
            FlowMode::Browser => "browser",
        }
    }
}

/// `url` with every `localhost` written as `127.0.0.1`, so that the
/// provider is reached over IPv4.
pub open spec fn loopback(url: Seq<char>) -> Seq<char> {
    replaced(url, "localhost"@, "127.0.0.1"@)
}

/// Where a flow of the given kind is initiated.
pub open spec fn flow_init_url(public: Seq<char>, flow: FlowType, mode: FlowMode) -> Seq<char> {
    loopback(public + "/self-service/"@ + flow.endpoint() + "/"@ + mode.segment())
}

/// Where the flow `id` is read back after a redirect.
pub open spec fn flow_read_url(public: Seq<char>, flow: FlowType, id: Seq<char>) -> Seq<char> {
    loopback(public) + "/self-service/"@ + flow.endpoint() + "/flows?id="@ + id
}

/// Where the flow `id` is submitted.
pub open spec fn flow_submit_url(public: Seq<char>, flow: FlowType, id: Seq<char>) -> Seq<char> {
    loopback(public + "/self-service/"@ + flow.endpoint() + "?flow="@ + id)
}

/// Where the provider tells who the caller is.
pub open spec fn whoami_url(public: Seq<char>) -> Seq<char> {
    loopback(public + "/sessions/whoami"@)
}

/// The addresses of the identity provider.
#[derive(Debug, PartialEq)]
pub struct KratosClient {
    admin_url: String,
    public_url: String,
}

/// The model of a [`KratosClient`].
pub struct Endpoints {
    pub admin: Seq<char>,
    pub public: Seq<char>,
}

impl View for KratosClient {
    type V = Endpoints;

    closed spec fn view(&self) -> Endpoints {
        Endpoints { admin: self.admin_url@, public: self.public_url@ }
    }
}

impl KratosClient {
    /// A client for the provider at the given administrative and public
    /// addresses.
    pub fn new(admin_url: String, public_url: String) -> (out: KratosClient)
        ensures
            out@ == (Endpoints { admin: admin_url@, public: public_url@ }),
    {
        KratosClient { admin_url, public_url }
    }

    /// The provider's administrative address.
    pub fn admin_url(&self) -> (url: &str)
        ensures
            url@ == self@.admin,
    {
        self.admin_url.as_str()
    }

    /// The provider's public address.
    pub fn public_url(&self) -> (url: &str)
        ensures
            url@ == self@.public,
    {
        self.public_url.as_str()
    }

    /// Where a flow of the given kind is initiated.
    pub fn flow_init_url(&self, flow: FlowType, mode: FlowMode) -> (url: String)
        ensures
            url@ == flow_init_url(self@.public, flow, mode),
    {
        let mut url = self.public_url.clone();
        url.append("/self-service/");
        url.append(flow.endpoint_name());
        url.append("/");
        url.append(mode.segment_name());
        replace_all(url.as_str(), "localhost", "127.0.0.1")
    }

    /// Where the flow `id` is read back after a redirect.
    pub fn flow_read_url(&self, flow: FlowType, id: &str) -> (url: String)
        ensures
            url@ == flow_read_url(self@.public, flow, id@),
    {
        let mut url = replace_all(self.public_url.as_str(), "localhost", "127.0.0.1");
        url.append("/self-service/");
        url.append(flow.endpoint_name());
        url.append("/flows?id=");
        url.append(id);
        url
    }

    /// Where the flow `id` is submitted.
    pub fn flow_submit_url(&self, flow: FlowType, id: &str) -> (url: String)
        ensures
            url@ == flow_submit_url(self@.public, flow, id@),
    {
        let mut url = self.public_url.clone();
        url.append("/self-service/");
        url.append(flow.endpoint_name());
        url.append("?flow=");
        url.append(id);
        replace_all(url.as_str(), "localhost", "127.0.0.1")
    }

    /// Where the provider tells who the caller is.
    pub fn whoami_url(&self) -> (url: String)
        ensures
            url@ == whoami_url(self@.public),
    {
        let mut url = self.public_url.clone();
        url.append("/sessions/whoami");
        replace_all(url.as_str(), "localhost", "127.0.0.1")
    }
}

} // verus!
