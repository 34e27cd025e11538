//! Where a server listens.
use vstd::prelude::*;
use vstd::string::*;
use crate::text::{copy_opt, opt_text, replace_all, replaced};

verus! {

/// The address that stands for the local machine in URLs.
pub open spec fn loopback() -> Seq<char> {
    "127.0.0.1"@
}

/// The name under which a container reaches the machine that hosts it.
pub open spec fn docker_host() -> Seq<char> {
    "host.docker.internal"@
}

/// A URL as it is handed out: in local mode the loopback address is replaced
/// by the name under which containers reach the host.
pub open spec fn localized(url: Seq<char>, is_local: bool) -> Seq<char> {
    if is_local {
        replaced(url, loopback(), docker_host())
    } else {
        url
    }
}

/// A URL as it is handed out: in local mode the loopback address is replaced
/// by the name under which containers reach the host.
pub fn localize(url: String, is_local: bool) -> (r: String)
    ensures
        r@ == localized(url@, is_local),
{
    if is_local {
        replace_all(url.as_str(), "127.0.0.1", "host.docker.internal")
    } else {
        url
    }
}

/// Protocol, host name and port where a server listens.
#[derive(Clone, Debug, PartialEq, Eq)]
pub struct HostConfig {
    pub protocol: String,
    pub url: String,
    pub port: Option<String>,
}

impl HostConfig {
    /// Host name and port, joined by a colon where there is a port.
    pub open spec fn spec_authority(&self) -> Seq<char> {
        match self.port {
            Some(port) => self.url@ + ":"@ + port@,
            None => self.url@,
        }
    }

    /// The protocol, `://` and the host name with its port.
    pub open spec fn spec_url(&self) -> Seq<char> {
        match self.port {
            Some(port) => self.protocol@ + "://"@ + self.url@ + ":"@ + port@,
            None => self.protocol@ + "://"@ + self.url@,
        }
    }

    /// A colon and the port, or nothing where there is no port.
    pub open spec fn spec_port_suffix(&self) -> Seq<char> {
        match self.port {
            Some(port) => ":"@ + port@,
            None => Seq::empty(),
        }
    }

    /// A copy that holds the same values.
    pub fn duplicate(&self) -> (r: HostConfig)
        ensures
            r.protocol@ == self.protocol@,
            r.url@ == self.url@,
            opt_text(r.port) == opt_text(self.port),
            r.spec_url() == self.spec_url(),
            r.spec_authority() == self.spec_authority(),
            r.spec_port_suffix() == self.spec_port_suffix(),
    {
        HostConfig {
            protocol: self.protocol.clone(),
            url: self.url.clone(),
            port: copy_opt(&self.port),
        }
    }

    /// Host name and port, joined by a colon where there is a port.
    pub fn authority(&self) -> (r: String)
        ensures
            r@ == self.spec_authority(),
    {
        let mut out = self.url.clone();
        match &self.port {
            Some(port) => {
                out.append(":");
                out.append(port.as_str());
            },
            None => {},
        }
        out
    }

    /// The protocol, `://` and the host name with its port.
    pub fn url(&self) -> (r: String)
        ensures
            r@ == self.spec_url(),
    {
        let mut out = self.protocol.clone();
        out.append("://");
        out.append(self.url.as_str());
        match &self.port {
            Some(port) => {
                out.append(":");
                out.append(port.as_str());
            },
            None => {},
        }
        out
    }

    /// A colon and the port, or nothing where there is no port.
    pub fn port_suffix(&self) -> (r: String)
        ensures
            r@ == self.spec_port_suffix(),
    {
        match &self.port {
            Some(port) => {
                let mut out = String::from_str(":");
                out.append(port.as_str());
                out
            },
            None => String::new(),
        }
    }
}

} // verus!
