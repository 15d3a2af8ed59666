use vstd::prelude::*;
use crate::text::join_text;

verus! {

/// Settings of the proxy, fixed once it starts.
pub struct MergeMiningProxyConfig {
    /// Network the anchor chain runs on; consensus rules derive from it.
    pub network: String,
    /// Base URL of the upstream node.
    pub monerod_url: String,
    pub monerod_username: String,
    pub monerod_password: String,
    /// Whether requests to the upstream node carry basic-auth credentials.
    pub monerod_use_auth: bool,
    /// Address of the anchor node's remote procedure interface.
    pub grpc_address: String,
}

impl MergeMiningProxyConfig {
    /// The upstream URL for an inbound path: the configured base followed by the path.
    pub fn get_fully_qualified_monerod_url(&self, path: &str) -> (r: String)
        ensures
            r@ == self.monerod_url@ + path@,
    {
        join_text(self.monerod_url.as_str(), path)
    }

    /// The basic-auth user name and password, when authentication is enabled.
    pub fn basic_auth(&self) -> (r: Option<(String, String)>)
        ensures
            self.monerod_use_auth ==> r == Some((self.monerod_username, self.monerod_password)),
            !self.monerod_use_auth ==> r.is_none(),
    {
        if self.monerod_use_auth {
            Some((self.monerod_username.clone(), self.monerod_password.clone()))
        } else {
            None
        }
    }
}

} // verus!
