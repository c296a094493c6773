//! The faucet: an external collaborator that funds an account given its
//! authentication key. The library only builds the funding request target;
//! the caller posts to it and polls the returned transaction hashes.
use vstd::prelude::*;

verus! {

use crate::rest_client::RestClient;
use crate::text::spec_u64_string;
use crate::text::u64_to_string;
use vstd::string::StringExecFns;

pub struct FaucetClient {
    url: String,
    rest_client: RestClient,
}

impl FaucetClient {
    /// The faucet's base URL.
    pub closed spec fn spec_url(&self) -> Seq<char> {
        self.url@
    }

    pub closed spec fn spec_rest_client(&self) -> RestClient {
        self.rest_client
    }

    pub fn new(url: String, rest_client: RestClient) -> (r: Self)
        ensures
            r.spec_url() == url@,
            r.spec_rest_client() == rest_client,
    {
        FaucetClient { url, rest_client }
    }

    /// The funding target: posting to it asks the faucet to create (if
    /// needed) and fund the account of `auth_key` with `amount` units.
    pub fn fund_account_url(&self, auth_key: &str, amount: u64) -> (r: String)
        ensures
            r@ == self.spec_url() + "/mint?amount="@ + spec_u64_string(amount as nat)
                + "&auth_key="@ + auth_key@,
    {
        let mut u = self.url.clone();
        u.append("/mint?amount=");
        let amt = u64_to_string(amount);
        u.append(amt.as_str());
        u.append("&auth_key=");
        u.append(auth_key);
        u
    }
}

} // verus!
