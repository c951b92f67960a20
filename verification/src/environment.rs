//! Deployment targets of the remote API and their base URLs.

use vstd::prelude::*;

verus! {

/// The deployment target that a client talks to.
#[derive(Clone, Copy, Debug, PartialEq, Eq, Structural)]
pub enum Environment {
    /// The test deployment, for development against simulated accounts.
    Sandbox,
    /// The live deployment.
    Production,
}

impl Environment {
    /// The base URL of this deployment, as a sequence of characters.
    pub open spec fn spec_base_url(self) -> Seq<char> {
        match self {
            Environment::Sandbox => "https://sandbox.safaricom.co.ke"@,
            Environment::Production => "https://api.safaricom.co.ke"@,
        }
    }

    /// The base URL of this deployment. Total over both variants.
    pub fn base_url(&self) -> (url: &'static str)
        ensures
            url@ == self.spec_base_url(),
    {
        match self {
            Environment::Sandbox => "https://sandbox.safaricom.co.ke",
            Environment::Production => "https://api.safaricom.co.ke",
        }
    }
}

/// The two deployments have different base URLs, so a request built for one
/// can never be addressed to the other.
pub proof fn lemma_base_urls_differ()
    ensures
        Environment::Sandbox.spec_base_url() != Environment::Production.spec_base_url(),
{
    reveal_strlit("https://sandbox.safaricom.co.ke");
    reveal_strlit("https://api.safaricom.co.ke");
    assert(Environment::Sandbox.spec_base_url().len() == 31);
    assert(Environment::Production.spec_base_url().len() == 27);
}

} // verus!
