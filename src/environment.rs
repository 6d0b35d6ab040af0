use vstd::prelude::*;

verus! {

/// The deployment that a client talks to.
#[derive(Debug, Clone, Copy, PartialEq, Eq, Structural)]
pub enum Environment {
    Localbox,
    Sandbox,
    Production,
}

/// The base URL of each deployment, where one is defined.
pub open spec fn base_url_of(env: Environment) -> Option<Seq<char>> {
    match env {
        Environment::Sandbox => Some("https://sandbox.zainpay.ng"@),
        Environment::Production => Some("https://api.zainpay.ng"@),
        Environment::Localbox => None,
    }
}

impl Environment {
    /// The base URL of this deployment; `None` for `Localbox`, which has none.
    pub fn base_url(&self) -> (r: Option<&'static str>)
        ensures
            r.is_some() == base_url_of(*self).is_some(),
            r.is_some() ==> r.unwrap()@ == base_url_of(*self).unwrap(),
    {
        match self {
            Environment::Sandbox => Some("https://sandbox.zainpay.ng"),
            Environment::Production => Some("https://api.zainpay.ng"),
            Environment::Localbox => None,
        }
    }
}

} // verus!
