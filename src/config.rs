//! Configuration of the sign-in flow.
use vstd::prelude::*;
use vstd::string::StringExecFns;

verus! {

/// The application's configuration.
#[derive(Clone)]
pub struct Config {
    pub auth: AuthConfig,
}

/// Where and as whom the application signs users in.
#[derive(Clone)]
pub struct AuthConfig {
    pub auth_url: String,
    pub token_url: String,
    pub client_id: String,
    pub client_secret: Secret,
    pub redirect_url: String,
}

/// A sensitive value, masked wherever it is shown.
#[derive(Clone)]
pub struct Secret(String);

impl View for Secret {
    type V = Seq<char>;

    closed spec fn view(&self) -> Seq<char> {
        self.0@
    }
}

impl Secret {
    /// The secret as shown: always masked.
    pub fn to_string(&self) -> (r: String)
        ensures
            r@ == "*******"@,
    {
        String::from_str("*******")
    }

    /// The value behind the mask.
    pub fn into_inner(self) -> (r: String)
        ensures
            r@ == self@,
    {
        self.0
    }
}

impl From<String> for Secret {
    fn from(value: String) -> (r: Secret) {
        Secret(value)
    }
}

impl vstd::std_specs::convert::FromSpecImpl<String> for Secret {
    open spec fn obeys_from_spec() -> bool {
        true
    }

    closed spec fn from_spec(value: String) -> Secret {
        Secret(value)
    }
}

impl From<Secret> for String {
    fn from(val: Secret) -> (r: String) {
        val.0
    }
}

impl vstd::std_specs::convert::FromSpecImpl<Secret> for String {
    open spec fn obeys_from_spec() -> bool {
        true
    }

    closed spec fn from_spec(val: Secret) -> String {
        val.0
    }
}

} // verus!
