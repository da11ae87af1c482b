//! Access control: whether an inbound command may be served.

use vstd::prelude::*;

verus! {

/// The mode the service runs in.
#[derive(Clone, Copy, Debug, PartialEq, Eq, Structural)]
pub enum Environment {
    Development,
    Staging,
    Production,
}

/// Settings fixed when the service starts.
#[derive(Clone, Debug)]
pub struct Configuration {
    /// The mode the service runs in.
    pub environment: Environment,
    /// The shared secret that commands must carry outside development.
    pub token: String,
}

/// Whether a command carrying `token` is served: always in development,
/// elsewhere exactly when `token` is the shared secret, character for
/// character. An empty secret therefore admits the empty token.
pub open spec fn authorized(environment: Environment, secret: Seq<char>, token: Seq<char>) -> bool {
    environment == Environment::Development || token == secret
}

/// Decides whether a command carrying `token` is served under `config`.
pub fn check_access(config: &Configuration, token: String) -> (granted: bool)
    ensures
        granted == authorized(config.environment, config.token@, token@),
{
    match config.environment {
        Environment::Development => true,
        Environment::Staging => config.token == token,
        Environment::Production => config.token == token,
    }
}

/// In development every token is accepted, the empty one included.
pub proof fn development_admits_every_token(secret: Seq<char>, token: Seq<char>)
    ensures
        authorized(Environment::Development, secret, token),
{
}

/// Outside development a token is accepted if and only if it equals the
/// shared secret; in particular the empty token is refused whenever the
/// secret is not empty.
pub proof fn deployed_admits_only_the_secret(
    environment: Environment,
    secret: Seq<char>,
    token: Seq<char>,
)
    requires
        environment != Environment::Development,
    ensures
        authorized(environment, secret, token) <==> token == secret,
        secret.len() > 0 ==> !authorized(environment, secret, Seq::empty()),
{
}

} // verus!
