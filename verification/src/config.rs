use vstd::prelude::*;

verus! {

/// The configuration parameters for the application.
///
/// The values are handed over by whoever starts the server; this crate never
/// reads the command line or the environment itself.
pub struct Config {
    /// The connection URL for the Postgres database this application should use.
    pub database_url: String,
    /// The HMAC signing and verification key used for login tokens (JWTs).
    ///
    /// There is no required structure or format to this key as it's just fed
    /// into a hash function. In practice, it should be a long, random string
    /// that would be infeasible to brute-force.
    pub hmac_key: String,
}

} // verus!
