use vstd::prelude::*;

verus! {

/// Errors that the core's own logic can produce. Failures of outside
/// collaborators (the platform connection, the HTTP and database clients)
/// are surfaced by the surrounding program and never reach these variants.
#[derive(Debug)]
pub enum Error {
    /// A failure in the bot's own wiring or protocol handling.
    BotError(String),
    /// An identifier string that should have been a decimal integer was not.
    ParseIntError(String),
    /// A failure reported by the authentication backend.
    TypeAuthdError(String),
}

impl Error {
    pub fn bot(s: &str) -> (r: Error)
        ensures
            r matches Error::BotError(m) && m@ == s@,
    {
        Error::BotError(s.to_owned())
    }

    pub fn auth(s: &str) -> (r: Error)
        ensures
            r matches Error::TypeAuthdError(m) && m@ == s@,
    {
        Error::TypeAuthdError(s.to_owned())
    }
}

} // verus!
