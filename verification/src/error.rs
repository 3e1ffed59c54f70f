use vstd::prelude::*;

verus! {

/// The upstream services the library talks to.
#[derive(Debug, Clone, Copy, PartialEq, Eq, Structural)]
pub enum Service {
    Geyser,
    Mojang,
    McHeads,
}

impl Service {
    pub open spec fn spec_name(self) -> Seq<char> {
        match self {
            Service::Geyser => "geysermc"@,
            Service::Mojang => "mojang"@,
            Service::McHeads => "mc-heads"@,
        }
    }

    /// The name under which the service appears in error messages.
    pub fn as_str(self) -> (name: &'static str)
        ensures
            name@ == self.spec_name(),
    {
        match self {
            Service::Geyser => "geysermc",
            Service::Mojang => "mojang",
            Service::McHeads => "mc-heads",
        }
    }
}

/// Everything that can go wrong while talking to an upstream service.
#[derive(Debug)]
pub enum ApiError {
    /// The HTTP client could not be built.
    Client { detail: String },
    /// The caller's input was refused before any request was made.
    Input { service: Service, reason: String },
    /// The request could not be sent or the response not read.
    Transport { service: Service, detail: String },
    /// The service answered with a status that is not a success.
    Upstream { service: Service, status: u16, message: String },
    /// The service has nothing for the subject.
    NotFound { service: Service, subject: String },
    /// The response could not be decoded.
    Decode { service: Service, detail: String },
    /// The response body was larger than the limit.
    TooLarge { service: Service, limit: usize },
}

impl ApiError {
    /// Whether the error says that the service has nothing for the subject.
    pub fn is_not_found(&self) -> (found: bool)
        ensures
            found <==> self is NotFound,
    {
        match self {
            ApiError::NotFound { .. } => true,
            _ => false,
        }
    }
}

} // verus!
