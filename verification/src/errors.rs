//! The error taxonomy of the bridge.

use vstd::prelude::*;

verus! {

/// Why building the connection configuration failed.
#[derive(Clone, Copy, Debug, PartialEq, Eq, Structural)]
pub enum ConfigError {
    /// `NATURE_REMO_API_TOKEN` was not supplied.
    MissingRemoToken,
    /// `INFLUX_URL` was not supplied.
    MissingInfluxUrl,
    /// `INFLUX_BUCKET` was not supplied.
    MissingInfluxBucket,
    /// `INFLUX_ORG` was not supplied.
    MissingInfluxOrg,
    /// Neither an API token nor a full username/password pair was supplied.
    MissingCredentials,
}

/// Why decoding a polled device document failed.
#[derive(Clone, Copy, Debug, PartialEq, Eq, Structural)]
pub enum DecodeError {
    /// The response body is not a JSON document at all.
    Syntax,
    /// The top-level document is not an array of devices.
    NotAnArray,
    /// A device entry is not an object.
    NotAnObject,
    /// A required field is absent.
    MissingField,
    /// A field is present with the wrong type.
    WrongType,
    /// A timestamp field does not parse as ISO-8601 with explicit offset.
    BadTimestamp,
}

/// Why one poll or write call against an external service failed.
#[derive(Clone, Copy, Debug, PartialEq, Eq, Structural)]
pub enum UpstreamError {
    /// The HTTP layer reported a transport failure.
    Transport,
    /// The service answered with a status outside the success range.
    Status(u16),
}

/// Any error a poll-encode-write cycle can surface.
#[derive(Clone, Copy, Debug, PartialEq, Eq, Structural)]
pub enum CycleError {
    /// The polled response body failed device decoding.
    Decode(DecodeError),
    /// A transport failure or a non-success status.
    Upstream(UpstreamError),
}

impl ConfigError {
    /// A human-readable description, mirroring the startup failure message.
    pub fn message(&self) -> (r: &'static str)
        ensures
            r@ == self.spec_message(),
    {
        match self {
            ConfigError::MissingRemoToken => "`NATURE_REMO_API_TOKEN` is not set",
            ConfigError::MissingInfluxUrl => "`INFLUX_URL` is not set",
            ConfigError::MissingInfluxBucket => "`INFLUX_BUCKET` is not set",
            ConfigError::MissingInfluxOrg => "`INFLUX_ORG` is not set",
            ConfigError::MissingCredentials => "either `INFLUX_API_TOKEN` or `INFLUX_USERNAME` and `INFLUX_PASSWORD` must be defined",
        }
    }

    /// What `message` returns for each variant.
    pub open spec fn spec_message(&self) -> Seq<char> {
        match self {
            ConfigError::MissingRemoToken => "`NATURE_REMO_API_TOKEN` is not set"@,
            ConfigError::MissingInfluxUrl => "`INFLUX_URL` is not set"@,
            ConfigError::MissingInfluxBucket => "`INFLUX_BUCKET` is not set"@,
            ConfigError::MissingInfluxOrg => "`INFLUX_ORG` is not set"@,
            ConfigError::MissingCredentials => "either `INFLUX_API_TOKEN` or `INFLUX_USERNAME` and `INFLUX_PASSWORD` must be defined"@,
        }
    }
}

} // verus!
