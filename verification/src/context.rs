//! The connection configuration and the per-cycle outcome logic.
//!
//! A [`Context`] is built once at startup from the environment values and
//! holds the two authorization header values and the write-target
//! parameters, immutable for the life of the process. The poll and write
//! outcome functions classify how the two HTTP calls ended; the cycle
//! function turns one poll outcome into the body to write, or the error
//! that ends the process.

use vstd::prelude::*;
use base64::Engine;
use crate::errors::{ConfigError, CycleError, DecodeError, UpstreamError};
use crate::json::JsonValue;
use crate::remo::{DeviceResponse, decode_devices, query_of, spec_decode_devices};

verus! {

/// The standard-alphabet, padded base64 text of the UTF-8 bytes of `s`.
pub uninterp spec fn base64_standard(s: Seq<char>) -> Seq<char>;

/// Relies on base64's `BASE64_STANDARD` engine (standard alphabet, with
/// padding): the encoded text is a function of the input bytes alone,
/// and the UTF-8 bytes of a `&str` are a function of its characters.
#[verifier::external_body]
fn base64_encode(input: &str) -> (r: String)
    ensures
        r@ == base64_standard(input@),
{
    let mut out = String::new();
    base64::prelude::BASE64_STANDARD.encode_string(input.as_bytes(), &mut out);
    out
}

/// The process-wide connection configuration: both authorization header
/// values and the write-target parameters, never mutated after startup.
#[derive(Debug)]
pub struct Context {
    /// The registry header value, `Bearer <token>`.
    pub remo_auth: String,
    /// The sink's base URL.
    pub influx_url: String,
    pub influx_bucket: String,
    pub influx_org: String,
    /// The sink header value: `Token <token>`, or `Basic <base64>`.
    pub influx_auth: String,
}

/// The configuration as plain character sequences.
pub ghost struct ContextView {
    pub remo_auth: Seq<char>,
    pub influx_url: Seq<char>,
    pub influx_bucket: Seq<char>,
    pub influx_org: Seq<char>,
    pub influx_auth: Seq<char>,
}

impl View for Context {
    type V = ContextView;

    open spec fn view(&self) -> ContextView {
        ContextView {
            remo_auth: self.remo_auth@,
            influx_url: self.influx_url@,
            influx_bucket: self.influx_bucket@,
            influx_org: self.influx_org@,
            influx_auth: self.influx_auth@,
        }
    }
}

/// The view of an optional environment value.
pub open spec fn opt_view(o: Option<String>) -> Option<Seq<char>> {
    match o {
        Some(s) => Some(s@),
        None => None,
    }
}

/// What configuration building returns: each required value must be
/// present; the sink credential is an API token when one is set, else a
/// full username/password pair encoded for basic authentication, else
/// the configuration is invalid.
pub open spec fn spec_new(
    remo_token: Option<Seq<char>>,
    influx_url: Option<Seq<char>>,
    influx_bucket: Option<Seq<char>>,
    influx_org: Option<Seq<char>>,
    influx_api_token: Option<Seq<char>>,
    influx_username: Option<Seq<char>>,
    influx_password: Option<Seq<char>>,
) -> Result<ContextView, ConfigError> {
    if remo_token is None {
        Err(ConfigError::MissingRemoToken)
    } else if influx_url is None {
        Err(ConfigError::MissingInfluxUrl)
    } else if influx_bucket is None {
        Err(ConfigError::MissingInfluxBucket)
    } else if influx_org is None {
        Err(ConfigError::MissingInfluxOrg)
    } else {
        let auth = if influx_api_token is Some {
            Some("Token "@ + influx_api_token.unwrap())
        } else if influx_username is Some && influx_password is Some {
            Some(
                "Basic "@ + base64_standard(
                    influx_username.unwrap() + ":"@ + influx_password.unwrap(),
                ),
            )
        } else {
            None
        };
        match auth {
            None => Err(ConfigError::MissingCredentials),
            Some(a) => Ok(
                ContextView {
                    remo_auth: "Bearer "@ + remo_token.unwrap(),
                    influx_url: influx_url.unwrap(),
                    influx_bucket: influx_bucket.unwrap(),
                    influx_org: influx_org.unwrap(),
                    influx_auth: a,
                },
            ),
        }
    }
}

impl Context {
    /// Builds the configuration from the environment values, or fails
    /// fast with the error naming the first value that is missing.
    pub fn new(
        remo_token: Option<String>,
        influx_url: Option<String>,
        influx_bucket: Option<String>,
        influx_org: Option<String>,
        influx_api_token: Option<String>,
        influx_username: Option<String>,
        influx_password: Option<String>,
    ) -> (r: Result<Context, ConfigError>)
        ensures
            match r {
                Ok(c) => spec_new(
                    opt_view(remo_token),
                    opt_view(influx_url),
                    opt_view(influx_bucket),
                    opt_view(influx_org),
                    opt_view(influx_api_token),
                    opt_view(influx_username),
                    opt_view(influx_password),
                ) == Ok::<ContextView, ConfigError>(c@),
                Err(e) => spec_new(
                    opt_view(remo_token),
                    opt_view(influx_url),
                    opt_view(influx_bucket),
                    opt_view(influx_org),
                    opt_view(influx_api_token),
                    opt_view(influx_username),
                    opt_view(influx_password),
                ) == Err::<ContextView, ConfigError>(e),
            },
    {
        let remo_token = match remo_token {
            Some(t) => t,
            None => {
                return Err(ConfigError::MissingRemoToken);
            },
        };
        let influx_url = match influx_url {
            Some(u) => u,
            None => {
                return Err(ConfigError::MissingInfluxUrl);
            },
        };
        let influx_bucket = match influx_bucket {
            Some(b) => b,
            None => {
                return Err(ConfigError::MissingInfluxBucket);
            },
        };
        let influx_org = match influx_org {
            Some(o) => o,
            None => {
                return Err(ConfigError::MissingInfluxOrg);
            },
        };
        let influx_auth = if let Some(token) = influx_api_token {
            let mut a = "Token ".to_owned();
            a.append(token.as_str());
            a
        } else if influx_username.is_some() && influx_password.is_some() {
            let username = influx_username.unwrap();
            let password = influx_password.unwrap();
            let mut creds = username;
            creds.append(":");
            creds.append(password.as_str());
            let encoded = base64_encode(creds.as_str());
            let mut a = "Basic ".to_owned();
            a.append(encoded.as_str());
            a
        } else {
            return Err(ConfigError::MissingCredentials);
        };
        let mut remo_auth = "Bearer ".to_owned();
        remo_auth.append(remo_token.as_str());
        Ok(
            Context {
                remo_auth,
                influx_url,
                influx_bucket,
                influx_org,
                influx_auth,
            },
        )
    }
}

/// All records of a batch of snapshots, flattened in order.
pub open spec fn flat_queries(devs: Seq<DeviceResponse>) -> Seq<Seq<char>>
    decreases devs.len(),
{
    if devs.len() == 0 {
        Seq::empty()
    } else {
        query_of(devs[0]) + flat_queries(devs.drop_first())
    }
}

/// The records joined with single newline separators; no records give
/// the empty body.
pub open spec fn join_lines(lines: Seq<Seq<char>>) -> Seq<char>
    decreases lines.len(),
{
    if lines.len() == 0 {
        Seq::empty()
    } else if lines.len() == 1 {
        lines[0]
    } else {
        lines[0] + "\n"@ + join_lines(lines.drop_first())
    }
}

/// The write body for a batch of snapshots.
pub open spec fn spec_write_body(devs: Seq<DeviceResponse>) -> Seq<char> {
    join_lines(flat_queries(devs))
}

/// Encodes every snapshot and joins the flattened records into one
/// newline-separated write body; a batch with no records yields the
/// empty body, which is still written.
pub fn make_write_body(devs: Vec<DeviceResponse>) -> (r: String)
    ensures
        r@ == spec_write_body(devs@),
{
    let ghost full = devs@;
    let mut devs = devs;
    let mut lines: Vec<String> = Vec::new();
    proof {
        assert(full.skip(0) =~= full);
    }
    while devs.len() > 0
        invariant
            lines@.map_values(|s: String| s@) + flat_queries(devs@) =~= flat_queries(full),
        decreases devs@.len(),
    {
        proof {
            assert(devs@.drop_first() =~= devs@.remove(0));
        }
        let d = devs.remove(0);
        let mut q = d.into_write_query();
        let ghost q_target = lines@.map_values(|s: String| s@) + query_of(d);
        while q.len() > 0
            invariant
                lines@.map_values(|s: String| s@) + q@.map_values(|s: String| s@) =~= q_target,
            decreases q@.len(),
        {
            proof {
                assert(q@.drop_first() =~= q@.remove(0));
                assert(q@.map_values(|s: String| s@).drop_first() =~= q@.remove(0).map_values(
                    |s: String| s@,
                ));
            }
            let ghost lines_prev = lines@.map_values(|s: String| s@);
            let ghost q_prev = q@.map_values(|s: String| s@);
            let line = q.remove(0);
            lines.push(line);
            proof {
                assert(lines@.map_values(|s: String| s@) =~= lines_prev.push(line@));
                assert(lines_prev.push(line@) + q_prev.drop_first() =~= lines_prev + q_prev);
            }
        }
        proof {
            assert(lines@.map_values(|s: String| s@) + flat_queries(devs@) =~= flat_queries(full));
        }
    }
    let ghost lv = lines@.map_values(|s: String| s@);
    proof {
        assert(flat_queries(devs@).len() == 0);
        assert(lv + flat_queries(devs@) =~= lv);
        assert(lv =~= flat_queries(full));
    }
    // Join from the last line backwards, so that each step prepends
    // `line`, newline, rest.
    let mut acc = String::new();
    let mut started = false;
    while lines.len() > 0
        invariant
            lines@.map_values(|s: String| s@) =~= lv.take(lines@.len() as int),
            started == (lines@.len() < lv.len()),
            started ==> acc@ == join_lines(lv.skip(lines@.len() as int)),
            !started ==> acc@ == Seq::<char>::empty() && lines@.len() == lv.len(),
        decreases lines@.len(),
    {
        let ghost k = lines@.len() as int;
        proof {
            assert(lv.take(k)[k - 1] == lv[k - 1]);
        }
        let l = lines.pop().unwrap();
        proof {
            assert(lines@.map_values(|s: String| s@) =~= lv.take(k).drop_last());
            assert(lv.take(k).drop_last() =~= lv.take(k - 1));
            assert(l@ == lv[k - 1]);
        }
        if !started {
            acc = l;
            started = true;
            proof {
                assert(lv.skip(k - 1).len() == 1);
                assert(lv.skip(k - 1)[0] == lv[k - 1]);
            }
        } else {
            let mut t = l;
            t.append("\n");
            t.append(acc.as_str());
            acc = t;
            proof {
                assert(lv.skip(k - 1).len() >= 2);
                assert(lv.skip(k - 1)[0] == lv[k - 1]);
                assert(lv.skip(k - 1).drop_first() =~= lv.skip(k));
            }
        }
    }
    proof {
        if lv.len() > 0 {
            assert(lv.skip(0) =~= lv);
        }
    }
    acc
}

/// Whether an HTTP status is in the success range.
pub open spec fn is_success(status: u16) -> bool {
    200 <= status < 300
}

/// Classifies how the poll call ended: a missing status is a transport
/// failure, a non-success status is an upstream failure, an unreadable
/// or malformed body is a decode failure, and otherwise every device
/// decodes.
pub fn poll_outcome(status: Option<u16>, body: Option<JsonValue>) -> (r: Result<
    Vec<DeviceResponse>,
    CycleError,
>)
    ensures
        status is None ==> r == Err::<Vec<DeviceResponse>, CycleError>(
            CycleError::Upstream(UpstreamError::Transport),
        ),
        status is Some && !is_success(status.unwrap()) ==> r == Err::<
            Vec<DeviceResponse>,
            CycleError,
        >(CycleError::Upstream(UpstreamError::Status(status.unwrap()))),
        status is Some && is_success(status.unwrap()) && body is None ==> r == Err::<
            Vec<DeviceResponse>,
            CycleError,
        >(CycleError::Decode(DecodeError::Syntax)),
        status is Some && is_success(status.unwrap()) && body is Some ==> (match r {
            Ok(devs) => spec_decode_devices(body.unwrap()) == Ok::<
                Seq<DeviceResponse>,
                DecodeError,
            >(devs@),
            Err(e) => e matches CycleError::Decode(de) && spec_decode_devices(body.unwrap())
                == Err::<Seq<DeviceResponse>, DecodeError>(de),
        }),
{
    let s = match status {
        Some(s) => s,
        None => {
            return Err(CycleError::Upstream(UpstreamError::Transport));
        },
    };
    if s < 200 || s >= 300 {
        return Err(CycleError::Upstream(UpstreamError::Status(s)));
    }
    let doc = match body {
        Some(doc) => doc,
        None => {
            return Err(CycleError::Decode(DecodeError::Syntax));
        },
    };
    match decode_devices(&doc) {
        Ok(devs) => Ok(devs),
        Err(e) => Err(CycleError::Decode(e)),
    }
}

/// Classifies how the write call ended.
pub fn write_outcome(status: Option<u16>) -> (r: Result<(), CycleError>)
    ensures
        status is None ==> r == Err::<(), CycleError>(
            CycleError::Upstream(UpstreamError::Transport),
        ),
        status is Some && !is_success(status.unwrap()) ==> r == Err::<(), CycleError>(
            CycleError::Upstream(UpstreamError::Status(status.unwrap())),
        ),
        status is Some && is_success(status.unwrap()) ==> r == Ok::<(), CycleError>(()),
{
    match status {
        None => Err(CycleError::Upstream(UpstreamError::Transport)),
        Some(s) => {
            if s < 200 || s >= 300 {
                Err(CycleError::Upstream(UpstreamError::Status(s)))
            } else {
                Ok(())
            }
        },
    }
}

/// Turns one poll outcome into the body to write: a failed poll surfaces
/// its error unchanged, so nothing is ever written after a failed poll;
/// a successful poll yields the full batch body.
pub fn cycle_body(poll: Result<Vec<DeviceResponse>, CycleError>) -> (r: Result<String, CycleError>)
    ensures
        poll matches Err(e) ==> r == Err::<String, CycleError>(e),
        poll matches Ok(devs) ==> r matches Ok(b) && b@ == spec_write_body(devs@),
{
    match poll {
        Err(e) => Err(e),
        Ok(devs) => Ok(make_write_body(devs)),
    }
}

} // verus!
