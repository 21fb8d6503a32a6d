//! The HTTP/3 benchmark client's option handling: validating the parsed
//! command line, and building the per-request header values.

use vstd::prelude::*;
use vstd::string::StrSliceExecFns;

use crate::http_connect::{ascii_bytes, host_port_bytes, push_ascii, push_host_port};
use crate::net::{Host, IpAddr, UpstreamAddr};
use crate::text::str_eq;
use crate::types::DurationMillis;

verus! {

broadcast use vstd::string::group_string_axioms;

/// The request methods the benchmark supports.
#[derive(Clone, Copy, PartialEq, Eq, Structural, Debug)]
pub enum HttpMethod {
    Get,
    Head,
}

/// The method a name denotes.
pub open spec fn spec_method_of(s: Seq<char>) -> Option<HttpMethod> {
    if s == "GET"@ {
        Option::Some(HttpMethod::Get)
    } else if s == "HEAD"@ {
        Option::Some(HttpMethod::Head)
    } else {
        Option::None
    }
}

impl HttpMethod {
    pub fn from_str(s: &str) -> (r: Option<HttpMethod>)
        ensures
            r == spec_method_of(s@),
    {
        proof {
            reveal_strlit("GET");
            reveal_strlit("HEAD");
            assert("GET"@.len() == 3);
            assert("HEAD"@.len() == 4);
        }
        if str_eq(s, "GET") {
            Some(HttpMethod::Get)
        } else if str_eq(s, "HEAD") {
            Some(HttpMethod::Head)
        } else {
            None
        }
    }
}

/// A target URL, already split into its parts.
#[derive(Debug)]
pub struct UrlModel {
    pub scheme: String,
    pub host: Host,
    pub port: u16,
    pub path: String,
    pub query: Option<String>,
}

impl UrlModel {
    pub open spec fn wf(&self) -> bool {
        &&& self.host.wf()
        &&& vstd::utf8::is_ascii_chars(self.scheme@)
        &&& vstd::utf8::is_ascii_chars(self.path@)
        &&& match self.query {
            Option::Some(q) => vstd::utf8::is_ascii_chars(q@),
            Option::None => true,
        }
    }
}

/// The client's credential toward the target.
#[derive(Debug)]
pub enum HttpAuth {
    /// No credential.
    Anonymous,
    /// A basic credential, as the `user:password` pair.
    Basic { userpass: String },
}

/// What the command line gave, before validation.
#[derive(Debug)]
pub struct BenchH3Input {
    pub url: UrlModel,
    pub connection_pool: Option<usize>,
    pub method: Option<String>,
    pub local_address: Option<IpAddr>,
    pub no_multiplex: bool,
    pub ok_status: Option<u16>,
    pub timeout: Option<DurationMillis>,
    pub connect_timeout: Option<DurationMillis>,
}

/// Why the command line was rejected.
#[derive(Clone, Copy, PartialEq, Eq, Structural, Debug)]
pub enum ArgError {
    /// A connection pool and disabled multiplexing exclude each other.
    ConflictingOptions,
    /// The method is not one the benchmark supports.
    InvalidMethod,
    /// The target URL's scheme is neither `http` nor `https`.
    UnsupportedScheme,
}

/// The validated benchmark arguments.
#[derive(Debug)]
pub struct BenchH3Args {
    pub pool_size: Option<usize>,
    pub method: HttpMethod,
    pub target_url: UrlModel,
    pub bind: Option<IpAddr>,
    pub no_multiplex: bool,
    pub ok_status: Option<u16>,
    pub timeout: DurationMillis,
    pub connect_timeout: DurationMillis,
}

/// Validates the parsed command line.
///
/// A connection pool conflicts with disabled multiplexing; the method must
/// be supported; the scheme must be `http` or `https`. A missing method
/// means `GET`; a zero-sized pool means no pool; timeouts default to thirty
/// and fifteen seconds.
pub fn parse_h3_args(input: BenchH3Input) -> (r: Result<BenchH3Args, ArgError>)
    ensures
        // Success is owed exactly when nothing is wrong with the arguments.
        r is Ok <==> !(input.connection_pool is Some && input.no_multiplex) && (match input.method {
            Option::Some(m) => spec_method_of(m@) is Some,
            Option::None => true,
        }) && (input.url.scheme@ == "http"@ || input.url.scheme@ == "https"@),
        // Each rejection names its cause, checked in this order.
        input.connection_pool is Some && input.no_multiplex ==> r == Err::<BenchH3Args, ArgError>(
            ArgError::ConflictingOptions,
        ),
        !(input.connection_pool is Some && input.no_multiplex) && (input.method matches Some(m)
            && spec_method_of(m@) is None) ==> r == Err::<BenchH3Args, ArgError>(
            ArgError::InvalidMethod,
        ),
        !(input.connection_pool is Some && input.no_multiplex) && (match input.method {
            Option::Some(m) => spec_method_of(m@) is Some,
            Option::None => true,
        }) && !(input.url.scheme@ == "http"@ || input.url.scheme@ == "https"@) ==> r == Err::<
            BenchH3Args,
            ArgError,
        >(ArgError::UnsupportedScheme),
        r matches Ok(a) ==> !(input.connection_pool is Some && input.no_multiplex),
        r matches Ok(a) ==> a.method == (match input.method {
            Option::Some(m) => spec_method_of(m@)->0,
            Option::None => HttpMethod::Get,
        }),
        r matches Ok(a) ==> (input.url.scheme@ == "http"@ || input.url.scheme@ == "https"@),
        r matches Ok(a) ==> a.pool_size == (match input.connection_pool {
            Option::Some(c) => if c > 0 {
                Option::Some(c)
            } else {
                Option::None::<usize>
            },
            Option::None => Option::None::<usize>,
        }),
        r matches Ok(a) ==> a.no_multiplex == input.no_multiplex && a.ok_status == input.ok_status
            && a.bind == input.local_address,
        r matches Ok(a) ==> a.timeout == (match input.timeout {
            Option::Some(t) => t,
            Option::None => DurationMillis { millis: 30000 },
        }),
        r matches Ok(a) ==> a.connect_timeout == (match input.connect_timeout {
            Option::Some(t) => t,
            Option::None => DurationMillis { millis: 15000 },
        }),
        r matches Ok(a) ==> a.target_url == input.url,
{
    proof {
        reveal_strlit("http");
        reveal_strlit("https");
        assert("http"@.len() == 4);
        assert("https"@.len() == 5);
    }
    if input.connection_pool.is_some() && input.no_multiplex {
        return Err(ArgError::ConflictingOptions);
    }
    let method = match &input.method {
        Some(m) => {
            match HttpMethod::from_str(m.as_str()) {
                Some(m) => m,
                None => {
                    return Err(ArgError::InvalidMethod);
                },
            }
        },
        None => HttpMethod::Get,
    };
    if !(str_eq(input.url.scheme.as_str(), "http") || str_eq(input.url.scheme.as_str(), "https")) {
        return Err(ArgError::UnsupportedScheme);
    }
    let pool_size = match input.connection_pool {
        Some(c) => if c > 0 {
            Some(c)
        } else {
            None
        },
        None => None,
    };
    let timeout = match input.timeout {
        Some(t) => t,
        None => DurationMillis { millis: 30000 },
    };
    let connect_timeout = match input.connect_timeout {
        Some(t) => t,
        None => DurationMillis { millis: 15000 },
    };
    Ok(
        BenchH3Args {
            pool_size,
            method,
            target_url: input.url,
            bind: input.local_address,
            no_multiplex: input.no_multiplex,
            ok_status: input.ok_status,
            timeout,
            connect_timeout,
        },
    )
}

/// How the benchmark run ended.
#[derive(Clone, Copy, PartialEq, Eq, Structural, Debug)]
pub enum BenchOutcome {
    Success,
    ArgumentError,
    NetworkFailure,
}

/// The process exit code for an outcome: zero for success, one for an
/// argument error, two for a network failure.
pub fn exit_code(outcome: BenchOutcome) -> (r: u8)
    ensures
        outcome is Success ==> r == 0,
        outcome is ArgumentError ==> r == 1,
        outcome is NetworkFailure ==> r == 2,
{
    match outcome {
        BenchOutcome::Success => 0,
        BenchOutcome::ArgumentError => 1,
        BenchOutcome::NetworkFailure => 2,
    }
}

/// The request target: the path, plus the query when there is one.
pub open spec fn path_and_query_bytes(u: UrlModel) -> Seq<u8> {
    ascii_bytes(u.path@) + (match u.query {
        Option::Some(q) => seq![63u8] + ascii_bytes(q@),
        Option::None => Seq::empty(),
    })
}

/// The absolute request target: scheme, authority, path and query.
pub open spec fn uri_bytes(u: UrlModel) -> Seq<u8> {
    ascii_bytes(u.scheme@) + seq![58u8, 47u8, 47u8] + host_port_bytes(
        UpstreamAddr { host: u.host, port: u.port },
    ) + path_and_query_bytes(u)
}

/// The header values prepared once per request.
#[derive(Debug)]
pub struct H3PreRequest {
    pub method: HttpMethod,
    pub uri: Vec<u8>,
    pub host: Vec<u8>,
    pub auth: Option<Vec<u8>>,
}

/// Builds the per-request header values: the absolute URI, the host header
/// value, and the basic credential when one is set.
pub fn build_pre_request_header(args: &BenchH3Args, auth: &HttpAuth) -> (r: H3PreRequest)
    requires
        args.target_url.wf(),
    ensures
        r.method == args.method,
        r.uri@ == uri_bytes(args.target_url),
        r.host@ == host_port_bytes(
            UpstreamAddr { host: args.target_url.host, port: args.target_url.port },
        ),
        (*auth) is Anonymous ==> r.auth is None,
        (*auth) matches HttpAuth::Basic { userpass } ==> (r.auth matches Some(a) && a@ == seq![
            66u8, 97u8, 115u8, 105u8, 99u8, 32u8,
        ] + crate::codec::b64_encode(vstd::utf8::encode_utf8(userpass@))),
{
    let upstream = UpstreamAddr { host: args.target_url.host.clone(), port: args.target_url.port };
    let mut uri: Vec<u8> = Vec::new();
    push_ascii(&mut uri, args.target_url.scheme.as_str());
    uri.push(58);
    uri.push(47);
    uri.push(47);
    proof {
        assert(uri@ =~= ascii_bytes(args.target_url.scheme@) + seq![58u8, 47u8, 47u8]);
    }
    push_host_port(&mut uri, &upstream);
    push_ascii(&mut uri, args.target_url.path.as_str());
    match &args.target_url.query {
        Some(q) => {
            uri.push(63);
            push_ascii(&mut uri, q.as_str());
        },
        None => {},
    }
    proof {
        assert(uri@ =~= uri_bytes(args.target_url));
    }
    let mut host: Vec<u8> = Vec::new();
    push_host_port(&mut host, &upstream);
    let auth_value = match auth {
        HttpAuth::Anonymous => None,
        HttpAuth::Basic { userpass } => {
            let cred: Vec<u8> = userpass.as_str().as_bytes_vec();
            let mut line: Vec<u8> = Vec::new();
            line.push(66);
            line.push(97);
            line.push(115);
            line.push(105);
            line.push(99);
            line.push(32);
            proof {
                assert(line@ =~= seq![66u8, 97u8, 115u8, 105u8, 99u8, 32u8]);
            }
            crate::codec::push_b64(&mut line, &cred);
            Some(line)
        },
    };
    H3PreRequest { method: args.method, uri, host, auth: auth_value }
}

} // verus!
