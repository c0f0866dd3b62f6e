use vstd::prelude::*;

verus! {

/// The URI scheme of a connection request, as far as the engine reads it.
#[derive(Clone, Copy, PartialEq, Eq, Structural, Debug)]
pub enum UriScheme {
    /// Plain WebSocket; default port 80.
    Ws,
    /// WebSocket over TLS; default port 443.
    Wss,
    /// Anything else, or no scheme at all: no default port exists.
    Other,
}

/// What the engine reads from a connection request: the host name, an
/// explicit port if the URI carries one, and the scheme. The host converts
/// from whatever request type the caller started from; headers and the rest
/// of the URI stay with the transport.
#[derive(Clone, Debug)]
pub struct ConnectRequest {
    pub host: Option<String>,
    pub port: Option<u16>,
    pub scheme: UriScheme,
}

/// Why a request cannot be turned into an address.
#[derive(Clone, Copy, PartialEq, Eq, Structural, Debug)]
pub enum RequestUrlError {
    /// The URI names no host.
    NoHostName,
    /// No explicit port, and the scheme has no default one.
    UnsupportedUrlScheme,
}

/// The host to connect to: the request's host name, or `NoHostName` when
/// the URI names none.
pub fn domain(request: &ConnectRequest) -> (r: Result<String, RequestUrlError>)
    ensures
        match request.host {
            Some(h) => r matches Ok(d) && d@ == h@,
            None => r == Result::<String, RequestUrlError>::Err(RequestUrlError::NoHostName),
        },
{
    match &request.host {
        Some(h) => Ok(h.clone()),
        None => Err(RequestUrlError::NoHostName),
    }
}

/// The port a request resolves to: the explicit port of the URI if it
/// carries one, else the scheme's default (443 for wss, 80 for ws), else
/// `UnsupportedUrlScheme`.
pub open spec fn port_of(request: ConnectRequest) -> Result<u16, RequestUrlError> {
    match request.port {
        Option::Some(p) => Result::Ok(p),
        Option::None => match request.scheme {
            UriScheme::Wss => Result::Ok(443u16),
            UriScheme::Ws => Result::Ok(80u16),
            UriScheme::Other => Result::Err(RequestUrlError::UnsupportedUrlScheme),
        },
    }
}

/// The port to connect to, resolved as `port_of` says.
pub fn resolve_port(request: &ConnectRequest) -> (r: Result<u16, RequestUrlError>)
    ensures
        r == port_of(*request),
{
    match request.port {
        Some(p) => Ok(p),
        None => match request.scheme {
            UriScheme::Wss => Ok(443),
            UriScheme::Ws => Ok(80),
            UriScheme::Other => Err(RequestUrlError::UnsupportedUrlScheme),
        },
    }
}

/// The decimal digit characters.
pub open spec fn digit_char(d: nat) -> char {
    if d == 0 {
        '0'
    } else if d == 1 {
        '1'
    } else if d == 2 {
        '2'
    } else if d == 3 {
        '3'
    } else if d == 4 {
        '4'
    } else if d == 5 {
        '5'
    } else if d == 6 {
        '6'
    } else if d == 7 {
        '7'
    } else if d == 8 {
        '8'
    } else {
        '9'
    }
}

/// The decimal digits of `n`, most significant first, no leading zeros
/// (just "0" for zero).
pub open spec fn dec_digits(n: nat) -> Seq<char>
    decreases n,
{
    if n < 10 {
        seq![digit_char(n)]
    } else {
        dec_digits(n / 10) + seq![digit_char(n % 10)]
    }
}

/// The address string "host:port".
pub open spec fn addr_string(host: Seq<char>, port: u16) -> Seq<char> {
    host + seq![':'] + dec_digits(port as nat)
}

/// One decimal digit as a string slice.
fn digit_str(d: u16) -> (s: &'static str)
    requires
        d < 10,
    ensures
        s@ == seq![digit_char(d as nat)],
{
    if d == 0 {
        proof {
            reveal_strlit("0");
            assert("0"@ =~= seq![digit_char(0)]);
        }
        "0"
    } else if d == 1 {
        proof {
            reveal_strlit("1");
            assert("1"@ =~= seq![digit_char(1)]);
        }
        "1"
    } else if d == 2 {
        proof {
            reveal_strlit("2");
            assert("2"@ =~= seq![digit_char(2)]);
        }
        "2"
    } else if d == 3 {
        proof {
            reveal_strlit("3");
            assert("3"@ =~= seq![digit_char(3)]);
        }
        "3"
    } else if d == 4 {
        proof {
            reveal_strlit("4");
            assert("4"@ =~= seq![digit_char(4)]);
        }
        "4"
    } else if d == 5 {
        proof {
            reveal_strlit("5");
            assert("5"@ =~= seq![digit_char(5)]);
        }
        "5"
    } else if d == 6 {
        proof {
            reveal_strlit("6");
            assert("6"@ =~= seq![digit_char(6)]);
        }
        "6"
    } else if d == 7 {
        proof {
            reveal_strlit("7");
            assert("7"@ =~= seq![digit_char(7)]);
        }
        "7"
    } else if d == 8 {
        proof {
            reveal_strlit("8");
            assert("8"@ =~= seq![digit_char(8)]);
        }
        "8"
    } else {
        proof {
            reveal_strlit("9");
            assert("9"@ =~= seq![digit_char(9)]);
        }
        "9"
    }
}

/// Appends the decimal digits of `n` to `out`.
fn push_decimal(out: &mut String, n: u16)
    ensures
        final(out)@ == old(out)@ + dec_digits(n as nat),
    decreases n,
{
    if n >= 10 {
        push_decimal(out, n / 10);
        let d = digit_str(n % 10);
        out.append(d);
        proof {
            assert(dec_digits(n as nat) == dec_digits((n / 10) as nat) + seq![
                digit_char((n % 10) as nat),
            ]);
            assert(final(out)@ =~= old(out)@ + dec_digits(n as nat));
        }
    } else {
        let d = digit_str(n);
        out.append(d);
    }
}

/// The address handed to the transport: "host:port", with the port
/// resolved as `resolve_port` does. Fails exactly as `domain` and
/// `resolve_port` do: `NoHostName` without a host, else
/// `UnsupportedUrlScheme` when no port can be resolved.
pub fn connect_addr(request: &ConnectRequest) -> (r: Result<String, RequestUrlError>)
    ensures
        request.host is None ==> r == Result::<String, RequestUrlError>::Err(
            RequestUrlError::NoHostName,
        ),
        request.host matches Some(h) && request.port is None && request.scheme is Other ==> r
            == Result::<String, RequestUrlError>::Err(RequestUrlError::UnsupportedUrlScheme),
        request.host matches Some(h) ==> (port_of(*request) matches Ok(p) ==> (r matches Ok(a)
            && a@ == addr_string(h@, p))),
{
    let host = match domain(request) {
        Ok(h) => h,
        Err(e) => {
            return Err(e);
        },
    };
    let port = match resolve_port(request) {
        Ok(p) => p,
        Err(e) => {
            return Err(e);
        },
    };
    let mut out = host;
    proof {
        reveal_strlit(":");
    }
    out.append(":");
    push_decimal(&mut out, port);
    proof {
        assert(":"@ =~= seq![':']);
    }
    Ok(out)
}

} // verus!
