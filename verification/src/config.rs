//! The connection descriptor, as an explicit configuration value.
//!
//! Instead of a hidden global connection string, every session-opening call
//! takes a [`ConnectionConfig`]: host (with optional instance), port,
//! target database, credentials and the certificate-trust flag.  The
//! descriptor is rendered into an ADO.NET style connection string by
//! verified code; handing that string to the driver is the one outside
//! call here, behind a trusted wrapper.

use vstd::prelude::*;

verus! {

/// An explicit connection descriptor for one server and database.
#[derive(Clone, PartialEq, Eq, Debug)]
pub struct ConnectionConfig {
    /// Host name or address, optionally with a named instance.
    pub host: String,
    /// TCP port of the server.
    pub port: u16,
    /// Database to open.
    pub database: String,
    /// Login user name.
    pub user: String,
    /// Login password.
    pub password: String,
    /// Whether to trust the server's certificate without validation.
    pub trust_server_certificate: bool,
}

/// Why a descriptor could not be turned into a driver configuration.
#[derive(Clone, Copy, PartialEq, Eq, Structural, Debug)]
pub enum ConnectionError {
    InvalidDescriptor,
}

impl ConnectionConfig {
    /// A usable descriptor names a host and a database.
    pub open spec fn wf(self) -> bool {
        self.host@.len() > 0 && self.database@.len() > 0
    }

    /// Executable twin of [`ConnectionConfig::wf`].
    pub fn is_wf(&self) -> (r: bool)
        ensures
            r == self.wf(),
    {
        self.host.as_str().unicode_len() > 0 && self.database.as_str().unicode_len() > 0
    }
}

/// The character of one decimal digit.
pub open spec fn digit_char(d: int) -> char {
    if d == 0 {
        '0'
    } else if d == 1 {
        '1'
    } else if d == 2 {
        '2'
    } else if d == 3 {
        '3'
    } else if d == 4 {
        '4'
    } else if d == 5 {
        '5'
    } else if d == 6 {
        '6'
    } else if d == 7 {
        '7'
    } else if d == 8 {
        '8'
    } else {
        '9'
    }
}

/// The decimal rendering of a non-negative integer, without leading zeros
/// (a single zero for zero itself).
pub open spec fn dec_str(n: int) -> Seq<char>
    decreases n,
{
    if n < 10 {
        seq![digit_char(n)]
    } else {
        dec_str(n / 10) + seq![digit_char(n % 10)]
    }
}

fn digit_str(d: u8) -> (r: &'static str)
    requires
        d < 10,
    ensures
        r@ == seq![digit_char(d as int)],
{
    proof {
        reveal_strlit("0");
        reveal_strlit("1");
        reveal_strlit("2");
        reveal_strlit("3");
        reveal_strlit("4");
        reveal_strlit("5");
        reveal_strlit("6");
        reveal_strlit("7");
        reveal_strlit("8");
        reveal_strlit("9");
    }
    let r: &'static str = if d == 0 {
        "0"
    } else if d == 1 {
        "1"
    } else if d == 2 {
        "2"
    } else if d == 3 {
        "3"
    } else if d == 4 {
        "4"
    } else if d == 5 {
        "5"
    } else if d == 6 {
        "6"
    } else if d == 7 {
        "7"
    } else if d == 8 {
        "8"
    } else {
        "9"
    };
    proof {
        assert(r@ =~= seq![digit_char(d as int)]);
    }
    r
}

/// Appends the decimal rendering of `n` to `out`.
fn push_dec(n: u16, out: &mut String)
    ensures
        final(out)@ == old(out)@ + dec_str(n as int),
    decreases n,
{
    if n >= 10 {
        push_dec(n / 10, out);
    }
    out.append(digit_str((n % 10) as u8));
    proof {
        assert(out@ =~= old(out)@ + dec_str(n as int));
    }
}

/// The ADO.NET style rendering of a descriptor: the server with its port,
/// the database, the credentials and the certificate-trust flag, joined as
/// `key=value` pairs.
pub open spec fn ado_descriptor_string(c: ConnectionConfig) -> Seq<char> {
    "server=tcp:"@ + c.host@ + ","@ + dec_str(c.port as int) + ";database="@ + c.database@
        + ";user="@ + c.user@ + ";password="@ + c.password@ + ";TrustServerCertificate="@ + (
    if c.trust_server_certificate {
        "true"@
    } else {
        "false"@
    })
}

/// Renders a descriptor as the connection string the driver parses.
pub fn ado_string(c: &ConnectionConfig) -> (r: String)
    ensures
        r@ == ado_descriptor_string(*c),
{
    let mut s = String::from_str("server=tcp:");
    s.append(c.host.as_str());
    s.append(",");
    push_dec(c.port, &mut s);
    s.append(";database=");
    s.append(c.database.as_str());
    s.append(";user=");
    s.append(c.user.as_str());
    s.append(";password=");
    s.append(c.password.as_str());
    s.append(";TrustServerCertificate=");
    if c.trust_server_certificate {
        s.append("true");
    } else {
        s.append("false");
    }
    proof {
        assert(s@ =~= ado_descriptor_string(*c));
    }
    s
}

#[verifier::external_type_specification]
#[verifier::external_body]
pub struct ExDriverConfig(tiberius::Config);

#[verifier::external_type_specification]
#[verifier::external_body]
pub struct ExDriverError(tiberius::error::Error);

/// Relies on tiberius::Config::from_ado_string: parses an ADO.NET style
/// connection string into the driver's connection configuration.  The
/// result is carried through opaquely; the driver decides whether the
/// string is acceptable.
#[verifier::external_body]
fn parse_ado(s: &str) -> Result<tiberius::Config, tiberius::error::Error> {
    tiberius::Config::from_ado_string(s)
}

/// Turns a descriptor into the driver's configuration by rendering it as
/// [`ado_descriptor_string`] and handing that string to the driver,
/// reporting a refused descriptor as [`ConnectionError::InvalidDescriptor`].
pub fn driver_config(c: &ConnectionConfig) -> (r: Result<tiberius::Config, ConnectionError>)
    ensures
        r is Err ==> r == Err::<tiberius::Config, ConnectionError>(
            ConnectionError::InvalidDescriptor,
        ),
{
    let s = ado_string(c);
    match parse_ado(s.as_str()) {
        Ok(cfg) => Ok(cfg),
        Err(_) => Err(ConnectionError::InvalidDescriptor),
    }
}

} // verus!
