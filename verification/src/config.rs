//! The service's settings, as the configuration file holds them.

use vstd::prelude::*;
use vstd::string::StringExecFns;

verus! {

/// How to reach the database.
#[derive(Debug, Clone, PartialEq, Eq)]
pub struct DbSettings {
    pub username: String,
    pub password: String,
    pub port: u16,
    pub host: String,
    pub database_name: String,
}

/// The settings of one kind of token.
#[derive(Debug, Clone, PartialEq, Eq)]
pub struct TokenConfig {
    /// The signing secret.
    pub key: String,
    /// How long a token is valid, in minutes.
    pub exp: i64,
    /// How long the cookie that carries it lives, in minutes.
    pub maxage: i64,
}

/// The settings of both kinds of token.
#[derive(Debug, Clone, PartialEq, Eq)]
pub struct AuthSettings {
    pub access: TokenConfig,
    pub refresh: TokenConfig,
}

/// All settings of the service.
#[derive(Debug, Clone, PartialEq, Eq)]
pub struct Settings {
    pub database: DbSettings,
    pub auth: AuthSettings,
}

/// The numeral of one decimal digit.
pub open spec fn digit(d: nat) -> Seq<char> {
    if d == 0 {
        "0"@
    } else if d == 1 {
        "1"@
    } else if d == 2 {
        "2"@
    } else if d == 3 {
        "3"@
    } else if d == 4 {
        "4"@
    } else if d == 5 {
        "5"@
    } else if d == 6 {
        "6"@
    } else if d == 7 {
        "7"@
    } else if d == 8 {
        "8"@
    } else {
        "9"@
    }
}

/// The decimal numeral of a number, without leading zeros.
pub open spec fn decimal(n: nat) -> Seq<char>
    decreases n,
{
    if n < 10 {
        digit(n)
    } else {
        decimal(n / 10) + digit(n % 10)
    }
}

fn digit_text(d: u16) -> (s: &'static str)
    requires
        d < 10,
    ensures
        s@ == digit(d as nat),
{
    if d == 0 {
        "0"
    } else if d == 1 {
        "1"
    } else if d == 2 {
        "2"
    } else if d == 3 {
        "3"
    } else if d == 4 {
        "4"
    } else if d == 5 {
        "5"
    } else if d == 6 {
        "6"
    } else if d == 7 {
        "7"
    } else if d == 8 {
        "8"
    } else {
        "9"
    }
}

/// The decimal numeral of a port number.
pub fn port_text(port: u16) -> (s: String)
    ensures
        s@ == decimal(port as nat),
    decreases port,
{
    if port < 10 {
        digit_text(port).to_owned()
    } else {
        let mut s = port_text(port / 10);
        s.append(digit_text(port % 10));
        s
    }
}

impl DbSettings {
    /// The address under which the database is reached.
    pub open spec fn url_spec(&self) -> Seq<char> {
        "postgres://"@ + self.username@ + ":"@ + self.password@ + "@"@ + self.host@ + ":"@
            + decimal(self.port as nat) + "/"@ + self.database_name@
    }

    /// The address under which the database is reached: user and password,
    /// host and port, then the name of the database.
    pub fn connection_url(&self) -> (url: String)
        ensures
            url@ == self.url_spec(),
    {
        let mut url = "postgres://".to_owned();
        url.append(self.username.as_str());
        url.append(":");
        url.append(self.password.as_str());
        url.append("@");
        url.append(self.host.as_str());
        url.append(":");
        url.append(port_text(self.port).as_str());
        url.append("/");
        url.append(self.database_name.as_str());
        url
    }
}

impl TokenConfig {
    /// Both durations can be counted in seconds.
    pub open spec fn in_range(&self) -> bool {
        &&& i64::MIN <= 60 * self.exp <= i64::MAX
        &&& i64::MIN <= 60 * self.maxage <= i64::MAX
    }

    /// Whether both durations can be counted in seconds.
    pub fn fits(&self) -> (b: bool)
        ensures
            b == self.in_range(),
    {
        self.exp.checked_mul(60).is_some() && self.maxage.checked_mul(60).is_some()
    }
}

} // verus!
