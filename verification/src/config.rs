//! The settings of the service, and the connection strings made from them.

use vstd::prelude::*;
use vstd::string::StringExecFns;

verus! {

/// Everything the service can be told at start-up.
#[derive(Debug, PartialEq, Eq)]
pub struct Settings {
    /// How to reach the database.
    pub database: DatabaseSettings,
    /// How to reach the session store.
    pub redis: RedisSettings,
    /// The port that the service listens on.
    pub application_port: u16,
}

/// How to reach the database.
#[derive(Debug, PartialEq, Eq)]
pub struct DatabaseSettings {
    /// The user to connect as.
    pub username: String,
    /// The user's password.
    pub password: String,
    /// The port of the database server.
    pub port: u16,
    /// The host of the database server.
    pub host: String,
    /// The name of the database.
    pub database_name: String,
}

/// How to reach the session store.
#[derive(Debug, PartialEq, Eq)]
pub struct RedisSettings {
    /// The host of the store.
    pub host: String,
    /// The port of the store.
    pub port: u16,
}

/// Whether the service runs in production, by the name of its environment:
/// only the environment named `production` is, and a service that is told
/// of none is not. In production the session cookie is sent over secure
/// connections only.
pub fn is_production(environment: Option<&str>) -> (production: bool)
    ensures
        production == (environment matches Some(name) && name@ == "production"@),
{
    match environment {
        Some(name) => String::from_str(name) == String::from_str("production"),
        None => false,
    }
}

/// The character for a digit below ten.
pub open spec fn digit_char(digit: nat) -> char {
    if digit == 0 {
        '0'
    } else if digit == 1 {
        '1'
    } else if digit == 2 {
        '2'
    } else if digit == 3 {
        '3'
    } else if digit == 4 {
        '4'
    } else if digit == 5 {
        '5'
    } else if digit == 6 {
        '6'
    } else if digit == 7 {
        '7'
    } else if digit == 8 {
        '8'
    } else {
        '9'
    }
}

/// A number written in decimal, without leading zeros.
pub open spec fn decimal(number: nat) -> Seq<char>
    decreases number,
{
    if number < 10 {
        seq![digit_char(number)]
    } else {
        decimal(number / 10).push(digit_char(number % 10))
    }
}

spec fn reversed_digits(digits: Seq<u8>) -> Seq<char> {
    Seq::new(digits.len(), |i: int| digit_char(digits[digits.len() - 1 - i] as nat))
}

fn digit_str(digit: u8) -> (text: &'static str)
    requires
        digit < 10,
    ensures
        text@ == seq![digit_char(digit as nat)],
{
    proof {
        reveal_strlit("0");
        reveal_strlit("1");
        reveal_strlit("2");
        reveal_strlit("3");
        reveal_strlit("4");
        reveal_strlit("5");
        reveal_strlit("6");
        reveal_strlit("7");
        reveal_strlit("8");
        reveal_strlit("9");
    }
    let text = if digit == 0 {
        "0"
    } else if digit == 1 {
        "1"
    } else if digit == 2 {
        "2"
    } else if digit == 3 {
        "3"
    } else if digit == 4 {
        "4"
    } else if digit == 5 {
        "5"
    } else if digit == 6 {
        "6"
    } else if digit == 7 {
        "7"
    } else if digit == 8 {
        "8"
    } else {
        "9"
    };
    assert(text@ =~= seq![digit_char(digit as nat)]);
    text
}

fn append_decimal(out: &mut String, number: u16)
    ensures
        final(out)@ == old(out)@ + decimal(number as nat),
{
    let mut digits: Vec<u8> = Vec::new();
    let mut rest: u16 = number;
    loop
        invariant_except_break
            decimal(number as nat) == decimal(rest as nat) + reversed_digits(digits@),
            forall|i: int| 0 <= i < digits@.len() ==> digits@[i] < 10,
        ensures
            decimal(number as nat) == reversed_digits(digits@),
            forall|i: int| 0 <= i < digits@.len() ==> digits@[i] < 10,
        decreases rest,
    {
        let ghost before = digits@;
        let low: u8 = (rest % 10) as u8;
        digits.push(low);
        assert(reversed_digits(digits@) =~= seq![digit_char(low as nat)] + reversed_digits(before));
        if rest < 10 {
            assert(decimal(number as nat) =~= reversed_digits(digits@));
            break ;
        }
        assert(decimal(rest as nat) =~= decimal((rest / 10) as nat).push(digit_char(low as nat)));
        rest = rest / 10;
        assert(decimal(number as nat) =~= decimal(rest as nat) + reversed_digits(digits@));
    }
    let mut left: usize = digits.len();
    while left > 0
        invariant
            left <= digits@.len(),
            forall|i: int| 0 <= i < digits@.len() ==> digits@[i] < 10,
            out@ == old(out)@ + reversed_digits(digits@).subrange(0, digits@.len() - left),
        decreases left,
    {
        left -= 1;
        let ghost before = out@;
        out.append(digit_str(digits[left]));
        assert(out@ =~= old(out)@ + reversed_digits(digits@).subrange(
            0,
            digits@.len() - left,
        ));
    }
    assert(reversed_digits(digits@).subrange(0, digits@.len() as int) =~= reversed_digits(
        digits@,
    ));
}

impl DatabaseSettings {
    /// The connection string as its contract sees it.
    pub open spec fn connection_text(&self) -> Seq<char> {
        "postgres://"@ + self.username@ + ":"@ + self.password@ + "@"@ + self.host@ + ":"@
            + decimal(self.port as nat) + "/"@ + self.database_name@
    }

    /// The string to connect to the database with:
    /// `postgres://` user `:` password `@` host `:` port `/` database.
    pub fn connection_string(&self) -> (text: String)
        ensures
            text@ == self.connection_text(),
    {
        let mut text = String::new();
        text.append("postgres://");
        text.append(self.username.as_str());
        text.append(":");
        text.append(self.password.as_str());
        text.append("@");
        text.append(self.host.as_str());
        text.append(":");
        append_decimal(&mut text, self.port);
        text.append("/");
        text.append(self.database_name.as_str());
        assert(text@ =~= self.connection_text());
        text
    }
}

impl RedisSettings {
    /// The connection string as its contract sees it.
    pub open spec fn connection_text(&self) -> Seq<char> {
        "redis://"@ + self.host@ + ":"@ + decimal(self.port as nat)
    }

    /// The string to connect to the session store with:
    /// `redis://` host `:` port.
    pub fn connection_string(&self) -> (text: String)
        ensures
            text@ == self.connection_text(),
    {
        let mut text = String::new();
        text.append("redis://");
        text.append(self.host.as_str());
        text.append(":");
        append_decimal(&mut text, self.port);
        assert(text@ =~= self.connection_text());
        text
    }
}

} // verus!
