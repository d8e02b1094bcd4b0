use vstd::prelude::*;

verus! {

/// Startup parameters of the server: where it listens and how many
/// connections it serves at once.
pub struct ServerConfig {
    pub ip: String,
    pub port: u16,
    pub max_connections: usize,
}

/// Port on which the server listens unless told otherwise.
pub const DEFAULT_PORT: u16 = 6379;

/// Number of connections served at once unless told otherwise.
pub const DEFAULT_MAX_CONNECTIONS: usize = 100;

impl ServerConfig {
    /// The loopback address on the usual port, with a modest connection limit.
    pub fn default() -> (r: Self)
        ensures
            r.ip@ == "127.0.0.1"@,
            r.port == DEFAULT_PORT,
            r.max_connections == DEFAULT_MAX_CONNECTIONS,
    {
        ServerConfig {
            ip: String::from_str("127.0.0.1"),
            port: DEFAULT_PORT,
            max_connections: DEFAULT_MAX_CONNECTIONS,
        }
    }
}

/// The decimal digit `d` (below ten) as a character.
pub open spec fn digit_char(d: nat) -> char {
    seq!['0', '1', '2', '3', '4', '5', '6', '7', '8', '9'][d as int]
}

/// `n` written in decimal, without leading zeros.
pub open spec fn decimal(n: nat) -> Seq<char>
    decreases n,
{
    if n < 10 {
        seq![digit_char(n)]
    } else {
        decimal(n / 10).push(digit_char(n % 10))
    }
}

/// The address a server with this host and port listens on: `host:port`.
pub open spec fn socket_address(ip: Seq<char>, port: u16) -> Seq<char> {
    ip + seq![':'] + decimal(port as nat)
}

fn digit_text(d: u16) -> (r: &'static str)
    requires
        d < 10,
    ensures
        r@ == seq![digit_char(d as nat)],
{
    proof {
        reveal_strlit("0");
        reveal_strlit("1");
        reveal_strlit("2");
        reveal_strlit("3");
        reveal_strlit("4");
        reveal_strlit("5");
        reveal_strlit("6");
        reveal_strlit("7");
        reveal_strlit("8");
        reveal_strlit("9");
    }
    let r = if d == 0 {
        "0"
    } else if d == 1 {
        "1"
    } else if d == 2 {
        "2"
    } else if d == 3 {
        "3"
    } else if d == 4 {
        "4"
    } else if d == 5 {
        "5"
    } else if d == 6 {
        "6"
    } else if d == 7 {
        "7"
    } else if d == 8 {
        "8"
    } else {
        "9"
    };
    assert(r@ =~= seq![digit_char(d as nat)]);
    r
}

fn append_decimal(out: &mut String, n: u16)
    ensures
        final(out)@ == old(out)@ + decimal(n as nat),
    decreases n,
{
    if n >= 10 {
        append_decimal(out, n / 10);
    }
    out.append(digit_text(n % 10));
    assert(out@ =~= old(out)@ + decimal(n as nat));
}

impl ServerConfig {
    /// The address to bind: the host, a colon, and the port in decimal.
    pub fn address(&self) -> (r: String)
        ensures
            r@ == socket_address(self.ip@, self.port),
    {
        let mut r = self.ip.clone();
        proof {
            reveal_strlit(":");
        }
        r.append(":");
        append_decimal(&mut r, self.port);
        assert(r@ =~= socket_address(self.ip@, self.port));
        r
    }
}

} // verus!
