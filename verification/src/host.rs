use vstd::prelude::*;
use vstd::string::StringExecFns;

verus! {

/// The cross-origin policy the service host applies, so browser-based
/// clients on arbitrary local origins can call the print endpoint.
pub struct CorsPolicy {
    /// Any origin may call.
    pub allow_any_origin: bool,
    /// Any request header is accepted.
    pub allow_any_headers: bool,
    /// The one method the endpoint serves.
    pub method: String,
    /// How long a preflight answer may be cached, in seconds.
    pub max_age_secs: u64,
}

/// The permissive policy: any origin, any headers, POST only, and a
/// preflight cache lifetime of one hour.
pub fn permissive_cors() -> (p: CorsPolicy)
    ensures
        p.allow_any_origin,
        p.allow_any_headers,
        p.method@ == "POST"@,
        p.max_age_secs == 3600,
{
    CorsPolicy {
        allow_any_origin: true,
        allow_any_headers: true,
        method: String::from_str("POST"),
        max_age_secs: 3600,
    }
}

/// The character for decimal digit `d`.
pub open spec fn digit_char(d: nat) -> char
    recommends
        d < 10,
{
    if d == 0 {
        '0'
    } else if d == 1 {
        '1'
    } else if d == 2 {
        '2'
    } else if d == 3 {
        '3'
    } else if d == 4 {
        '4'
    } else if d == 5 {
        '5'
    } else if d == 6 {
        '6'
    } else if d == 7 {
        '7'
    } else if d == 8 {
        '8'
    } else {
        '9'
    }
}

/// The decimal digits of `n`, most significant first, no leading zeros
/// (zero itself is the single digit `0`).
pub open spec fn decimal_digits(n: nat) -> Seq<char>
    decreases n,
{
    if n < 10 {
        seq![digit_char(n)]
    } else {
        decimal_digits(n / 10).push(digit_char(n % 10))
    }
}

/// The one-character string for decimal digit `d`.
fn digit_str(d: u16) -> (s: &'static str)
    requires
        d < 10,
    ensures
        s@ == seq![digit_char(d as nat)],
{
    let s: &'static str = if d == 0 {
        "0"
    } else if d == 1 {
        "1"
    } else if d == 2 {
        "2"
    } else if d == 3 {
        "3"
    } else if d == 4 {
        "4"
    } else if d == 5 {
        "5"
    } else if d == 6 {
        "6"
    } else if d == 7 {
        "7"
    } else if d == 8 {
        "8"
    } else {
        "9"
    };
    proof {
        reveal_strlit("0");
        reveal_strlit("1");
        reveal_strlit("2");
        reveal_strlit("3");
        reveal_strlit("4");
        reveal_strlit("5");
        reveal_strlit("6");
        reveal_strlit("7");
        reveal_strlit("8");
        reveal_strlit("9");
        assert(s@ =~= seq![digit_char(d as nat)]);
    }
    s
}

/// Appends the decimal form of `n` to `out`.
fn push_decimal(n: u16, out: &mut String)
    ensures
        final(out)@ == old(out)@ + decimal_digits(n as nat),
    decreases n,
{
    if n >= 10 {
        push_decimal(n / 10, out);
    }
    out.append(digit_str(n % 10));
    proof {
        assert(final(out)@ =~= old(out)@ + decimal_digits(n as nat));
    }
}

/// The "interface:port" form of the address the host binds, with the port
/// written in decimal.
pub fn bind_address(interface: &str, port: u16) -> (addr: String)
    ensures
        addr@ == interface@ + ":"@ + decimal_digits(port as nat),
{
    let mut addr = String::from_str(interface);
    addr.append(":");
    push_decimal(port, &mut addr);
    addr
}

/// The single-slot preview artifact's file name inside the host's
/// temporary directory: each successful render overwrites this one file,
/// last write wins.
pub fn preview_file_name() -> (name: String)
    ensures
        name@ == "zebra_label.png"@,
{
    String::from_str("zebra_label.png")
}

} // verus!
