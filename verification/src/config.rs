//! Fixed configuration: the endpoint the managed server listens on and the
//! command that launches it. Constant for the application's lifetime, never
//! mutated at runtime.

use vstd::prelude::*;
use vstd::string::StringExecFns;

verus! {

/// The server's listening address: four IPv4 octets and a port.
#[derive(Clone, Copy, PartialEq, Eq, Structural, Debug)]
pub struct Endpoint {
    pub a: u8,
    pub b: u8,
    pub c: u8,
    pub d: u8,
    pub port: u16,
}

/// The configured endpoint: local loopback, port 3000. It must match the
/// port the launched server binds — an external contract, not validated here.
pub open spec fn spec_server_endpoint() -> Endpoint {
    Endpoint { a: 127, b: 0, c: 0, d: 1, port: 3000 }
}

/// The endpoint the liveness probe targets.
pub fn server_endpoint() -> (e: Endpoint)
    ensures
        e == spec_server_endpoint(),
{
    Endpoint { a: 127, b: 0, c: 0, d: 1, port: 3000 }
}

/// The digit character for `n < 10`.
pub open spec fn spec_digit(n: nat) -> char {
    if n == 0 {
        '0'
    } else if n == 1 {
        '1'
    } else if n == 2 {
        '2'
    } else if n == 3 {
        '3'
    } else if n == 4 {
        '4'
    } else if n == 5 {
        '5'
    } else if n == 6 {
        '6'
    } else if n == 7 {
        '7'
    } else if n == 8 {
        '8'
    } else {
        '9'
    }
}

/// The decimal digits of `n`, most significant first.
pub open spec fn spec_decimal(n: nat) -> Seq<char>
    decreases n,
{
    if n < 10 {
        seq![spec_digit(n)]
    } else {
        spec_decimal(n / 10).push(spec_digit(n % 10))
    }
}

/// An endpoint as a dial string: the dotted decimal octets, a colon, the
/// decimal port.
pub open spec fn spec_addr(e: Endpoint) -> Seq<char> {
    spec_decimal(e.a as nat) + seq!['.'] + spec_decimal(e.b as nat) + seq!['.'] + spec_decimal(
        e.c as nat,
    ) + seq!['.'] + spec_decimal(e.d as nat) + seq![':'] + spec_decimal(e.port as nat)
}

/// The configured endpoint as the dial string the host's transport takes:
/// exactly the rendering of `spec_server_endpoint`.
pub fn server_addr() -> (r: String)
    ensures
        r@ == spec_addr(spec_server_endpoint()),
        r@ == "127.0.0.1:3000"@,
{
    let r = String::from_str("127.0.0.1:3000");
    proof {
        lemma_server_addr_literal();
    }
    r
}

/// The fixed dial string is the rendering of the fixed endpoint.
proof fn lemma_server_addr_literal()
    ensures
        "127.0.0.1:3000"@ == spec_addr(spec_server_endpoint()),
{
    reveal_strlit("127.0.0.1:3000");
    reveal_with_fuel(spec_decimal, 5);
    assert("127.0.0.1:3000"@ =~= spec_addr(spec_server_endpoint()));
}

/// The fixed executable that launches the server.
pub fn launch_program() -> (r: &'static str)
    ensures
        r@ == "elizaos"@,
{
    "elizaos"
}

/// The fixed start directive handed to the launch command — its only
/// argument.
pub fn launch_directive() -> (r: &'static str)
    ensures
        r@ == "start"@,
{
    "start"
}

} // verus!
