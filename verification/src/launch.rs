//! What the sidecar launcher hands to the process spawner: the exact
//! argument strings and environment of the backend invocation.
//!
//! On non-Windows targets the backend runs through the user's interactive
//! login shell (`-il -c "<sidecar>" serve --port=<port>`) so it inherits the
//! configured environment; on Windows the sidecar is invoked directly with
//! `serve --port=<port>`. The spawning itself, and the draining of the
//! child's output into the log buffer, are the caller's work.
use vstd::prelude::*;

verus! {

/// The decimal digit character for `d` (meaningful for `d < 10`).
pub open spec fn digit_char(d: nat) -> char {
    if d == 0 {
        '0'
    } else if d == 1 {
        '1'
    } else if d == 2 {
        '2'
    } else if d == 3 {
        '3'
    } else if d == 4 {
        '4'
    } else if d == 5 {
        '5'
    } else if d == 6 {
        '6'
    } else if d == 7 {
        '7'
    } else if d == 8 {
        '8'
    } else {
        '9'
    }
}

/// The decimal digits of `n`, most significant first, no leading zeros
/// (except for `n == 0` itself).
pub open spec fn dec_digits(n: nat) -> Seq<char>
    decreases n,
{
    if n < 10 {
        seq![digit_char(n)]
    } else {
        dec_digits(n / 10).push(digit_char(n % 10))
    }
}

fn push_digit(out: &mut String, d: u16)
    requires
        d < 10,
    ensures
        final(out)@ == old(out)@ + seq![digit_char(d as nat)],
{
    let s: &str = match d {
        0 => "0",
        1 => "1",
        2 => "2",
        3 => "3",
        4 => "4",
        5 => "5",
        6 => "6",
        7 => "7",
        8 => "8",
        _ => "9",
    };
    proof {
        reveal_strlit("0");
        reveal_strlit("1");
        reveal_strlit("2");
        reveal_strlit("3");
        reveal_strlit("4");
        reveal_strlit("5");
        reveal_strlit("6");
        reveal_strlit("7");
        reveal_strlit("8");
        reveal_strlit("9");
    }
    assert(s@ =~= seq![digit_char(d as nat)]);
    out.append(s);
}

fn push_decimal(out: &mut String, n: u16)
    ensures
        final(out)@ == old(out)@ + dec_digits(n as nat),
    decreases n,
{
    if n >= 10 {
        push_decimal(out, n / 10);
    }
    push_digit(out, n % 10);
    assert(final(out)@ =~= old(out)@ + dec_digits(n as nat));
}

/// Render a port number in decimal.
pub fn u16_to_decimal(n: u16) -> (r: String)
    ensures
        r@ == dec_digits(n as nat),
{
    let mut out = String::new();
    push_decimal(&mut out, n);
    assert(out@ =~= dec_digits(n as nat));
    out
}

/// The `--port=<port>` argument.
pub open spec fn port_arg_spec(port: u16) -> Seq<char> {
    "--port="@ + dec_digits(port as nat)
}

/// The arguments of a direct sidecar invocation (Windows): `serve
/// --port=<port>`.
pub fn serve_args(port: u16) -> (r: Vec<String>)
    ensures
        r@.len() == 2,
        r@[0]@ == "serve"@,
        r@[1]@ == port_arg_spec(port),
{
    let mut serve = String::new();
    serve.append("serve");
    let mut arg = String::new();
    arg.append("--port=");
    let digits = u16_to_decimal(port);
    arg.append(digits.as_str());
    let mut out: Vec<String> = Vec::new();
    out.push(serve);
    out.push(arg);
    out
}

/// The command line handed to the login shell: the quoted sidecar path, then
/// `serve --port=<port>`.
pub open spec fn shell_invocation_spec(sidecar: Seq<char>, port: u16) -> Seq<char> {
    "\""@ + sidecar + "\" serve --port="@ + dec_digits(port as nat)
}

/// Build the shell command line for the sidecar.
pub fn shell_invocation(sidecar: &str, port: u16) -> (r: String)
    ensures
        r@ == shell_invocation_spec(sidecar@, port),
{
    let mut out = String::new();
    out.append("\"");
    out.append(sidecar);
    out.append("\" serve --port=");
    let digits = u16_to_decimal(port);
    out.append(digits.as_str());
    assert(out@ =~= shell_invocation_spec(sidecar@, port));
    out
}

/// The arguments of the login-shell invocation (non-Windows): interactive
/// login shell, one command string.
pub fn shell_args(sidecar: &str, port: u16) -> (r: Vec<String>)
    ensures
        r@.len() == 3,
        r@[0]@ == "-il"@,
        r@[1]@ == "-c"@,
        r@[2]@ == shell_invocation_spec(sidecar@, port),
{
    let mut il = String::new();
    il.append("-il");
    let mut c = String::new();
    c.append("-c");
    let mut out: Vec<String> = Vec::new();
    out.push(il);
    out.push(c);
    out.push(shell_invocation(sidecar, port));
    out
}

/// The user's configured shell, or the POSIX default where none is set.
pub fn user_shell_or_default(shell: Option<String>) -> (r: String)
    ensures
        match shell {
            Some(s) => r@ == s@,
            None => r@ == "/bin/sh"@,
        },
{
    match shell {
        Some(s) => s,
        None => {
            let mut out = String::new();
            out.append("/bin/sh");
            out
        },
    }
}

/// The environment the backend is spawned with: client identification, the
/// icon-discovery toggle, and the state directory.
pub fn sidecar_env(state_dir: &str) -> (r: Vec<(String, String)>)
    ensures
        r@.len() == 3,
        r@[0].0@ == "OPENCODE_EXPERIMENTAL_ICON_DISCOVERY"@ && r@[0].1@ == "true"@,
        r@[1].0@ == "OPENCODE_CLIENT"@ && r@[1].1@ == "desktop"@,
        r@[2].0@ == "XDG_STATE_HOME"@ && r@[2].1@ == state_dir@,
{
    let mut out: Vec<(String, String)> = Vec::new();
    let mut k0 = String::new();
    k0.append("OPENCODE_EXPERIMENTAL_ICON_DISCOVERY");
    let mut v0 = String::new();
    v0.append("true");
    out.push((k0, v0));
    let mut k1 = String::new();
    k1.append("OPENCODE_CLIENT");
    let mut v1 = String::new();
    v1.append("desktop");
    out.push((k1, v1));
    let mut k2 = String::new();
    k2.append("XDG_STATE_HOME");
    let mut v2 = String::new();
    v2.append(state_dir);
    out.push((k2, v2));
    out
}

} // verus!
