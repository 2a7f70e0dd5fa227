//! Text the engine produces: the instrumentation line the replacement
//! logs on every frame, and the log file's path.

use vstd::prelude::*;
use vstd::string::StringExecFns;

verus! {

/// Decimal digits of `n`, most significant first, as ASCII bytes.
pub open spec fn spec_dec(n: nat) -> Seq<u8>
    decreases n,
{
    if n < 10 {
        seq![(48 + n) as u8]
    } else {
        spec_dec(n / 10).push((48 + n % 10) as u8)
    }
}

/// Decimal rendering of a signed value: a minus sign before the digits of
/// its magnitude.
pub open spec fn spec_dec_i32(n: int) -> Seq<u8> {
    if n >= 0 {
        spec_dec(n as nat)
    } else {
        seq![45u8] + spec_dec((-n) as nat)
    }
}

/// The dimensions line the replacement logs: width, a comma, height.
pub open spec fn spec_screen_line(width: int, height: int) -> Seq<u8> {
    spec_dec_i32(width) + seq![44u8] + spec_dec_i32(height)
}

/// Append the decimal digits of `n`.
pub fn push_dec(out: &mut Vec<u8>, n: u32)
    ensures
        final(out)@ == old(out)@ + spec_dec(n as nat),
    decreases n,
{
    if n < 10 {
        out.push(48 + n as u8);
        proof {
            assert(out@ =~= old(out)@ + spec_dec(n as nat));
        }
    } else {
        proof {
            assert(n as nat / 10 < n as nat) by (nonlinear_arith)
                requires
                    n >= 10,
            ;
        }
        push_dec(out, n / 10);
        let digit: u8 = (n % 10) as u8;
        out.push(48 + digit);
        proof {
            assert(spec_dec(n as nat) == spec_dec(n as nat / 10).push((48 + n as nat % 10) as u8));
            assert(out@ =~= old(out)@ + spec_dec(n as nat));
        }
    }
}

/// Append the decimal rendering of a signed value.
pub fn push_dec_i32(out: &mut Vec<u8>, n: i32)
    ensures
        final(out)@ == old(out)@ + spec_dec_i32(n as int),
{
    if n >= 0 {
        push_dec(out, n as u32);
    } else {
        out.push(45);
        let wide: i64 = n as i64;
        let magnitude: u32 = (-wide) as u32;
        proof {
            assert(magnitude as nat == (-(n as int)) as nat);
        }
        push_dec(out, magnitude);
        proof {
            assert(out@ =~= old(out)@ + spec_dec_i32(n as int));
        }
    }
}

/// The line the replacement logs about the frame's dimensions before it
/// forwards the call: `width`, a comma, `height`, in decimal.
pub fn screen_line(width: i32, height: i32) -> (r: Vec<u8>)
    ensures
        r@ == spec_screen_line(width as int, height as int),
{
    let mut out: Vec<u8> = Vec::new();
    push_dec_i32(&mut out, width);
    out.push(44);
    push_dec_i32(&mut out, height);
    proof {
        assert(out@ =~= spec_screen_line(width as int, height as int));
    }
    out
}

/// Where the extension's log file goes: inside the home directory when one
/// is known, else the bare file name in the working directory.
pub open spec fn spec_log_path(home: Option<Seq<char>>) -> Seq<char> {
    match home {
        Some(dir) => dir + "/"@ + "rustycube.log"@,
        None => "rustycube.log"@,
    }
}

/// Compute the log file's path from the home directory, if one is set.
pub fn log_path(home: Option<String>) -> (r: String)
    ensures
        r@ == spec_log_path(match home {
            Some(dir) => Some::<Seq<char>>(dir@),
            None => None::<Seq<char>>,
        }),
{
    match home {
        Some(dir) => {
            let mut path = dir;
            path.append("/");
            path.append("rustycube.log");
            path
        },
        None => "rustycube.log".to_owned(),
    }
}

} // verus!
