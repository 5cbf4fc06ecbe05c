//! What came of running the flashing tool, and its display text.

use vstd::prelude::*;
use vstd::string::*;

verus! {

/// The result of one flash attempt.
pub enum FlashOutcome {
    /// The tool ran. Its exit code is absent where a signal ended it; each
    /// output stream is absent where it was not valid UTF-8.
    Completed { exit_code: Option<i32>, stdout: Option<String>, stderr: Option<String> },
    /// The tool could not be started; the cause as the system gave it.
    LaunchFailed(String),
}

/// The character of a decimal digit.
pub open spec fn digit_char(d: nat) -> char {
    if d == 0 {
        '0'
    } else if d == 1 {
        '1'
    } else if d == 2 {
        '2'
    } else if d == 3 {
        '3'
    } else if d == 4 {
        '4'
    } else if d == 5 {
        '5'
    } else if d == 6 {
        '6'
    } else if d == 7 {
        '7'
    } else if d == 8 {
        '8'
    } else {
        '9'
    }
}

/// The decimal digits of `n`, most significant first, without leading zeros.
pub open spec fn decimal(n: nat) -> Seq<char>
    decreases n,
{
    if n < 10 {
        seq![digit_char(n)]
    } else {
        decimal(n / 10).push(digit_char(n % 10))
    }
}

/// `n` in decimal, with a leading `-` where it is negative.
pub open spec fn signed_decimal(n: int) -> Seq<char> {
    if n < 0 {
        "-"@ + decimal((-n) as nat)
    } else {
        decimal(n as nat)
    }
}

/// The display text of an exit code.
pub open spec fn exit_code_text(code: Option<i32>) -> Seq<char> {
    match code {
        Some(c) => signed_decimal(c as int),
        None => "none (ended by a signal)"@,
    }
}

/// The display text of a captured output stream.
pub open spec fn stream_text(stream: Option<String>) -> Seq<char> {
    match stream {
        Some(s) => s@,
        None => "<not valid UTF-8>"@,
    }
}

/// The display text of an outcome.
pub open spec fn outcome_text(outcome: FlashOutcome) -> Seq<char> {
    match outcome {
        FlashOutcome::Completed { exit_code, stdout, stderr } => "Flashing: exit code "@
            + exit_code_text(exit_code) + "\nstdout:\n"@ + stream_text(stdout) + "\nstderr:\n"@
            + stream_text(stderr),
        FlashOutcome::LaunchFailed(cause) => "Flashing: could not start the tool: "@ + cause@,
    }
}

/// The text of one decimal digit.
fn digit_str(d: u64) -> (r: &'static str)
    requires
        d < 10,
    ensures
        r@ == seq![digit_char(d as nat)],
{
    proof {
        reveal_strlit("0");
        reveal_strlit("1");
        reveal_strlit("2");
        reveal_strlit("3");
        reveal_strlit("4");
        reveal_strlit("5");
        reveal_strlit("6");
        reveal_strlit("7");
        reveal_strlit("8");
        reveal_strlit("9");
    }
    let r = if d == 0 {
        "0"
    } else if d == 1 {
        "1"
    } else if d == 2 {
        "2"
    } else if d == 3 {
        "3"
    } else if d == 4 {
        "4"
    } else if d == 5 {
        "5"
    } else if d == 6 {
        "6"
    } else if d == 7 {
        "7"
    } else if d == 8 {
        "8"
    } else {
        "9"
    };
    assert(r@ =~= seq![digit_char(d as nat)]);
    r
}

/// Appends the decimal digits of `n` to `out`.
fn push_decimal(out: &mut String, n: u64)
    ensures
        final(out)@ == old(out)@ + decimal(n as nat),
    decreases n,
{
    if n >= 10 {
        push_decimal(out, n / 10);
    }
    out.append(digit_str(n % 10));
    assert(final(out)@ =~= old(out)@ + decimal(n as nat));
}

/// Appends `code` in decimal, with a `-` where it is negative, to `out`.
fn push_signed(out: &mut String, code: i32)
    ensures
        final(out)@ == old(out)@ + signed_decimal(code as int),
{
    let wide: i64 = code as i64;
    if wide < 0 {
        out.append("-");
        push_decimal(out, (-wide) as u64);
    } else {
        push_decimal(out, wide as u64);
    }
    assert(final(out)@ =~= old(out)@ + signed_decimal(code as int));
}

/// Appends the display text of a captured stream to `out`.
fn push_stream(out: &mut String, stream: &Option<String>)
    ensures
        final(out)@ == old(out)@ + stream_text(*stream),
{
    match stream {
        Some(s) => out.append(s.as_str()),
        None => out.append("<not valid UTF-8>"),
    }
}

impl FlashOutcome {
    /// The display text of this outcome: the exit code and both output
    /// streams as they came, or the cause of a failed launch.
    pub fn render(&self) -> (r: String)
        ensures
            r@ == outcome_text(*self),
    {
        match self {
            FlashOutcome::Completed { exit_code, stdout, stderr } => {
                let mut out = String::from_str("Flashing: exit code ");
                match exit_code {
                    Some(c) => push_signed(&mut out, *c),
                    None => out.append("none (ended by a signal)"),
                }
                out.append("\nstdout:\n");
                push_stream(&mut out, stdout);
                out.append("\nstderr:\n");
                push_stream(&mut out, stderr);
                out
            },
            FlashOutcome::LaunchFailed(cause) => {
                String::from_str("Flashing: could not start the tool: ").concat(cause.as_str())
            },
        }
    }
}

} // verus!
