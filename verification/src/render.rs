//! The canonical human-readable text form of each failure.
//!
//! The rendered text interpolates the variant's payload fields and is
//! meant for logs and user-facing diagnostics. It is deliberately not a
//! stable contract — only the wire code of
//! [`crate::error::AiError::error_code`] is — but the text of a wrapped
//! transport or codec fault is carried into the rendering unmodified, so
//! that log correlation with the lower layer stays possible.

use vstd::prelude::*;
use vstd::string::StringExecFns;

use crate::duration::Duration;
use crate::error::AiError;

verus! {

/// The decimal digit character for a value below ten.
pub open spec fn spec_digit(d: int) -> char
    recommends
        0 <= d < 10,
{
    if d == 0 {
        '0'
    } else if d == 1 {
        '1'
    } else if d == 2 {
        '2'
    } else if d == 3 {
        '3'
    } else if d == 4 {
        '4'
    } else if d == 5 {
        '5'
    } else if d == 6 {
        '6'
    } else if d == 7 {
        '7'
    } else if d == 8 {
        '8'
    } else {
        '9'
    }
}

/// The decimal rendering of a non-negative integer, most significant
/// digit first, with no leading zero except for the value zero itself.
pub open spec fn spec_decimal(n: int) -> Seq<char>
    recommends
        n >= 0,
    decreases n,
{
    if n < 10 {
        seq![spec_digit(n)]
    } else {
        spec_decimal(n / 10).push(spec_digit(n % 10))
    }
}

/// The text form of a duration: the whole seconds followed by `s`, and,
/// when the sub-second part is not zero, the nanoseconds followed by
/// `ns`.
pub open spec fn spec_render_duration(d: Duration) -> Seq<char> {
    if d.nanos == 0 {
        spec_decimal(d.secs as int) + "s"@
    } else {
        spec_decimal(d.secs as int) + "s "@ + spec_decimal(d.nanos as int) + "ns"@
    }
}

/// The text form of a wrapped transport fault: a fixed prefix followed
/// by the fault's own diagnostic text.
pub open spec fn spec_render_network(cause_text: Seq<char>) -> Seq<char> {
    "Network error: "@ + cause_text
}

/// The text form of a wrapped codec fault: a fixed prefix followed by
/// the fault's own diagnostic text.
pub open spec fn spec_render_serialization(cause_text: Seq<char>) -> Seq<char> {
    "Serialization error: "@ + cause_text
}

/// The text form of every variant that wraps no foreign fault.
pub open spec fn spec_render_plain(e: &AiError) -> Seq<char>
    recommends
        !(e is Network),
        !(e is Serialization),
{
    match e {
        AiError::Auth(m) => "Authentication failed: "@ + m@,
        AiError::RateLimit { retry_after } => match retry_after {
            None => "Rate limit exceeded"@,
            Some(d) => "Rate limit exceeded, retry after "@ + spec_render_duration(*d),
        },
        AiError::Tool { tool_name, message } => "Tool error in '"@ + tool_name@ + "': "@
            + message@,
        AiError::Validation(m) => "Validation error: "@ + m@,
        AiError::Network(_) => Seq::empty(),
        AiError::Provider { provider, message, code } => match code {
            None => "Provider error ("@ + provider@ + "): "@ + message@,
            Some(c) => "Provider error ("@ + provider@ + ") ["@ + c@ + "]: "@ + message@,
        },
        AiError::Timeout(d) => "Request timeout after "@ + spec_render_duration(*d),
        AiError::Serialization(_) => Seq::empty(),
        AiError::Internal(m) => "Internal error: "@ + m@,
        AiError::NoSuchTool(n) => "No such tool: "@ + n@,
        AiError::InvalidToolInput { tool_name, reason } => "Invalid tool input for '"@
            + tool_name@ + "': "@ + reason@,
        AiError::SchemaValidation(m) => "Schema validation failed: "@ + m@,
        AiError::Stream(m) => "Stream error: "@ + m@,
        AiError::Config(m) => "Configuration error: "@ + m@,
    }
}

/// The diagnostic text of a transport fault: what its `Display` impl
/// writes. A pure function of the fault value alone.
pub uninterp spec fn transport_text_of(e: reqwest::Error) -> Seq<char>;

/// Whether `s` begins with `prefix`.
pub open spec fn spec_starts_with(s: Seq<char>, prefix: Seq<char>) -> bool {
    s.len() >= prefix.len() && s.subrange(0, prefix.len() as int) == prefix
}

/// The one-character string of a decimal digit.
fn digit_str(d: u64) -> (r: &'static str)
    requires
        d < 10,
    ensures
        r@ == seq![spec_digit(d as int)],
{
    let r: &'static str = match d {
        0 => "0",
        1 => "1",
        2 => "2",
        3 => "3",
        4 => "4",
        5 => "5",
        6 => "6",
        7 => "7",
        8 => "8",
        _ => "9",
    };
    proof {
        reveal_strlit("0");
        reveal_strlit("1");
        reveal_strlit("2");
        reveal_strlit("3");
        reveal_strlit("4");
        reveal_strlit("5");
        reveal_strlit("6");
        reveal_strlit("7");
        reveal_strlit("8");
        reveal_strlit("9");
        assert(r@ =~= seq![spec_digit(d as int)]);
    }
    r
}

/// Renders a non-negative integer in decimal, most significant digit
/// first.
pub fn u64_to_decimal(n: u64) -> (r: String)
    ensures
        r@ == spec_decimal(n as int),
    decreases n,
{
    if n < 10 {
        String::from_str(digit_str(n))
    } else {
        let prefix = u64_to_decimal(n / 10);
        let r = prefix.concat(digit_str(n % 10));
        proof {
            assert(r@ =~= spec_decimal(n as int));
        }
        r
    }
}

/// Renders a duration as seconds, and nanoseconds when the sub-second
/// part is not zero.
pub fn render_duration(d: &Duration) -> (r: String)
    ensures
        r@ == spec_render_duration(*d),
{
    let secs_part = u64_to_decimal(d.secs);
    if d.nanos == 0 {
        let r = secs_part.concat("s");
        proof {
            assert(r@ =~= spec_render_duration(*d));
        }
        r
    } else {
        let r = secs_part.concat("s ").concat(u64_to_decimal(d.nanos as u64).as_str()).concat(
            "ns",
        );
        proof {
            assert(r@ =~= spec_render_duration(*d));
        }
        r
    }
}

/// Relies on the `Display` impl of `reqwest::Error` to produce the
/// transport fault's diagnostic text. The impl writes fixed kind text
/// plus optional status and URL, all read from the fault value alone,
/// so its result bears a name; nothing further is promised of it.
#[verifier::external_body]
fn transport_fault_text(e: &reqwest::Error) -> (r: String)
    ensures
        r@ == transport_text_of(*e),
{
    format!("{}", e)
}

/// Relies on the `Display` impl of `serde_json::Error` to produce the
/// codec fault's diagnostic text. Nothing is promised of the text: the
/// fault's io variant delegates its `Display` to an arbitrary wrapped
/// io error, whose text need not be a function of the fault value, so
/// the result bears no name. The verified rendering takes the text as
/// an argument and holds for every value of it.
#[verifier::external_body]
fn codec_fault_text(e: &serde_json::Error) -> String {
    format!("{}", e)
}

/// Renders a transport failure around the fault's diagnostic text.
pub fn render_network_cause(cause_text: &str) -> (r: String)
    ensures
        r@ == spec_render_network(cause_text@),
{
    String::from_str("Network error: ").concat(cause_text)
}

/// Renders a codec failure around the fault's diagnostic text.
pub fn render_serialization_cause(cause_text: &str) -> (r: String)
    ensures
        r@ == spec_render_serialization(cause_text@),
{
    String::from_str("Serialization error: ").concat(cause_text)
}

impl AiError {
    /// The canonical human-readable text form of this failure. A
    /// wrapped transport fault renders as a fixed prefix followed by
    /// the fault's display text, unmodified; a wrapped codec fault
    /// opens with its fixed prefix, and the carry of its text is the
    /// contract of [`render_serialization_cause`], which this function
    /// calls on the text (the codec fault's display text bears no name:
    /// it need not be a function of the fault value). Every other
    /// variant's text is pinned over its payload fields.
    pub fn render(&self) -> (r: String)
        ensures
            match self {
                AiError::Network(cause) => r@ == spec_render_network(transport_text_of(*cause)),
                AiError::Serialization(_) => spec_starts_with(r@, "Serialization error: "@),
                _ => r@ == spec_render_plain(self),
            },
    {
        match self {
            AiError::Auth(m) => String::from_str("Authentication failed: ").concat(m.as_str()),
            AiError::RateLimit { retry_after } => match retry_after {
                None => String::from_str("Rate limit exceeded"),
                Some(d) => {
                    let r = String::from_str("Rate limit exceeded, retry after ").concat(
                        render_duration(d).as_str(),
                    );
                    proof {
                        assert(r@ =~= spec_render_plain(self));
                    }
                    r
                },
            },
            AiError::Tool { tool_name, message } => {
                let r = String::from_str("Tool error in '").concat(tool_name.as_str()).concat(
                    "': ",
                ).concat(message.as_str());
                proof {
                    assert(r@ =~= spec_render_plain(self));
                }
                r
            },
            AiError::Validation(m) => String::from_str("Validation error: ").concat(m.as_str()),
            AiError::Network(e) => {
                let t = transport_fault_text(e);
                render_network_cause(t.as_str())
            },
            AiError::Provider { provider, message, code } => match code {
                None => {
                    let r = String::from_str("Provider error (").concat(provider.as_str()).concat(
                        "): ",
                    ).concat(message.as_str());
                    proof {
                        assert(r@ =~= spec_render_plain(self));
                    }
                    r
                },
                Some(c) => {
                    let r = String::from_str("Provider error (").concat(provider.as_str()).concat(
                        ") [",
                    ).concat(c.as_str()).concat("]: ").concat(message.as_str());
                    proof {
                        assert(r@ =~= spec_render_plain(self));
                    }
                    r
                },
            },
            AiError::Timeout(d) => {
                let r = String::from_str("Request timeout after ").concat(
                    render_duration(d).as_str(),
                );
                proof {
                    assert(r@ =~= spec_render_plain(self));
                }
                r
            },
            AiError::Serialization(e) => {
                let t = codec_fault_text(e);
                let r = render_serialization_cause(t.as_str());
                proof {
                    assert(r@.subrange(0, "Serialization error: "@.len() as int)
                        =~= "Serialization error: "@);
                }
                r
            },
            AiError::Internal(m) => String::from_str("Internal error: ").concat(m.as_str()),
            AiError::NoSuchTool(n) => String::from_str("No such tool: ").concat(n.as_str()),
            AiError::InvalidToolInput { tool_name, reason } => {
                let r = String::from_str("Invalid tool input for '").concat(
                    tool_name.as_str(),
                ).concat("': ").concat(reason.as_str());
                proof {
                    assert(r@ =~= spec_render_plain(self));
                }
                r
            },
            AiError::SchemaValidation(m) => String::from_str("Schema validation failed: ").concat(
                m.as_str(),
            ),
            AiError::Stream(m) => String::from_str("Stream error: ").concat(m.as_str()),
            AiError::Config(m) => String::from_str("Configuration error: ").concat(m.as_str()),
        }
    }
}

/// Law: rendering a wrapped transport or codec fault keeps the fault's
/// diagnostic text unmodified — the rendered text is exactly the fixed
/// prefix followed by the cause's text, so the cause's text reads back
/// out of the rendering as its suffix.
pub proof fn lemma_render_keeps_cause_text(cause_text: Seq<char>)
    ensures
        spec_render_network(cause_text).subrange(
            "Network error: "@.len() as int,
            spec_render_network(cause_text).len() as int,
        ) == cause_text,
        spec_render_serialization(cause_text).subrange(
            "Serialization error: "@.len() as int,
            spec_render_serialization(cause_text).len() as int,
        ) == cause_text,
{
    assert(spec_render_network(cause_text).subrange(
        "Network error: "@.len() as int,
        spec_render_network(cause_text).len() as int,
    ) =~= cause_text);
    assert(spec_render_serialization(cause_text).subrange(
        "Serialization error: "@.len() as int,
        spec_render_serialization(cause_text).len() as int,
    ) =~= cause_text);
}

} // verus!
