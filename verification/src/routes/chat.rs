//! Chat routes: the clock text put on log lines, and where a chat's system
//! prompt comes from.

use vstd::prelude::*;
use crate::text::{decimal, push_decimal, string_from};

verus! {

/// Append `n` padded with zeros to `width` digits.
fn push_padded(out: &mut Vec<char>, n: u64, width: usize)
    ensures
        final(out)@ == old(out)@ + zero_pad_exact(decimal(n as nat), width as nat),
{
    let mut digits: Vec<char> = Vec::new();
    push_decimal(&mut digits, n);
    assert(digits@ == decimal(n as nat));
    let mut pad: usize = 0;
    let len = digits.len();
    if len < width {
        pad = width - len;
    }
    let mut i: usize = 0;
    while i < pad
        invariant
            i <= pad,
            out@ == old(out)@ + Seq::new(i as nat, |j: int| '0'),
        decreases pad - i,
    {
        out.push('0');
        proof {
            assert(out@ =~= old(out)@ + Seq::new((i + 1) as nat, |j: int| '0'));
        }
        i += 1;
    }
    let ghost before = out@;
    crate::text::append_chars(out, &digits);
    proof {
        assert(out@ =~= old(out)@ + zero_pad_exact(decimal(n as nat), width as nat));
    }
}

/// `t` preceded by as many zeros as bring it to `width` characters.
pub open spec fn zero_pad_exact(t: Seq<char>, width: nat) -> Seq<char> {
    if t.len() >= width {
        t
    } else {
        Seq::new((width - t.len()) as nat, |j: int| '0') + t
    }
}

/// The clock text `HH:MM:SS.mmm` (UTC) of a time `secs` seconds and
/// `millis` milliseconds after the Unix epoch.
pub open spec fn clock_text(secs: u64, millis: u32) -> Seq<char> {
    zero_pad_exact(decimal(((secs / 3600) % 24) as nat), 2) + seq![':'] + zero_pad_exact(
        decimal(((secs / 60) % 60) as nat),
        2,
    ) + seq![':'] + zero_pad_exact(decimal((secs % 60) as nat), 2) + seq!['.'] + zero_pad_exact(
        decimal(millis as nat),
        3,
    )
}

/// The clock text of a time since the Unix epoch.
pub fn timestamp_text(secs: u64, millis: u32) -> (r: String)
    ensures
        r@ == clock_text(secs, millis),
{
    let mut out: Vec<char> = Vec::new();
    push_padded(&mut out, (secs / 3600) % 24, 2);
    out.push(':');
    push_padded(&mut out, (secs / 60) % 60, 2);
    out.push(':');
    push_padded(&mut out, secs % 60, 2);
    out.push('.');
    push_padded(&mut out, millis as u64, 3);
    assert(out@ =~= clock_text(secs, millis));
    string_from(&out)
}

/// Where the system prompt of a chat comes from.
pub enum SystemPromptSource {
    /// The built-in agentic prompt, with the model's tool tags.
    Agentic,
    /// A prompt set in the configuration.
    Custom(String),
    /// No system prompt.
    Unset,
}

/// The source of the system prompt for a configured prompt setting: the
/// marker `__AGENTIC__` selects the built-in prompt.
pub fn system_prompt_source(configured: Option<&str>) -> (r: SystemPromptSource)
    ensures
        configured is None ==> r is Unset,
        configured matches Some(c) ==> (if c@ == "__AGENTIC__"@ {
            r is Agentic
        } else {
            r matches SystemPromptSource::Custom(s) && s@ == c@
        }),
{
    match configured {
        Some(c) => {
            if crate::text::slices_equal(&crate::text::chars_of(c), &crate::text::chars_of("__AGENTIC__")) {
                SystemPromptSource::Agentic
            } else {
                SystemPromptSource::Custom(c.to_string())
            }
        },
        None => SystemPromptSource::Unset,
    }
}

} // verus!
