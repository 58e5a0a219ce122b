//! Volume dispatch planning: extracting the current volume percentage from
//! the mixer query's raw output, building the notification text, and pairing
//! both with the mixer operation each action calls for.

use vstd::prelude::*;
use crate::events::{
    actions_of_batch, lemma_held_volume_up_repeats, Action, EventKind, InputEvent, KEY_VOLUMEUP,
};

verus! {

/// The fixed step, in percent, by which one action raises or lowers the
/// volume.
pub const VOLUME_STEP: u8 = 5;

/// The mixer operation an action dispatches.
#[derive(Clone, Copy, Debug, PartialEq, Eq, Structural)]
pub enum MixerOp {
    Raise(u8),
    Lower(u8),
    ToggleMute,
}

/// One planned dispatch: the mixer operation to attempt, and the text of the
/// notification to emit alongside it.
pub struct Dispatch {
    pub mixer: MixerOp,
    pub notification: String,
}

/// The mixer operation each action stands for.
pub open spec fn mixer_op_of(action: Action) -> MixerOp {
    match action {
        Action::VolumeUp => MixerOp::Raise(VOLUME_STEP),
        Action::VolumeDown => MixerOp::Lower(VOLUME_STEP),
        Action::Mute => MixerOp::ToggleMute,
    }
}

/// The mixer operation for one action.
pub fn mixer_op(action: Action) -> (r: MixerOp)
    ensures
        r == mixer_op_of(action),
{
    match action {
        Action::VolumeUp => MixerOp::Raise(VOLUME_STEP),
        Action::VolumeDown => MixerOp::Lower(VOLUME_STEP),
        Action::Mute => MixerOp::ToggleMute,
    }
}

/// `c` is a decimal digit.
pub open spec fn is_ascii_digit(c: char) -> bool {
    48 <= c as u32 <= 57
}

/// Position `m` in `s` ends a percentage: `s[m]` is a percent sign and at
/// least one digit precedes it.
pub open spec fn pct_end_at(s: Seq<char>, m: int) -> bool {
    &&& 0 < m < s.len()
    &&& s[m] == '%'
    &&& is_ascii_digit(s[m - 1])
}

/// The start of the maximal run of digits ending just before position `m`.
pub open spec fn digit_run_start(s: Seq<char>, m: int) -> int
    decreases m,
{
    if m <= 0 {
        0
    } else if is_ascii_digit(s[m - 1]) {
        digit_run_start(s, m - 1)
    } else {
        m
    }
}

/// `p` is the percentage the query output `s` holds: the maximal digit run
/// just before the first percent sign that follows a digit, stripped of the
/// percent sign; or nothing when no percent sign in `s` follows a digit.
pub open spec fn parsed_volume(s: Seq<char>, p: Option<Seq<char>>) -> bool {
    match p {
        Some(d) => exists|m: int|
            {
                &&& #[trigger] pct_end_at(s, m)
                &&& forall|j: int| 0 <= j < m ==> !pct_end_at(s, j)
                &&& d == s.subrange(digit_run_start(s, m), m)
            },
        None => forall|m: int| !pct_end_at(s, m),
    }
}

/// The view of an optional owned string.
pub open spec fn opt_view(p: Option<String>) -> Option<Seq<char>> {
    match p {
        Some(s) => Some(s@),
        None => None,
    }
}

/// `c` is a decimal digit.
fn char_is_digit(c: char) -> (r: bool)
    ensures
        r == is_ascii_digit(c),
{
    let v = c as u32;
    48 <= v && v <= 57
}

/// Extracts the current volume percentage from the mixer query's raw output:
/// the digits of the first percentage it holds, without the percent sign, or
/// `None` when the output is empty or holds no percentage.
pub fn extract_volume(output: &str) -> (r: Option<String>)
    ensures
        parsed_volume(output@, opt_view(r)),
{
    let len = output.unicode_len();
    let mut m: usize = 1;
    if len == 0 {
        return None;
    }
    while m < len
        invariant
            len == output@.len(),
            1 <= m <= len,
            forall|j: int| 0 <= j < m ==> !pct_end_at(output@, j),
        decreases len - m,
    {
        if output.get_char(m) == '%' && char_is_digit(output.get_char(m - 1)) {
            let ghost s = output@;
            let ghost mm = m as int;
            let mut k: usize = m;
            while k > 0 && char_is_digit(output.get_char(k - 1))
                invariant
                    len == output@.len(),
                    mm == m as int,
                    s == output@,
                    m < len,
                    0 <= k <= m,
                    digit_run_start(s, mm) == digit_run_start(s, k as int),
                decreases k,
            {
                k -= 1;
            }
            let d = output.substring_char(k, m);
            let r = d.to_owned();
            proof {
                assert(digit_run_start(s, k as int) == k as int);
                assert(pct_end_at(s, mm));
                assert(r@ == s.subrange(digit_run_start(s, mm), mm));
                assert(parsed_volume(s, opt_view(Some(r))));
            }
            return Some(r);
        }
        m += 1;
    }
    None
}

/// The text shown for the volume level: the parsed percentage, or the
/// sentinel when the query output held none.
pub open spec fn volume_display(parsed: Option<Seq<char>>) -> Seq<char> {
    match parsed {
        Some(v) => v,
        None => "INVALID"@,
    }
}

/// The notification text for one action: a fixed text for mute, and the
/// volume level for a raise or a lower.
pub open spec fn notification_spec(action: Action, parsed: Option<Seq<char>>) -> Seq<char> {
    match action {
        Action::Mute => "Volume: Muted"@,
        _ => "Volume: "@ + volume_display(parsed) + "%"@,
    }
}

/// Builds the notification text for one action from the parsed volume.
pub fn notification_text(action: Action, parsed: &Option<String>) -> (r: String)
    ensures
        r@ == notification_spec(action, opt_view(*parsed)),
{
    match action {
        Action::Mute => "Volume: Muted".to_owned(),
        _ => {
            let mut s = "Volume: ".to_owned();
            match parsed {
                Some(v) => s.append(v.as_str()),
                None => s.append("INVALID"),
            }
            s.append("%");
            s
        },
    }
}

/// Plans the dispatch for one action, given the raw output of the volume
/// query: the mixer operation is always that of the action — a failed or
/// unparseable query degrades only the notification text, never the mixer
/// command — and the notification embeds the parsed percentage or the
/// sentinel.
pub fn plan_dispatch(action: Action, query_output: &str) -> (d: Dispatch)
    ensures
        d.mixer == mixer_op_of(action),
        exists|p: Option<Seq<char>>|
            {
                &&& #[trigger] parsed_volume(query_output@, p)
                &&& d.notification@ == notification_spec(action, p)
            },
{
    let parsed = extract_volume(query_output);
    let notification = notification_text(action, &parsed);
    proof {
        assert(parsed_volume(query_output@, opt_view(parsed)));
    }
    Dispatch { mixer: mixer_op(action), notification }
}

/// A batch of consecutive non-zero volume-up events dispatches one
/// raise-by-the-fixed-step mixer operation per event, in event order.
pub proof fn lemma_held_volume_up_raises_by_step(evs: Seq<InputEvent>)
    requires
        forall|i: int| 0 <= i < evs.len() ==> (#[trigger] evs[i]).kind == EventKind::Key(
            KEY_VOLUMEUP,
        ) && evs[i].value != 0,
    ensures
        actions_of_batch(evs).len() == evs.len(),
        forall|i: int| 0 <= i < evs.len() ==> mixer_op_of(actions_of_batch(evs)[i])
            == MixerOp::Raise(VOLUME_STEP),
{
    lemma_held_volume_up_repeats(evs);
}

} // verus!
