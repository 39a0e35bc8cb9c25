//! Rendering alerts and fee summaries as human-readable text.
//!
//! Formatting is deliberately external to the state machine's correctness:
//! these functions are pure, and each one's output is pinned down character
//! by character by its contract, including the decimal numerals.

use vstd::prelude::*;
use vstd::string::StringExecFns;

use crate::alerter::AlertEvent;
use crate::alerter::AlertState;
use crate::alerter::FeeData;

verus! {

/// The character for the decimal digit `d`.
pub open spec fn dec_digit(d: nat) -> char {
    if d == 0 {
        '0'
    } else if d == 1 {
        '1'
    } else if d == 2 {
        '2'
    } else if d == 3 {
        '3'
    } else if d == 4 {
        '4'
    } else if d == 5 {
        '5'
    } else if d == 6 {
        '6'
    } else if d == 7 {
        '7'
    } else if d == 8 {
        '8'
    } else {
        '9'
    }
}

/// The decimal numeral of `n`, most significant digit first, with no
/// leading zeros (`0` itself is the single digit `0`).
pub open spec fn dec_seq(n: nat) -> Seq<char>
    decreases n,
{
    if n < 10 {
        seq![dec_digit(n)]
    } else {
        dec_seq(n / 10) + seq![dec_digit(n % 10)]
    }
}

/// The one-character string for the decimal digit `d`.
fn digit_str(d: u64) -> (r: &'static str)
    requires
        d < 10,
    ensures
        r@ == seq![dec_digit(d as nat)],
{
    proof {
        reveal_strlit("0");
        reveal_strlit("1");
        reveal_strlit("2");
        reveal_strlit("3");
        reveal_strlit("4");
        reveal_strlit("5");
        reveal_strlit("6");
        reveal_strlit("7");
        reveal_strlit("8");
        reveal_strlit("9");
    }
    let r = match d {
        0 => "0",
        1 => "1",
        2 => "2",
        3 => "3",
        4 => "4",
        5 => "5",
        6 => "6",
        7 => "7",
        8 => "8",
        _ => "9",
    };
    proof {
        assert(r@ =~= seq![dec_digit(d as nat)]);
    }
    r
}

/// The decimal numeral of `n`.
pub fn render_u64(n: u64) -> (r: String)
    ensures
        r@ == dec_seq(n as nat),
    decreases n,
{
    if n < 10 {
        digit_str(n).to_owned()
    } else {
        let mut s = render_u64(n / 10);
        s.append(digit_str(n % 10));
        proof {
            assert(s@ =~= dec_seq(n as nat));
        }
        s
    }
}

/// The alert text for `event` against `threshold`: the sample, whether it
/// sits under or over the threshold, and the threshold itself.
pub open spec fn alert_text(threshold: u64, event: AlertEvent) -> Seq<char> {
    "Les frais de transaction Bitcoin sont maintenant a "@ + dec_seq(event.metric as nat) + (
    if event.side == AlertState::BelowThreshold {
        " sat/vByte, sous le seuil de "@
    } else {
        " sat/vByte, au-dessus du seuil de "@
    }) + dec_seq(threshold as nat) + " sat/vByte!"@
}

/// Renders the alert text for one emitted event.
pub fn render_alert(threshold: u64, event: &AlertEvent) -> (r: String)
    requires
        event.side != AlertState::Unset,
    ensures
        r@ == alert_text(threshold, *event),
{
    let mut s = "Les frais de transaction Bitcoin sont maintenant a ".to_owned();
    let metric_text = render_u64(event.metric);
    s.append(metric_text.as_str());
    if event.side == AlertState::BelowThreshold {
        s.append(" sat/vByte, sous le seuil de ");
    } else {
        s.append(" sat/vByte, au-dessus du seuil de ");
    }
    let threshold_text = render_u64(threshold);
    s.append(threshold_text.as_str());
    s.append(" sat/vByte!");
    proof {
        assert(s@ =~= alert_text(threshold, *event));
    }
    s
}

/// The startup summary: the three recommended fee rates of one reading,
/// and the threshold the alert is armed for.
pub open spec fn fee_summary_text(data: FeeData, threshold: u64) -> Seq<char> {
    "Frais de transaction actuels\n- Fastest Fee: "@ + dec_seq(data.fastest_fee as nat)
        + " sat/vByte\n- Half Hour Fee: "@ + dec_seq(data.half_hour_fee as nat)
        + " sat/vByte\n- Hour Fee: "@ + dec_seq(data.hour_fee as nat)
        + " sat/vByte\n\nAlerte activee pour les frais <= "@ + dec_seq(threshold as nat)
        + " sat/vByte"@
}

/// Renders the startup summary for one fee reading.
pub fn render_fee_summary(data: &FeeData, threshold: u64) -> (r: String)
    ensures
        r@ == fee_summary_text(*data, threshold),
{
    let mut s = "Frais de transaction actuels\n- Fastest Fee: ".to_owned();
    let fastest_text = render_u64(data.fastest_fee);
    s.append(fastest_text.as_str());
    s.append(" sat/vByte\n- Half Hour Fee: ");
    let half_hour_text = render_u64(data.half_hour_fee);
    s.append(half_hour_text.as_str());
    s.append(" sat/vByte\n- Hour Fee: ");
    let hour_text = render_u64(data.hour_fee);
    s.append(hour_text.as_str());
    s.append(" sat/vByte\n\nAlerte activee pour les frais <= ");
    let threshold_text = render_u64(threshold);
    s.append(threshold_text.as_str());
    s.append(" sat/vByte");
    proof {
        assert(s@ =~= fee_summary_text(*data, threshold));
    }
    s
}

} // verus!
