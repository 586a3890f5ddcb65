//! Monitors as the platform reports them, and the labels offered to the user.

use vstd::prelude::*;
use crate::decimal::{decimal, push_decimal};

verus! {

/// One physical display: its top-left corner and its size, in physical pixels.
#[derive(Clone, Copy, Debug, PartialEq, Eq, Structural)]
pub struct MonitorInfo {
    pub x: i32,
    pub y: i32,
    pub width: u32,
    pub height: u32,
}

/// `Monitor <number> - <width>x<height>`, with every number in decimal.
pub open spec fn label_text(number: nat, width: nat, height: nat) -> Seq<char> {
    "Monitor "@ + decimal(number) + " - "@ + decimal(width) + "x"@ + decimal(height)
}

/// The label of the monitor at 0-based position `index` of the enumeration.
pub open spec fn monitor_label_spec(index: int, m: MonitorInfo) -> Seq<char> {
    label_text((index + 1) as nat, m.width as nat, m.height as nat)
}

/// The label of one monitor, numbered `number` for the user.
pub fn monitor_label(number: u64, m: &MonitorInfo) -> (r: String)
    ensures
        r@ == label_text(number as nat, m.width as nat, m.height as nat),
{
    let mut s = String::new();
    s.append("Monitor ");
    push_decimal(&mut s, number);
    s.append(" - ");
    push_decimal(&mut s, m.width as u64);
    s.append("x");
    push_decimal(&mut s, m.height as u64);
    assert(s@ =~= label_text(number as nat, m.width as nat, m.height as nat));
    s
}

/// One label per monitor, in enumeration order, numbered from 1.
pub fn monitor_labels(monitors: &Vec<MonitorInfo>) -> (r: Vec<String>)
    ensures
        r@.len() == monitors@.len(),
        forall|i: int| 0 <= i < r@.len() ==> #[trigger] r@[i]@ == monitor_label_spec(i, monitors@[i]),
{
    let mut out: Vec<String> = Vec::new();
    let mut i: usize = 0;
    while i < monitors.len()
        invariant
            i <= monitors@.len(),
            out@.len() == i,
            forall|k: int| 0 <= k < i ==> #[trigger] out@[k]@ == monitor_label_spec(k, monitors@[k]),
        decreases monitors@.len() - i,
    {
        let number: u64 = i as u64 + 1;
        let label = monitor_label(number, &monitors[i]);
        out.push(label);
        i = i + 1;
    }
    out
}

} // verus!
