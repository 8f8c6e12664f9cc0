//! The text of the diagnostic sink, one `String` per line.
//!
//! Every line is a fixed label followed by decimal numbers or by a
//! diagnostic that the caller supplies. The spec functions here say what
//! each line is; the executable functions build it.

use vstd::prelude::*;
use vstd::string::*;
use crate::event::{TouchEvent, TouchPoint};

verus! {

/// The character of one decimal digit.
pub open spec fn digit_char(d: nat) -> char
    recommends
        d < 10,
{
    if d == 0 {
        '0'
    } else if d == 1 {
        '1'
    } else if d == 2 {
        '2'
    } else if d == 3 {
        '3'
    } else if d == 4 {
        '4'
    } else if d == 5 {
        '5'
    } else if d == 6 {
        '6'
    } else if d == 7 {
        '7'
    } else if d == 8 {
        '8'
    } else {
        '9'
    }
}

/// A number in decimal, most significant digit first, without leading zeros.
pub open spec fn decimal(n: nat) -> Seq<char>
    decreases n,
{
    if n < 10 {
        seq![digit_char(n)]
    } else {
        decimal(n / 10) + seq![digit_char(n % 10)]
    }
}

/// `"Touch Event: Report ID: {id}"`
pub open spec fn touch_header(report_id: nat) -> Seq<char> {
    "Touch Event: Report ID: "@ + decimal(report_id)
}

/// `"Touch {slot}: X: {x}, Y: {y}, pressure: {p}"`
pub open spec fn point_line(slot: nat, point: TouchPoint) -> Seq<char> {
    "Touch "@ + decimal(slot) + ": X: "@ + decimal(point.x as nat) + ", Y: "@ + decimal(
        point.y as nat,
    ) + ", pressure: "@ + decimal(point.pressure as nat)
}

/// `"Button Event: Report ID: {id}"`
pub open spec fn button_line(report_id: nat) -> Seq<char> {
    "Button Event: Report ID: "@ + decimal(report_id)
}

/// `"Error reading touch event: {diagnostic}"`
pub open spec fn decode_error_line(diagnostic: Seq<char>) -> Seq<char> {
    "Error reading touch event: "@ + diagnostic
}

/// `"Display initialization failed: {diagnostic}"`
pub open spec fn display_failure_line(diagnostic: Seq<char>) -> Seq<char> {
    "Display initialization failed: "@ + diagnostic
}

/// The line of the contact in `slot`, or nothing where the contact is absent.
pub open spec fn point_lines(slot: nat, point: Option<TouchPoint>) -> Seq<Seq<char>> {
    match point {
        Some(p) => seq![point_line(slot, p)],
        None => seq![],
    }
}

/// All the lines of one event, in the order in which they are printed.
pub open spec fn event_lines(event: TouchEvent) -> Seq<Seq<char>> {
    match event {
        TouchEvent::MultiTouchReport { report_id, point1, point2 } => {
            seq![touch_header(report_id as nat)] + point_lines(1, point1) + point_lines(2, point2)
        },
        TouchEvent::ButtonReport { report_id } => seq![button_line(report_id as nat)],
    }
}

/// The text of a list of lines.
pub open spec fn text(lines: Seq<String>) -> Seq<Seq<char>> {
    lines.map_values(|line: String| line@)
}

fn digit_str(d: u32) -> (r: &'static str)
    requires
        d < 10,
    ensures
        r@ =~= seq![digit_char(d as nat)],
{
    proof {
        reveal_strlit("0");
        reveal_strlit("1");
        reveal_strlit("2");
        reveal_strlit("3");
        reveal_strlit("4");
        reveal_strlit("5");
        reveal_strlit("6");
        reveal_strlit("7");
        reveal_strlit("8");
        reveal_strlit("9");
    }
    if d == 0 {
        "0"
    } else if d == 1 {
        "1"
    } else if d == 2 {
        "2"
    } else if d == 3 {
        "3"
    } else if d == 4 {
        "4"
    } else if d == 5 {
        "5"
    } else if d == 6 {
        "6"
    } else if d == 7 {
        "7"
    } else if d == 8 {
        "8"
    } else {
        "9"
    }
}

/// Writes `n` in decimal.
pub fn decimal_string(n: u32) -> (s: String)
    ensures
        s@ == decimal(n as nat),
    decreases n,
{
    if n < 10 {
        String::from_str(digit_str(n))
    } else {
        let mut s = decimal_string(n / 10);
        s.append(digit_str(n % 10));
        s
    }
}

/// Builds a label followed by a number.
fn labelled_number(label: &str, n: u32) -> (s: String)
    ensures
        s@ == label@ + decimal(n as nat),
{
    let mut s = String::from_str(label);
    let digits = decimal_string(n);
    s.append(digits.as_str());
    s
}

/// Builds the header line of a touch report.
pub fn touch_header_line(report_id: u8) -> (s: String)
    ensures
        s@ == touch_header(report_id as nat),
{
    labelled_number("Touch Event: Report ID: ", report_id as u32)
}

/// Builds the line of a button report.
pub fn button_event_line(report_id: u8) -> (s: String)
    ensures
        s@ == button_line(report_id as nat),
{
    labelled_number("Button Event: Report ID: ", report_id as u32)
}

/// Builds the line of the contact in `slot`.
pub fn touch_point_line(slot: u8, point: TouchPoint) -> (s: String)
    ensures
        s@ == point_line(slot as nat, point),
{
    let mut s = labelled_number("Touch ", slot as u32);
    let x = labelled_number(": X: ", point.x as u32);
    s.append(x.as_str());
    let y = labelled_number(", Y: ", point.y as u32);
    s.append(y.as_str());
    let p = labelled_number(", pressure: ", point.pressure as u32);
    s.append(p.as_str());
    assert(s@ =~= point_line(slot as nat, point));
    s
}

/// Builds the line that reports an event that could not be decoded.
pub fn decode_error(diagnostic: &str) -> (s: String)
    ensures
        s@ == decode_error_line(diagnostic@),
{
    let mut s = String::from_str("Error reading touch event: ");
    s.append(diagnostic);
    s
}

/// Builds the lines of one event: for a touch report the header, then the
/// first contact if present, then the second if present; for a button
/// report its single line.
pub fn report_event(event: TouchEvent) -> (lines: Vec<String>)
    ensures
        text(lines@) == event_lines(event),
{
    let mut lines: Vec<String> = Vec::new();
    match event {
        TouchEvent::MultiTouchReport { report_id, point1, point2 } => {
            lines.push(touch_header_line(report_id));
            if let Some(p) = point1 {
                lines.push(touch_point_line(1, p));
            }
            if let Some(p) = point2 {
                lines.push(touch_point_line(2, p));
            }
        },
        TouchEvent::ButtonReport { report_id } => {
            lines.push(button_event_line(report_id));
        },
    }
    assert(text(lines@) =~= event_lines(event));
    lines
}

/// A touch report prints its header and then one line for each contact
/// that is present, the first contact before the second, each under its
/// own label; a button report prints exactly one line.
pub proof fn lemma_point_lines_follow_header(event: TouchEvent)
    ensures
        event_lines(event).len() == 1 + event.point_count(),
        match event {
            TouchEvent::MultiTouchReport { report_id, point1, point2 } => {
                &&& event_lines(event)[0] == touch_header(report_id as nat)
                &&& point1 is Some ==> event_lines(event)[1] == point_line(1, point1->0)
                &&& point1 is Some && point2 is Some ==> event_lines(event)[2] == point_line(
                    2,
                    point2->0,
                )
                &&& point1 is None && point2 is Some ==> event_lines(event)[1] == point_line(
                    2,
                    point2->0,
                )
            },
            TouchEvent::ButtonReport { report_id } => event_lines(event)[0] == button_line(
                report_id as nat,
            ),
        },
{
}

} // verus!
