//! The control surface: tray messages and the text of the tray menu.
use crate::schedule::{Schedule, TimeWindow};
use crate::shared::ReconciliationState;
use vstd::prelude::*;

verus! {

/// The command identifier of the menu's Exit item.
pub const EXIT_COMMAND_ID: usize = 1001;

/// A message delivered to the tray window, reduced to what is acted on.
#[derive(Clone, Copy, Debug, PartialEq, Eq, Structural)]
pub enum TrayMessage {
    /// A mouse event on the tray icon; asks for the menu on a right-button release.
    Notify { right_button_up: bool },
    /// A menu command, with the message's word parameter.
    Command { wparam: usize },
    /// The window is being destroyed.
    Destroy,
    /// Any other message.
    Other,
}

/// What the window procedure does in answer to a message.
#[derive(Clone, Copy, Debug, PartialEq, Eq, Structural)]
pub struct TrayResponse {
    /// Show the context menu.
    pub show_menu: bool,
    /// Post the quit message that ends the event pump.
    pub post_quit: bool,
    /// Hand the message on to the default window procedure (else answer 0).
    pub default_handling: bool,
}

/// Whether a command's word parameter names the Exit item: its low 16 bits.
pub open spec fn is_exit_command(wparam: usize) -> bool {
    wparam as int % 0x10000 == EXIT_COMMAND_ID
}

pub open spec fn spec_response(msg: TrayMessage) -> TrayResponse {
    match msg {
        TrayMessage::Notify { right_button_up } => TrayResponse {
            show_menu: right_button_up,
            post_quit: false,
            default_handling: true,
        },
        TrayMessage::Command { wparam } => TrayResponse {
            show_menu: false,
            post_quit: is_exit_command(wparam),
            default_handling: true,
        },
        TrayMessage::Destroy => TrayResponse {
            show_menu: false,
            post_quit: true,
            default_handling: false,
        },
        TrayMessage::Other => TrayResponse {
            show_menu: false,
            post_quit: false,
            default_handling: true,
        },
    }
}

/// Answers a tray message. The Exit command sets the shutdown flag and
/// nothing else: stopping the helper is left to the shutdown sequence.
pub fn handle_message(state: &mut ReconciliationState, msg: TrayMessage) -> (r: TrayResponse)
    ensures
        r == spec_response(msg),
        final(state).spec_schedule() == old(state).spec_schedule(),
        final(state).spec_shutdown_requested() == (old(state).spec_shutdown_requested() || (
        msg matches TrayMessage::Command { wparam } && is_exit_command(wparam))),
{
    match msg {
        TrayMessage::Notify { right_button_up } => TrayResponse {
            show_menu: right_button_up,
            post_quit: false,
            default_handling: true,
        },
        TrayMessage::Command { wparam } => {
            let low = wparam & 0xFFFF;
            assert(low == wparam % 0x10000) by (bit_vector)
                requires
                    low == wparam & 0xFFFF,
            ;
            let exit = low == EXIT_COMMAND_ID;
            if exit {
                state.request_shutdown();
            }
            TrayResponse { show_menu: false, post_quit: exit, default_handling: true }
        },
        TrayMessage::Destroy => TrayResponse {
            show_menu: false,
            post_quit: true,
            default_handling: false,
        },
        TrayMessage::Other => TrayResponse {
            show_menu: false,
            post_quit: false,
            default_handling: true,
        },
    }
}

/// Whether the desktop uses the dark theme: only when the light-theme
/// setting was read, is a 32-bit value, and is 0. A failed read counts as light.
pub fn is_dark_theme(read_ok: bool, is_dword: bool, light_theme_value: u32) -> (r: bool)
    ensures
        r == (read_ok && is_dword && light_theme_value == 0),
{
    read_ok && is_dword && light_theme_value == 0
}

/// The tray icon's file for the theme.
pub fn tray_icon_file(dark: bool) -> (r: String)
    ensures
        dark ==> r@ == "tray_dark.ico"@,
        !dark ==> r@ == "tray_light.ico"@,
{
    if dark {
        String::from_str("tray_dark.ico")
    } else {
        String::from_str("tray_light.ico")
    }
}

/// The ten decimal digits.
pub open spec fn digit_chars() -> Seq<char> {
    seq!['0', '1', '2', '3', '4', '5', '6', '7', '8', '9']
}

/// `n` in two decimal digits, with a leading zero below ten.
pub open spec fn two_digits(n: int) -> Seq<char> {
    seq![digit_chars()[n / 10], digit_chars()[n % 10]]
}

/// `hh:mm` of a time of day.
pub open spec fn clock_text(hour: int, minute: int) -> Seq<char> {
    two_digits(hour) + seq![':'] + two_digits(minute)
}

/// A menu line for a window: `Label: hh:mm - hh:mm`.
pub open spec fn window_text(label: Seq<char>, w: TimeWindow) -> Seq<char> {
    label + ": "@ + clock_text(w.start.spec_hour(), w.start.spec_minute()) + " - "@ + clock_text(
        w.end.spec_hour(),
        w.end.spec_minute(),
    )
}

/// The digit character of `d`.
fn digit_char(d: u32) -> (c: char)
    requires
        d < 10,
    ensures
        c == digit_chars()[d as int],
{
    match d {
        0 => '0',
        1 => '1',
        2 => '2',
        3 => '3',
        4 => '4',
        5 => '5',
        6 => '6',
        7 => '7',
        8 => '8',
        _ => '9',
    }
}

/// The text of one character.
fn char_text(c: char) -> (r: &'static str)
    requires
        digit_chars().contains(c) || c == ':',
    ensures
        r@ == seq![c],
{
    proof {
        reveal_strlit("0");
        reveal_strlit("1");
        reveal_strlit("2");
        reveal_strlit("3");
        reveal_strlit("4");
        reveal_strlit("5");
        reveal_strlit("6");
        reveal_strlit("7");
        reveal_strlit("8");
        reveal_strlit("9");
        reveal_strlit(":");
    }
    match c {
        '0' => "0",
        '1' => "1",
        '2' => "2",
        '3' => "3",
        '4' => "4",
        '5' => "5",
        '6' => "6",
        '7' => "7",
        '8' => "8",
        '9' => "9",
        _ => ":",
    }
}

/// Appends `n` in two digits.
fn push_two_digits(out: &mut String, n: u32)
    requires
        n < 100,
    ensures
        final(out)@ == old(out)@ + two_digits(n as int),
{
    let tens = digit_char(n / 10);
    let ones = digit_char(n % 10);
    out.append(char_text(tens));
    out.append(char_text(ones));
}

/// Appends `hh:mm`.
fn push_clock(out: &mut String, hour: u32, minute: u32)
    requires
        hour < 100,
        minute < 100,
    ensures
        final(out)@ == old(out)@ + clock_text(hour as int, minute as int),
{
    push_two_digits(out, hour);
    out.append(char_text(':'));
    push_two_digits(out, minute);
    assert(final(out)@ =~= old(out)@ + clock_text(hour as int, minute as int));
}

/// The menu line that shows a window, such as `Morning: 08:00 - 12:00`.
pub fn window_line(label: &str, w: &TimeWindow) -> (r: String)
    requires
        w.wf(),
    ensures
        r@ == window_text(label@, *w),
{
    let mut out = String::from_str(label);
    out.append(": ");
    push_clock(&mut out, w.start.hour(), w.start.minute());
    out.append(" - ");
    push_clock(&mut out, w.end.hour(), w.end.minute());
    assert(out@ =~= window_text(label@, *w));
    out
}

/// The menu line that shows whether the helper runs.
pub fn status_line(running: bool) -> (r: String)
    ensures
        running ==> r@ == "Caffeine: Active"@,
        !running ==> r@ == "Caffeine: Inactive"@,
{
    if running {
        String::from_str("Caffeine: Active")
    } else {
        String::from_str("Caffeine: Inactive")
    }
}

/// The label of the window at `index` in the menu.
pub open spec fn window_label(index: int) -> Seq<char> {
    if index == 0 {
        "Morning"@
    } else if index == 1 {
        "Afternoon"@
    } else {
        "Window"@
    }
}

fn label_for(index: usize) -> (r: &'static str)
    ensures
        r@ == window_label(index as int),
{
    if index == 0 {
        "Morning"
    } else if index == 1 {
        "Afternoon"
    } else {
        "Window"
    }
}

/// The information lines of the tray menu: one per window, then the
/// helper's status; none while no schedule is installed.
pub fn menu_lines(schedule: &Option<Schedule>, running: bool) -> (r: Vec<String>)
    requires
        schedule matches Some(s) ==> s.wf(),
    ensures
        schedule is None ==> r@.len() == 0,
        schedule matches Some(s) ==> {
            &&& r@.len() == s.windows@.len() + 1
            &&& forall|i: int|
                0 <= i < s.windows@.len() ==> (#[trigger] r@[i])@ == window_text(
                    window_label(i),
                    s.windows@[i],
                )
            &&& r@[s.windows@.len() as int]@ == (if running {
                "Caffeine: Active"@
            } else {
                "Caffeine: Inactive"@
            })
        },
{
    let mut lines: Vec<String> = Vec::new();
    match schedule {
        None => lines,
        Some(s) => {
            let mut i: usize = 0;
            while i < s.windows.len()
                invariant
                    s.wf(),
                    0 <= i <= s.windows@.len(),
                    lines@.len() == i,
                    forall|j: int|
                        0 <= j < i ==> (#[trigger] lines@[j])@ == window_text(
                            window_label(j),
                            s.windows@[j],
                        ),
                decreases s.windows@.len() - i,
            {
                let line = window_line(label_for(i), &s.windows[i]);
                lines.push(line);
                i = i + 1;
            }
            lines.push(status_line(running));
            lines
        },
    }
}

} // verus!
