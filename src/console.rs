//! Decisions of the console task.
//!
//! The task races the next input byte against the next notification. Each
//! outcome is handed to `Console::step`, which says what to do: feed the byte
//! to the line editor, or show the notification and install a new prompt. A
//! byte is never held back or dropped because a notification came first.
//! A completed line goes to `process_line`, which parses it, forwards its
//! intent to the command mailbox without waiting, and returns the feedback.

use crate::command::{command_event, event_of, feedback, feedback_text, parse_command, parse_line};
use crate::events::{RadioMode, SystemEvent, SystemNotify};
use crate::prompt::{mhz_text, prompt_text, PromptStatus, PROMPT_CAPACITY};
use crate::queue::{event_try_send, try_send_outcome, CommandQueue};
use crate::text::{decimal, decimal_string};
use vstd::prelude::*;
use vstd::string::*;

verus! {

/// Delete, as sent by many terminals for the backspace key.
pub const DEL: u8 = 127;
/// Backspace, the line editor's erase code.
pub const BACKSPACE: u8 = 8;

/// Handle to the console's output.
pub struct StdOut;

/// The console's output handle.
pub fn stdout_get() -> (r: StdOut) {
    StdOut
}

/// The byte that the line editor receives for an input byte: delete is
/// taken as backspace.
pub open spec fn editor_byte(b: u8) -> u8 {
    if b == DEL {
        BACKSPACE
    } else {
        b
    }
}

/// Map delete to backspace, which the line editor treats as an erase.
pub fn map_input_byte(b: u8) -> (r: u8)
    ensures
        r == editor_byte(b),
{
    if b == DEL {
        BACKSPACE
    } else {
        b
    }
}

/// Status shown in the prompt after a notification: a mode change sets the
/// mode, a tuning status sets the frequency, and nothing else changes them.
pub open spec fn status_after(m: RadioMode, khz: u32, n: SystemNotify) -> (RadioMode, u32) {
    match n {
        SystemNotify::RadioFmOn => (RadioMode::FM, khz),
        SystemNotify::RadioAmOn => (RadioMode::AM, khz),
        SystemNotify::RadioOff => (RadioMode::Off, khz),
        SystemNotify::TuneStatus(ts) => (m, ts.frequency_khz),
        _ => (m, khz),
    }
}

/// Inline message shown for a notification. Those that the prompt does not
/// reflect are shown as `Notification: ` followed by their debug form.
pub open spec fn notify_message(n: SystemNotify) -> Seq<char> {
    match n {
        SystemNotify::RadioAmOn => "Switched to AM mode"@,
        SystemNotify::RadioFmOn => "Switched to FM mode"@,
        SystemNotify::RadioOff => "Radio powered off"@,
        SystemNotify::TuneStatus(ts) => "Tuned to frequency "@ + mhz_text(ts.frequency_khz) + " MHz, rssi "@
            + decimal(ts.rssi as nat) + ", snr "@ + decimal(ts.snr as nat) + if ts.valid {
            ", valid"@
        } else {
            ", invalid"@
        },
        SystemNotify::RevisionInfo(rev) => "Notification: RevisionInfo(Revision { part_number: "@
            + decimal(rev.part_number as nat) + ", firmware_major: "@ + decimal(rev.firmware_major as nat)
            + ", firmware_minor: "@ + decimal(rev.firmware_minor as nat) + ", chip_revision: "@
            + decimal(rev.chip_revision as nat) + " })"@,
        SystemNotify::RadioMute => "Notification: RadioMute"@,
        SystemNotify::RadioUnmute => "Notification: RadioUnmute"@,
        SystemNotify::VolumeChanged(v) => "Notification: VolumeChanged("@ + decimal(v as nat) + ")"@,
    }
}

fn append_decimal(s: &mut String, n: u64)
    ensures
        final(s)@ == old(s)@ + decimal(n as nat),
{
    let d = decimal_string(n);
    s.append(d.as_str());
}

/// Apply a notification to the prompt status and return the message to show.
pub fn cli_handle_notification(event: SystemNotify, prompt_status: &mut PromptStatus) -> (r: String)
    requires
        old(prompt_status).wf(),
    ensures
        final(prompt_status).wf(),
        (final(prompt_status).mode(), final(prompt_status).frequency()) == status_after(
            old(prompt_status).mode(),
            old(prompt_status).frequency(),
            event,
        ),
        final(prompt_status).rendered() == old(prompt_status).rendered(),
        r@ == notify_message(event),
{
    match event {
        SystemNotify::RadioAmOn => {
            prompt_status.set_mode(RadioMode::AM);
            String::from_str("Switched to AM mode")
        },
        SystemNotify::RadioFmOn => {
            prompt_status.set_mode(RadioMode::FM);
            String::from_str("Switched to FM mode")
        },
        SystemNotify::RadioOff => {
            prompt_status.set_mode(RadioMode::Off);
            String::from_str("Radio powered off")
        },
        SystemNotify::TuneStatus(ts) => {
            prompt_status.set_frequency(ts.frequency_khz);
            let mut s = String::from_str("Tuned to frequency ");
            let f = crate::prompt::mhz_string(ts.frequency_khz);
            s.append(f.as_str());
            s.append(" MHz, rssi ");
            append_decimal(&mut s, ts.rssi as u64);
            s.append(", snr ");
            append_decimal(&mut s, ts.snr as u64);
            if ts.valid {
                s.append(", valid");
            } else {
                s.append(", invalid");
            }
            s
        },
        SystemNotify::RevisionInfo(rev) => {
            let mut s = String::from_str("Notification: RevisionInfo(Revision { part_number: ");
            append_decimal(&mut s, rev.part_number as u64);
            s.append(", firmware_major: ");
            append_decimal(&mut s, rev.firmware_major as u64);
            s.append(", firmware_minor: ");
            append_decimal(&mut s, rev.firmware_minor as u64);
            s.append(", chip_revision: ");
            append_decimal(&mut s, rev.chip_revision as u64);
            s.append(" })");
            s
        },
        SystemNotify::RadioMute => String::from_str("Notification: RadioMute"),
        SystemNotify::RadioUnmute => String::from_str("Notification: RadioUnmute"),
        SystemNotify::VolumeChanged(v) => {
            let mut s = String::from_str("Notification: VolumeChanged(");
            append_decimal(&mut s, v as u64);
            s.append(")");
            s
        },
    }
}

/// What completed first in the console's race.
#[derive(Clone, Copy, Debug, PartialEq, Eq, Structural)]
pub enum ConsoleInput {
    /// A byte arrived from the transport.
    Byte(u8),
    /// A notification arrived from the bus.
    Notification(SystemNotify),
}

/// What the console task does next.
pub enum ConsoleAction {
    /// Hand this byte to the line editor.
    Feed(u8),
    /// Write the message inline, then install the prompt.
    Show { message: String, prompt: String },
}

/// The byte a step hands to the line editor: one for a byte, none for a
/// notification.
pub open spec fn fed_by(input: ConsoleInput) -> Seq<u8> {
    match input {
        ConsoleInput::Byte(b) => seq![editor_byte(b)],
        ConsoleInput::Notification(_) => Seq::<u8>::empty(),
    }
}

/// The bytes handed to the line editor over a run of steps, in order.
pub open spec fn fed_over(inputs: Seq<ConsoleInput>) -> Seq<u8>
    decreases inputs.len(),
{
    if inputs.len() == 0 {
        Seq::<u8>::empty()
    } else {
        fed_over(inputs.drop_last()) + fed_by(inputs.last())
    }
}

/// The transport bytes among the inputs, in order of arrival.
pub open spec fn bytes_in(inputs: Seq<ConsoleInput>) -> Seq<u8>
    decreases inputs.len(),
{
    if inputs.len() == 0 {
        Seq::<u8>::empty()
    } else {
        match inputs.last() {
            ConsoleInput::Byte(b) => bytes_in(inputs.drop_last()).push(b),
            ConsoleInput::Notification(_) => bytes_in(inputs.drop_last()),
        }
    }
}

/// However notifications interleave with transport bytes, the line editor
/// receives every byte, once each, in the order it arrived (delete read as
/// backspace).
pub proof fn lemma_no_byte_loss(inputs: Seq<ConsoleInput>)
    ensures
        fed_over(inputs) == bytes_in(inputs).map_values(|b: u8| editor_byte(b)),
    decreases inputs.len(),
{
    if inputs.len() > 0 {
        let prev = inputs.drop_last();
        lemma_no_byte_loss(prev);
        match inputs.last() {
            ConsoleInput::Byte(b) => {
                assert(bytes_in(prev).push(b).map_values(|b: u8| editor_byte(b)) =~= bytes_in(
                    prev,
                ).map_values(|b: u8| editor_byte(b)).push(editor_byte(b)));
                assert(fed_over(prev) + seq![editor_byte(b)] =~= fed_over(prev).push(editor_byte(b)));
            },
            ConsoleInput::Notification(_) => {
                assert(fed_over(prev) + Seq::<u8>::empty() =~= fed_over(prev));
            },
        }
    }
}

/// Two runs that receive the same transport bytes hand the line editor the
/// same bytes, however many notifications each run saw and wherever they
/// fell between the bytes.
pub proof fn lemma_bytes_independent_of_notifications(run1: Seq<ConsoleInput>, run2: Seq<ConsoleInput>)
    requires
        bytes_in(run1) == bytes_in(run2),
    ensures
        fed_over(run1) == fed_over(run2),
{
    lemma_no_byte_loss(run1);
    lemma_no_byte_loss(run2);
}

/// State of the console task.
pub struct Console {
    status: PromptStatus,
}

impl Console {
    pub closed spec fn status(&self) -> PromptStatus {
        self.status
    }

    pub open spec fn wf(&self) -> bool {
        self.status().wf()
    }

    pub fn new() -> (r: Console)
        ensures
            r.wf(),
            r.status().mode() == RadioMode::FM,
            r.status().frequency() == 0,
    {
        Console { status: PromptStatus::new() }
    }

    /// The prompt for the current status.
    pub fn prompt(&mut self) -> (r: String)
        requires
            old(self).wf(),
        ensures
            final(self).wf(),
            final(self).status().mode() == old(self).status().mode(),
            final(self).status().frequency() == old(self).status().frequency(),
            r@ == prompt_text(old(self).status().mode(), old(self).status().frequency()),
            r@.len() <= PROMPT_CAPACITY,
    {
        let p = self.status.get_prompt();
        String::from_str(p)
    }

    /// Decide what to do with whichever of the two sources completed first.
    pub fn step(&mut self, input: ConsoleInput) -> (r: ConsoleAction)
        requires
            old(self).wf(),
        ensures
            final(self).wf(),
            match input {
                ConsoleInput::Byte(b) => {
                    &&& r matches ConsoleAction::Feed(x)
                    &&& x == editor_byte(b)
                    &&& final(self).status().mode() == old(self).status().mode()
                    &&& final(self).status().frequency() == old(self).status().frequency()
                },
                ConsoleInput::Notification(n) => {
                    let (m, f) = status_after(old(self).status().mode(), old(self).status().frequency(), n);
                    &&& final(self).status().mode() == m
                    &&& final(self).status().frequency() == f
                    &&& r matches ConsoleAction::Show { message, prompt }
                    &&& message@ == notify_message(n)
                    &&& prompt@ == prompt_text(m, f)
                    &&& prompt@.len() <= PROMPT_CAPACITY
                },
            },
    {
        match input {
            ConsoleInput::Byte(b) => ConsoleAction::Feed(map_input_byte(b)),
            ConsoleInput::Notification(n) => {
                let message = cli_handle_notification(n, &mut self.status);
                let prompt = self.prompt();
                ConsoleAction::Show { message, prompt }
            },
        }
    }
}

/// What the mailbox holds after a line is processed.
pub open spec fn queue_after_line(held: Seq<SystemEvent>, line: Seq<u8>) -> Seq<SystemEvent> {
    match parse_line(line) {
        Ok(c) => match command_event(c) {
            Some(e) => try_send_outcome(held, e).1,
            None => held,
        },
        Err(_) => held,
    }
}

/// Parse a completed line, hand its intent to the control loop without
/// waiting (dropped when the mailbox is full), and return the feedback text.
pub fn process_line(queue: &mut CommandQueue, line: &[u8]) -> (r: String)
    requires
        old(queue).wf(),
    ensures
        final(queue).wf(),
        final(queue)@ == queue_after_line(old(queue)@, line@),
        r@ == feedback(parse_line(line@)),
{
    let parsed = parse_command(line);
    match parsed {
        Ok(c) => match event_of(c) {
            Some(e) => {
                event_try_send(queue, e);
            },
            None => {},
        },
        Err(_) => {},
    }
    feedback_text(parsed)
}

} // verus!
