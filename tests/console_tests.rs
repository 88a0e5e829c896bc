use radio_console::bus::{notify_subscriber, NotifyBus, NotifyError, BUS_CAPACITY};
use radio_console::command::{
    feedback_text, parse_command, parse_frequency, split_words, BaseCommand, ParseError, TuneCommand,
    VolumeCommand, HELP,
};
use radio_console::console::{
    cli_handle_notification, process_line, stdout_get, map_input_byte, Console, ConsoleAction, ConsoleInput,
    BACKSPACE, DEL,
};
use radio_console::events::{RadioMode, Revision, SystemEvent, SystemNotify, TuneStatus};
use radio_console::logger::{LogLevel, SerialLogger};
use radio_console::prompt::{PromptStatus, PROMPT_CAPACITY};
use radio_console::queue::{event_try_receive, event_try_send, CommandQueue};
use radio_console::text::{decimal_string, zero_padded_decimal};

fn tune(khz: u32) -> SystemNotify {
    SystemNotify::TuneStatus(TuneStatus { frequency_khz: khz, rssi: 40, snr: 12, valid: true })
}

#[test]
fn no_byte_loss_with_interleaved_notifications() {
    let mut console = Console::new();
    let inputs = vec![
        ConsoleInput::Byte(b's'),
        ConsoleInput::Notification(SystemNotify::RadioAmOn),
        ConsoleInput::Notification(tune(101_100)),
        ConsoleInput::Byte(b't'),
        ConsoleInput::Notification(SystemNotify::VolumeChanged(3)),
        ConsoleInput::Byte(DEL),
        ConsoleInput::Byte(b'\r'),
    ];
    let mut fed = Vec::new();
    let mut shown = 0;
    for input in inputs {
        match console.step(input) {
            ConsoleAction::Feed(b) => fed.push(b),
            ConsoleAction::Show { .. } => shown += 1,
        }
    }
    assert_eq!(fed, vec![b's', b't', BACKSPACE, b'\r']);
    assert_eq!(shown, 3);
}

#[test]
fn notification_step_updates_prompt() {
    let mut console = Console::new();
    match console.step(ConsoleInput::Notification(SystemNotify::RadioAmOn)) {
        ConsoleAction::Show { message, prompt } => {
            assert_eq!(message, "Switched to AM mode");
            assert!(prompt.contains("AM"));
        }
        ConsoleAction::Feed(_) => panic!("a notification is shown"),
    }
}

#[test]
fn delete_maps_to_backspace() {
    assert_eq!(map_input_byte(DEL), BACKSPACE);
    assert_eq!(map_input_byte(b'a'), b'a');
}

#[test]
fn bus_overwrite_skips_to_oldest_retained() {
    let mut bus = NotifyBus::new();
    let sub = notify_subscriber(&mut bus).unwrap();
    for v in 0..(BUS_CAPACITY as u8 + 1) {
        bus.publish_immediate(SystemNotify::VolumeChanged(v));
    }
    assert_eq!(bus.try_next(sub), Some(SystemNotify::VolumeChanged(1)));
    assert_eq!(bus.try_next(sub), Some(SystemNotify::VolumeChanged(2)));
    assert_eq!(bus.try_next(sub), Some(SystemNotify::VolumeChanged(3)));
    assert_eq!(bus.try_next(sub), Some(SystemNotify::VolumeChanged(4)));
    assert_eq!(bus.try_next(sub), None);
}

#[test]
fn bus_subscribers_read_independently() {
    let mut bus = NotifyBus::new();
    let a = notify_subscriber(&mut bus).unwrap();
    bus.publish_immediate(SystemNotify::RadioFmOn);
    let b = notify_subscriber(&mut bus).unwrap();
    bus.publish_immediate(SystemNotify::RadioOff);
    assert_eq!(bus.try_next(b), Some(SystemNotify::RadioOff));
    assert_eq!(bus.try_next(b), None);
    assert_eq!(bus.try_next(a), Some(SystemNotify::RadioFmOn));
    assert_eq!(bus.try_next(a), Some(SystemNotify::RadioOff));
    assert_eq!(bus.try_next(a), None);
}

#[test]
fn bus_subscriber_table_full() {
    let mut bus = NotifyBus::new();
    for i in 0..4 {
        assert_eq!(notify_subscriber(&mut bus), Ok(i));
    }
    assert_eq!(notify_subscriber(&mut bus), Err(NotifyError::MaximumSubscribersReached));
}

#[test]
fn bus_publish_without_subscriber_does_not_block() {
    let mut bus = NotifyBus::new();
    for _ in 0..10 {
        bus.publish_immediate(SystemNotify::RadioMute);
    }
    let s = notify_subscriber(&mut bus).unwrap();
    assert_eq!(bus.try_next(s), None);
}

#[test]
fn queue_drop_on_full() {
    let mut q = CommandQueue::new();
    assert!(event_try_send(&mut q, SystemEvent::RadioVolumeUp));
    assert!(!event_try_send(&mut q, SystemEvent::RadioVolumeDown));
    assert!(q.is_occupied());
    assert_eq!(event_try_receive(&mut q), Some(SystemEvent::RadioVolumeUp));
    assert_eq!(event_try_receive(&mut q), None);
    assert!(!q.is_occupied());
}

#[test]
fn queue_frees_slot_after_receive() {
    let mut q = CommandQueue::new();
    assert!(event_try_send(&mut q, SystemEvent::RadioFmOn));
    assert_eq!(event_try_receive(&mut q), Some(SystemEvent::RadioFmOn));
    assert!(event_try_send(&mut q, SystemEvent::RadioSetFrequency(101_100)));
    assert_eq!(event_try_receive(&mut q), Some(SystemEvent::RadioSetFrequency(101_100)));
}

#[test]
fn prompt_consistency_after_notifications() {
    let mut status = PromptStatus::new();
    let m1 = cli_handle_notification(SystemNotify::RadioAmOn, &mut status);
    let m2 = cli_handle_notification(tune(101_100), &mut status);
    assert_eq!(m1, "Switched to AM mode");
    assert_eq!(m2, "Tuned to frequency 101.1 MHz, rssi 40, snr 12, valid");
    let p = status.get_prompt().to_string();
    assert!(p.contains("AM"));
    assert!(p.contains("101.1"));
    assert!(p.len() <= PROMPT_CAPACITY);
    assert_eq!(p, "\x1B[1;32mradio-cli \x1B[1;34mAM \x1B[1;33m101.1 MHz\x1B[1;32m)>\x1B[0m ");
}

#[test]
fn prompt_largest_frequency_fits() {
    let mut status = PromptStatus::new();
    status.set_mode(RadioMode::Off);
    status.set_frequency(u32::MAX);
    let p = status.get_prompt().to_string();
    assert!(p.len() <= PROMPT_CAPACITY);
    assert!(p.contains("4294967.3 MHz"));
    assert!(p.contains("Off"));
}

#[test]
fn prompt_rounds_to_tenths() {
    let mut status = PromptStatus::new();
    status.set_frequency(99_950);
    assert!(status.get_prompt().contains("100.0 MHz"));
    status.set_frequency(99_949);
    assert!(status.get_prompt().contains("99.9 MHz"));
}

#[test]
fn render_is_idempotent() {
    let mut status = PromptStatus::new();
    status.set_mode(RadioMode::AM);
    status.set_frequency(1_000);
    let first = status.get_prompt().to_string();
    let second = status.get_prompt().to_string();
    assert_eq!(first, second);
    assert_eq!(status.get_prompt_str(), first);
}

#[test]
fn other_notifications_leave_prompt() {
    let mut status = PromptStatus::new();
    let before = status.get_prompt().to_string();
    let m = cli_handle_notification(SystemNotify::VolumeChanged(7), &mut status);
    assert_eq!(m, "Notification: VolumeChanged(7)");
    assert_eq!(format!("Notification: {:?}", SystemNotify::VolumeChanged(7)), m);
    let rev = Revision { part_number: 35, firmware_major: 6, firmware_minor: 0, chip_revision: 3 };
    let m = cli_handle_notification(SystemNotify::RevisionInfo(rev), &mut status);
    assert_eq!(format!("Notification: {:?}", SystemNotify::RevisionInfo(rev)), m);
    let m = cli_handle_notification(SystemNotify::RadioMute, &mut status);
    assert_eq!(m, "Notification: RadioMute");
    let m = cli_handle_notification(SystemNotify::RadioUnmute, &mut status);
    assert_eq!(m, "Notification: RadioUnmute");
    assert_eq!(status.get_prompt(), before);
}

#[test]
fn grammar_volume_set() {
    let mut q = CommandQueue::new();
    assert_eq!(
        parse_command(b"volume set 42"),
        Ok(BaseCommand::Volume(VolumeCommand::SetLevel(42)))
    );
    let text = process_line(&mut q, b"volume set 42");
    assert!(text.contains("42"));
    assert_eq!(text, "Volume set to 42");
    assert_eq!(event_try_receive(&mut q), Some(SystemEvent::RadioVolumeSet(42)));
}

#[test]
fn grammar_tune_down_not_supported() {
    let mut q = CommandQueue::new();
    let text = process_line(&mut q, b"tune down");
    assert!(text.contains("not supported"));
    assert!(!q.is_occupied());
}

#[test]
fn grammar_unknown_verb() {
    let mut q = CommandQueue::new();
    let text = process_line(&mut q, b"frobnicate");
    assert_eq!(text, HELP);
    assert!(!q.is_occupied());
    assert_eq!(parse_command(b"frobnicate"), Err(ParseError::UnknownCommand));
}

#[test]
fn grammar_all_leaves() {
    assert_eq!(parse_command(b"mode fm"), Ok(BaseCommand::Mode(RadioMode::FM)));
    assert_eq!(parse_command(b"  mode   am "), Ok(BaseCommand::Mode(RadioMode::AM)));
    assert_eq!(parse_command(b"mode off"), Ok(BaseCommand::Mode(RadioMode::Off)));
    assert_eq!(parse_command(b"volume up"), Ok(BaseCommand::Volume(VolumeCommand::Up)));
    assert_eq!(parse_command(b"volume down"), Ok(BaseCommand::Volume(VolumeCommand::Down)));
    assert_eq!(parse_command(b"tune up"), Ok(BaseCommand::Tune(TuneCommand::Up)));
    assert_eq!(parse_command(b"tune down"), Ok(BaseCommand::Tune(TuneCommand::Down)));
    assert_eq!(
        parse_command(b"tune frequency 101.1"),
        Ok(BaseCommand::Tune(TuneCommand::Frequency(101_100)))
    );
    assert_eq!(parse_command(b"status"), Ok(BaseCommand::Status));
}

#[test]
fn grammar_errors() {
    assert_eq!(parse_command(b""), Err(ParseError::Empty));
    assert_eq!(parse_command(b"   "), Err(ParseError::Empty));
    assert_eq!(parse_command(b"mode"), Err(ParseError::MissingArgument));
    assert_eq!(parse_command(b"mode xm"), Err(ParseError::UnknownCommand));
    assert_eq!(parse_command(b"mode fm now"), Err(ParseError::UnexpectedArgument));
    assert_eq!(parse_command(b"status now"), Err(ParseError::UnexpectedArgument));
    assert_eq!(parse_command(b"volume set"), Err(ParseError::MissingArgument));
    assert_eq!(parse_command(b"volume set 256"), Err(ParseError::InvalidValue));
    assert_eq!(parse_command(b"volume set x"), Err(ParseError::InvalidValue));
    assert_eq!(parse_command(b"volume set 1 2"), Err(ParseError::UnexpectedArgument));
    assert_eq!(parse_command(b"tune frequency 1.2345"), Err(ParseError::InvalidValue));
    assert_eq!(parse_command(b"MODE fm"), Err(ParseError::UnknownCommand));
}

#[test]
fn volume_bounds() {
    assert_eq!(parse_command(b"volume set 0"), Ok(BaseCommand::Volume(VolumeCommand::SetLevel(0))));
    assert_eq!(parse_command(b"volume set 255"), Ok(BaseCommand::Volume(VolumeCommand::SetLevel(255))));
    assert_eq!(parse_command(b"volume set 0042"), Ok(BaseCommand::Volume(VolumeCommand::SetLevel(42))));
}

#[test]
fn frequency_forms() {
    assert_eq!(parse_frequency(b"101"), Some(101_000));
    assert_eq!(parse_frequency(b"101.1"), Some(101_100));
    assert_eq!(parse_frequency(b"101.15"), Some(101_150));
    assert_eq!(parse_frequency(b"0.531"), Some(531));
    assert_eq!(parse_frequency(b"999999.999"), Some(999_999_999));
    assert_eq!(parse_frequency(b"1000000"), None);
    assert_eq!(parse_frequency(b".5"), None);
    assert_eq!(parse_frequency(b"5."), None);
    assert_eq!(parse_frequency(b"1.2.3"), None);
    assert_eq!(parse_frequency(b""), None);
}

#[test]
fn feedback_texts() {
    assert_eq!(feedback_text(Ok(BaseCommand::Status)), "System status: All systems operational");
    assert_eq!(feedback_text(Ok(BaseCommand::Volume(VolumeCommand::Up))), "Volume increased");
    assert_eq!(feedback_text(Ok(BaseCommand::Volume(VolumeCommand::Down))), "Volume decreased");
    assert_eq!(feedback_text(Ok(BaseCommand::Tune(TuneCommand::Up))), "Tuning up");
    assert_eq!(feedback_text(Ok(BaseCommand::Mode(RadioMode::FM))), "");
    assert_eq!(feedback_text(Err(ParseError::Empty)), "");
    assert_eq!(feedback_text(Err(ParseError::InvalidValue)), "error: invalid value");
}

#[test]
fn process_line_drops_when_full() {
    let mut q = CommandQueue::new();
    process_line(&mut q, b"mode am");
    process_line(&mut q, b"mode fm");
    assert_eq!(event_try_receive(&mut q), Some(SystemEvent::RadioAmOn));
    assert_eq!(event_try_receive(&mut q), None);
}

#[test]
fn split_words_runs() {
    let ws = split_words(b" a  bc d ");
    assert_eq!(ws, vec![b"a".to_vec(), b"bc".to_vec(), b"d".to_vec()]);
}

#[test]
fn decimal_text() {
    assert_eq!(decimal_string(0), "0");
    assert_eq!(decimal_string(4_294_967_295), "4294967295");
}

#[test]
fn logger_levels() {
    let logger = SerialLogger::new();
    assert_eq!(SerialLogger::get_level_color(LogLevel::Error), "\x1B[0;31m");
    assert_eq!(SerialLogger::get_level_color(LogLevel::Warn), "\x1B[0;33m");
    assert_eq!(SerialLogger::get_level_color(LogLevel::Info), "\x1B[0;37m");
    assert_eq!(SerialLogger::get_level_color(LogLevel::Trace), "\x1B[0;37m");
    assert!(logger.enabled(LogLevel::Info));
    assert!(logger.enabled(LogLevel::Error));
    assert!(!logger.enabled(LogLevel::Debug));
    let _out = stdout_get();
}

#[test]
fn log_record_framing() {
    assert_eq!(
        SerialLogger::record_prefix(LogLevel::Warn, 1234, Some("main.rs")),
        "\x1B[0;33m[000000001234] <WARN> main.rs: "
    );
    assert_eq!(
        SerialLogger::record_prefix(LogLevel::Error, 0, None),
        "\x1B[0;31m[000000000000] <ERROR> unknown: "
    );
    assert_eq!(SerialLogger::record_suffix(), "\x1B[0m\r\n");
    assert_eq!(zero_padded_decimal(1_234_567_890_123, 12), "1234567890123");
    assert_eq!(zero_padded_decimal(7, 3), "007");
}

#[test]
fn same_bytes_fed_whatever_the_notifications() {
    fn fed(inputs: Vec<ConsoleInput>) -> Vec<u8> {
        let mut console = Console::new();
        let mut out = Vec::new();
        for input in inputs {
            if let ConsoleAction::Feed(b) = console.step(input) {
                out.push(b);
            }
        }
        out
    }
    let a = fed(vec![
        ConsoleInput::Byte(b'u'),
        ConsoleInput::Byte(b'p'),
        ConsoleInput::Byte(DEL),
    ]);
    let b = fed(vec![
        ConsoleInput::Notification(SystemNotify::RadioOff),
        ConsoleInput::Byte(b'u'),
        ConsoleInput::Notification(SystemNotify::RadioMute),
        ConsoleInput::Notification(tune(99_000)),
        ConsoleInput::Byte(b'p'),
        ConsoleInput::Byte(DEL),
        ConsoleInput::Notification(SystemNotify::VolumeChanged(1)),
    ]);
    assert_eq!(a, vec![b'u', b'p', BACKSPACE]);
    assert_eq!(a, b);
}
