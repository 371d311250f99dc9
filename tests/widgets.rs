use termwidgets::command::{Command, CommandInfo, Key, Modifiers};
use termwidgets::error::ConfigError;
use termwidgets::help::HelpComponent;
use termwidgets::scroll::adjust;
use termwidgets::spinner::{Spinner, SpinnerData, SpinnerStyle};
use termwidgets::stopwatch::StopWatch;
use termwidgets::timer::Timer;

#[test]
fn adjust_follows_selection() {
    assert_eq!(adjust(None, 10, 3, 4), 4);
    assert_eq!(adjust(Some(1), 10, 3, 4), 1);
    assert_eq!(adjust(Some(8), 10, 3, 4), 6);
    assert_eq!(adjust(Some(5), 10, 3, 4), 4);
    assert_eq!(adjust(Some(2), 3, 5, 0), 0);
}

const CTRL: Modifiers = Modifiers { control: true, other: false };
const NONE: Modifiers = Modifiers { control: false, other: false };

#[test]
fn keys_map_to_commands() {
    assert_eq!(Command::describe(Key::Char('c'), CTRL), Command::ControlC);
    assert_eq!(
        Command::describe(Key::Char('c'), Modifiers { control: true, other: true }),
        Command::Help
    );
    assert_eq!(Command::describe(Key::Char('q'), NONE), Command::Quit);
    assert_eq!(Command::describe(Key::Char('/'), CTRL), Command::Filter);
    assert_eq!(Command::describe(Key::Enter, NONE), Command::Enter);
    assert_eq!(Command::describe(Key::Backspace, NONE), Command::Backspace);
    assert_eq!(Command::describe(Key::Tab, NONE), Command::Help);
    assert_eq!(Command::Quit.key(), "q");
    assert_eq!(Command::Up.key(), "\u{2191}/h");
    assert_eq!(Command::ControlC.as_str(), "exit");
    assert_eq!(Command::Esc.as_str(), "cancel");
}

#[test]
fn command_info_and_help_modes() {
    let info = CommandInfo::new(Key::Char('c'), CTRL);
    assert_eq!(info.key, "cntrl+c");
    assert_eq!(info.description, "exit");
    let normal = vec![CommandInfo::new(Key::Char('q'), NONE)];
    let filter = vec![CommandInfo::new(Key::Esc, NONE), CommandInfo::new(Key::Enter, NONE)];
    let mut help = HelpComponent::new(normal, filter);
    assert_eq!(help.active_commands().len(), 1);
    help.activate_filter_mode();
    assert_eq!(help.active_commands().len(), 2);
    assert_eq!(help.active_commands()[0].description, "cancel");
    help.deactivate_filter_mode();
    assert_eq!(help.active_commands()[0].description, "quit");
    assert_eq!(help.normal_commands().len(), 1);
}

fn styles() -> Vec<SpinnerStyle> {
    vec![
        SpinnerStyle {
            name: "Line",
            data: SpinnerData { frames: vec!["-", "\\", "|", "/"], interval: 130 },
        },
        SpinnerStyle { name: "Blank", data: SpinnerData { frames: vec![], interval: 10 } },
    ]
}

#[test]
fn spinner_cycles_frames_while_running() {
    let mut s = Spinner::new("Loading".to_string(), "Line", &styles()).unwrap();
    assert!(!s.is_running());
    assert_eq!(s.tick(), None);
    assert!(s.start());
    assert!(!s.start());
    let shown: Vec<&str> = (0..5).map(|_| s.tick().unwrap()).collect();
    assert_eq!(shown, vec!["-", "\\", "|", "/", "-"]);
    assert_eq!(s.current_frame(), 1);
    s.stop();
    s.stop();
    assert_eq!(s.tick(), None);
    assert_eq!(s.current_frame(), 1);
    assert_eq!(s.interval(), 130);
    assert_eq!(s.message(), "Loading");
}

#[test]
fn spinner_rejects_unknown_or_empty_style() {
    assert!(matches!(
        Spinner::new("m".to_string(), "Nope", &styles()),
        Err(ConfigError::UnknownStyle)
    ));
    assert!(matches!(
        Spinner::new("m".to_string(), "Blank", &styles()),
        Err(ConfigError::NoFrames)
    ));
    assert!(!ConfigError::NoFrames.message().is_empty());
}

#[test]
fn stopwatch_formats_elapsed_time() {
    assert_eq!(StopWatch::format_duration(0), "Elapsed: 000ms");
    assert_eq!(StopWatch::format_duration(45), "Elapsed: 045ms");
    assert_eq!(StopWatch::format_duration(1234), "Elapsed: 1.234s");
    assert_eq!(StopWatch::format_duration(61_005), "Elapsed: 1:01.005m");
    assert_eq!(StopWatch::format_duration(3_723_004), "Elapsed: 1:02:03.004h");
}

#[test]
fn stopwatch_pauses_and_resumes() {
    let mut w = StopWatch::started_at(1_000);
    assert_eq!(w.elapsed_at(1_500), 500);
    assert_eq!(w.elapsed_at(900), 0);
    w.toggle();
    assert_eq!(w.elapsed_at(1_500), 0);
    w.toggle();
    assert_eq!(w.elapsed_at(2_000), 1_000);
    w.reset_at(5_000);
    assert_eq!(w.elapsed_at(5_250), 250);
    let live = StopWatch::new();
    assert!(live.elapsed() < 60_000);
}

#[test]
fn timer_counts_down_and_formats() {
    let t = Timer::started_at(10_000, 2_000);
    assert_eq!(t.remaining_at(10_500), 1_500);
    assert_eq!(t.remaining_at(12_000), 0);
    assert_eq!(t.remaining_at(20_000), 0);
    assert_eq!(Timer::format_remaining(999), "Exiting in 999ms");
    assert_eq!(Timer::format_remaining(59_001), "Exiting in 59.001s");
    assert_eq!(Timer::format_remaining(61_005), "Exiting in 1:61.005m");
    assert_eq!(Timer::format_remaining(3_723_004), "Exiting in 1:62:3723.004h");
    let live = Timer::new(60_000);
    let left = live.time_remaining();
    assert!(left <= 60_000 && left > 0);
    assert!(live.format_duration().starts_with("Exiting in "));
}
