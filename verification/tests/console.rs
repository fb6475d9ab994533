use monado_gui::ansi::{colour_of, plain_text, spans, ConsoleColour, Piece, Span};
use monado_gui::channel::{Polled, OUTPUT_CHANNEL_CAPACITY};
use monado_gui::console::{show, update};
use monado_gui::control_panel::copy_clicked;
use monado_gui::io::{absorb, special_text_area, Io, MainConsole};
use monado_gui::log_options::LoggingEnvVars;
use monado_gui::monado_control::MonadoControl;
use monado_gui::process::{ProcessHandle, WaitOutcome};
use monado_gui::pump::{OutputPump, PumpCommand, PumpEvent, PumpExit};
use monado_gui::rex_app::RexApp;
use std::sync::mpsc::sync_channel;

fn span(text: &str, colour: ConsoleColour) -> Span {
    Span { text: text.to_string(), colour }
}

#[test]
fn capacity_of_the_output_channel() {
    assert_eq!(OUTPUT_CHANNEL_CAPACITY, 64000);
}

#[test]
fn panel_channel_holds_its_capacity_and_no_more() {
    let app = RexApp::new(LoggingEnvVars::default());
    let sender = app.sender();
    for _ in 0..OUTPUT_CHANNEL_CAPACITY {
        assert!(sender.try_send(String::new()).is_ok());
    }
    assert!(sender.try_send(String::new()).is_err());
    assert_eq!(app.stdout_receiver.try_recv().ok(), Some(String::new()));
    assert!(app.stdout_sender.try_send(String::new()).is_ok());
    assert!(app.stdout_sender.try_send(String::new()).is_err());
}

#[test]
fn absorb_appends_a_line() {
    let mut buffer = String::from("a\n");
    assert!(absorb(&mut buffer, Polled::Line("b\n".to_string())));
    assert_eq!(buffer, "a\nb\n");
    assert!(!absorb(&mut buffer, Polled::Empty));
    assert!(!absorb(&mut buffer, Polled::Disconnected));
    assert_eq!(buffer, "a\nb\n");
}

#[test]
fn new_console_is_empty() {
    let (_sender, receiver) = sync_channel::<String>(4);
    let console = MainConsole::new(receiver);
    assert_eq!(console.input, "");
    let (_sender, receiver) = sync_channel::<String>(4);
    let io = Io::new(receiver);
    assert_eq!(io.main_console.input, "");
}

#[test]
fn console_takes_one_line_a_tick() {
    let (sender, receiver) = sync_channel::<String>(4);
    let mut console = MainConsole::new(receiver);
    assert!(!console.update());
    assert_eq!(console.input, "");
    sender.send("one\n".to_string()).unwrap();
    sender.send("two\n".to_string()).unwrap();
    assert!(console.update());
    assert_eq!(console.input, "one\n");
    assert!(console.update());
    assert_eq!(console.input, "one\ntwo\n");
    assert!(!console.update());
    assert_eq!(console.input, "one\ntwo\n");
    drop(sender);
    assert!(!console.update());
    assert_eq!(console.input, "one\ntwo\n");
}

#[test]
fn console_absorb_and_clear() {
    let (_sender, receiver) = sync_channel::<String>(4);
    let mut console = MainConsole::new(receiver);
    assert!(console.absorb(Polled::Line("x".to_string())));
    assert!(!console.absorb(Polled::Empty));
    assert_eq!(console.input, "x");
    console.clear();
    assert_eq!(console.input, "");
}

#[test]
fn control_hands_out_senders_into_the_same_channel() {
    let (sender, receiver) = sync_channel::<String>(4);
    let control = MonadoControl::new(sender);
    let first = control.sender();
    let second = control.sender();
    first.send("a".to_string()).unwrap();
    second.send("b".to_string()).unwrap();
    control.stdout_sender.send("c".to_string()).unwrap();
    assert_eq!(receiver.try_recv().ok(), Some("a".to_string()));
    assert_eq!(receiver.try_recv().ok(), Some("b".to_string()));
    assert_eq!(receiver.try_recv().ok(), Some("c".to_string()));
    assert!(receiver.try_recv().is_err());
}

#[test]
fn colours_of_graphics_modes() {
    assert_eq!(colour_of(&vec![]), ConsoleColour::Gray);
    assert_eq!(colour_of(&vec![31]), ConsoleColour::Gray);
    assert_eq!(colour_of(&vec![0, 30]), ConsoleColour::Gray);
    assert_eq!(colour_of(&vec![0, 31]), ConsoleColour::Red);
    assert_eq!(colour_of(&vec![0, 32]), ConsoleColour::Green);
    assert_eq!(colour_of(&vec![1, 33]), ConsoleColour::Yellow);
    assert_eq!(colour_of(&vec![0, 34]), ConsoleColour::Blue);
    assert_eq!(colour_of(&vec![0, 35]), ConsoleColour::Magenta);
    assert_eq!(colour_of(&vec![0, 36]), ConsoleColour::Cyan);
    assert_eq!(colour_of(&vec![0, 37, 1]), ConsoleColour::White);
    assert_eq!(colour_of(&vec![0, 38]), ConsoleColour::Gray);
    assert_eq!(colour_of(&vec![31, 0]), ConsoleColour::Gray);
}

#[test]
fn spans_take_the_colour_of_the_last_escape() {
    let pieces = vec![
        Piece::Text("plain ".to_string()),
        Piece::Graphics(vec![0, 31]),
        Piece::Text("red ".to_string()),
        Piece::Text("still red ".to_string()),
        Piece::Other,
        Piece::Text("gray ".to_string()),
        Piece::Graphics(vec![1, 32]),
        Piece::Graphics(vec![0]),
        Piece::Text("gray again".to_string()),
        Piece::Graphics(vec![0, 34]),
    ];
    assert_eq!(
        spans(&pieces),
        vec![
            span("plain ", ConsoleColour::Gray),
            span("red ", ConsoleColour::Red),
            span("still red ", ConsoleColour::Red),
            span("gray ", ConsoleColour::Gray),
            span("gray again", ConsoleColour::Gray),
        ]
    );
    assert!(spans(&vec![]).is_empty());
}

#[test]
fn plain_text_leaves_escapes_out() {
    let pieces = vec![
        Piece::Graphics(vec![0, 31]),
        Piece::Text("red".to_string()),
        Piece::Other,
        Piece::Text(" and ".to_string()),
        Piece::Graphics(vec![]),
        Piece::Text("plain".to_string()),
    ];
    assert_eq!(plain_text(&pieces), "red and plain");
    assert_eq!(plain_text(&vec![]), "");
}

#[test]
fn text_area_colours_parsed_text() {
    let (_sender, receiver) = sync_channel::<String>(4);
    let mut console = MainConsole::new(receiver);
    console.absorb(Polled::Line("boot\n\u{1b}[0;31merror\u{1b}[0m\n\u{1b}[1;32mok\n".to_string()));
    assert_eq!(
        special_text_area(&console),
        vec![
            span("boot\n", ConsoleColour::Gray),
            span("error", ConsoleColour::Red),
            span("\n", ConsoleColour::Gray),
            span("ok\n", ConsoleColour::Green),
        ]
    );
    assert_eq!(console.copy_to_clipboard(), "boot\nerror\nok\n");
}

#[test]
fn text_area_of_plain_text() {
    let (_sender, receiver) = sync_channel::<String>(4);
    let mut console = MainConsole::new(receiver);
    assert!(special_text_area(&console).is_empty());
    assert_eq!(console.copy_to_clipboard(), "");
    console.absorb(Polled::Line("no escapes\n".to_string()));
    assert_eq!(special_text_area(&console), vec![span("no escapes\n", ConsoleColour::Gray)]);
    assert_eq!(console.copy_to_clipboard(), "no escapes\n");
}

#[test]
fn copy_click_strips_escapes() {
    let mut app = RexApp::new(LoggingEnvVars::default());
    app.console.push_str("\u{1b}[0;33mwarn\u{1b}[0m: \u{1b}[2Jtext\n");
    assert_eq!(copy_clicked(&app), "warn: text\n");
    assert_eq!(app.console, "\u{1b}[0;33mwarn\u{1b}[0m: \u{1b}[2Jtext\n");
}

#[test]
fn show_appends_and_lays_out() {
    let mut app = RexApp::new(LoggingEnvVars::default());
    let shown = show(&mut app, Polled::Line("\u{1b}[0;36mcyan\n".to_string()));
    assert_eq!(shown, vec![span("cyan\n", ConsoleColour::Cyan)]);
    let shown = show(&mut app, Polled::Empty);
    assert_eq!(shown, vec![span("cyan\n", ConsoleColour::Cyan)]);
    let shown = show(&mut app, Polled::Line("more\n".to_string()));
    assert_eq!(app.console, "\u{1b}[0;36mcyan\nmore\n");
    assert_eq!(shown, vec![span("cyan\nmore\n", ConsoleColour::Cyan)]);
    let shown = show(&mut app, Polled::Line("\u{1b}[0;31mred\n".to_string()));
    assert_eq!(
        shown,
        vec![span("cyan\nmore\n", ConsoleColour::Cyan), span("red\n", ConsoleColour::Red)]
    );
    let shown = show(&mut app, Polled::Disconnected);
    assert_eq!(shown.len(), 2);
}

#[test]
fn panel_console_follows_its_own_channel() {
    let mut app = RexApp::new(LoggingEnvVars::default());
    assert!(update(&mut app).is_empty());
    let sender = app.sender();
    sender.send("first\n".to_string()).unwrap();
    app.stdout_sender.send("second\n".to_string()).unwrap();
    assert_eq!(update(&mut app), vec![span("first\n", ConsoleColour::Gray)]);
    assert_eq!(app.console, "first\n");
    update(&mut app);
    assert_eq!(app.console, "first\nsecond\n");
    update(&mut app);
    assert_eq!(app.console, "first\nsecond\n");
}

#[test]
fn output_is_drained_in_order_and_not_replayed() {
    let mut app = RexApp::new(LoggingEnvVars::default());
    let sender = app.sender();
    let mut handle = ProcessHandle::spawned(90);
    let mut pump = OutputPump::new(handle.take_output_pipe().unwrap());
    for text in ["a\n", "b\n", "c\n"] {
        pump.step(PumpEvent::Probed(WaitOutcome::StillAlive));
        pump.step(PumpEvent::PipeOpened(true));
        pump.step(PumpEvent::LineRead(Some(text.to_string())));
        assert_eq!(pump.deliver(&sender), PumpCommand::Probe(90));
    }
    assert_eq!(
        pump.step(PumpEvent::Probed(WaitOutcome::Exited)),
        PumpCommand::Stop(PumpExit::ChildExited)
    );
    for _ in 0..3 {
        update(&mut app);
    }
    assert_eq!(app.console, "a\nb\nc\n");
    for _ in 0..3 {
        update(&mut app);
    }
    assert_eq!(app.console, "a\nb\nc\n");
}
