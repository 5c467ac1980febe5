use pretty_json_log::line::{Config, FieldSpecs};
use pretty_json_log::pipeline::{
    after_read, after_signal, deliver, drain, on_message, program_log, read_all, run,
    shutdown_handlers, signal_notice, Handler, Message, Read, ReaderStep, WriterStep,
    END_OF_INPUT, EXIT_FORCED, EXIT_GRACEFUL,
};
use pretty_json_log::style::{plain, style_for, Role, Span};

fn specs() -> FieldSpecs {
    FieldSpecs::new(&Config::default())
}

fn line(text: &str) -> Message {
    Message::Line(String::from(text))
}

#[test]
fn exit_statuses_and_the_end_of_input() {
    assert_eq!(EXIT_GRACEFUL, 0);
    assert_eq!(EXIT_FORCED, 1);
    assert_eq!(END_OF_INPUT, -1);
}

#[test]
fn reader_sends_each_line_and_goes_on() {
    assert_eq!(
        after_read(Read::Line(String::from("{\"a\":1}"))),
        ReaderStep { send: Some(line("{\"a\":1}")), go_on: true }
    );
    assert_eq!(
        after_read(Read::Line(String::new())),
        ReaderStep { send: Some(line("")), go_on: true }
    );
}

#[test]
fn reader_skips_a_failed_read_and_goes_on() {
    assert_eq!(after_read(Read::Failed), ReaderStep { send: None, go_on: true });
}

#[test]
fn reader_ends_with_the_end_of_input_signal() {
    assert_eq!(
        after_read(Read::End),
        ReaderStep { send: Some(Message::Signal(END_OF_INPUT)), go_on: false }
    );
}

#[test]
fn listener_passes_termination_signals_on() {
    assert_eq!(after_signal(15, 10), Some(Message::Signal(15)));
    assert_eq!(after_signal(2, 10), Some(Message::Signal(2)));
    assert_eq!(after_signal(1, 10), Some(Message::Signal(1)));
    assert_eq!(after_signal(3, 10), Some(Message::Signal(3)));
}

#[test]
fn listener_keeps_the_reserved_signal_to_itself() {
    assert_eq!(after_signal(10, 10), None);
}

#[test]
fn writer_writes_a_line_for_a_line() {
    assert_eq!(
        on_message(&line("not json"), &specs()),
        WriterStep::Write(String::from("not json"))
    );
    assert_eq!(on_message(&line("[1,2,3]"), &specs()), WriterStep::Write(String::from("None")));
}

#[test]
fn writer_stops_on_any_signal() {
    assert_eq!(on_message(&Message::Signal(15), &specs()), WriterStep::Stop(15));
    assert_eq!(on_message(&Message::Signal(2), &specs()), WriterStep::Stop(2));
    assert_eq!(
        on_message(&Message::Signal(END_OF_INPUT), &specs()),
        WriterStep::Stop(END_OF_INPUT)
    );
}

#[test]
fn drain_writes_every_line_in_order_up_to_the_end_of_input() {
    let queue = vec![line("first"), line("[2]"), line("third"), Message::Signal(END_OF_INPUT)];
    assert_eq!(
        drain(&queue, &specs()),
        (
            vec![String::from("first"), String::from("None"), String::from("third")],
            Some(END_OF_INPUT)
        )
    );
}

#[test]
fn drain_writes_what_was_queued_before_a_termination_signal() {
    let queue = vec![line("a"), line("b"), Message::Signal(15), line("c"), Message::Signal(2)];
    assert_eq!(
        drain(&queue, &specs()),
        (vec![String::from("a"), String::from("b")], Some(15))
    );
}

#[test]
fn drain_of_a_queue_without_a_signal() {
    assert_eq!(drain(&vec![line("a")], &specs()), (vec![String::from("a")], None));
    assert_eq!(drain(&Vec::new(), &specs()), (Vec::new(), None));
}

#[test]
fn drain_stops_at_once_on_a_signal_in_first_place() {
    assert_eq!(drain(&vec![Message::Signal(1), line("a")], &specs()), (Vec::new(), Some(1)));
}

#[test]
fn read_all_queues_the_lines_and_the_end_of_input() {
    assert_eq!(
        read_all(&vec![String::from("x"), String::from("y")]),
        vec![line("x"), line("y"), Message::Signal(END_OF_INPUT)]
    );
    assert_eq!(read_all(&Vec::new()), vec![Message::Signal(END_OF_INPUT)]);
}

#[test]
fn run_writes_one_line_for_each_line_of_input() {
    let input = vec![
        String::from("{\"level\":\"info\",\"msg\":\"one\"}"),
        String::from("plain"),
        String::from("{\"level\":\"warn\",\"msg\":\"two\"}"),
        String::from("[]"),
        String::from("{\"level\":\"error\",\"msg\":\"three\"}"),
    ];
    let written = run(&input, &specs());
    assert_eq!(written.len(), input.len());
    assert!(written[0].contains("one") && written[0].contains("INFO"));
    assert_eq!(written[1], "plain");
    assert!(written[2].contains("two") && written[2].contains("WARN"));
    assert_eq!(written[3], "None");
    assert!(written[4].contains("three") && written[4].contains("ERROR"));
    assert_eq!(run(&Vec::new(), &specs()), Vec::<String>::new());
}

#[test]
fn handlers_are_registered_with_the_exit_first() {
    assert_eq!(shutdown_handlers(), vec![Handler::ExitIfArmed, Handler::Arm]);
}

#[test]
fn first_termination_signal_arms_and_second_forces_the_exit() {
    let handlers = shutdown_handlers();
    let mut armed = false;
    assert_eq!(deliver(&mut armed, &handlers), None);
    assert!(armed);
    assert_eq!(deliver(&mut armed, &handlers), Some(EXIT_FORCED));
    assert!(armed);
    assert_eq!(deliver(&mut armed, &handlers), Some(1));
}

#[test]
fn handlers_in_the_other_order_end_the_program_on_the_first_signal() {
    let mut armed = false;
    assert_eq!(deliver(&mut armed, &vec![Handler::Arm, Handler::ExitIfArmed]), Some(EXIT_FORCED));
    assert!(armed);
}

#[test]
fn deliver_with_one_handler_or_none() {
    let mut armed = false;
    assert_eq!(deliver(&mut armed, &Vec::new()), None);
    assert!(!armed);
    assert_eq!(deliver(&mut armed, &vec![Handler::ExitIfArmed]), None);
    assert!(!armed);
    assert_eq!(deliver(&mut armed, &vec![Handler::Arm]), None);
    assert!(armed);
    assert_eq!(deliver(&mut armed, &vec![Handler::ExitIfArmed]), Some(EXIT_FORCED));
}

#[test]
fn diagnostic_begins_with_the_tag() {
    let spans = program_log("Stopping");
    assert_eq!(
        spans,
        vec![
            Span { text: String::from("<pretty-json-log>"), style: style_for(Role::Muted) },
            Span { text: String::from(" "), style: style_for(Role::Plain) },
            Span { text: String::from("Stopping"), style: style_for(Role::Plain) },
        ]
    );
    assert_eq!(plain(&spans), "<pretty-json-log> Stopping");
}

#[test]
fn signal_notice_names_the_signal() {
    assert_eq!(signal_notice(15), "Received signal 15");
    assert_eq!(signal_notice(END_OF_INPUT), "Received signal -1");
    assert_eq!(signal_notice(i32::MIN), "Received signal -2147483648");
}
