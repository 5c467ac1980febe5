//! The decisions of the three tasks of the formatter (the reader of the
//! input, the listener for signals, the writer of the output) and of the
//! shutdown on a second termination signal. The tasks themselves, with their
//! channel, belong to the program that runs them.

use vstd::prelude::*;

use crate::extract::texts_of;
use crate::line::{is_output_of, render_line, FieldSpecs, SpecsView};
use crate::style::{piece, pieces_of, span_of, Piece, Role, Span};
use crate::text::{signed_decimal, signed_decimal_text};

verus! {

/// The signal number that stands for the end of the input. No signal of the
/// operating system has it.
pub const END_OF_INPUT: i32 = -1;

/// The exit status of a run that was stopped in good order.
pub const EXIT_GRACEFUL: i32 = 0;

/// The exit status of a run that a second termination signal cut short.
pub const EXIT_FORCED: i32 = 1;

/// What travels from the reader and the listener to the writer.
#[derive(Debug, PartialEq, Eq)]
pub enum Message {
    /// One line of input, as it was read.
    Line(String),
    /// A signal, by its number; `END_OF_INPUT` when the input has ended.
    Signal(i32),
}

/// The model of a `Message`.
pub enum MessageView {
    Line(Seq<char>),
    Signal(i32),
}

impl View for Message {
    type V = MessageView;

    open spec fn view(&self) -> MessageView {
        match *self {
            Message::Line(line) => MessageView::Line(line@),
            Message::Signal(signal) => MessageView::Signal(signal),
        }
    }
}

/// The models of a sequence of messages.
pub open spec fn message_views(queue: Seq<Message>) -> Seq<MessageView> {
    Seq::new(queue.len(), |i: int| queue[i]@)
}

/// The model of a message that may be missing.
pub open spec fn sent(message: Option<Message>) -> Option<MessageView> {
    match message {
        Some(m) => Some(m@),
        None => None,
    }
}

/// What one attempt to read a line of input gave.
#[derive(Debug, PartialEq, Eq)]
pub enum Read {
    Line(String),
    /// The line could not be read.
    Failed,
    /// The input has ended.
    End,
}

/// What the reader does after an attempt to read.
#[derive(Debug, PartialEq, Eq)]
pub struct ReaderStep {
    /// The message to send, if any.
    pub send: Option<Message>,
    /// Whether the reader goes on reading.
    pub go_on: bool,
}

/// What the writer does with a message.
#[derive(Debug, PartialEq, Eq)]
pub enum WriterStep {
    /// Write this line and take the next message.
    Write(String),
    /// Stop: this signal has arrived.
    Stop(i32),
}

/// One of the two handlers that are registered for each termination
/// signal.
#[derive(Debug, Clone, Copy, PartialEq, Eq)]
pub enum Handler {
    /// Ends the program with `EXIT_FORCED` if the flag is set.
    ExitIfArmed,
    /// Sets the flag.
    Arm,
}

/// What the reader sends after an attempt to read: the line that was read;
/// nothing for a read that failed; the end-of-input signal at the end of the
/// input.
pub open spec fn reader_sends(read: Read) -> Option<MessageView> {
    match read {
        Read::Line(line) => Some(MessageView::Line(line@)),
        Read::Failed => None,
        Read::End => Some(MessageView::Signal(END_OF_INPUT)),
    }
}

/// Whether the reader goes on after an attempt to read: until the input has
/// ended.
pub open spec fn reader_goes_on(read: Read) -> bool {
    !(read is End)
}

/// Decides what the reader does after an attempt to read.
pub fn after_read(read: Read) -> (r: ReaderStep)
    ensures
        sent(r.send) == reader_sends(read),
        r.go_on == reader_goes_on(read),
{
    match read {
        Read::Line(line) => ReaderStep { send: Some(Message::Line(line)), go_on: true },
        Read::Failed => ReaderStep { send: None, go_on: true },
        Read::End => ReaderStep { send: Some(Message::Signal(END_OF_INPUT)), go_on: false },
    }
}

/// The listener's decision on the first signal that it receives, after which
/// it stops listening: the signal that is reserved for ending the listener
/// is not passed on, any other is.
pub fn after_signal(signal: i32, reserved: i32) -> (r: Option<Message>)
    ensures
        sent(r) == if signal == reserved {
            None
        } else {
            Some(MessageView::Signal(signal))
        },
{
    if signal == reserved {
        None
    } else {
        Some(Message::Signal(signal))
    }
}

/// Whether a step is the writer's decision on a message: to write a line
/// of output for a line of input, and to stop on a signal, of whatever kind.
pub open spec fn is_writer_step(message: MessageView, specs: SpecsView, step: WriterStep) -> bool {
    match message {
        MessageView::Line(line) => match step {
            WriterStep::Write(out) => is_output_of(line, specs, out@),
            WriterStep::Stop(_) => false,
        },
        MessageView::Signal(signal) => step == WriterStep::Stop(signal),
    }
}

/// Decides what the writer does with a message: the line of a line of input
/// is written, and any signal stops the writer.
pub fn on_message(message: &Message, specs: &FieldSpecs) -> (r: WriterStep)
    ensures
        is_writer_step(message@, specs@, r),
{
    match message {
        Message::Line(line) => WriterStep::Write(render_line(line.as_str(), specs)),
        Message::Signal(signal) => WriterStep::Stop(*signal),
    }
}

/// Whether the first `n` messages of a queue are lines of input, and the
/// texts are the lines written for them, in order.
pub open spec fn are_outputs_of(
    queue: Seq<MessageView>,
    n: int,
    specs: SpecsView,
    written: Seq<String>,
) -> bool {
    &&& written.len() == n
    &&& 0 <= n <= queue.len()
    &&& forall|i: int|
        0 <= i < n ==> is_writer_step(#[trigger] queue[i], specs, WriterStep::Write(written[i]))
}

/// Runs the writer over a queue of messages, in their order: one line is
/// written for each line of input up to the first signal, which stops the
/// writer and is returned. No line is left out, added or moved, and nothing
/// behind the signal is looked at.
pub fn drain(queue: &Vec<Message>, specs: &FieldSpecs) -> (r: (Vec<String>, Option<i32>))
    ensures
        are_outputs_of(message_views(queue@), r.0@.len() as int, specs@, r.0@),
        match r.1 {
            Some(signal) => r.0@.len() < queue@.len() && message_views(queue@)[r.0@.len() as int]
                == MessageView::Signal(signal),
            None => r.0@.len() == queue@.len(),
        },
{
    let mut written: Vec<String> = Vec::new();
    let mut i: usize = 0;
    while i < queue.len()
        invariant
            0 <= i <= queue.len(),
            are_outputs_of(message_views(queue@), i as int, specs@, written@),
        decreases queue.len() - i,
    {
        match on_message(&queue[i], specs) {
            WriterStep::Write(out) => {
                written.push(out);
            },
            WriterStep::Stop(signal) => {
                return (written, Some(signal));
            },
        }
        i += 1;
    }
    (written, None)
}

/// The messages that the reader sends for an input of the given lines that
/// is read to its end: the lines in their order, then the end-of-input
/// signal.
pub open spec fn messages_of(lines: Seq<Seq<char>>) -> Seq<MessageView> {
    Seq::new(lines.len(), |i: int| MessageView::Line(lines[i])).push(
        MessageView::Signal(END_OF_INPUT),
    )
}

/// Runs the reader over an input that is read without failure to its end.
pub fn read_all(lines: &Vec<String>) -> (queue: Vec<Message>)
    ensures
        message_views(queue@) == messages_of(texts_of(lines@)),
{
    let mut queue: Vec<Message> = Vec::new();
    let mut i: usize = 0;
    while i < lines.len()
        invariant
            0 <= i <= lines.len(),
            message_views(queue@) == Seq::new(i as nat, |j: int| MessageView::Line(lines@[j]@)),
        decreases lines.len() - i,
    {
        let ghost before = message_views(queue@);
        let step = after_read(Read::Line(lines[i].clone()));
        match step.send {
            Some(message) => {
                queue.push(message);
                assert(message_views(queue@) =~= before.push(MessageView::Line(lines@[i as int]@)));
            },
            None => {},
        }
        assert(message_views(queue@) =~= Seq::new(
            (i + 1) as nat,
            |j: int| MessageView::Line(lines@[j]@),
        ));
        i += 1;
    }
    let ghost before = message_views(queue@);
    let step = after_read(Read::End);
    match step.send {
        Some(message) => {
            queue.push(message);
            assert(message_views(queue@) =~= before.push(MessageView::Signal(END_OF_INPUT)));
        },
        None => {},
    }
    assert(message_views(queue@) =~= messages_of(texts_of(lines@)));
    queue
}

/// Formats an input that is read to its end and meets no signal on the way:
/// one line is written for each line of input, in the order of the input.
pub fn run(lines: &Vec<String>, specs: &FieldSpecs) -> (written: Vec<String>)
    ensures
        written@.len() == lines@.len(),
        forall|i: int|
            0 <= i < lines@.len() ==> is_output_of(
                (#[trigger] lines@[i])@,
                specs@,
                written@[i]@,
            ),
{
    let queue = read_all(lines);
    let (written, stopped) = drain(&queue, specs);
    proof {
        let n = written@.len() as int;
        let end = lines@.len() as int;
        let messages = message_views(queue@);
        assert(messages[end] == MessageView::Signal(END_OF_INPUT));
        if n > end {
            assert(is_writer_step(messages[end], specs@, WriterStep::Write(written@[end])));
        }
        if n < end {
            assert(messages[n] == MessageView::Line(lines@[n]@));
        }
        assert forall|i: int| 0 <= i < lines@.len() implies is_output_of(
            (#[trigger] lines@[i])@,
            specs@,
            written@[i]@,
        ) by {
            assert(messages[i] == MessageView::Line(lines@[i]@));
            assert(is_writer_step(messages[i], specs@, WriterStep::Write(written@[i])));
        }
    }
    written
}

/// The handlers of a termination signal, in the order in which they are
/// registered and run: the one that ends the program first, then the one
/// that sets the flag.
pub open spec fn handlers_in_order() -> Seq<Handler> {
    seq![Handler::ExitIfArmed, Handler::Arm]
}

/// The handlers of a termination signal, in the order in which they are to
/// be registered.
pub fn shutdown_handlers() -> (r: Vec<Handler>)
    ensures
        r@ == handlers_in_order(),
{
    let mut r: Vec<Handler> = Vec::new();
    r.push(Handler::ExitIfArmed);
    r.push(Handler::Arm);
    assert(r@ =~= handlers_in_order());
    r
}

/// What the first `n` handlers do on one delivery of a termination signal,
/// run in their order on the flag: the flag after them, and the exit status
/// if one of them ended the program.
pub open spec fn delivered(armed: bool, handlers: Seq<Handler>, n: nat) -> (bool, Option<i32>)
    decreases n,
{
    if n == 0 || n > handlers.len() {
        (armed, None)
    } else {
        let (flag, exit) = delivered(armed, handlers, (n - 1) as nat);
        if exit is Some {
            (flag, exit)
        } else {
            match handlers[n - 1] {
                Handler::ExitIfArmed => if flag {
                    (flag, Some(EXIT_FORCED))
                } else {
                    (flag, None)
                },
                Handler::Arm => (true, None),
            }
        }
    }
}

/// Runs the handlers of a termination signal on one delivery of it, in
/// their order: the flag is updated, and the exit status is returned if a
/// handler ends the program.
pub fn deliver(armed: &mut bool, handlers: &Vec<Handler>) -> (exit: Option<i32>)
    ensures
        (*final(armed), exit) == delivered(*old(armed), handlers@, handlers@.len()),
{
    let mut i: usize = 0;
    while i < handlers.len()
        invariant
            0 <= i <= handlers.len(),
            (*armed, None::<i32>) == delivered(*old(armed), handlers@, i as nat),
        decreases handlers.len() - i,
    {
        match handlers[i] {
            Handler::ExitIfArmed => {
                if *armed {
                    proof {
                        exit_is_final(*old(armed), handlers@, (i + 1) as nat, handlers@.len());
                    }
                    return Some(EXIT_FORCED);
                }
            },
            Handler::Arm => {
                *armed = true;
            },
        }
        i += 1;
    }
    None
}

proof fn exit_is_final(armed: bool, handlers: Seq<Handler>, n: nat, m: nat)
    requires
        n <= m <= handlers.len(),
        delivered(armed, handlers, n).1 is Some,
    ensures
        delivered(armed, handlers, m) == delivered(armed, handlers, n),
    decreases m,
{
    if n < m {
        exit_is_final(armed, handlers, n, (m - 1) as nat);
    }
}

/// The shutdown protocol. With the handlers in their order, a termination
/// signal that finds the flag clear sets it and ends nothing, and one that
/// finds it set ends the program with `EXIT_FORCED`: the first signal of a
/// run asks for a stop in good order, the second forces the exit.
pub proof fn second_signal_forces_exit(armed: bool)
    ensures
        delivered(armed, handlers_in_order(), 2) == (
            true,
            if armed {
                Some(EXIT_FORCED)
            } else {
                None
            },
        ),
{
    reveal_with_fuel(delivered, 3);
}

/// With the two handlers in the other order every termination signal, the
/// first too, would set the flag and end the program in one delivery.
pub proof fn order_of_handlers_matters(armed: bool)
    ensures
        delivered(armed, seq![Handler::Arm, Handler::ExitIfArmed], 2) == (true, Some(EXIT_FORCED)),
{
    reveal_with_fuel(delivered, 3);
}

/// Whatever the handlers and their order: a delivery that ends the program
/// ends it with `EXIT_FORCED`, and it does so only if the flag was set
/// before or a handler set it on the way.
pub proof fn exit_is_forced(armed: bool, handlers: Seq<Handler>, n: nat)
    ensures
        delivered(armed, handlers, n).1 is Some ==> delivered(armed, handlers, n) == (
            true,
            Some(EXIT_FORCED),
        ),
        armed ==> delivered(armed, handlers, n).0,
    decreases n,
{
    if n != 0 && n <= handlers.len() {
        exit_is_forced(armed, handlers, (n - 1) as nat);
    }
}

/// The tag that begins every diagnostic.
pub open spec fn diagnostic_tag() -> Seq<char> {
    "<pretty-json-log>"@
}

/// The pieces of a diagnostic: the tag, a space, the message.
pub open spec fn diagnostic_pieces(message: Seq<char>) -> Seq<Piece> {
    seq![
        piece(diagnostic_tag(), Role::Muted),
        piece(" "@, Role::Plain),
        piece(message, Role::Plain),
    ]
}

/// The spans of a diagnostic.
pub fn program_log(message: &str) -> (out: Vec<Span>)
    ensures
        pieces_of(out@) == diagnostic_pieces(message@),
{
    let mut out: Vec<Span> = Vec::new();
    out.push(span_of("<pretty-json-log>", Role::Muted));
    out.push(span_of(" ", Role::Plain));
    out.push(span_of(message, Role::Plain));
    assert(pieces_of(out@) =~= diagnostic_pieces(message@));
    out
}

/// The message of the diagnostic that reports a signal.
pub fn signal_notice(signal: i32) -> (r: String)
    ensures
        r@ == "Received signal "@ + signed_decimal(signal as int),
{
    let mut r = String::from_str("Received signal ");
    let number = signed_decimal_text(signal as i64);
    r.append(number.as_str());
    r
}

} // verus!
