//! Forwarding the backend's output to the shell's own diagnostics, each line
//! marked with the stream it came from.

use vstd::prelude::*;

verus! {

/// One event of the backend's multiplexed output stream.
#[derive(Debug)]
pub enum BackendEvent {
    /// Bytes written to standard output.
    Stdout(Vec<u8>),
    /// Bytes written to standard error.
    Stderr(Vec<u8>),
    /// The process has ended.
    Exit,
    /// Anything else the process layer reports; it carries no output.
    Other,
}

/// The diagnostic channel a line is forwarded to.
#[derive(Clone, Copy, Debug, PartialEq, Eq, Structural)]
pub enum LogChannel {
    Output,
    Error,
}

/// A forwarded line: where it goes and what it says, prefix included.
#[derive(Debug)]
pub struct LogLine {
    pub channel: LogChannel,
    pub text: String,
}

/// A forwarded line as a value of the model.
pub struct LogRecord {
    pub channel: LogChannel,
    pub text: Seq<char>,
}

impl View for LogLine {
    type V = LogRecord;

    open spec fn view(&self) -> LogRecord {
        LogRecord { channel: self.channel, text: self.text@ }
    }
}

/// The text that lossy UTF-8 decoding gives for these bytes: valid sequences
/// are kept, each invalid one becomes the replacement character.
pub uninterp spec fn lossy_text(bytes: Seq<u8>) -> Seq<char>;

/// The mark put in front of a line of the given channel.
pub open spec fn channel_prefix(channel: LogChannel) -> Seq<char> {
    match channel {
        LogChannel::Output => "[PY] "@,
        LogChannel::Error => "[PY ERR] "@,
    }
}

/// A line of the given channel with the given text.
pub open spec fn labelled(channel: LogChannel, text: Seq<char>) -> LogRecord {
    LogRecord { channel, text: channel_prefix(channel) + text }
}

/// The channel an event's output goes to, if it carries any.
pub open spec fn channel_of(event: BackendEvent) -> Option<LogChannel> {
    match event {
        BackendEvent::Stdout(_) => Some(LogChannel::Output),
        BackendEvent::Stderr(_) => Some(LogChannel::Error),
        _ => None,
    }
}

/// The bytes an event carries.
pub open spec fn payload_of(event: BackendEvent) -> Seq<u8> {
    match event {
        BackendEvent::Stdout(bytes) => bytes@,
        BackendEvent::Stderr(bytes) => bytes@,
        _ => Seq::<u8>::empty(),
    }
}

/// What is forwarded for one event: a labelled line for output, nothing else.
pub open spec fn forwarded(event: BackendEvent) -> Option<LogRecord> {
    match channel_of(event) {
        Some(channel) => Some(labelled(channel, lossy_text(payload_of(event)))),
        None => None,
    }
}

/// What is forwarded for a run of events: the line of each event that carries
/// output, in the order of the events.
pub open spec fn drained(events: Seq<BackendEvent>) -> Seq<LogRecord>
    decreases events.len(),
{
    if events.len() == 0 {
        Seq::<LogRecord>::empty()
    } else {
        let earlier = drained(events.drop_last());
        match forwarded(events.last()) {
            Some(line) => earlier.push(line),
            None => earlier,
        }
    }
}

/// `String::from_utf8_lossy`, made an owned string: the result is the lossy
/// decoding of the bytes, which depends on the bytes alone. Never fails.
#[verifier::external_body]
fn decode_lossy(bytes: &[u8]) -> (text: String)
    ensures
        text@ == lossy_text(bytes@),
{
    String::from_utf8_lossy(bytes).into_owned()
}

/// `String::push_str`: the target afterwards is what it was, followed by the
/// text.
#[verifier::external_body]
fn push_text(target: &mut String, text: &str)
    ensures
        final(target)@ == old(target)@ + text@,
{
    target.push_str(text)
}

/// Puts the channel's mark in front of a decoded text.
pub fn label(channel: LogChannel, text: &str) -> (line: LogLine)
    ensures
        line@ == labelled(channel, text@),
{
    let mut marked = match channel {
        LogChannel::Output => "[PY] ".to_owned(),
        LogChannel::Error => "[PY ERR] ".to_owned(),
    };
    push_text(&mut marked, text);
    LogLine { channel, text: marked }
}

/// Decodes the output an event carries and labels it; an event without output
/// forwards nothing. Bytes that are not valid text are replaced, never dropped.
pub fn forward(event: &BackendEvent) -> (line: Option<LogLine>)
    ensures
        match forwarded(*event) {
            Some(record) => line.is_some() && line.unwrap()@ == record,
            None => line.is_none(),
        },
{
    match event {
        BackendEvent::Stdout(bytes) => {
            let text = decode_lossy(bytes.as_slice());
            Some(label(LogChannel::Output, text.as_str()))
        },
        BackendEvent::Stderr(bytes) => {
            let text = decode_lossy(bytes.as_slice());
            Some(label(LogChannel::Error, text.as_str()))
        },
        _ => None,
    }
}

/// The views of the lines in a vector.
pub open spec fn records_of(lines: Seq<LogLine>) -> Seq<LogRecord> {
    lines.map_values(|line: LogLine| line@)
}

/// Forwards a run of events that has already arrived.
pub fn drain(events: &Vec<BackendEvent>) -> (lines: Vec<LogLine>)
    ensures
        records_of(lines@) == drained(events@),
{
    let mut lines: Vec<LogLine> = Vec::new();
    let mut i: usize = 0;
    assert(events@.take(0) =~= Seq::<BackendEvent>::empty());
    assert(records_of(lines@) =~= drained(events@.take(0)));
    while i < events.len()
        invariant
            i <= events.len(),
            records_of(lines@) == drained(events@.take(i as int)),
        decreases events.len() - i,
    {
        let ghost before = lines@;
        let line = forward(&events[i]);
        proof {
            let upto = events@.take(i + 1);
            assert(upto.drop_last() =~= events@.take(i as int));
            assert(upto.last() == events@[i as int]);
        }
        match line {
            Some(line) => {
                lines.push(line);
                assert(records_of(lines@) =~= records_of(before).push(line@));
            },
            None => {},
        }
        i = i + 1;
    }
    assert(events@.take(i as int) =~= events@);
    lines
}

/// Forwarding keeps the order of arrival: the lines of two runs of events, one
/// after the other, are the lines of the first followed by those of the second.
pub proof fn lemma_drained_concat(first: Seq<BackendEvent>, second: Seq<BackendEvent>)
    ensures
        drained(first + second) == drained(first) + drained(second),
    decreases second.len(),
{
    if second.len() == 0 {
        assert(first + second =~= first);
        assert(drained(first) + drained(second) =~= drained(first));
    } else {
        let whole = first + second;
        assert(whole.drop_last() =~= first + second.drop_last());
        assert(whole.last() == second.last());
        lemma_drained_concat(first, second.drop_last());
        match forwarded(second.last()) {
            Some(line) => {
                assert(drained(whole) =~= drained(first) + drained(second));
            },
            None => {},
        }
    }
}

/// Every line is forwarded exactly once and in arrival order per stream: the
/// lines on a channel are the lines of the events of that channel's stream, one
/// for each, in the order of those events.
pub proof fn lemma_drained_per_stream(events: Seq<BackendEvent>, channel: LogChannel)
    ensures
        drained(events).filter(|line: LogRecord| line.channel == channel) == drained(
            events.filter(|event: BackendEvent| channel_of(event) == Some(channel)),
        ),
        drained(events.filter(|event: BackendEvent| channel_of(event) == Some(channel))).len()
            == events.filter(|event: BackendEvent| channel_of(event) == Some(channel)).len(),
    decreases events.len(),
{
    let on_channel = |line: LogRecord| line.channel == channel;
    let from_stream = |event: BackendEvent| channel_of(event) == Some(channel);
    reveal(Seq::filter);
    if events.len() == 0 {
        assert(drained(events).filter(on_channel) =~= drained(events.filter(from_stream)));
    } else {
        let earlier = events.drop_last();
        let last = events.last();
        lemma_drained_per_stream(earlier, channel);
        assert(events =~= earlier.push(last));
        earlier.lemma_filter_push(last, from_stream);
        let kept = earlier.filter(from_stream);
        match forwarded(last) {
            Some(line) => {
                drained(earlier).lemma_filter_push(line, on_channel);
                if from_stream(last) {
                    assert(kept.push(last).drop_last() =~= kept);
                }
            },
            None => {},
        }
    }
}

/// Lines of the two channels are told apart by their marks: whatever the texts,
/// a line of standard output never equals a line of standard error.
pub proof fn lemma_channels_distinguishable(out_text: Seq<char>, err_text: Seq<char>)
    ensures
        labelled(LogChannel::Output, out_text).text != labelled(LogChannel::Error, err_text).text,
{
    reveal_strlit("[PY] ");
    reveal_strlit("[PY ERR] ");
    let out_line = labelled(LogChannel::Output, out_text).text;
    let err_line = labelled(LogChannel::Error, err_text).text;
    assert(out_line[3] == ']');
    assert(err_line[3] == ' ');
}

} // verus!
