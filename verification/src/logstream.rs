use vstd::prelude::*;

verus! {

/// One line of worker output: when it arrived, which stream carried it,
/// and its raw text. Never mutated after creation.
#[derive(Debug, Clone)]
pub struct LogEntry {
    pub timestamp: i64,
    pub source: String,
    pub message: String,
}

/// One event from the worker's output channel: a line on one of its two
/// standard streams, its termination, or anything else the transport
/// reports (ignored here).
#[derive(Debug)]
pub enum WorkerEvent {
    StdoutLine(String),
    StderrLine(String),
    Terminated,
    Other,
}

/// What one event asks the listener to be told: a structured log record,
/// or that the worker has stopped.
#[derive(Debug)]
pub enum StreamOutput {
    Log(LogEntry),
    ServerStopped,
}

/// The source and message of a log record.
pub open spec fn entry_view(e: LogEntry) -> (Seq<char>, Seq<char>) {
    (e.source@, e.message@)
}

/// The log line an event carries, tagged with its source, or nothing for
/// events that carry no line.
pub open spec fn spec_log_line(e: WorkerEvent) -> Option<(Seq<char>, Seq<char>)> {
    match e {
        WorkerEvent::StdoutLine(m) => Some(("stdout"@, m@)),
        WorkerEvent::StderrLine(m) => Some(("stderr"@, m@)),
        _ => None,
    }
}

/// The tagged log lines of an event stream, in arrival order.
pub open spec fn spec_log_lines(events: Seq<WorkerEvent>) -> Seq<(Seq<char>, Seq<char>)> {
    events.filter_map(|e: WorkerEvent| spec_log_line(e))
}

/// The standard-output lines of an event stream, in arrival order.
pub open spec fn stdout_messages(events: Seq<WorkerEvent>) -> Seq<Seq<char>> {
    events.filter_map(
        |e: WorkerEvent|
            match e {
                WorkerEvent::StdoutLine(m) => Some(m@),
                _ => None,
            },
    )
}

/// Turn one worker event into what the listener is told: output lines
/// become log records stamped with the given time, termination becomes a
/// stopped notice, and anything else is dropped.
pub fn process_event(event: WorkerEvent, timestamp: i64) -> (r: Option<StreamOutput>)
    ensures
        event matches WorkerEvent::StdoutLine(m) ==> (r matches Some(o) && (o matches
        StreamOutput::Log(entry) && entry.timestamp == timestamp && entry.source@ == "stdout"@
            && entry.message == m)),
        event matches WorkerEvent::StderrLine(m) ==> (r matches Some(o) && (o matches
        StreamOutput::Log(entry) && entry.timestamp == timestamp && entry.source@ == "stderr"@
            && entry.message == m)),
        event is Terminated ==> (r matches Some(o) && o is ServerStopped),
        event is Other ==> r is None,
{
    match event {
        WorkerEvent::StdoutLine(m) => Some(
            StreamOutput::Log(
                LogEntry { timestamp, source: "stdout".to_owned(), message: m },
            ),
        ),
        WorkerEvent::StderrLine(m) => Some(
            StreamOutput::Log(
                LogEntry { timestamp, source: "stderr".to_owned(), message: m },
            ),
        ),
        WorkerEvent::Terminated => Some(StreamOutput::ServerStopped),
        WorkerEvent::Other => None,
    }
}

/// Relies on chrono::Utc::now: the current time's whole seconds since the
/// Unix epoch, read from the system clock. Like the clock reads it wraps,
/// it panics if the system clock is set before the epoch.
#[verifier::external_body]
fn now_timestamp() -> i64 {
    chrono::Utc::now().timestamp()
}

/// Turn one worker event into what the listener is told, stamped with the
/// current time.
pub fn handle_event(event: WorkerEvent) -> (r: Option<StreamOutput>)
    ensures
        event matches WorkerEvent::StdoutLine(m) ==> (r matches Some(o) && (o matches
        StreamOutput::Log(entry) && entry.source@ == "stdout"@ && entry.message == m)),
        event matches WorkerEvent::StderrLine(m) ==> (r matches Some(o) && (o matches
        StreamOutput::Log(entry) && entry.source@ == "stderr"@ && entry.message == m)),
        event is Terminated ==> (r matches Some(o) && o is ServerStopped),
        event is Other ==> r is None,
{
    let ts = now_timestamp();
    process_event(event, ts)
}

/// Convert a whole event stream into its log records, in arrival order
/// and stamped with the given time, and report whether a termination
/// event was seen.
pub fn drain_events(events: &Vec<WorkerEvent>, timestamp: i64) -> (r: (Vec<LogEntry>, bool))
    ensures
        r.0@.map_values(|e: LogEntry| entry_view(e)) == spec_log_lines(events@),
        forall|i: int| 0 <= i < r.0@.len() ==> r.0@[i].timestamp == timestamp,
        r.1 == events@.contains(WorkerEvent::Terminated),
{
    let mut logs: Vec<LogEntry> = Vec::new();
    let mut stopped: bool = false;
    let mut i: usize = 0;
    while i < events.len()
        invariant
            0 <= i <= events@.len(),
            logs@.map_values(|e: LogEntry| entry_view(e)) == spec_log_lines(
                events@.take(i as int),
            ),
            forall|j: int| 0 <= j < logs@.len() ==> logs@[j].timestamp == timestamp,
            stopped == events@.take(i as int).contains(WorkerEvent::Terminated),
        decreases events@.len() - i,
    {
        proof {
            events@.lemma_filter_map_take_succ(|e: WorkerEvent| spec_log_line(e), i as int);
            assert(events@.take(i + 1 as int) =~= events@.take(i as int).push(
                events@[i as int],
            ));
            if events@.take(i as int).contains(WorkerEvent::Terminated) {
                let j = choose|j: int|
                    0 <= j < i && #[trigger] events@.take(i as int)[j] == WorkerEvent::Terminated;
                assert(events@.take(i + 1 as int)[j] == WorkerEvent::Terminated);
            }
        }
        match &events[i] {
            WorkerEvent::StdoutLine(m) => {
                logs.push(
                    LogEntry { timestamp, source: "stdout".to_owned(), message: m.clone() },
                );
            },
            WorkerEvent::StderrLine(m) => {
                logs.push(
                    LogEntry { timestamp, source: "stderr".to_owned(), message: m.clone() },
                );
            },
            WorkerEvent::Terminated => {
                stopped = true;
                proof {
                    assert(events@.take(i + 1 as int)[i as int] == WorkerEvent::Terminated);
                }
            },
            WorkerEvent::Other => {},
        }
        proof {
            assert(logs@.map_values(|e: LogEntry| entry_view(e)) =~= spec_log_lines(
                events@.take(i + 1 as int),
            ));
            if events@.take(i + 1 as int).contains(WorkerEvent::Terminated) && !stopped {
                let j = choose|j: int|
                    0 <= j <= i && #[trigger] events@.take(i + 1 as int)[j]
                        == WorkerEvent::Terminated;
                assert(events@.take(i as int)[j] == WorkerEvent::Terminated);
            }
        }
        i = i + 1;
    }
    proof {
        assert(events@.take(events@.len() as int) == events@);
    }
    (logs, stopped)
}

/// Round trip: among the forwarded log records of an event stream, those
/// with source "stdout" are exactly the worker's standard-output lines,
/// one record per line, in their original order.
pub proof fn lemma_stdout_round_trip(events: Seq<WorkerEvent>, entries: Seq<LogEntry>)
    requires
        entries.map_values(|e: LogEntry| entry_view(e)) == spec_log_lines(events),
    ensures
        entries.filter(|e: LogEntry| e.source@ == "stdout"@).map_values(
            |e: LogEntry| e.message@,
        ) == stdout_messages(events),
    decreases events.len(),
{
    reveal(Seq::filter);
    reveal_strlit("stdout");
    reveal_strlit("stderr");
    let lines = spec_log_lines(events);
    let pred = |e: LogEntry| e.source@ == "stdout"@;
    let msg = |e: LogEntry| e.message@;
    if events.len() == 0 {
        assert(entries =~= Seq::<LogEntry>::empty());
        assert(entries.filter(pred).map_values(msg) =~= stdout_messages(events));
    } else {
        let rest = events.drop_last();
        let last = events.last();
        match spec_log_line(last) {
            Some(line) => {
                assert(lines == spec_log_lines(rest) + seq![line]);
                assert(entries.len() == lines.len());
                assert(entries.len() > 0);
                let n = entries.len() as int;
                let front = entries.drop_last();
                assert(entries.map_values(|e: LogEntry| entry_view(e))[n - 1] == entry_view(
                    entries[n - 1],
                ));
                assert(lines[n - 1] == line);
                assert(entry_view(entries.last()) == line);
                assert forall|k: int| 0 <= k < n - 1 implies front.map_values(
                    |e: LogEntry| entry_view(e),
                )[k] == #[trigger] spec_log_lines(rest)[k] by {
                    assert(front.map_values(|e: LogEntry| entry_view(e))[k] == entry_view(
                        front[k],
                    ));
                    assert(front[k] == entries[k]);
                    assert(entries.map_values(|e: LogEntry| entry_view(e))[k] == entry_view(
                        entries[k],
                    ));
                    assert(lines[k] == spec_log_lines(rest)[k]);
                }
                assert(front.map_values(|e: LogEntry| entry_view(e)) =~= spec_log_lines(rest));
                lemma_stdout_round_trip(rest, front);
                match last {
                    WorkerEvent::StdoutLine(m) => {
                        assert(entries.last().source@ == "stdout"@);
                        assert(stdout_messages(events) == stdout_messages(rest).push(m@));
                        assert(entries.filter(pred) =~= front.filter(pred).push(entries.last()));
                        assert(entries.filter(pred).map_values(msg) =~= stdout_messages(events));
                    },
                    WorkerEvent::StderrLine(m) => {
                        assert(entries.last().source@ == "stderr"@);
                        assert(("stderr"@)[3] == 'e' && ("stdout"@)[3] == 'o');
                        assert(entries.last().source@ != "stdout"@);
                        assert(stdout_messages(events) == stdout_messages(rest));
                        assert(entries.filter(pred) =~= front.filter(pred));
                        assert(entries.filter(pred).map_values(msg) =~= stdout_messages(events));
                    },
                    _ => {
                        assert(false);
                    },
                }
            },
            None => {
                assert(lines =~= spec_log_lines(rest));
                assert(stdout_messages(events) == stdout_messages(rest));
                lemma_stdout_round_trip(rest, entries);
            },
        }
    }
}

} // verus!
