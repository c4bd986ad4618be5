//! Forwarding of the backend's output events to the log sink.
//!
//! The child process delivers a stream of tagged events.  Only the
//! standard-output events are forwarded: each becomes one log line, its
//! payload decoded lossily and put behind the fixed marker.  Everything else
//! (standard error, spawn-channel errors, the termination notice) is passed
//! over in silence, as the supervisor only watches the backend's stdout.

use vstd::prelude::*;
use vstd::string::*;
use crate::decode::{decode_lossy, lossy_utf8};
use crate::logs::{log_views, stdout_prefix};

verus! {

/// One event of the child process's output stream.
pub enum OutputEvent {
    /// A chunk of the child's standard output.
    Stdout(Vec<u8>),
    /// A chunk of the child's standard error.
    Stderr(Vec<u8>),
    /// A failure reported by the event channel itself.
    Error(String),
    /// The child exited: its exit code and, where one ended it, the signal.
    Terminated { code: Option<i32>, signal: Option<i32> },
}

/// The log line made from one chunk of standard output.
pub open spec fn forwarded_line(bytes: Seq<u8>) -> Seq<char> {
    stdout_prefix() + lossy_utf8(bytes)
}

/// What one event contributes to the log: a line for a standard-output
/// event, nothing for any other.
pub open spec fn forward_one(ev: OutputEvent) -> Option<Seq<char>> {
    match ev {
        OutputEvent::Stdout(bytes) => Some(forwarded_line(bytes@)),
        _ => None,
    }
}

/// The character sequence behind an optional log line.
pub open spec fn line_view(r: Option<String>) -> Option<Seq<char>> {
    match r {
        Some(s) => Some(s@),
        None => None,
    }
}

/// Turns one output event into its log line, if it yields one.
pub fn forward_event(ev: &OutputEvent) -> (r: Option<String>)
    ensures
        line_view(r) == forward_one(*ev),
{
    match ev {
        OutputEvent::Stdout(bytes) => {
            let decoded = decode_lossy(bytes.as_slice());
            let mut line = String::from_str("Backend Log: ");
            line.append(decoded.as_str());
            Some(line)
        },
        _ => None,
    }
}

/// The whole log produced by a finite stretch of the output stream: one line
/// per standard-output event, in stream order.
pub open spec fn forwarded_logs(evs: Seq<OutputEvent>) -> Seq<Seq<char>>
    decreases evs.len(),
{
    if evs.len() == 0 {
        Seq::empty()
    } else {
        match forward_one(evs[0]) {
            Some(line) => seq![line] + forwarded_logs(evs.drop_first()),
            None => forwarded_logs(evs.drop_first()),
        }
    }
}

/// Forwards every event of a finished stream stretch.  The stream closes when
/// the child exits, so the forwarding always ends: this function is total.
pub fn forward_all(events: &Vec<OutputEvent>) -> (logs: Vec<String>)
    ensures
        log_views(logs@) == forwarded_logs(events@),
{
    let mut logs: Vec<String> = Vec::new();
    let mut i: usize = 0;
    proof {
        assert(events@.skip(0) =~= events@);
        assert(log_views(logs@) =~= Seq::<Seq<char>>::empty());
    }
    while i < events.len()
        invariant
            i <= events.len(),
            log_views(logs@) + forwarded_logs(events@.skip(i as int)) == forwarded_logs(events@),
        decreases events.len() - i,
    {
        let ghost prev_logs = logs@;
        let ghost rest = events@.skip(i as int);
        proof {
            assert(rest[0] == events@[i as int]);
            assert(rest.drop_first() =~= events@.skip(i as int + 1));
        }
        match forward_event(&events[i]) {
            Some(line) => {
                logs.push(line);
                proof {
                    assert(log_views(logs@) =~= log_views(prev_logs) + seq![line@]);
                    assert(log_views(prev_logs) + (seq![line@] + forwarded_logs(rest.drop_first()))
                        =~= log_views(logs@) + forwarded_logs(rest.drop_first()));
                }
            },
            None => {},
        }
        i = i + 1;
    }
    proof {
        assert(events@.skip(events@.len() as int) =~= Seq::<OutputEvent>::empty());
    }
    logs
}

/// How many standard-output events a stretch of the stream holds.
pub open spec fn stdout_count(evs: Seq<OutputEvent>) -> nat
    decreases evs.len(),
{
    if evs.len() == 0 {
        0
    } else {
        (if evs[0] is Stdout {
            1nat
        } else {
            0nat
        }) + stdout_count(evs.drop_first())
    }
}

/// Forwarding fidelity: a stretch of the output stream yields exactly one log
/// line per standard-output event it holds — never more, never fewer, whatever
/// other events are interleaved.
pub proof fn lemma_forward_count(evs: Seq<OutputEvent>)
    ensures
        forwarded_logs(evs).len() == stdout_count(evs),
    decreases evs.len(),
{
    if evs.len() > 0 {
        lemma_forward_count(evs.drop_first());
    }
}

/// Forwarding fidelity: every forwarded log line begins with the fixed
/// marker; what follows the marker is the lossily decoded payload of the
/// corresponding standard-output event.
pub proof fn lemma_forward_prefixed(evs: Seq<OutputEvent>)
    ensures
        forall|i: int|
            0 <= i < forwarded_logs(evs).len() ==> #[trigger] forwarded_logs(
                evs,
            )[i].take(stdout_prefix().len() as int) =~= stdout_prefix(),
    decreases evs.len(),
{
    if evs.len() > 0 {
        lemma_forward_prefixed(evs.drop_first());
        assert forall|i: int| 0 <= i < forwarded_logs(evs).len() implies #[trigger] forwarded_logs(
            evs,
        )[i].take(stdout_prefix().len() as int) =~= stdout_prefix() by {
            match forward_one(evs[0]) {
                Some(line) => {
                    if i == 0 {
                        assert(forwarded_logs(evs)[0] == line);
                        assert(line.take(stdout_prefix().len() as int) =~= stdout_prefix());
                    } else {
                        assert(forwarded_logs(evs)[i] == forwarded_logs(evs.drop_first())[i - 1]);
                    }
                },
                None => {
                    assert(forwarded_logs(evs)[i] == forwarded_logs(evs.drop_first())[i]);
                },
            }
        }
    }
}

} // verus!
