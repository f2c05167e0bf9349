//! Watcher step logic: turning raw filesystem events into messages.
//!
//! One watcher serves one configured entry. The surrounding thread blocks on
//! the raw event source and feeds each received value to [`watch_step`],
//! which applies the entry's exclude filter and says which [`Message`]s to
//! forward to the handler, whether to log an exclusion, and whether the
//! thread must stop. The step function has no side effects of its own.

use vstd::prelude::*;

use crate::pattern::{regex_match, spec_excluded, first_match, first_match_pair, Pattern};

verus! {

/// What a watcher sends its handler.
pub enum Message {
    /// A path changed and survived the exclude filter.
    Changed(String),
    /// The pair must shut down.
    Terminate,
}

/// One raw filesystem event, as the event source reports it.
pub enum RawEvent {
    Created(String),
    Written(String),
    MetadataChanged(String),
    Removed(String),
    /// A rename, with the old and the new path.
    Renamed(String, String),
    /// An event kind the daemon does not react to.
    Ignored,
}

/// One value received from the raw event transport.
pub enum WatchInput {
    /// An ordinary event.
    Event(RawEvent),
    /// A transient error of the raw source: logged, nothing else.
    SourceError,
    /// The termination sentinel injected on reload or shutdown.
    Stop,
}

/// Whether `event` is discarded by the exclude filter: some pattern matches
/// its path, or, for a rename, either of its two paths.
pub open spec fn spec_event_excluded(patterns: Seq<Pattern>, event: RawEvent) -> bool {
    match event {
        RawEvent::Created(p) => spec_excluded(patterns, p@),
        RawEvent::Written(p) => spec_excluded(patterns, p@),
        RawEvent::MetadataChanged(p) => spec_excluded(patterns, p@),
        RawEvent::Removed(p) => spec_excluded(patterns, p@),
        RawEvent::Renamed(f, t) => spec_excluded(patterns, f@) || spec_excluded(patterns, t@),
        RawEvent::Ignored => false,
    }
}

/// The paths a watcher forwards for `input`, in order: one for a surviving
/// single-path event, the old then the new path for a surviving rename, and
/// nothing otherwise.
pub open spec fn spec_forwarded(patterns: Seq<Pattern>, input: WatchInput) -> Seq<Seq<char>> {
    match input {
        WatchInput::Event(event) => {
            if spec_event_excluded(patterns, event) {
                Seq::empty()
            } else {
                match event {
                    RawEvent::Created(p) => seq![p@],
                    RawEvent::Written(p) => seq![p@],
                    RawEvent::MetadataChanged(p) => seq![p@],
                    RawEvent::Removed(p) => seq![p@],
                    RawEvent::Renamed(f, t) => seq![f@, t@],
                    RawEvent::Ignored => Seq::empty(),
                }
            }
        },
        WatchInput::SourceError => Seq::empty(),
        WatchInput::Stop => Seq::empty(),
    }
}

/// Whether `k` names the first exclude pattern that discards `event`: the
/// first one matching the event's path, or either side of a rename.
pub open spec fn spec_excluded_by(patterns: Seq<Pattern>, event: RawEvent, k: int) -> bool {
    match event {
        RawEvent::Created(p)
        | RawEvent::Written(p)
        | RawEvent::MetadataChanged(p)
        | RawEvent::Removed(p) => {
            &&& regex_match(patterns[k]@, p@)
            &&& forall|j: int| 0 <= j < k ==> !regex_match(patterns[j]@, p@)
        },
        RawEvent::Renamed(f, t) => {
            &&& (regex_match(patterns[k]@, f@) || regex_match(patterns[k]@, t@))
            &&& forall|j: int| 0 <= j < k
                ==> !regex_match(patterns[j]@, f@) && !regex_match(patterns[j]@, t@)
        },
        RawEvent::Ignored => false,
    }
}

/// What one watcher step asks the surrounding thread to do.
pub struct WatchStep {
    /// Messages to send to the handler, in order.
    pub forward: Vec<Message>,
    /// The index of the exclude pattern that discarded the event, for the
    /// diagnostic log entry naming the pattern.
    pub excluded_by: Option<usize>,
    /// Stop the watcher thread; no further events are processed.
    pub stop: bool,
}

/// One step of the watcher loop: filter `input` against the entry's exclude
/// patterns and say what to forward.
pub fn watch_step(patterns: &Vec<Pattern>, input: &WatchInput) -> (r: WatchStep)
    ensures
        r.stop == (input is Stop),
        r.forward@.len() == spec_forwarded(patterns@, *input).len(),
        forall|i: int| 0 <= i < r.forward@.len() ==>
            ((#[trigger] r.forward@[i]) matches Message::Changed(p)
                && p@ == spec_forwarded(patterns@, *input)[i]),
        r.excluded_by is Some <==> (*input matches WatchInput::Event(e)
            && spec_event_excluded(patterns@, e)),
        r.excluded_by matches Some(k) ==> (*input matches WatchInput::Event(e)
            && k < patterns@.len() && spec_excluded_by(patterns@, e, k as int)),
{
    match input {
        WatchInput::Event(event) => match event {
            RawEvent::Created(p)
            | RawEvent::Written(p)
            | RawEvent::MetadataChanged(p)
            | RawEvent::Removed(p) => {
                match first_match(patterns, p.as_str()) {
                    Some(k) => WatchStep {
                        forward: Vec::new(),
                        excluded_by: Some(k),
                        stop: false,
                    },
                    None => {
                        let mut forward: Vec<Message> = Vec::new();
                        forward.push(Message::Changed(p.clone()));
                        WatchStep { forward, excluded_by: None, stop: false }
                    },
                }
            },
            RawEvent::Renamed(f, t) => {
                match first_match_pair(patterns, f.as_str(), t.as_str()) {
                    Some(k) => WatchStep {
                        forward: Vec::new(),
                        excluded_by: Some(k),
                        stop: false,
                    },
                    None => {
                        let mut forward: Vec<Message> = Vec::new();
                        forward.push(Message::Changed(f.clone()));
                        forward.push(Message::Changed(t.clone()));
                        WatchStep { forward, excluded_by: None, stop: false }
                    },
                }
            },
            RawEvent::Ignored => WatchStep {
                forward: Vec::new(),
                excluded_by: None,
                stop: false,
            },
        },
        WatchInput::SourceError => WatchStep {
            forward: Vec::new(),
            excluded_by: None,
            stop: false,
        },
        WatchInput::Stop => WatchStep {
            forward: Vec::new(),
            excluded_by: None,
            stop: true,
        },
    }
}

/// Exclude filtering: a single-path event's path is forwarded if and only if
/// no exclude pattern matches it; an excluded event forwards nothing.
pub proof fn lemma_exclude_filtering(patterns: Seq<Pattern>, event: RawEvent, p: String)
    requires
        event == RawEvent::Created(p) || event == RawEvent::Written(p)
            || event == RawEvent::MetadataChanged(p) || event == RawEvent::Removed(p),
    ensures
        spec_forwarded(patterns, WatchInput::Event(event)).contains(p@)
            <==> forall|i: int| 0 <= i < patterns.len() ==> !regex_match(patterns[i]@, p@),
        spec_excluded(patterns, p@)
            ==> spec_forwarded(patterns, WatchInput::Event(event)) == Seq::<Seq<char>>::empty(),
{
    if !spec_excluded(patterns, p@) {
        assert(spec_forwarded(patterns, WatchInput::Event(event)) == seq![p@]);
        assert(seq![p@][0] == p@);
    }
}

} // verus!
