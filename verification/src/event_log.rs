//! The event log writer's buffer: events are collected per channel and day
//! and handed out in batches for the host to append to that day's file.

use std::path::PathBuf;
use vstd::prelude::*;
use crate::clock::{local_date, DATE_PATTERN};

verus! {

/// The number of buffered events from which a flush is due.
pub const FLUSH_THRESHOLD: usize = 20;

/// The state of the event log writer.
pub struct EventLogState {
    current_date: String,
    current_channel: String,
    log_dir: PathBuf,
    buffer: Vec<String>,
}

/// Mathematical model of an [`EventLogState`].
pub struct EventLogView {
    /// The day the buffered events belong to; empty before the first event.
    pub date: Seq<char>,
    /// The channel the buffered events belong to; empty before the first
    /// event.
    pub channel: Seq<char>,
    /// The directory the log files live in.
    pub log_dir: PathBuf,
    /// The events not yet written, oldest first.
    pub buffer: Seq<Seq<char>>,
}

/// Model of a list of strings.
pub open spec fn lines_view(lines: Seq<String>) -> Seq<Seq<char>> {
    lines.map_values(|line: String| line@)
}

/// The name of the file that the events of `channel` on `date` go to.
pub open spec fn log_file_name(channel: Seq<char>, date: Seq<char>) -> Seq<char> {
    channel + "-"@ + date + ".jsonl"@
}

/// Whether there is anything to write: events are buffered and they belong
/// to a channel.
pub open spec fn flush_due(log: EventLogView) -> bool {
    log.buffer.len() > 0 && log.channel.len() > 0
}

/// Whether an event for `channel` on `today` belongs to another file than
/// the buffered ones.
pub open spec fn rotation_due(log: EventLogView, today: Seq<char>, channel: Seq<char>) -> bool {
    log.date != today || log.channel != channel
}

impl View for EventLogState {
    type V = EventLogView;

    closed spec fn view(&self) -> EventLogView {
        EventLogView {
            date: self.current_date@,
            channel: self.current_channel@,
            log_dir: self.log_dir,
            buffer: lines_view(self.buffer@),
        }
    }
}

impl EventLogState {
    /// A writer for the files in `log_dir`, with nothing buffered and no
    /// channel or day yet.
    pub fn new(log_dir: PathBuf) -> (state: Self)
        ensures
            state@ == (EventLogView {
                date: Seq::empty(),
                channel: Seq::empty(),
                log_dir,
                buffer: Seq::empty(),
            }),
    {
        let state = Self {
            current_date: String::new(),
            current_channel: String::new(),
            log_dir,
            buffer: Vec::new(),
        };
        assert(lines_view(state.buffer@) =~= Seq::empty());
        state
    }

    /// The directory the log files live in.
    pub fn log_dir(&self) -> (dir: &PathBuf)
        ensures
            *dir == self@.log_dir,
    {
        &self.log_dir
    }

    /// The number of buffered events.
    pub fn buffered(&self) -> (count: usize)
        ensures
            count == self@.buffer.len(),
    {
        self.buffer.len()
    }

    /// The name of the file to append the buffered events to, where there
    /// is anything to write.
    pub fn flush_target(&self) -> (name: Option<String>)
        ensures
            match name {
                Some(name) => flush_due(self@) && name@ == log_file_name(
                    self@.channel,
                    self@.date,
                ),
                None => !flush_due(self@),
            },
    {
        if self.buffer.len() == 0 || self.current_channel.as_str().is_empty() {
            None
        } else {
            let mut name = self.current_channel.clone();
            name.append("-");
            name.append(self.current_date.as_str());
            name.append(".jsonl");
            Some(name)
        }
    }

    /// Hands out the buffered events, oldest first, and leaves the buffer
    /// empty.
    pub fn take_lines(&mut self) -> (lines: Vec<String>)
        ensures
            lines_view(lines@) == old(self)@.buffer,
            final(self)@ == (EventLogView { buffer: Seq::empty(), ..old(self)@ }),
    {
        let mut lines: Vec<String> = Vec::new();
        std::mem::swap(&mut self.buffer, &mut lines);
        assert(lines_view(self.buffer@) =~= Seq::empty());
        lines
    }

    /// Whether an event for `channel` on `today` belongs to another file
    /// than the buffered ones, so that these have to be flushed first.
    pub fn needs_rotation(&self, today: &str, channel: &str) -> (due: bool)
        ensures
            due == rotation_due(self@, today@, channel@),
    {
        self.current_date != String::from_str(today) || self.current_channel != String::from_str(
            channel,
        )
    }

    /// Reads today's date and says whether an event for `channel` has to
    /// wait for a flush of the buffered ones. Returns the date with the
    /// answer, which is that of [`EventLogState::needs_rotation`] for it.
    pub fn check_rotation(&self, channel: &str) -> (checked: (String, bool))
        ensures
            checked.1 == rotation_due(self@, checked.0@, channel@),
    {
        let today = local_date(DATE_PATTERN);
        let due = self.needs_rotation(today.as_str(), channel);
        (today, due)
    }

    /// Starts collecting for `channel` on `today`. What is buffered stays.
    pub fn rotate(&mut self, today: String, channel: String)
        ensures
            final(self)@ == (EventLogView { date: today@, channel: channel@, ..old(self)@ }),
    {
        self.current_date = today;
        self.current_channel = channel;
    }

    /// Buffers `event` and says whether a flush is due: it is once the
    /// buffer holds the threshold number of events.
    pub fn push(&mut self, event: String) -> (due: bool)
        ensures
            final(self)@ == (EventLogView {
                buffer: old(self)@.buffer.push(event@),
                ..old(self)@
            }),
            due == (old(self)@.buffer.len() + 1 >= FLUSH_THRESHOLD),
    {
        self.buffer.push(event);
        assert(lines_view(self.buffer@) =~= lines_view(old(self).buffer@).push(event@));
        self.buffer.len() >= FLUSH_THRESHOLD
    }
}

} // verus!
