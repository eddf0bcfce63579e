//! The three modes of the poller and the selector that holds the current one.
use vstd::prelude::*;

verus! {

/// Marker carried by the discovery mode: every candidate file is scanned.
#[derive(Debug, Clone, Copy, PartialEq, Eq, Structural)]
pub struct Waiting {}

impl Waiting {
    pub fn new() -> (r: Self)
        ensures
            r == (Waiting {}),
    {
        Waiting {}
    }
}

/// Marker carried by the tracking mode: one known file is re-checked.
#[derive(Debug, Clone, Copy, PartialEq, Eq, Structural)]
pub struct Watching {}

impl Watching {
    pub fn new() -> (r: Self)
        ensures
            r == (Watching {}),
    {
        Watching {}
    }
}

/// Marker carried by the export mode: derived text files are written.
#[derive(Debug, Clone, Copy, PartialEq, Eq, Structural)]
pub struct FileIO {}

impl FileIO {
    pub fn new() -> (r: Self)
        ensures
            r == (FileIO {}),
    {
        FileIO {}
    }
}

#[derive(Debug, Clone, Copy, PartialEq, Eq, Structural)]
pub enum Mode {
    IsWaiting(Waiting),
    IsWatching(Watching),
    IsFileIO(FileIO),
}

pub open spec fn waiting_mode() -> Mode {
    Mode::IsWaiting(Waiting {})
}

pub open spec fn watching_mode() -> Mode {
    Mode::IsWatching(Watching {})
}

pub open spec fn fileio_mode() -> Mode {
    Mode::IsFileIO(FileIO {})
}

/// The mode reached from `current` when `new` is requested. Discovery leads
/// to tracking only through an export, so a request for tracking made in
/// discovery keeps discovery; every other request is granted.
pub open spec fn next_mode(current: Mode, new: Mode) -> Mode {
    match (current, new) {
        (Mode::IsWaiting(_), Mode::IsWatching(_)) => current,
        _ => new,
    }
}

impl Mode {
    /// The mode reached from `current` when `new` is requested.
    pub fn from(current: &Mode, new: &Mode) -> (r: Mode)
        ensures
            r == next_mode(*current, *new),
    {
        match (current, new) {
            (Mode::IsWaiting(_), Mode::IsFileIO(_)) => Mode::IsFileIO(FileIO::new()),
            (Mode::IsWatching(_), Mode::IsWaiting(_)) => Mode::IsWaiting(Waiting::new()),
            (Mode::IsWatching(_), Mode::IsFileIO(_)) => Mode::IsFileIO(FileIO::new()),
            (Mode::IsFileIO(_), Mode::IsWaiting(_)) => Mode::IsWaiting(Waiting::new()),
            (Mode::IsFileIO(_), Mode::IsWatching(_)) => Mode::IsWatching(Watching::new()),
            _ => *current,
        }
    }
}

/// Controller state: the current mode, whether a target was found since the
/// last reset, whether an export is pending, and how many tracking cycles
/// have run since the last export.
pub struct ModeSelector {
    current_mode: Mode,
    has_target: bool,
    do_writing: bool,
    times_repeated: u16,
}

impl ModeSelector {
    pub closed spec fn mode(&self) -> Mode {
        self.current_mode
    }

    pub closed spec fn target_found(&self) -> bool {
        self.has_target
    }

    pub closed spec fn export_pending(&self) -> bool {
        self.do_writing
    }

    pub closed spec fn repeats(&self) -> u16 {
        self.times_repeated
    }

    /// Starts in discovery, with no target, an export pending and no cycles
    /// counted. The pending export makes the first scan that finds nothing
    /// write the placeholder reports.
    pub fn new() -> (r: Self)
        ensures
            r.mode() == waiting_mode(),
            !r.target_found(),
            r.export_pending(),
            r.repeats() == 0,
    {
        ModeSelector {
            current_mode: Mode::IsWaiting(Waiting::new()),
            has_target: false,
            do_writing: true,
            times_repeated: 0,
        }
    }

    pub fn current_mode(&self) -> (r: Mode)
        ensures
            r == self.mode(),
    {
        self.current_mode
    }

    pub fn switch_mode(&mut self, new_mode: &Mode)
        ensures
            final(self).mode() == next_mode(old(self).mode(), *new_mode),
            final(self).target_found() == old(self).target_found(),
            final(self).export_pending() == old(self).export_pending(),
            final(self).repeats() == old(self).repeats(),
    {
        self.current_mode = Mode::from(&self.current_mode, new_mode);
    }

    pub fn has_target(&self) -> (r: bool)
        ensures
            r == self.target_found(),
    {
        self.has_target
    }

    pub fn found_target(&mut self)
        ensures
            final(self).mode() == old(self).mode(),
            final(self).target_found(),
            final(self).export_pending() == old(self).export_pending(),
            final(self).repeats() == old(self).repeats(),
    {
        self.has_target = true;
    }

    pub fn reset_target(&mut self)
        ensures
            final(self).mode() == old(self).mode(),
            !final(self).target_found(),
            final(self).export_pending() == old(self).export_pending(),
            final(self).repeats() == old(self).repeats(),
    {
        self.has_target = false;
    }

    pub fn do_writing(&self) -> (r: bool)
        ensures
            r == self.export_pending(),
    {
        self.do_writing
    }

    pub fn turn_on_do_writing(&mut self)
        ensures
            final(self).mode() == old(self).mode(),
            final(self).target_found() == old(self).target_found(),
            final(self).export_pending(),
            final(self).repeats() == old(self).repeats(),
    {
        self.do_writing = true;
    }

    pub fn turn_off_do_writing(&mut self)
        ensures
            final(self).mode() == old(self).mode(),
            final(self).target_found() == old(self).target_found(),
            !final(self).export_pending(),
            final(self).repeats() == old(self).repeats(),
    {
        self.do_writing = false;
    }

    pub fn times_repeated(&self) -> (r: u16)
        ensures
            r == self.repeats(),
    {
        self.times_repeated
    }

    pub fn increase_times_repeated(&mut self)
        requires
            old(self).repeats() < u16::MAX,
        ensures
            final(self).mode() == old(self).mode(),
            final(self).target_found() == old(self).target_found(),
            final(self).export_pending() == old(self).export_pending(),
            final(self).repeats() == old(self).repeats() + 1,
    {
        self.times_repeated = self.times_repeated + 1;
    }

    pub fn reset_times_repeated(&mut self)
        ensures
            final(self).mode() == old(self).mode(),
            final(self).target_found() == old(self).target_found(),
            final(self).export_pending() == old(self).export_pending(),
            final(self).repeats() == 0,
    {
        self.times_repeated = 0;
    }
}

} // verus!
