//! The conversation with the host, from its first message to its last.
//!
//! The plugin waits to be opened, then takes frames until it is closed or the host goes
//! silent.

use vstd::prelude::*;
use crate::message::{HostMessage, HostModel, PluginMessage, PluginModel, IOSURFACE};

verus! {

/// How many seconds pass at least between two reports to the host.
pub const STATUS_INTERVAL_SECS: u64 = 1;

/// Where a session stands.
#[derive(Clone, Copy, Debug, PartialEq, Eq, Structural)]
pub enum Phase {
    /// The host has not opened the plugin yet.
    AwaitingOpen,
    /// Frames come in.
    Streaming {
        /// The width of a frame.
        width: u32,
        /// The height of a frame.
        height: u32,
        /// How many frames have come in.
        frames: u64,
    },
    /// The session is over.
    Ended,
}

/// What came in from the host.
#[derive(Debug, PartialEq, Eq)]
pub enum Input {
    /// A message.
    Message(HostMessage),
    /// A line that is no message.
    Unparseable,
    /// Nothing, and nothing will come any more.
    End,
}

/// What an [`Input`] is.
pub enum InputModel {
    /// A message.
    Message(HostModel),
    /// A line that is no message.
    Unparseable,
    /// Nothing, and nothing will come any more.
    End,
}

impl InputModel {
    /// Whether a frame came in.
    pub open spec fn is_frame(self) -> bool {
        self matches InputModel::Message(message) && message is Frame
    }
}

impl View for Input {
    type V = InputModel;

    open spec fn view(&self) -> InputModel {
        match *self {
            Input::Message(message) => InputModel::Message(message@),
            Input::Unparseable => InputModel::Unparseable,
            Input::End => InputModel::End,
        }
    }
}

/// What the plugin does about an input.
#[derive(Debug, PartialEq, Eq)]
pub enum Reaction {
    /// It was opened, and says that it is ready.
    Opened {
        /// The width of a frame.
        width: u32,
        /// The height of a frame.
        height: u32,
        /// The format of a pixel.
        format: String,
        /// What to tell the host.
        ready: PluginMessage,
    },
    /// It was asked for a kind of surface that it does not have, and gives up.
    Unsupported {
        /// That kind of surface.
        surface: String,
    },
    /// It was sent something before it was opened, and lets that pass.
    Unexpected,
    /// It could not make sense of a line, and lets that pass.
    Unparseable,
    /// It took a frame.
    Frame {
        /// The number of the frame.
        index: u64,
        /// The surface to publish.
        surface_id: u32,
        /// How many frames have come in so far.
        total: u64,
        /// What to tell the host, if it is time for a report.
        status: Option<PluginMessage>,
    },
    /// It goes over to another size.
    Resized {
        /// The width of a frame.
        width: u32,
        /// The height of a frame.
        height: u32,
    },
    /// It passes over a message that has nothing to say to it.
    Ignored,
    /// It was closed.
    Closed,
    /// The host went silent.
    Silence,
}

/// What a [`Reaction`] is.
pub enum ReactionModel {
    /// It was opened, and says that it is ready.
    Opened {
        /// The width of a frame.
        width: u32,
        /// The height of a frame.
        height: u32,
        /// The format of a pixel.
        format: Seq<char>,
        /// What to tell the host.
        ready: PluginModel,
    },
    /// It was asked for a kind of surface that it does not have, and gives up.
    Unsupported {
        /// That kind of surface.
        surface: Seq<char>,
    },
    /// It was sent something before it was opened, and lets that pass.
    Unexpected,
    /// It could not make sense of a line, and lets that pass.
    Unparseable,
    /// It took a frame.
    Frame {
        /// The number of the frame.
        index: u64,
        /// The surface to publish.
        surface_id: u32,
        /// How many frames have come in so far.
        total: u64,
        /// What to tell the host, if it is time for a report.
        status: Option<PluginModel>,
    },
    /// It goes over to another size.
    Resized {
        /// The width of a frame.
        width: u32,
        /// The height of a frame.
        height: u32,
    },
    /// It passes over a message that has nothing to say to it.
    Ignored,
    /// It was closed.
    Closed,
    /// The host went silent.
    Silence,
}

impl ReactionModel {
    /// Whether the time to the next report runs from here: from when the plugin has said that
    /// it is ready, and from each report on.
    pub open spec fn starts_interval(self) -> bool {
        ||| self is Opened
        ||| self.reports()
    }

    /// Whether a report goes to the host.
    pub open spec fn reports(self) -> bool {
        self matches ReactionModel::Frame { status, .. } && status is Some
    }
}

impl Reaction {
    /// Whether the time to the next report runs from here.
    pub fn starts_interval(&self) -> (starts: bool)
        ensures
            starts == self@.starts_interval(),
            starts <==> (self is Opened || (self matches Reaction::Frame { status, .. }
                && status is Some)),
    {
        match self {
            Reaction::Opened { .. } => true,
            Reaction::Frame { status: Some(_), .. } => true,
            _ => false,
        }
    }
}

impl View for Reaction {
    type V = ReactionModel;

    open spec fn view(&self) -> ReactionModel {
        match *self {
            Reaction::Opened { width, height, format, ready } => ReactionModel::Opened {
                width,
                height,
                format: format@,
                ready: ready@,
            },
            Reaction::Unsupported { surface } => ReactionModel::Unsupported { surface: surface@ },
            Reaction::Unexpected => ReactionModel::Unexpected,
            Reaction::Unparseable => ReactionModel::Unparseable,
            Reaction::Frame { index, surface_id, total, status } => ReactionModel::Frame {
                index,
                surface_id,
                total,
                status: match status {
                    Some(message) => Some(message@),
                    None => None,
                },
            },
            Reaction::Resized { width, height } => ReactionModel::Resized { width, height },
            Reaction::Ignored => ReactionModel::Ignored,
            Reaction::Closed => ReactionModel::Closed,
            Reaction::Silence => ReactionModel::Silence,
        }
    }
}

/// What a [`Session`] holds.
pub struct SessionModel {
    /// The name under which frames are shown.
    pub server_name: Seq<char>,
    /// Where the session stands.
    pub phase: Phase,
}

impl SessionModel {
    /// How many frames have come in.
    pub open spec fn frames(self) -> nat {
        match self.phase {
            Phase::Streaming { frames, .. } => frames as nat,
            _ => 0,
        }
    }

    /// The session gone over to another phase.
    pub open spec fn enter(self, phase: Phase) -> SessionModel {
        SessionModel { phase, ..self }
    }

    /// What an input does to a session that has not been opened.
    pub open spec fn waiting(self, input: InputModel) -> (SessionModel, ReactionModel) {
        match input {
            InputModel::Message(HostModel::Open { surface, width, height, format }) => if surface
                == IOSURFACE@ {
                (
                    self.enter(Phase::Streaming { width, height, frames: 0 }),
                    ReactionModel::Opened {
                        width,
                        height,
                        format,
                        ready: PluginModel::Ready { server_name: self.server_name },
                    },
                )
            } else {
                (self.enter(Phase::Ended), ReactionModel::Unsupported { surface })
            },
            InputModel::Message(HostModel::Close) => (
                self.enter(Phase::Ended),
                ReactionModel::Closed,
            ),
            InputModel::Message(_) => (self, ReactionModel::Unexpected),
            InputModel::Unparseable => (self, ReactionModel::Unparseable),
            InputModel::End => (self.enter(Phase::Ended), ReactionModel::Silence),
        }
    }

    /// What an input does to a session that takes frames, `elapsed_secs` after the last
    /// report to the host.
    pub open spec fn streaming(self, input: InputModel, elapsed_secs: u64) -> (
        SessionModel,
        ReactionModel,
    ) {
        match input {
            InputModel::Message(HostModel::Frame { index, surface_id, width, height }) => {
                let total = (self.frames() + 1) as u64;
                (
                    self.enter(Phase::Streaming { width, height, frames: total }),
                    ReactionModel::Frame {
                        index,
                        surface_id,
                        total,
                        status: if elapsed_secs >= STATUS_INTERVAL_SECS {
                            Some(PluginModel::Status { clients: 0, dropped: 0 })
                        } else {
                            None
                        },
                    },
                )
            },
            InputModel::Message(HostModel::Resize { width, height }) => (
                self.enter(Phase::Streaming { width, height, frames: self.frames() as u64 }),
                ReactionModel::Resized { width, height },
            ),
            InputModel::Message(HostModel::Close) => (
                self.enter(Phase::Ended),
                ReactionModel::Closed,
            ),
            InputModel::Message(_) => (self, ReactionModel::Ignored),
            InputModel::Unparseable => (self, ReactionModel::Unparseable),
            InputModel::End => (self.enter(Phase::Ended), ReactionModel::Silence),
        }
    }

    /// What an input does to a session, `elapsed_secs` after the last report to the host.
    pub open spec fn next(self, input: InputModel, elapsed_secs: u64) -> (
        SessionModel,
        ReactionModel,
    ) {
        match self.phase {
            Phase::AwaitingOpen => self.waiting(input),
            Phase::Streaming { .. } => self.streaming(input, elapsed_secs),
            Phase::Ended => (self, ReactionModel::Ignored),
        }
    }
}

/// A conversation with the host.
pub struct Session {
    server_name: String,
    phase: Phase,
}

impl View for Session {
    type V = SessionModel;

    closed spec fn view(&self) -> SessionModel {
        SessionModel { server_name: self.server_name@, phase: self.phase }
    }
}

impl Session {
    /// A session that waits to be opened, and will show its frames under `server_name`.
    pub fn new(server_name: String) -> (session: Self)
        ensures
            session@ == (SessionModel { server_name: server_name@, phase: Phase::AwaitingOpen }),
    {
        Session { server_name, phase: Phase::AwaitingOpen }
    }

    /// Where the session stands.
    pub fn phase(&self) -> (phase: Phase)
        ensures
            phase == self@.phase,
    {
        self.phase
    }

    /// The name under which frames are shown.
    pub fn server_name(&self) -> (name: &str)
        ensures
            name@ == self@.server_name,
    {
        self.server_name.as_str()
    }

    fn wait(&mut self, input: Input) -> (reaction: Reaction)
        ensures
            (final(self)@, reaction@) == old(self)@.waiting(input@),
    {
        match input {
            Input::Message(HostMessage::Open { surface, width, height, format }) => {
                if surface != IOSURFACE.to_owned() {
                    self.phase = Phase::Ended;
                    return Reaction::Unsupported { surface };
                }
                self.phase = Phase::Streaming { width, height, frames: 0 };
                let ready = PluginMessage::Ready { server_name: self.server_name.clone() };
                Reaction::Opened { width, height, format, ready }
            },
            Input::Message(HostMessage::Close) => {
                self.phase = Phase::Ended;
                Reaction::Closed
            },
            Input::Message(_) => Reaction::Unexpected,
            Input::Unparseable => Reaction::Unparseable,
            Input::End => {
                self.phase = Phase::Ended;
                Reaction::Silence
            },
        }
    }

    fn stream(&mut self, frames: u64, input: Input, elapsed_secs: u64) -> (reaction: Reaction)
        requires
            old(self)@.phase is Streaming,
            old(self)@.frames() == frames,
            input@.is_frame() ==> frames < u64::MAX,
        ensures
            (final(self)@, reaction@) == old(self)@.streaming(input@, elapsed_secs),
    {
        match input {
            Input::Message(HostMessage::Frame { index, surface_id, width, height }) => {
                let total: u64 = frames + 1;
                self.phase = Phase::Streaming { width, height, frames: total };
                let status = if elapsed_secs >= STATUS_INTERVAL_SECS {
                    Some(PluginMessage::Status { clients: 0, dropped: 0 })
                } else {
                    None
                };
                Reaction::Frame { index, surface_id, total, status }
            },
            Input::Message(HostMessage::Resize { width, height }) => {
                self.phase = Phase::Streaming { width, height, frames };
                Reaction::Resized { width, height }
            },
            Input::Message(HostMessage::Close) => {
                self.phase = Phase::Ended;
                Reaction::Closed
            },
            Input::Message(_) => Reaction::Ignored,
            Input::Unparseable => Reaction::Unparseable,
            Input::End => {
                self.phase = Phase::Ended;
                Reaction::Silence
            },
        }
    }

    /// Takes what came in from the host, `elapsed_secs` whole seconds after the latest reaction
    /// that [starts an interval](Reaction::starts_interval) was carried out.
    ///
    /// The session keeps no count of clients or of lost frames: a report gives 0 for both.
    pub fn step(&mut self, input: Input, elapsed_secs: u64) -> (reaction: Reaction)
        requires
            input@.is_frame() ==> old(self)@.frames() < u64::MAX,
        ensures
            (final(self)@, reaction@) == old(self)@.next(input@, elapsed_secs),
            final(self)@.server_name == old(self)@.server_name,
            old(self)@.phase is Ended ==> final(self)@.phase is Ended && reaction is Ignored,
            old(self)@.phase is AwaitingOpen ==> match input {
                Input::Message(HostMessage::Open { surface, width, height, format }) => if surface@
                    == "iosurface"@ {
                    &&& final(self)@.phase == (Phase::Streaming { width, height, frames: 0 })
                    &&& reaction matches Reaction::Opened { width: w, height: h, format: f, ready }
                    &&& w == width
                    &&& h == height
                    &&& f@ == format@
                    &&& ready matches PluginMessage::Ready { server_name }
                    &&& server_name@ == old(self)@.server_name
                } else {
                    &&& final(self)@.phase is Ended
                    &&& reaction matches Reaction::Unsupported { surface: refused }
                    &&& refused@ == surface@
                },
                Input::Message(HostMessage::Close) => final(self)@.phase is Ended
                    && reaction is Closed,
                Input::Message(_) => final(self)@.phase is AwaitingOpen && reaction is Unexpected,
                Input::Unparseable => final(self)@.phase is AwaitingOpen
                    && reaction is Unparseable,
                Input::End => final(self)@.phase is Ended && reaction is Silence,
            },
            old(self)@.phase matches Phase::Streaming { frames, .. } ==> match input {
                Input::Message(HostMessage::Frame { index, surface_id, width, height }) => {
                    &&& final(self)@.phase matches Phase::Streaming {
                        width: w,
                        height: h,
                        frames: counted,
                    }
                    &&& w == width
                    &&& h == height
                    &&& counted == frames + 1
                    &&& reaction matches Reaction::Frame { index: i, surface_id: s, total, status }
                    &&& i == index
                    &&& s == surface_id
                    &&& total == frames + 1
                    &&& elapsed_secs < 1 ==> status is None
                    &&& elapsed_secs >= 1 ==> status == Some(
                        PluginMessage::Status { clients: 0, dropped: 0 },
                    )
                },
                Input::Message(HostMessage::Resize { width, height }) => {
                    &&& final(self)@.phase == (Phase::Streaming { width, height, frames })
                    &&& reaction == (Reaction::Resized { width, height })
                },
                Input::Message(HostMessage::Close) => final(self)@.phase is Ended
                    && reaction is Closed,
                Input::Message(_) => final(self)@.phase == old(self)@.phase && reaction is Ignored,
                Input::Unparseable => final(self)@.phase == old(self)@.phase
                    && reaction is Unparseable,
                Input::End => final(self)@.phase is Ended && reaction is Silence,
            },
    {
        match self.phase {
            Phase::AwaitingOpen => self.wait(input),
            Phase::Streaming { frames, .. } => self.stream(frames, input, elapsed_secs),
            Phase::Ended => Reaction::Ignored,
        }
    }
}

} // verus!
