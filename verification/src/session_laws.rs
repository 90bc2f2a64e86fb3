//! What holds of a session from its first input to its last.

use vstd::prelude::*;
use crate::message::{HostModel, PluginModel};
use crate::server::ServerModel;
use crate::server_laws;
use crate::server_laws::Happening;
use crate::session::{InputModel, Phase, ReactionModel, SessionModel, STATUS_INTERVAL_SECS};

verus! {

/// How many nanoseconds there are in a second.
pub const NANOS_PER_SEC: u64 = 1_000_000_000;

/// An input, and how many seconds after the last report it came in.
pub struct Arrival {
    /// What came in.
    pub input: InputModel,
    /// When.
    pub elapsed_secs: u64,
}

/// Where a session stands once all of that has come in.
pub open spec fn session_after(session: SessionModel, arrivals: Seq<Arrival>) -> SessionModel
    decreases arrivals.len(),
{
    if arrivals.len() == 0 {
        session
    } else {
        let before = session_after(session, arrivals.drop_last());
        before.next(arrivals.last().input, arrivals.last().elapsed_secs).0
    }
}

/// What a session does about the `i`-th arrival, all those before it having come in first.
pub open spec fn reaction_to(session: SessionModel, arrivals: Seq<Arrival>, i: int) -> ReactionModel {
    session_after(session, arrivals.take(i)).next(
        arrivals[i].input,
        arrivals[i].elapsed_secs,
    ).1
}

/// Where a session stands before its `i`-th arrival, it comes to stand after it.
proof fn lemma_one_more(session: SessionModel, arrivals: Seq<Arrival>, i: int)
    requires
        0 <= i < arrivals.len(),
    ensures
        session_after(session, arrivals.take(i + 1)) == session_after(
            session,
            arrivals.take(i),
        ).next(arrivals[i].input, arrivals[i].elapsed_secs).0,
{
    assert(arrivals.take(i + 1).drop_last() =~= arrivals.take(i));
    assert(arrivals.take(i + 1).last() == arrivals[i]);
}

/// A session that waits to be opened is opened by a request for an `iosurface`, of whatever
/// size and format, and takes frames of that size then, of which none has come in yet; and it
/// refuses every other kind of surface, and is over.
pub proof fn law_open_is_taken_for_an_iosurface(
    session: SessionModel,
    surface: Seq<char>,
    width: u32,
    height: u32,
    format: Seq<char>,
    elapsed_secs: u64,
)
    requires
        session.phase is AwaitingOpen,
    ensures
        ({
            let open = InputModel::Message(HostModel::Open { surface, width, height, format });
            let (later, reaction) = session.next(open, elapsed_secs);
            &&& reaction is Opened <==> surface == "iosurface"@
            &&& reaction is Unsupported <==> surface != "iosurface"@
            &&& surface == "iosurface"@ ==> {
                &&& later.phase == (Phase::Streaming { width, height, frames: 0 })
                &&& reaction->Opened_width == width
                &&& reaction->Opened_height == height
                &&& reaction->Opened_format == format
                &&& reaction->Opened_ready == (PluginModel::Ready {
                    server_name: session.server_name,
                })
            }
            &&& surface != "iosurface"@ ==> later.phase is Ended && reaction->Unsupported_surface
                == surface
            &&& later.server_name == session.server_name
        }),
{
}

/// Nothing but a request for an `iosurface`, to a session that waits for one, makes the plugin
/// say that it is ready or take frames.
pub proof fn law_only_open_opens(session: SessionModel, input: InputModel, elapsed_secs: u64)
    ensures
        ({
            let (later, reaction) = session.next(input, elapsed_secs);
            let asked = {
                &&& session.phase is AwaitingOpen
                &&& input matches InputModel::Message(message)
                &&& message matches HostModel::Open { surface, .. }
                &&& surface == "iosurface"@
            };
            &&& reaction is Opened <==> asked
            &&& later.phase is Streaming && !(session.phase is Streaming) ==> asked
        }),
{
}

/// The host closes a session at any time, whatever its size and however many frames have come
/// in; and a session is over in the same way when nothing comes any more.
pub proof fn law_close_and_silence_end_a_session(session: SessionModel, elapsed_secs: u64)
    requires
        !(session.phase is Ended),
    ensures
        ({
            let (later, reaction) = session.next(
                InputModel::Message(HostModel::Close),
                elapsed_secs,
            );
            &&& later.phase is Ended
            &&& reaction is Closed
        }),
        ({
            let (later, reaction) = session.next(InputModel::End, elapsed_secs);
            &&& later.phase is Ended
            &&& reaction is Silence
        }),
{
}

/// A session ends only by what ends it: the host closing it, nothing coming any more, or a
/// request for another kind of surface to a session that waits.
pub proof fn law_nothing_else_ends_a_session(
    session: SessionModel,
    input: InputModel,
    elapsed_secs: u64,
)
    requires
        !(session.phase is Ended),
    ensures
        session.next(input, elapsed_secs).0.phase is Ended <==> {
            ||| input == InputModel::Message(HostModel::Close)
            ||| input is End
            ||| session.phase is AwaitingOpen && (input matches InputModel::Message(message)
                && message matches HostModel::Open { surface, .. } && surface != "iosurface"@)
        },
{
}

/// A frame is one more, whatever came before it, and a new size leaves their number as it is.
/// Both are taken over as they come, and a second after the last report the frame brings one.
pub proof fn law_frames_and_sizes_are_taken_as_they_come(
    session: SessionModel,
    index: u64,
    surface_id: u32,
    width: u32,
    height: u32,
    frames: u64,
    elapsed_secs: u64,
)
    requires
        session.phase matches Phase::Streaming { frames: before, .. } && before == frames,
    ensures
        frames < u64::MAX ==> {
            let frame = InputModel::Message(HostModel::Frame { index, surface_id, width, height });
            let (later, reaction) = session.next(frame, elapsed_secs);
            &&& later.phase == (Phase::Streaming { width, height, frames: (frames + 1) as u64 })
            &&& reaction is Frame
            &&& reaction->Frame_index == index
            &&& reaction->Frame_surface_id == surface_id
            &&& reaction->Frame_total == frames + 1
            &&& reaction->Frame_status is Some <==> elapsed_secs >= 1
            &&& reaction->Frame_status is Some ==> reaction->Frame_status == Some(
                PluginModel::Status { clients: 0, dropped: 0 },
            )
        },
        ({
            let resize = InputModel::Message(HostModel::Resize { width, height });
            let (later, reaction) = session.next(resize, elapsed_secs);
            &&& later.phase == (Phase::Streaming { width, height, frames })
            &&& reaction == (ReactionModel::Resized { width, height })
        }),
{
}

/// Before it is opened, a session lets every message pass but a request to open it and the one
/// that closes it; while it takes frames, it lets pass what is neither a frame nor a new size
/// nor the one that closes it. A line that is no message it lets pass at any time.
pub proof fn law_what_is_let_pass(session: SessionModel, message: HostModel, elapsed_secs: u64)
    ensures
        session.phase is AwaitingOpen && !(message is Open) && !(message is Close)
            ==> session.next(InputModel::Message(message), elapsed_secs) == (
            session,
            ReactionModel::Unexpected,
        ),
        session.phase is Streaming && (message is Open || message is Unknown) ==> session.next(
            InputModel::Message(message),
            elapsed_secs,
        ) == (session, ReactionModel::Ignored),
        !(session.phase is Ended) ==> session.next(InputModel::Unparseable, elapsed_secs) == (
            session,
            ReactionModel::Unparseable,
        ),
{
}

/// A frame is a frame, and as many have come in as the phase says; a report is a status that
/// goes with a frame, and an interval starts where the plugin is opened or reports.
pub proof fn law_what_counts_as_frame_and_report(
    session: SessionModel,
    input: InputModel,
    reaction: ReactionModel,
)
    ensures
        input.is_frame() <==> input is Message && input->Message_0 is Frame,
        session.phase matches Phase::Streaming { frames, .. } ==> session.frames() == frames,
        !(session.phase is Streaming) ==> session.frames() == 0,
        reaction.reports() <==> reaction is Frame && reaction->Frame_status is Some,
        reaction.starts_interval() <==> reaction is Opened || (reaction is Frame
            && reaction->Frame_status is Some),
{
}

/// A session that is over stays over, and does nothing any more.
pub proof fn law_end_is_final(session: SessionModel, input: InputModel, elapsed_secs: u64)
    requires
        session.phase is Ended,
    ensures
        session.next(input, elapsed_secs) == (session, ReactionModel::Ignored),
{
}

/// A session is over exactly if it was before, or was closed, went without a host, or was
/// asked, when it first was asked, for a kind of surface that it does not have.
pub proof fn law_what_ends_a_session(session: SessionModel, input: InputModel, elapsed_secs: u64)
    ensures
        ({
            let (later, reaction) = session.next(input, elapsed_secs);
            later.phase is Ended <==> {
                ||| session.phase is Ended
                ||| reaction is Closed
                ||| reaction is Silence
                ||| reaction is Unsupported
            }
        }),
{
}

/// No input makes a session go back to waiting.
pub proof fn law_no_way_back(session: SessionModel, input: InputModel, elapsed_secs: u64)
    requires
        !(session.phase is AwaitingOpen),
    ensures
        !(session.next(input, elapsed_secs).0.phase is AwaitingOpen),
{
}

proof fn lemma_never_waits_again(session: SessionModel, arrivals: Seq<Arrival>, i: int, j: int)
    requires
        0 <= i <= j <= arrivals.len(),
        !(session_after(session, arrivals.take(i)).phase is AwaitingOpen),
    ensures
        !(session_after(session, arrivals.take(j)).phase is AwaitingOpen),
    decreases j - i,
{
    if i < j {
        lemma_never_waits_again(session, arrivals, i, j - 1);
        lemma_one_more(session, arrivals, j - 1);
    }
}

/// The plugin says at most once that it is ready.
pub proof fn law_ready_at_most_once(
    session: SessionModel,
    arrivals: Seq<Arrival>,
    i: int,
    j: int,
)
    requires
        0 <= i < j < arrivals.len(),
        reaction_to(session, arrivals, i) is Opened,
    ensures
        !(reaction_to(session, arrivals, j) is Opened),
{
    lemma_one_more(session, arrivals, i);
    lemma_never_waits_again(session, arrivals, i + 1, j);
}

/// No frame is taken, no report made and no size changed before the plugin has said that it
/// is ready.
pub proof fn law_ready_comes_first(session: SessionModel, arrivals: Seq<Arrival>, j: int)
    requires
        session.phase is AwaitingOpen,
        0 <= j < arrivals.len(),
        reaction_to(session, arrivals, j) is Frame || reaction_to(session, arrivals, j) is Resized,
    ensures
        exists|i: int| 0 <= i < j && #[trigger] reaction_to(session, arrivals, i) is Opened,
{
    lemma_streaming_was_opened(session, arrivals, j);
}

proof fn lemma_streaming_was_opened(session: SessionModel, arrivals: Seq<Arrival>, j: int)
    requires
        session.phase is AwaitingOpen,
        0 <= j <= arrivals.len(),
        session_after(session, arrivals.take(j)).phase is Streaming,
    ensures
        exists|i: int| 0 <= i < j && #[trigger] reaction_to(session, arrivals, i) is Opened,
    decreases j,
{
    assert(j > 0);
    lemma_one_more(session, arrivals, j - 1);
    if session_after(session, arrivals.take(j - 1)).phase is Streaming {
        lemma_streaming_was_opened(session, arrivals, j - 1);
        let i = choose|i: int|
            0 <= i < j - 1 && #[trigger] reaction_to(session, arrivals, i) is Opened;
        assert(0 <= i < j && reaction_to(session, arrivals, i) is Opened);
    } else {
        assert(reaction_to(session, arrivals, j - 1) is Opened);
    }
}

/// What the plugin says when it is ready is the name it was given, and no input changes that
/// name.
pub proof fn law_ready_gives_the_name(session: SessionModel, input: InputModel, elapsed_secs: u64)
    ensures
        ({
            let (later, reaction) = session.next(input, elapsed_secs);
            &&& later.server_name == session.server_name
            &&& reaction matches ReactionModel::Opened { ready, .. } ==> ready
                == (PluginModel::Ready { server_name: session.server_name })
        }),
{
}

/// The host is sent a report only with a frame, and with a frame exactly if the given time is a
/// full interval.
pub proof fn law_when_a_report_is_due(session: SessionModel, input: InputModel, elapsed_secs: u64)
    ensures
        session.next(input, elapsed_secs).1.reports() <==> {
            &&& session.phase is Streaming
            &&& input.is_frame()
            &&& elapsed_secs >= STATUS_INTERVAL_SECS
        },
        session.next(input, elapsed_secs).1 matches ReactionModel::Frame { status: Some(report), .. }
            ==> report == (PluginModel::Status { clients: 0, dropped: 0 }),
{
}

/// When the interval began that is running when the `i`-th arrival comes in, `done` giving for
/// each arrival when the reaction to it had been carried out: the time, in nanoseconds, of the
/// latest reaction that starts one.
pub open spec fn interval_start(
    session: SessionModel,
    arrivals: Seq<Arrival>,
    done: Seq<nat>,
    i: int,
) -> nat
    decreases i,
{
    if i <= 0 {
        0
    } else if reaction_to(session, arrivals, i - 1).starts_interval() {
        done[i - 1]
    } else {
        interval_start(session, arrivals, done, i - 1)
    }
}

/// Arrivals are dealt with one after the other: for each of them the clock is read at `read`,
/// and the reaction has been carried out at `done`.
pub open spec fn one_by_one(read: Seq<nat>, done: Seq<nat>) -> bool {
    &&& read.len() == done.len()
    &&& forall|i: int| 0 <= i < read.len() ==> #[trigger] read[i] <= #[trigger] done[i]
    &&& forall|i: int, j: int|
        0 <= i < j < read.len() ==> #[trigger] done[i] <= #[trigger] read[j]
}

/// The times that come with the arrivals are right: the session is given the whole seconds
/// since the interval began.
pub open spec fn clock_is_right(
    session: SessionModel,
    arrivals: Seq<Arrival>,
    read: Seq<nat>,
    done: Seq<nat>,
) -> bool {
    &&& read.len() == arrivals.len()
    &&& one_by_one(read, done)
    &&& forall|i: int|
        #![trigger arrivals[i]]
        0 <= i < arrivals.len() ==> arrivals[i].elapsed_secs == (read[i] - interval_start(
            session,
            arrivals,
            done,
            i,
        )) / NANOS_PER_SEC as int
}

proof fn lemma_interval_start(
    session: SessionModel,
    arrivals: Seq<Arrival>,
    read: Seq<nat>,
    done: Seq<nat>,
    i: int,
    j: int,
)
    requires
        one_by_one(read, done),
        0 <= i < j < read.len(),
        reaction_to(session, arrivals, i).starts_interval(),
    ensures
        done[i] <= interval_start(session, arrivals, done, j) <= read[j],
    decreases j,
{
    if reaction_to(session, arrivals, j - 1).starts_interval() {
        assert(i < j - 1 ==> done[i] <= read[j - 1]);
        assert(read[j - 1] <= done[j - 1]);
        assert(done[j - 1] <= read[j]);
    } else {
        lemma_interval_start(session, arrivals, read, done, i, j - 1);
        assert(read[j - 1] <= done[j - 1]);
        assert(done[j - 1] <= read[j]);
    }
}

/// Reports keep their distance. Between the end of one report and the moment at which the next
/// one falls due there is a full interval at least, and so there is between the plugin saying
/// that it is ready and its first report.
pub proof fn law_reports_keep_their_distance(
    session: SessionModel,
    arrivals: Seq<Arrival>,
    read: Seq<nat>,
    done: Seq<nat>,
    i: int,
    j: int,
)
    requires
        clock_is_right(session, arrivals, read, done),
        0 <= i < j < arrivals.len(),
        reaction_to(session, arrivals, i).starts_interval(),
        reaction_to(session, arrivals, j).reports(),
    ensures
        read[j] - done[i] >= STATUS_INTERVAL_SECS * NANOS_PER_SEC,
        read[j] - read[i] >= STATUS_INTERVAL_SECS * NANOS_PER_SEC,
{
    lemma_interval_start(session, arrivals, read, done, i, j);
    let before = session_after(session, arrivals.take(j));
    law_when_a_report_is_due(before, arrivals[j].input, arrivals[j].elapsed_secs);
    assert(read[i] <= done[i]);
}

/// Every frame that comes in while the plugin takes frames is handed on to be published, on
/// the surface that it came on, and the session takes on its size.
pub proof fn law_every_frame_is_handed_on(
    session: SessionModel,
    index: u64,
    surface_id: u32,
    width: u32,
    height: u32,
    elapsed_secs: u64,
)
    requires
        session.phase is Streaming,
    ensures
        ({
            let frame = InputModel::Message(HostModel::Frame { index, surface_id, width, height });
            let (later, reaction) = session.next(frame, elapsed_secs);
            &&& reaction is Frame
            &&& reaction->Frame_index == index
            &&& reaction->Frame_surface_id == surface_id
            &&& later.phase matches Phase::Streaming { width: w, height: h, .. } && w == width && h
                == height
        }),
{
}

/// From the host to the clients: the surface that a frame comes on while the plugin takes
/// frames, published as the reaction to the frame says, is the one that the server shows then;
/// and unless it is no surface, every client for info has been told of it.
pub proof fn law_every_frame_is_published<P>(
    session: SessionModel,
    index: u64,
    surface_id: u32,
    width: u32,
    height: u32,
    elapsed_secs: u64,
    server: ServerModel<P>,
    told: Map<Seq<char>, u32>,
)
    requires
        session.phase is Streaming,
        server_laws::all_informed(server, told),
    ensures
        ({
            let frame = InputModel::Message(HostModel::Frame { index, surface_id, width, height });
            let reaction = session.next(frame, elapsed_secs).1;
            let published = Happening::<P>::Published { surface_id: reaction->Frame_surface_id };
            let shown = server_laws::after(server, published);
            let told_now = server_laws::told_after(server, told, published);
            &&& reaction is Frame
            &&& shown == (ServerModel { surface_id, ..server })
            &&& surface_id != 0 ==> forall|client: Seq<char>| #[trigger]
                server.info.contains_key(client) ==> told_now.contains_key(client)
                    && told_now[client] == surface_id
        }),
{
    let published = Happening::<P>::Published { surface_id };
    server_laws::law_info_clients_stay_informed(server, told, published);
    let shown = server_laws::after(server, published);
    assert(shown.info == server.info);
}

/// Lines that are no message, messages that are not known, and those that come before the
/// plugin is opened or open it again leave the session as it was.
pub proof fn law_noise_changes_nothing(session: SessionModel, input: InputModel, elapsed_secs: u64)
    ensures
        ({
            let (later, reaction) = session.next(input, elapsed_secs);
            reaction is Unexpected || reaction is Unparseable || reaction is Ignored ==> later
                == session
        }),
        input is Unparseable ==> session.next(input, elapsed_secs).0 == session,
        input == InputModel::Message(HostModel::Unknown) ==> session.next(input, elapsed_secs).0
            == session,
{
}

/// How many of the first `n` arrivals were taken for frames.
pub open spec fn frames_taken(session: SessionModel, arrivals: Seq<Arrival>, n: int) -> nat
    decreases n,
{
    if n <= 0 {
        0
    } else {
        frames_taken(session, arrivals, n - 1) + if reaction_to(session, arrivals, n - 1) is Frame {
            1nat
        } else {
            0nat
        }
    }
}

/// As long as frames come in, a session knows how many there were, and gives that number
/// with each.
pub proof fn law_frames_are_counted(session: SessionModel, arrivals: Seq<Arrival>, n: int)
    requires
        session.phase is AwaitingOpen,
        0 <= n <= arrivals.len() <= u64::MAX,
    ensures
        session_after(session, arrivals.take(n)).phase is Streaming ==> session_after(
            session,
            arrivals.take(n),
        ).frames() == frames_taken(session, arrivals, n),
        session_after(session, arrivals.take(n)).phase is AwaitingOpen ==> frames_taken(
            session,
            arrivals,
            n,
        ) == 0,
        frames_taken(session, arrivals, n) <= n,
        n > 0 ==> (reaction_to(session, arrivals, n - 1) matches ReactionModel::Frame { total, .. }
            ==> total == frames_taken(session, arrivals, n)),
    decreases n,
{
    if n > 0 {
        law_frames_are_counted(session, arrivals, n - 1);
        lemma_one_more(session, arrivals, n - 1);
    }
}

} // verus!
