//! Moving data to and from the cartridge, window by window.
//!
//! A transfer is a row of commands, one for each window. A window is asked
//! for only when the window before it has been closed by its footer. The
//! first failure ends the transfer: nothing is tried again, and what a
//! download has read up to then is dropped.

use vstd::prelude::*;
use crate::command::{
    check_complete,
    complete_packet_spec,
    CMD_DUMP_TO_PC,
    CMD_LOAD_FROM_PC,
    FRAME_LEN,
};
use crate::error::{Error, Frame};
use crate::model::Model;
use crate::segment::Segment;
use crate::transport::{Action, Event, Stage};
use crate::window::{
    download_length,
    download_length_spec,
    download_window,
    download_windows,
    upload_window,
    upload_windows,
    DownloadPlan,
    UploadPlan,
};

verus! {

/// An upload on its way.
pub struct Upload<'a> {
    segment: Segment,
    model: Model,
    offset: u32,
    data: &'a [u8],
    window: usize,
    stage: Stage,
}

impl<'a> Upload<'a> {
    #[verifier::type_invariant]
    spec fn well_formed(&self) -> bool {
        let plan = UploadPlan {
            segment: self.segment,
            model: self.model,
            offset: self.offset,
            data: self.data@,
        };
        &&& plan.fits()
        &&& self.stage != Stage::Receiving
        &&& (self.stage == Stage::Sending || self.stage == Stage::Confirming) ==> self.window
            < plan.windows()
    }

    /// What is uploaded, and where to.
    pub closed spec fn plan(&self) -> UploadPlan {
        UploadPlan {
            segment: self.segment,
            model: self.model,
            offset: self.offset,
            data: self.data@,
        }
    }

    /// The window that is on its way.
    pub closed spec fn window(&self) -> nat {
        self.window as nat
    }

    /// How far the command of that window has come.
    pub closed spec fn stage(&self) -> Stage {
        self.stage
    }

    /// What follows when window `index` is due: its command is written, or,
    /// after the last window, the upload ends well.
    pub open spec fn begins(&self, index: nat, next: Upload<'a>, action: Action<()>) -> bool {
        if index < self.plan().windows() {
            &&& action.is_write(self.plan().packet(index))
            &&& next.window() == index
            &&& next.stage() == Stage::Sending
        } else {
            &&& action == Action::Finish(Ok::<(), Error>(()))
            &&& next.stage() == Stage::Finished
        }
    }

    /// What an event leads to: the upload after it, and the next action.
    pub open spec fn steps(&self, event: Event, next: Upload<'a>, action: Action<()>) -> bool {
        &&& next.plan() == self.plan()
        &&& match event {
            Event::Failed(error) => action.is_failure(error) && next.stage() == Stage::Finished,
            Event::Start => self.begins(0, next, action),
            Event::Done => {
                &&& action.is_read(FRAME_LEN as int)
                &&& next.window() == self.window()
                &&& next.stage() == Stage::Confirming
            },
            Event::Data(bytes) => if bytes@ == complete_packet_spec(CMD_LOAD_FROM_PC) {
                self.begins(self.window() + 1, next, action)
            } else {
                &&& next.stage() == Stage::Finished
                &&& action matches Action::Finish(Err(error))
                &&& error.is_mismatch(
                    Frame::CommandComplete,
                    bytes@,
                    complete_packet_spec(CMD_LOAD_FROM_PC),
                )
            },
        }
    }

    /// Whether an event tells that the action before it went well: the
    /// packet was written, or the footer of the window came.
    pub open spec fn proceeds(&self, event: Event) -> bool {
        match self.stage() {
            Stage::Ready => event is Start,
            Stage::Sending => event is Done,
            Stage::Confirming => event matches Event::Data(bytes) && bytes@
                == complete_packet_spec(CMD_LOAD_FROM_PC),
            _ => false,
        }
    }

    /// Whether `states`, `events` and `actions` tell of an upload on which
    /// nothing went wrong: it begins with a fresh upload, and each event
    /// tells that the action before it went well and leads to the next
    /// state and action.
    pub open spec fn is_run(
        states: Seq<Upload<'a>>,
        events: Seq<Event>,
        actions: Seq<Action<()>>,
    ) -> bool {
        &&& states.len() == events.len() + 1
        &&& actions.len() == events.len()
        &&& states[0].stage() == Stage::Ready
        &&& forall|i: int|
            0 <= i < events.len() ==> (#[trigger] states[i]).proceeds(events[i])
                && states[i].steps(events[i], states[i + 1], actions[i])
    }

    /// An upload of `data` to `segment`, starting `offset` bytes into it.
    pub fn new(segment: Segment, model: Model, offset: u32, data: &'a [u8]) -> (upload: Upload<'a>)
        requires
            (UploadPlan { segment, model, offset, data: data@ }).fits(),
        ensures
            upload.plan() == (UploadPlan { segment, model, offset, data: data@ }),
            upload.window() == 0,
            upload.stage() == Stage::Ready,
    {
        Upload { segment, model, offset, data, window: 0, stage: Stage::Ready }
    }

    /// How far the command of the current window has come.
    pub fn current_stage(&self) -> (stage: Stage)
        ensures
            stage == self.stage(),
    {
        self.stage
    }

    /// The window that is on its way.
    pub fn current_window(&self) -> (index: usize)
        ensures
            index == self.window(),
    {
        self.window
    }

    fn begin(&mut self, index: usize) -> (action: Action<()>)
        requires
            index <= old(self).plan().windows(),
        ensures
            final(self).plan() == old(self).plan(),
            old(self).begins(index as nat, *final(self), action),
    {
        proof {
            use_type_invariant(&*self);
        }
        if index < upload_windows(self.data.len()) {
            let command = upload_window(self.segment, self.model, self.offset, self.data, index);
            self.window = index;
            self.stage = Stage::Sending;
            Action::Write(command.encode_packet())
        } else {
            self.stage = Stage::Finished;
            Action::Finish(Ok(()))
        }
    }

    /// Takes the outcome of the last action and says what to do next.
    pub fn advance(&mut self, event: Event) -> (action: Action<()>)
        requires
            old(self).stage().accepts(event),
        ensures
            old(self).steps(event, *final(self), action),
    {
        proof {
            use_type_invariant(&*self);
        }
        match event {
            Event::Failed(error) => {
                self.stage = Stage::Finished;
                Action::Finish(Err(error))
            },
            Event::Start => self.begin(0),
            Event::Done => {
                self.stage = Stage::Confirming;
                Action::Read(FRAME_LEN)
            },
            Event::Data(bytes) => match check_complete(CMD_LOAD_FROM_PC, bytes.as_slice()) {
                Ok(()) => {
                    let index = self.window + 1;
                    self.begin(index)
                },
                Err(error) => {
                    self.stage = Stage::Finished;
                    Action::Finish(Err(error))
                },
            },
        }
    }
}

/// A download on its way.
pub struct Download {
    segment: Segment,
    model: Model,
    offset: u32,
    total: u32,
    window: u32,
    stage: Stage,
    received: Vec<u8>,
    pending: Vec<u8>,
}

impl Download {
    #[verifier::type_invariant]
    spec fn well_formed(&self) -> bool {
        let plan = DownloadPlan {
            segment: self.segment,
            model: self.model,
            offset: self.offset,
            total: self.total,
        };
        &&& plan.fits()
        &&& (self.stage == Stage::Sending || self.stage == Stage::Receiving || self.stage
            == Stage::Confirming) ==> self.window < plan.windows()
    }

    /// What is downloaded, and where from.
    pub closed spec fn plan(&self) -> DownloadPlan {
        DownloadPlan {
            segment: self.segment,
            model: self.model,
            offset: self.offset,
            total: self.total,
        }
    }

    /// The window that is on its way.
    pub closed spec fn window(&self) -> nat {
        self.window as nat
    }

    /// How far the command of that window has come.
    pub closed spec fn stage(&self) -> Stage {
        self.stage
    }

    /// The bytes of the windows that have been closed by their footer.
    pub closed spec fn received(&self) -> Seq<u8> {
        self.received@
    }

    /// The bytes of the window whose footer is yet to come.
    pub closed spec fn pending(&self) -> Seq<u8> {
        self.pending@
    }

    /// What follows when window `index` is due and `received` has been read
    /// so far: the command of the window is written, or, after the last
    /// window, the download ends with what has been read.
    pub open spec fn begins(
        &self,
        index: nat,
        received: Seq<u8>,
        next: Download,
        action: Action<Vec<u8>>,
    ) -> bool {
        if index < self.plan().windows() {
            &&& action.is_write(self.plan().packet(index))
            &&& next.window() == index
            &&& next.stage() == Stage::Sending
            &&& next.received() == received
        } else {
            &&& action matches Action::Finish(Ok(data))
            &&& data@ == received
            &&& next.stage() == Stage::Finished
        }
    }

    /// What an event leads to: the download after it, and the next action.
    pub open spec fn steps(&self, event: Event, next: Download, action: Action<Vec<u8>>) -> bool {
        &&& next.plan() == self.plan()
        &&& match event {
            Event::Failed(error) => action.is_failure(error) && next.stage() == Stage::Finished,
            Event::Start => self.begins(0, self.received(), next, action),
            Event::Done => {
                &&& action.is_read(self.plan().length(self.window()) as int)
                &&& next.window() == self.window()
                &&& next.stage() == Stage::Receiving
                &&& next.received() == self.received()
            },
            Event::Data(bytes) => if self.stage() == Stage::Receiving {
                &&& action.is_read(FRAME_LEN as int)
                &&& next.window() == self.window()
                &&& next.stage() == Stage::Confirming
                &&& next.received() == self.received()
                &&& next.pending() == bytes@
            } else if bytes@ == complete_packet_spec(CMD_DUMP_TO_PC) {
                self.begins(self.window() + 1, self.received() + self.pending(), next, action)
            } else {
                &&& next.stage() == Stage::Finished
                &&& action matches Action::Finish(Err(error))
                &&& error.is_mismatch(
                    Frame::CommandComplete,
                    bytes@,
                    complete_packet_spec(CMD_DUMP_TO_PC),
                )
            },
        }
    }

    /// Whether an event tells that the action before it went well: the
    /// packet was written, the bytes of the window came, or its footer.
    pub open spec fn proceeds(&self, event: Event) -> bool {
        match self.stage() {
            Stage::Ready => event is Start,
            Stage::Sending => event is Done,
            Stage::Receiving => event is Data,
            Stage::Confirming => event matches Event::Data(bytes) && bytes@
                == complete_packet_spec(CMD_DUMP_TO_PC),
            Stage::Finished => false,
        }
    }

    /// Whether `states`, `events` and `actions` tell of a download on which
    /// nothing went wrong: it begins with a fresh download, and each event
    /// tells that the action before it went well and leads to the next
    /// state and action.
    pub open spec fn is_run(
        states: Seq<Download>,
        events: Seq<Event>,
        actions: Seq<Action<Vec<u8>>>,
    ) -> bool {
        &&& states.len() == events.len() + 1
        &&& actions.len() == events.len()
        &&& states[0].stage() == Stage::Ready
        &&& states[0].received() == Seq::<u8>::empty()
        &&& forall|i: int|
            0 <= i < events.len() ==> (#[trigger] states[i]).proceeds(events[i])
                && states[i].steps(events[i], states[i + 1], actions[i])
    }

    /// A download of `length` bytes from `segment`, starting `offset` bytes
    /// into it.
    ///
    /// The length is rounded up to a multiple of four and held to what the
    /// segment holds before it is cut into windows.
    pub fn new(segment: Segment, model: Model, offset: u32, length: u32) -> (download: Download)
        requires
            (DownloadPlan {
                segment,
                model,
                offset,
                total: download_length_spec(segment, model, length),
            }).fits(),
        ensures
            download.plan() == (DownloadPlan {
                segment,
                model,
                offset,
                total: download_length_spec(segment, model, length),
            }),
            download.window() == 0,
            download.stage() == Stage::Ready,
            download.received() == Seq::<u8>::empty(),
    {
        Download {
            segment,
            model,
            offset,
            total: download_length(segment, model, length),
            window: 0,
            stage: Stage::Ready,
            received: Vec::new(),
            pending: Vec::new(),
        }
    }

    /// How far the command of the current window has come.
    pub fn current_stage(&self) -> (stage: Stage)
        ensures
            stage == self.stage(),
    {
        self.stage
    }

    /// The window that is on its way.
    pub fn current_window(&self) -> (index: u32)
        ensures
            index == self.window(),
    {
        self.window
    }

    fn begin(&mut self, index: u32) -> (action: Action<Vec<u8>>)
        requires
            index <= old(self).plan().windows(),
        ensures
            final(self).plan() == old(self).plan(),
            old(self).begins(index as nat, old(self).received(), *final(self), action),
    {
        proof {
            use_type_invariant(&*self);
        }
        if index < download_windows(self.total) {
            let command = download_window(self.segment, self.model, self.offset, self.total, index);
            self.window = index;
            self.stage = Stage::Sending;
            Action::Write(command.encode_packet())
        } else {
            self.stage = Stage::Finished;
            let mut data: Vec<u8> = Vec::new();
            core::mem::swap(&mut data, &mut self.received);
            Action::Finish(Ok(data))
        }
    }

    /// Takes the outcome of the last action and says what to do next.
    pub fn advance(&mut self, event: Event) -> (action: Action<Vec<u8>>)
        requires
            old(self).stage().accepts(event),
        ensures
            old(self).steps(event, *final(self), action),
    {
        proof {
            use_type_invariant(&*self);
        }
        match event {
            Event::Failed(error) => {
                self.stage = Stage::Finished;
                Action::Finish(Err(error))
            },
            Event::Start => self.begin(0),
            Event::Done => {
                let command = download_window(
                    self.segment,
                    self.model,
                    self.offset,
                    self.total,
                    self.window,
                );
                self.stage = Stage::Receiving;
                Action::Read(command.recv_length() as usize)
            },
            Event::Data(bytes) => match self.stage {
                Stage::Receiving => {
                    self.pending = bytes;
                    self.stage = Stage::Confirming;
                    Action::Read(FRAME_LEN)
                },
                _ => match check_complete(CMD_DUMP_TO_PC, bytes.as_slice()) {
                    Ok(()) => {
                        let mut pending: Vec<u8> = Vec::new();
                        core::mem::swap(&mut pending, &mut self.pending);
                        let mut received: Vec<u8> = Vec::new();
                        core::mem::swap(&mut received, &mut self.received);
                        received.append(&mut pending);
                        self.received = received;
                        let index = self.window + 1;
                        self.begin(index)
                    },
                    Err(error) => {
                        self.stage = Stage::Finished;
                        Action::Finish(Err(error))
                    },
                },
            },
        }
    }
}

/// The bytes that the first `count` windows of a download brought, in
/// order. The bytes of a window come with every third event.
pub open spec fn run_data(events: Seq<Event>, count: nat) -> Seq<u8>
    decreases count,
{
    if count == 0 {
        Seq::empty()
    } else {
        run_data(events, (count - 1) as nat) + events[3 * (count - 1) + 2].data()
    }
}

/// Where an upload has gone well up to event `at`, it stands in the window
/// and at the stage that `at` tells.
proof fn lemma_upload_run_state<'a>(
    states: Seq<Upload<'a>>,
    events: Seq<Event>,
    actions: Seq<Action<()>>,
    at: int,
)
    requires
        Upload::is_run(states, events, actions),
        0 <= at < events.len(),
    ensures
        states[at + 1].plan() == states[0].plan(),
        at <= 2 * states[0].plan().windows(),
        at == 2 * states[0].plan().windows() ==> {
            &&& actions[at] == Action::Finish(Ok::<(), Error>(()))
            &&& states[at + 1].stage() == Stage::Finished
        },
        at < 2 * states[0].plan().windows() && at % 2 == 0 ==> {
            &&& actions[at].is_write(states[0].plan().packet((at / 2) as nat))
            &&& states[at + 1].stage() == Stage::Sending
            &&& states[at + 1].window() == at / 2
        },
        at < 2 * states[0].plan().windows() && at % 2 == 1 ==> {
            &&& actions[at].is_read(FRAME_LEN as int)
            &&& states[at + 1].stage() == Stage::Confirming
            &&& states[at + 1].window() == at / 2
        },
    decreases at,
{
    assert(states[at].proceeds(events[at]));
    assert(states[at].steps(events[at], states[at + 1], actions[at]));
    if at > 0 {
        lemma_upload_run_state(states, events, actions, at - 1);
    }
}

/// An upload on which nothing goes wrong writes the command of each window
/// once, in order, reads a footer after each, and ends well after the last:
/// an upload of `N` bytes sends `N / 0x800000` commands, rounded up, and no
/// more.
pub proof fn lemma_upload_run<'a>(
    states: Seq<Upload<'a>>,
    events: Seq<Event>,
    actions: Seq<Action<()>>,
    at: int,
)
    requires
        Upload::is_run(states, events, actions),
        0 <= at < events.len(),
    ensures
        at <= 2 * states[0].plan().windows(),
        at == 2 * states[0].plan().windows() ==> actions[at] == Action::Finish(Ok::<(), Error>(())),
        at < 2 * states[0].plan().windows() && at % 2 == 0 ==> actions[at].is_write(
            states[0].plan().packet((at / 2) as nat),
        ),
        at < 2 * states[0].plan().windows() && at % 2 == 1 ==> actions[at].is_read(
            FRAME_LEN as int,
        ),
{
    lemma_upload_run_state(states, events, actions, at);
}

/// Where a download has gone well up to event `at`, it stands in the window
/// and at the stage that `at` tells, and holds what the windows before
/// brought.
proof fn lemma_download_run_state(
    states: Seq<Download>,
    events: Seq<Event>,
    actions: Seq<Action<Vec<u8>>>,
    at: int,
)
    requires
        Download::is_run(states, events, actions),
        0 <= at < events.len(),
    ensures
        states[at + 1].plan() == states[0].plan(),
        at <= 3 * states[0].plan().windows(),
        at == 3 * states[0].plan().windows() ==> {
            &&& actions[at] matches Action::Finish(Ok(data))
            &&& data@ == run_data(events, states[0].plan().windows())
            &&& states[at + 1].stage() == Stage::Finished
        },
        at < 3 * states[0].plan().windows() ==> {
            &&& states[at + 1].window() == at / 3
            &&& states[at + 1].received() == run_data(events, (at / 3) as nat)
        },
        at < 3 * states[0].plan().windows() && at % 3 == 0 ==> {
            &&& actions[at].is_write(states[0].plan().packet((at / 3) as nat))
            &&& states[at + 1].stage() == Stage::Sending
        },
        at < 3 * states[0].plan().windows() && at % 3 == 1 ==> {
            &&& actions[at].is_read(states[0].plan().length((at / 3) as nat) as int)
            &&& states[at + 1].stage() == Stage::Receiving
        },
        at < 3 * states[0].plan().windows() && at % 3 == 2 ==> {
            &&& actions[at].is_read(FRAME_LEN as int)
            &&& states[at + 1].stage() == Stage::Confirming
            &&& states[at + 1].pending() == events[at].data()
        },
    decreases at,
{
    assert(states[at].proceeds(events[at]));
    assert(states[at].steps(events[at], states[at + 1], actions[at]));
    if at > 0 {
        lemma_download_run_state(states, events, actions, at - 1);
        if at % 3 == 0 {
            let done = (at / 3) as nat;
            assert(3 * (done - 1) + 2 == at - 1);
            assert(run_data(events, done) == run_data(events, (done - 1) as nat) + events[at
                - 1].data());
        }
    }
}

/// A download on which nothing goes wrong writes the command of each window
/// once, in order, reads the bytes of the window and then its footer, and
/// ends after the last window with the bytes that the windows brought, in
/// order and nothing else.
pub proof fn lemma_download_run(
    states: Seq<Download>,
    events: Seq<Event>,
    actions: Seq<Action<Vec<u8>>>,
    at: int,
)
    requires
        Download::is_run(states, events, actions),
        0 <= at < events.len(),
    ensures
        at <= 3 * states[0].plan().windows(),
        at == 3 * states[0].plan().windows() ==> {
            &&& actions[at] matches Action::Finish(Ok(data))
            &&& data@ == run_data(events, states[0].plan().windows())
        },
        at < 3 * states[0].plan().windows() && at % 3 == 0 ==> actions[at].is_write(
            states[0].plan().packet((at / 3) as nat),
        ),
        at < 3 * states[0].plan().windows() && at % 3 == 1 ==> actions[at].is_read(
            states[0].plan().length((at / 3) as nat) as int,
        ),
        at < 3 * states[0].plan().windows() && at % 3 == 2 ==> actions[at].is_read(
            FRAME_LEN as int,
        ),
{
    lemma_download_run_state(states, events, actions, at);
}

} // verus!
