//! One command and the cartridge's answer to it.

use vstd::prelude::*;
use crate::command::{complete_packet_spec, Command, FRAME_LEN};
use crate::error::{Error, Frame};
use crate::transport::{Action, Event, Stage};

verus! {

/// Sends one command, reads what the cartridge answers and checks the
/// footer.
///
/// The packet is written first. Where the command has an answer, it is read
/// next, in its whole length. Last come the four bytes of the footer. The
/// exchange ends at the first failure of the transport, with that failure,
/// and at a wrong footer.
pub struct Exchange {
    command: Command,
    stage: Stage,
    response: Vec<u8>,
}

impl Exchange {
    #[verifier::type_invariant]
    spec fn packet_fits(&self) -> bool {
        self.command.fits()
    }

    /// The command that is sent.
    pub closed spec fn command(&self) -> Command {
        self.command
    }

    /// How far the exchange has come.
    pub closed spec fn stage(&self) -> Stage {
        self.stage
    }

    /// The answer of the cartridge, as far as it has been read.
    pub closed spec fn response(&self) -> Seq<u8> {
        self.response@
    }

    /// What an event leads to: the exchange after it, and the next action.
    pub open spec fn steps(&self, event: Event, next: Exchange, action: Action<Vec<u8>>) -> bool {
        let command = self.command();
        &&& next.command() == command
        &&& match event {
            Event::Failed(error) => action.is_failure(error) && next.stage() == Stage::Finished,
            Event::Start => {
                &&& action.is_write(command.packet())
                &&& next.stage() == Stage::Sending
                &&& next.response() == self.response()
            },
            Event::Done => {
                &&& next.response() == self.response()
                &&& if command.recv_length_spec() > 0 {
                    action.is_read(command.recv_length_spec() as int) && next.stage()
                        == Stage::Receiving
                } else {
                    action.is_read(FRAME_LEN as int) && next.stage() == Stage::Confirming
                }
            },
            Event::Data(bytes) => if self.stage() == Stage::Receiving {
                &&& action.is_read(FRAME_LEN as int)
                &&& next.stage() == Stage::Confirming
                &&& next.response() == bytes@
            } else {
                &&& next.stage() == Stage::Finished
                &&& if bytes@ == complete_packet_spec(command.id_spec()) {
                    action matches Action::Finish(Ok(response)) && response@ == self.response()
                } else {
                    action matches Action::Finish(Err(error)) && error.is_mismatch(
                        Frame::CommandComplete,
                        bytes@,
                        complete_packet_spec(command.id_spec()),
                    )
                }
            },
        }
    }

    /// Whether an event tells that the action before it went well: the
    /// packet was written, the answer came, or the footer of the command.
    pub open spec fn proceeds(&self, event: Event) -> bool {
        match self.stage() {
            Stage::Ready => event is Start,
            Stage::Sending => event is Done,
            Stage::Receiving => event is Data,
            Stage::Confirming => event matches Event::Data(bytes) && bytes@
                == complete_packet_spec(self.command().id_spec()),
            Stage::Finished => false,
        }
    }

    /// Whether `states`, `events` and `actions` tell of an exchange on
    /// which nothing went wrong: it begins with a fresh exchange, and each
    /// event tells that the action before it went well and leads to the
    /// next state and action.
    pub open spec fn is_run(
        states: Seq<Exchange>,
        events: Seq<Event>,
        actions: Seq<Action<Vec<u8>>>,
    ) -> bool {
        &&& states.len() == events.len() + 1
        &&& actions.len() == events.len()
        &&& states[0].stage() == Stage::Ready
        &&& states[0].response() == Seq::<u8>::empty()
        &&& forall|i: int|
            0 <= i < events.len() ==> (#[trigger] states[i]).proceeds(events[i])
                && states[i].steps(events[i], states[i + 1], actions[i])
    }

    /// An exchange that has not begun.
    pub fn new(command: Command) -> (exchange: Exchange)
        requires
            command.fits(),
        ensures
            exchange.command() == command,
            exchange.stage() == Stage::Ready,
            exchange.response() == Seq::<u8>::empty(),
    {
        Exchange { command, stage: Stage::Ready, response: Vec::new() }
    }

    /// How far the exchange has come.
    pub fn current_stage(&self) -> (stage: Stage)
        ensures
            stage == self.stage(),
    {
        self.stage
    }

    /// Takes the outcome of the last action and says what to do next.
    pub fn advance(&mut self, event: Event) -> (action: Action<Vec<u8>>)
        requires
            old(self).stage().accepts(event),
        ensures
            old(self).steps(event, *final(self), action),
    {
        proof {
            use_type_invariant(&*self);
        }
        match event {
            Event::Failed(error) => {
                self.stage = Stage::Finished;
                Action::Finish(Err(error))
            },
            Event::Start => {
                self.stage = Stage::Sending;
                Action::Write(self.command.encode_packet())
            },
            Event::Done => {
                let length = self.command.recv_length();
                if length > 0 {
                    self.stage = Stage::Receiving;
                    Action::Read(length as usize)
                } else {
                    self.stage = Stage::Confirming;
                    Action::Read(FRAME_LEN)
                }
            },
            Event::Data(bytes) => match self.stage {
                Stage::Receiving => {
                    self.response = bytes;
                    self.stage = Stage::Confirming;
                    Action::Read(FRAME_LEN)
                },
                _ => {
                    self.stage = Stage::Finished;
                    match self.command.complete_check(bytes.as_slice()) {
                        Ok(()) => {
                            let mut response: Vec<u8> = Vec::new();
                            core::mem::swap(&mut response, &mut self.response);
                            Action::Finish(Ok(response))
                        },
                        Err(error) => Action::Finish(Err(error)),
                    }
                },
            },
        }
    }
}

/// An exchange on which nothing goes wrong writes the packet of its command,
/// reads the answer where the command has one, reads the footer and ends
/// with the answer: with the bytes that came before the footer, or with none.
pub proof fn lemma_exchange_run(
    states: Seq<Exchange>,
    events: Seq<Event>,
    actions: Seq<Action<Vec<u8>>>,
)
    requires
        Exchange::is_run(states, events, actions),
    ensures
        events.len() > 0 ==> actions[0].is_write(states[0].command().packet()),
        states[0].command().recv_length_spec() == 0 ==> {
            &&& events.len() <= 3
            &&& events.len() > 1 ==> actions[1].is_read(FRAME_LEN as int)
            &&& events.len() > 2 ==> (actions[2] matches Action::Finish(Ok(response))
                && response@ == Seq::<u8>::empty())
        },
        states[0].command().recv_length_spec() > 0 ==> {
            &&& events.len() <= 4
            &&& events.len() > 1 ==> actions[1].is_read(
                states[0].command().recv_length_spec() as int,
            )
            &&& events.len() > 2 ==> actions[2].is_read(FRAME_LEN as int)
            &&& events.len() > 3 ==> (actions[3] matches Action::Finish(Ok(response))
                && response@ == events[2].data())
        },
{
    if events.len() > 0 {
        assert(states[0].proceeds(events[0]));
    }
    if events.len() > 1 {
        assert(states[1].proceeds(events[1]));
    }
    if events.len() > 2 {
        assert(states[2].proceeds(events[2]));
    }
    if events.len() > 3 {
        assert(states[3].proceeds(events[3]));
    }
    if events.len() > 4 {
        assert(states[4].proceeds(events[4]));
    }
}

} // verus!
