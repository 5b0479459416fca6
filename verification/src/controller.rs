//! The dispatch controller: the front-end's state and its reaction to each
//! event. It issues requests as commands for the host to carry out and folds
//! every response into the state by overwriting.

use vstd::prelude::*;

verus! {

/// An event that the host hands to the controller.
#[derive(Debug, Clone, Copy, PartialEq, Eq, Structural)]
pub enum Message {
    /// The user asked for one more request to be dispatched.
    DispatchPressed,
    /// The adapter delivered this response.
    NewValue(i64),
    /// A send that the host carried out has completed.
    Dummy,
}

/// What the host must do after an update.
#[derive(Debug, Clone, Copy, PartialEq, Eq, Structural)]
pub enum Command {
    /// Nothing.
    Nothing,
    /// Send this request to the worker without blocking the event loop, and
    /// report completion with `Message::Dummy`.
    Send(i64),
}

/// The observable state of the controller.
pub struct WatcherState {
    /// The request most recently issued; 0 before the first.
    pub last_sent: int,
    /// The response most recently folded in; 0 before the first.
    pub last_recv: int,
}

impl WatcherState {
    /// The state at startup.
    pub open spec fn initial() -> WatcherState {
        WatcherState { last_sent: 0, last_recv: 0 }
    }

    /// An event can be handled unless it would push the request counter
    /// past the largest request.
    pub open spec fn accepts(self, message: Message) -> bool {
        message is DispatchPressed ==> self.last_sent < i64::MAX
    }

    /// Overwrites the last response with `response`.
    pub open spec fn fold(self, response: i64) -> WatcherState {
        WatcherState { last_recv: response as int, ..self }
    }

    /// The next state, and the command for the host.
    pub open spec fn update(self, message: Message) -> (WatcherState, Command) {
        match message {
            Message::DispatchPressed => (
                WatcherState { last_sent: self.last_sent + 1, ..self },
                Command::Send((self.last_sent + 1) as i64),
            ),
            Message::NewValue(response) => (self.fold(response), Command::Nothing),
            Message::Dummy => (self, Command::Nothing),
        }
    }

    /// The state after `responses` have been folded in, oldest first.
    pub open spec fn fold_all(self, responses: Seq<i64>) -> WatcherState
        decreases responses.len(),
    {
        if responses.len() == 0 {
            self
        } else {
            self.fold_all(responses.drop_last()).fold(responses.last())
        }
    }

    /// The state after the dispatch button was pressed `presses` times.
    pub open spec fn press_all(self, presses: nat) -> WatcherState
        decreases presses,
    {
        if presses == 0 {
            self
        } else {
            self.press_all((presses - 1) as nat).update(Message::DispatchPressed).0
        }
    }
}

/// The dispatch controller.
pub struct ThreadWatcher {
    last_sent: i64,
    last_recv: i64,
}

impl View for ThreadWatcher {
    type V = WatcherState;

    closed spec fn view(&self) -> WatcherState {
        WatcherState { last_sent: self.last_sent as int, last_recv: self.last_recv as int }
    }
}

impl ThreadWatcher {
    /// A controller that has sent and received nothing, and no command.
    pub fn new() -> (started: (ThreadWatcher, Command))
        ensures
            started.0@ == WatcherState::initial(),
            started.1 == Command::Nothing,
    {
        (ThreadWatcher { last_sent: 0, last_recv: 0 }, Command::Nothing)
    }

    /// The window title.
    pub fn title(&self) -> (title: String)
        ensures
            title@ == "Thread watcher"@,
    {
        "Thread watcher".to_owned()
    }

    /// The request most recently issued.
    pub fn last_sent(&self) -> (request: i64)
        ensures
            request == self@.last_sent,
    {
        self.last_sent
    }

    /// The response most recently folded in.
    pub fn last_recv(&self) -> (response: i64)
        ensures
            response == self@.last_recv,
    {
        self.last_recv
    }

    /// Tells whether `message` can be handled in this state.
    pub fn can_update(&self, message: Message) -> (ok: bool)
        ensures
            ok == self@.accepts(message),
    {
        match message {
            Message::DispatchPressed => self.last_sent < i64::MAX,
            _ => true,
        }
    }

    /// Handles one event.
    pub fn update(&mut self, message: Message) -> (command: Command)
        requires
            old(self)@.accepts(message),
        ensures
            (final(self)@, command) == old(self)@.update(message),
    {
        match message {
            Message::DispatchPressed => {
                self.last_sent = self.last_sent + 1;
                Command::Send(self.last_sent)
            },
            Message::NewValue(response) => {
                self.last_recv = response;
                Command::Nothing
            },
            Message::Dummy => Command::Nothing,
        }
    }
}

/// Folding the same response in twice leaves the state that folding it in
/// once leaves.
pub proof fn lemma_fold_idempotent(state: WatcherState, response: i64)
    ensures
        state.fold(response).fold(response) == state.fold(response),
        state.update(Message::NewValue(response)).0.update(Message::NewValue(response))
            == state.update(Message::NewValue(response)),
{
}

/// A fold overwrites: whatever was received before, the last response is the
/// one folded in, and the request counter stays as it was.
pub proof fn lemma_fold_overwrites(state: WatcherState, response: i64)
    ensures
        state.fold(response).last_recv == response,
        state.fold(response).last_sent == state.last_sent,
{
}

/// After any run of responses the state shows the newest of them, or what it
/// showed before if there was none.
pub proof fn lemma_fold_all_shows_newest(state: WatcherState, responses: Seq<i64>)
    ensures
        state.fold_all(responses).last_sent == state.last_sent,
        state.fold_all(responses).last_recv == if responses.len() == 0 {
            state.last_recv
        } else {
            responses.last() as int
        },
    decreases responses.len(),
{
    if responses.len() > 0 {
        lemma_fold_all_shows_newest(state, responses.drop_last());
    }
}

/// The requests count up by one: the press that follows `presses` earlier
/// ones issues the request `last_sent + presses + 1`.
pub proof fn lemma_presses_count_up(state: WatcherState, presses: nat)
    requires
        state.last_sent + presses < i64::MAX,
    ensures
        state.press_all(presses).last_sent == state.last_sent + presses,
        state.press_all(presses).last_recv == state.last_recv,
        state.press_all(presses).accepts(Message::DispatchPressed),
        state.press_all(presses).update(Message::DispatchPressed).1 == Command::Send(
            (state.last_sent + presses + 1) as i64,
        ),
    decreases presses,
{
    if presses > 0 {
        lemma_presses_count_up(state, (presses - 1) as nat);
    }
}

} // verus!
