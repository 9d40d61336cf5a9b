//! The state of the desktop client and how messages change it. The client is
//! a loop: a message comes in, the state is updated, and the work that the
//! message asks for is handed back to whoever runs the loop.

use crate::gui::home::{handle_message, home_command, Command, MessageHome};
use crate::request_manager::request::{Request, RequestImpl, RequestType, RequestView};
use crate::text::{first_index, lemma_first_index_is, lemma_first_index_none, same_text};
use vstd::prelude::*;

verus! {

/// The tabs of the client.
#[derive(Clone, Copy, Debug, PartialEq, Eq, Structural)]
pub enum Tab {
    Home,
    Editor,
}

impl Default for Tab {
    fn default() -> (r: Self)
        ensures
            r == Tab::Home,
    {
        Tab::Home
    }
}

/// State of the GUI. It changes through messages alone.
#[derive(Debug)]
pub struct State {
    actual_tab: Tab,
    requests: Vec<(RequestImpl, bool)>,
}

/// The messages that can be sent to the GUI.
#[derive(Debug)]
pub enum Message {
    TabChanged(Tab),
    MessageHome(MessageHome),
    RequestButtonToggled(RequestImpl),
}

/// The mathematical content of a [`State`].
pub ghost struct StateView {
    pub actual_tab: Tab,
    /// The requests in the order in which they were added, each with whether
    /// it is switched on.
    pub requests: Seq<(RequestView, bool)>,
}

/// The requests of a list with their mathematical content.
pub open spec fn requests_view(requests: Seq<(RequestImpl, bool)>) -> Seq<(RequestView, bool)> {
    Seq::new(requests.len(), |i: int| (requests[i].0@, requests[i].1))
}

impl View for State {
    type V = StateView;

    closed spec fn view(&self) -> StateView {
        StateView { actual_tab: self.actual_tab, requests: requests_view(self.requests@) }
    }
}

/// The requests after the button of `request` was pressed: the first request
/// with the same URL and method is switched over; where there is none, the
/// request is added, switched on.
pub open spec fn toggled(requests: Seq<(RequestView, bool)>, request: RequestView) -> Seq<
    (RequestView, bool),
> {
    match first_index(
        requests,
        |entry: (RequestView, bool)| entry.0.url == request.url && entry.0.method == request.method,
    ) {
        Some(i) => requests.update(i, (requests[i].0, !requests[i].1)),
        None => requests.push((request, true)),
    }
}

/// The state after a message.
pub open spec fn updated(state: StateView, message: Message) -> StateView {
    match message {
        Message::TabChanged(tab) => StateView { actual_tab: tab, ..state },
        Message::MessageHome(_) => state,
        Message::RequestButtonToggled(request) => StateView {
            requests: toggled(state.requests, request@),
            ..state
        },
    }
}

/// The work that a message asks for: only messages of the home screen ask
/// for any.
pub open spec fn command_of(message: Message) -> Command {
    match message {
        Message::MessageHome(inner) => home_command(inner),
        _ => Command::Idle,
    }
}

/// The two requests that a fresh client shows.
pub open spec fn default_requests() -> Seq<(RequestView, bool)> {
    seq![
        (
            RequestView {
                name: "Get Todo"@,
                url: "https://jsonplaceholder.typicode.com/todos/1"@,
                method: RequestType::GET,
                body: Seq::empty(),
                headers: Seq::empty(),
            },
            false,
        ),
        (
            RequestView {
                name: "Create Post"@,
                url: "https://jsonplaceholder.typicode.com/posts"@,
                method: RequestType::POST,
                body: "{ \"title\": \"foo\", \"body\": \"bar\", \"userId\": 1 }"@,
                headers: Seq::empty(),
            },
            false,
        ),
    ]
}

impl State {
    /// The tab that is shown.
    pub fn actual_tab(&self) -> (r: Tab)
        ensures
            r == self@.actual_tab,
    {
        self.actual_tab
    }

    /// The requests, each with whether it is switched on.
    pub fn requests(&self) -> (r: &Vec<(RequestImpl, bool)>)
        ensures
            requests_view(r@) == self@.requests,
    {
        &self.requests
    }
}

/// Updates the state of the GUI based on the message received, and says what
/// work the message asks for.
pub fn update(state: &mut State, message: Message) -> (r: Command)
    ensures
        final(state)@ == updated(old(state)@, message),
        r == command_of(message),
{
    match message {
        Message::TabChanged(tab) => {
            state.actual_tab = tab;
            Command::Idle
        },
        Message::MessageHome(inner) => handle_message(inner),
        Message::RequestButtonToggled(request) => {
            let ghost before = state@.requests;
            let ghost same = |entry: (RequestView, bool)|
                entry.0.url == request@.url && entry.0.method == request@.method;
            let url = request.get_url();
            let method = request.get_method();
            let mut i: usize = 0;
            while i < state.requests.len()
                invariant
                    i <= state.requests.len(),
                    state@ == old(state)@,
                    before == state@.requests,
                    url@ == request@.url,
                    method == request@.method,
                    message == Message::RequestButtonToggled(request),
                    same == |entry: (RequestView, bool)|
                        entry.0.url == request@.url && entry.0.method == request@.method,
                    forall|j: int| 0 <= j < i ==> !same(#[trigger] before[j]),
                decreases state.requests.len() - i,
            {
                let candidate = &state.requests[i].0;
                let candidate_url = candidate.get_url();
                if same_text(candidate_url.as_str(), url.as_str()) && candidate.get_method()
                    == method {
                    proof {
                        lemma_first_index_is(before, same, i as int);
                    }
                    let entry = state.requests.remove(i);
                    state.requests.insert(i, (entry.0, !entry.1));
                    assert(state@.requests =~= before.update(
                        i as int,
                        (before[i as int].0, !before[i as int].1),
                    ));
                    return Command::Idle;
                }
                i = i + 1;
            }
            proof {
                lemma_first_index_none(before, same);
            }
            state.requests.push((request, true));
            assert(state@.requests =~= before.push((request@, true)));
            Command::Idle
        },
    }
}

impl Default for State {
    /// The state of a fresh client: the home tab and two requests, switched
    /// off.
    fn default() -> (r: Self)
        ensures
            r@ == (StateView { actual_tab: Tab::Home, requests: default_requests() }),
    {
        let mut requests: Vec<(RequestImpl, bool)> = Vec::new();
        let todo = RequestImpl::with_method(
            RequestType::GET,
            "https://jsonplaceholder.typicode.com/todos/1",
            "Get Todo",
            "",
        );
        let post = RequestImpl::with_method(
            RequestType::POST,
            "https://jsonplaceholder.typicode.com/posts",
            "Create Post",
            "{ \"title\": \"foo\", \"body\": \"bar\", \"userId\": 1 }",
        );
        requests.push((todo, false));
        requests.push((post, false));
        let r = State { actual_tab: Tab::default(), requests };
        proof {
            reveal_strlit("");
            assert(""@ =~= Seq::<char>::empty());
            assert(r@.requests =~= default_requests());
        }
        r
    }
}

} // verus!
