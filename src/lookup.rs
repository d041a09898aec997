use vstd::prelude::*;

use crate::record::{empty_record, Cep};

verus! {

/// The start of every lookup address; the postal code and `/json/` follow it.
pub const URL: &'static str = "https://viacep.com.br/ws/";

/// The status shown after a lookup succeeded.
pub const VALID_STATUS: &'static str = "Valid cep";

/// The status shown after a lookup failed, for whatever reason.
pub const INVALID_STATUS: &'static str = "Invalid cep";

/// The address asked for the postal code `input`, taken as typed.
pub open spec fn request_url(input: Seq<char>) -> Seq<char> {
    URL@ + input + "/json/"@
}

/// Whether an HTTP status lies in the success range 200 to 299.
pub open spec fn success_status(status: u16) -> bool {
    200 <= status && status < 300
}

/// What the component shows: the status line and the record in the table.
pub struct ModelState {
    pub status: Seq<char>,
    pub record: Seq<Seq<char>>,
}

/// An event as the state machine sees it.
pub enum Event {
    /// The input field now holds this text.
    Input(Seq<char>),
    /// A lookup returned this record.
    Ready(Seq<Seq<char>>),
    /// A lookup failed.
    Failed,
}

/// The state before any event.
pub open spec fn initial_state() -> ModelState {
    ModelState { status: Seq::empty(), record: empty_record() }
}

/// The state after event `e` in state `s`. An edit of the input changes
/// nothing shown (it only starts a request); a successful lookup replaces the
/// whole record; a failed one keeps the record that was shown.
pub open spec fn step(s: ModelState, e: Event) -> ModelState {
    match e {
        Event::Input(_) => s,
        Event::Ready(r) => ModelState { status: VALID_STATUS@, record: r },
        Event::Failed => ModelState { status: INVALID_STATUS@, record: s.record },
    }
}

/// The request that event `e` starts, if any.
pub open spec fn effect(e: Event) -> Option<Seq<char>> {
    match e {
        Event::Input(t) => Some(request_url(t)),
        _ => None,
    }
}

/// How a finished request is read: a body that parsed, under a success
/// status, is a result; anything else (an error status, a body that did not
/// parse, a transport failure) is a failure.
pub open spec fn outcome(status: u16, parsed: Option<Seq<Seq<char>>>) -> Event {
    match parsed {
        Some(r) => if success_status(status) {
            Event::Ready(r)
        } else {
            Event::Failed
        },
        None => Event::Failed,
    }
}

/// The view of an optional record.
pub open spec fn record_view(parsed: Option<Cep>) -> Option<Seq<Seq<char>>> {
    match parsed {
        Some(c) => Some(c@),
        None => None,
    }
}

/// A message to the component.
pub enum Msg {
    /// The input field was edited and now holds this text.
    FetchData(String),
    /// A lookup succeeded with this record.
    FetchReady(Cep),
    /// A lookup failed.
    FetchResourceFailed,
}

impl View for Msg {
    type V = Event;

    open spec fn view(&self) -> Event {
        match self {
            Msg::FetchData(t) => Event::Input(t@),
            Msg::FetchReady(c) => Event::Ready(c@),
            Msg::FetchResourceFailed => Event::Failed,
        }
    }
}

/// What the component does after a message, besides drawing itself again,
/// which it does after every message.
pub enum Action {
    /// Send a GET request to this address.
    Fetch(String),
    /// Nothing more.
    Render,
}

impl View for Action {
    type V = Option<Seq<char>>;

    open spec fn view(&self) -> Option<Seq<char>> {
        match self {
            Action::Fetch(u) => Some(u@),
            Action::Render => None,
        }
    }
}

/// The component's state: the status line and the last record fetched.
pub struct Model {
    pub text: String,
    pub cep: Cep,
}

impl View for Model {
    type V = ModelState;

    open spec fn view(&self) -> ModelState {
        ModelState { status: self.text@, record: self.cep@ }
    }
}

/// The address asked for the postal code `input`, taken as typed.
pub fn lookup_url(input: &str) -> (r: String)
    ensures
        r@ == request_url(input@),
{
    let mut r = URL.to_owned();
    r.append(input);
    r.append("/json/");
    r
}

/// Whether an HTTP status is a success, as http's `StatusCode::is_success`
/// reads it: 200 to 299.
pub fn is_success(status: u16) -> (r: bool)
    ensures
        r == success_status(status),
{
    200 <= status && status < 300
}

/// The message that a finished request makes: `parsed` is the record that
/// the body decoded to, or `None` where the request failed or the body did
/// not decode.
pub fn classify_response(status: u16, parsed: Option<Cep>) -> (m: Msg)
    ensures
        m@ == outcome(status, record_view(parsed)),
{
    match parsed {
        Some(data) => {
            if is_success(status) {
                Msg::FetchReady(data)
            } else {
                Msg::FetchResourceFailed
            }
        },
        None => Msg::FetchResourceFailed,
    }
}

impl Model {
    /// The state before any event: no status and an empty record.
    pub fn create() -> (m: Model)
        ensures
            m@ == initial_state(),
    {
        Model { text: String::new(), cep: Cep::new() }
    }

    /// Handles one message and says what to do next.
    pub fn update(&mut self, msg: Msg) -> (r: Action)
        ensures
            final(self)@ == step(old(self)@, msg@),
            r@ == effect(msg@),
    {
        match msg {
            Msg::FetchData(input) => Action::Fetch(lookup_url(input.as_str())),
            Msg::FetchReady(data) => {
                self.text = VALID_STATUS.to_owned();
                self.cep = data;
                Action::Render
            },
            Msg::FetchResourceFailed => {
                self.text = INVALID_STATUS.to_owned();
                Action::Render
            },
        }
    }
}

} // verus!
