//! The peripheral's connection state machine: advertise, serve one central,
//! and advertise again once it has gone.
use crate::server::{AttError, AttributeServer, ServerView};
use vstd::prelude::*;

verus! {

/// Where the peripheral stands. Disconnection is not a state of its own: it
/// leads straight back to advertising.
#[derive(Clone, Copy, Debug, PartialEq, Eq, Structural)]
pub enum LinkState {
    Advertising,
    Connected,
}

/// What happened at the radio.
#[derive(Clone, Copy, Debug, PartialEq, Eq, Structural)]
pub enum LinkEvent {
    /// A central connected to the advertisement.
    Accepted,
    /// Advertising could not start or failed before a connection.
    AdvertiseFailed,
    /// The central disconnected.
    Disconnected,
}

/// What the peripheral is to do next.
#[derive(Clone, Copy, Debug, PartialEq, Eq, Structural)]
pub enum LinkAction {
    /// Start advertising and wait for a connection.
    Advertise,
    /// Serve the central's requests and notify it of new readings until it goes.
    Serve,
}

/// The peripheral: its link state and its attribute server.
pub struct Peripheral {
    state: LinkState,
    server: AttributeServer,
}

/// Whether no characteristic has a subscription.
pub open spec fn no_subscriptions(s: ServerView) -> bool {
    forall|h: int| 0 <= h < s.subscribed.len() ==> !(#[trigger] s.subscribed[h])
}

impl Peripheral {
    pub closed spec fn state(&self) -> LinkState {
        self.state
    }

    pub closed spec fn server(&self) -> ServerView {
        self.server@
    }

    /// The server is well formed, and holds no subscription unless a central
    /// is connected.
    pub open spec fn wf(&self) -> bool {
        &&& self.server().wf()
        &&& (self.state() == LinkState::Advertising ==> no_subscriptions(self.server()))
    }

    /// A peripheral that has just booted: advertising, with the default values.
    pub fn new() -> (r: Self)
        ensures
            r.wf(),
            r.state() == LinkState::Advertising,
            r.server() == ServerView::initial(),
    {
        Peripheral { state: LinkState::Advertising, server: AttributeServer::new() }
    }

    pub fn link_state(&self) -> (r: LinkState)
        ensures
            r == self.state(),
    {
        self.state
    }

    /// Takes a radio event and says what to do next.
    pub fn on_event(&mut self, event: LinkEvent) -> (r: LinkAction)
        requires
            old(self).wf(),
        ensures
            final(self).wf(),
            event == LinkEvent::Accepted && old(self).state() == LinkState::Advertising ==> {
                &&& final(self).state() == LinkState::Connected
                &&& r == LinkAction::Serve
                &&& final(self).server() == old(self).server()
            },
            event == LinkEvent::Disconnected ==> {
                &&& final(self).state() == LinkState::Advertising
                &&& r == LinkAction::Advertise
                &&& final(self).server() == (ServerView {
                    subscribed: Seq::new(old(self).server().table.len(), |i: int| false),
                    ..old(self).server()
                })
            },
            event == LinkEvent::AdvertiseFailed && old(self).state() == LinkState::Advertising ==> {
                &&& final(self).state() == LinkState::Advertising
                &&& r == LinkAction::Advertise
                &&& final(self).server() == old(self).server()
            },
            old(self).state() == LinkState::Connected && event != LinkEvent::Disconnected ==> {
                &&& final(self).state() == LinkState::Connected
                &&& r == LinkAction::Serve
                &&& final(self).server() == old(self).server()
            },
    {
        match (self.state, event) {
            (_, LinkEvent::Disconnected) => {
                self.server.clear_subscriptions();
                self.state = LinkState::Advertising;
                LinkAction::Advertise
            },
            (LinkState::Advertising, LinkEvent::Accepted) => {
                self.state = LinkState::Connected;
                LinkAction::Serve
            },
            (LinkState::Advertising, LinkEvent::AdvertiseFailed) => LinkAction::Advertise,
            (LinkState::Connected, _) => LinkAction::Serve,
        }
    }

    /// A read request of the connected central.
    pub fn read(&self, h: usize) -> (r: Result<Vec<u8>, AttError>)
        requires
            self.wf(),
        ensures
            r.is_ok() == self.server().read_result(h as int).is_ok(),
            r matches Ok(v) ==> self.server().read_result(h as int) == Ok::<Seq<u8>, AttError>(v@),
            r matches Err(e) ==> self.server().read_result(h as int) == Err::<Seq<u8>, AttError>(e),
    {
        self.server.read(h)
    }

    /// A write request of the connected central.
    pub fn write(&mut self, h: usize, data: &[u8]) -> (r: Result<(), AttError>)
        requires
            old(self).wf(),
        ensures
            final(self).wf(),
            final(self).state() == old(self).state(),
            r == old(self).server().write_result(h as int, data@),
            final(self).server() == old(self).server().after_write(h as int, data@),
    {
        self.server.write(h, data)
    }

    /// The connected central subscribes to, or unsubscribes from, handle `h`.
    pub fn set_subscribed(&mut self, h: usize, on: bool) -> (r: Result<(), AttError>)
        requires
            old(self).wf(),
            old(self).state() == LinkState::Connected,
        ensures
            final(self).wf(),
            final(self).state() == old(self).state(),
            r == old(self).server().subscribe_result(h as int),
            r is Ok ==> final(self).server() == (ServerView {
                subscribed: old(self).server().subscribed.update(h as int, on),
                ..old(self).server()
            }),
            r is Err ==> final(self).server() == old(self).server(),
    {
        self.server.set_subscribed(h, on)
    }

    pub fn is_subscribed(&self, h: usize) -> (r: bool)
        requires
            self.wf(),
        ensures
            r == (self.server().has(h as int) && self.server().subscribed[h as int]),
    {
        self.server.is_subscribed(h)
    }

    /// Stores a new value of handle `h` and gives the notification for the
    /// central, if it has subscribed.
    pub fn notify(&mut self, h: usize, value: &[u8]) -> (r: Result<Option<Vec<u8>>, AttError>)
        requires
            old(self).wf(),
        ensures
            final(self).wf(),
            final(self).state() == old(self).state(),
            r is Ok <==> old(self).server().notify_result(h as int, value@) is Ok,
            r matches Ok(Some(v)) ==> old(self).server().notify_result(h as int, value@) == Ok::<
                Option<Seq<u8>>,
                AttError,
            >(Some(v@)),
            r matches Ok(None) ==> old(self).server().notify_result(h as int, value@) == Ok::<
                Option<Seq<u8>>,
                AttError,
            >(None),
            r matches Err(e) ==> old(self).server().notify_result(h as int, value@) == Err::<
                Option<Seq<u8>>,
                AttError,
            >(e),
            r is Ok ==> final(self).server() == (ServerView {
                values: old(self).server().values.update(h as int, value@),
                ..old(self).server()
            }),
            r is Err ==> final(self).server() == old(self).server(),
    {
        self.server.notify(h, value)
    }
}

} // verus!
