//! The decisions of a viewer session: what to fetch in answer to what the
//! user did and what arrived. Performing the fetches is left to the caller.
use vstd::prelude::*;

use crate::catalog::signal_resource_name;

verus! {

/// Something that happened in the session.
#[derive(Clone, Debug, PartialEq, Eq)]
pub enum SessionEvent {
    /// The user asked for the catalog listing.
    FetchClicked,
    /// A catalog fetch finished; `true` when a listing arrived.
    CatalogArrived(bool),
    /// The user picked one signal of an alias.
    SignalClicked { alias: String, name: String },
}

/// What the caller is to do next.
#[derive(Clone, Debug, PartialEq, Eq)]
pub enum SessionAction {
    Nothing,
    /// Fetch the catalog listing.
    FetchCatalog,
    /// Fetch the signal served under this resource name.
    FetchSignal(String),
}

/// The state of a session: whether a catalog listing has arrived.
#[derive(Clone, Copy, Debug, PartialEq, Eq, Structural)]
pub struct Session {
    pub fetched: bool,
}

impl Session {
    /// A session in which nothing has been fetched yet.
    pub fn new() -> (r: Session)
        ensures
            !r.fetched,
    {
        Session { fetched: false }
    }

    /// The catalog can be asked for until a listing has arrived.
    pub fn can_fetch_catalog(&self) -> (r: bool)
        ensures
            r == !self.fetched,
    {
        !self.fetched
    }

    /// Takes in one event and says what to do next.
    pub fn step(&mut self, event: SessionEvent) -> (r: SessionAction)
        ensures
            match event {
                SessionEvent::FetchClicked => {
                    &&& final(self).fetched == old(self).fetched
                    &&& r == if old(self).fetched {
                        SessionAction::Nothing
                    } else {
                        SessionAction::FetchCatalog
                    }
                },
                SessionEvent::CatalogArrived(ok) => {
                    &&& final(self).fetched == (old(self).fetched || ok)
                    &&& r == SessionAction::Nothing
                },
                SessionEvent::SignalClicked { alias, name } => {
                    &&& final(self).fetched == old(self).fetched
                    &&& r matches SessionAction::FetchSignal(s)
                    &&& s@ == alias@ + "_"@ + name@
                },
            },
    {
        match event {
            SessionEvent::FetchClicked => {
                if self.fetched {
                    SessionAction::Nothing
                } else {
                    SessionAction::FetchCatalog
                }
            },
            SessionEvent::CatalogArrived(ok) => {
                if ok {
                    self.fetched = true;
                }
                SessionAction::Nothing
            },
            SessionEvent::SignalClicked { alias, name } => {
                SessionAction::FetchSignal(signal_resource_name(alias.as_str(), name.as_str()))
            },
        }
    }
}

} // verus!
