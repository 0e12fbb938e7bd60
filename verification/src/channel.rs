//! The channel fabric: an ordered queue per direction, with a
//! non-blocking receive. The cross-thread transport is outside the
//! library; this type carries the queue discipline the actors rely on.

use vstd::prelude::*;

use crate::messages::{CityInfo, ModelRequest};

verus! {

/// An unbounded, ordered, first-in-first-out message queue.
/// Its view is the sequence of queued messages, oldest first.
pub struct Channel<T> {
    pub items: Vec<T>,
}

impl<T> View for Channel<T> {
    type V = Seq<T>;

    open spec fn view(&self) -> Seq<T> {
        self.items@
    }
}

impl<T> Channel<T> {
    /// Creates an empty queue.
    pub fn new() -> (r: Self)
        ensures
            r@ == Seq::<T>::empty(),
    {
        Channel { items: Vec::new() }
    }

    /// Appends a message at the back.
    pub fn send(&mut self, msg: T)
        ensures
            final(self)@ == old(self)@.push(msg),
    {
        self.items.push(msg);
    }

    /// Removes and returns the oldest message, or returns `None` at once
    /// when the queue is empty; it never blocks.
    pub fn try_recv(&mut self) -> (r: Option<T>)
        ensures
            old(self)@.len() == 0 ==> r is None && final(self)@ == old(self)@,
            old(self)@.len() > 0 ==> r == Some(old(self)@[0]) && final(self)@ == old(self)@.drop_first(),
    {
        if self.items.len() == 0 {
            None
        } else {
            let first = self.items.remove(0);
            proof {
                assert(self.items@ =~= old(self).items@.drop_first());
            }
            Some(first)
        }
    }

    /// The number of queued messages.
    pub fn len(&self) -> (n: usize)
        ensures
            n == self@.len(),
    {
        self.items.len()
    }
}

/// Queues a credentials-change request for the model actor.
pub fn send_wifi_credentials_update(tx: &mut Channel<ModelRequest>, ssid: String, pass: String)
    ensures
        final(tx)@ == old(tx)@.push(ModelRequest::UpdateWifiCreds(ssid, pass)),
{
    tx.send(ModelRequest::UpdateWifiCreds(ssid, pass));
}

/// Queues a location-list-change request for the model actor.
pub fn send_cities_info_update(tx: &mut Channel<ModelRequest>, cities_info: Vec<CityInfo>)
    ensures
        final(tx)@ == old(tx)@.push(ModelRequest::UpdateCitiesInfo(cities_info)),
{
    tx.send(ModelRequest::UpdateCitiesInfo(cities_info));
}

} // verus!
