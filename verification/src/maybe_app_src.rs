//! A writer in front of a media source that may not exist yet.
//!
//! The source is handed over through a channel some time after the adapter
//! was made. Until it arrives, written data is thrown away. Every change of
//! connectivity is recorded in the adapter's [`States`], when it has one.

use std::sync::mpsc::{Receiver, SyncSender, TryRecvError};
use vstd::prelude::*;

verus! {

/// The receiving end of a channel of `std::sync::mpsc`. Nothing is known of
/// what it holds: another thread fills it.
#[verifier::external_type_specification]
#[verifier::external_body]
#[verifier::reject_recursive_types(T)]
pub struct ExReceiver<T>(Receiver<T>);

/// The sending end of a bounded channel of `std::sync::mpsc`.
#[verifier::external_type_specification]
#[verifier::external_body]
#[verifier::reject_recursive_types(T)]
pub struct ExSyncSender<T>(SyncSender<T>);

/// Why `Receiver::try_recv` handed nothing out.
#[verifier::external_type_specification]
#[verifier::external_body]
pub struct ExTryRecvError(TryRecvError);

/// `std::sync::mpsc::sync_channel` makes a bounded channel and returns its
/// two ends. Nothing is claimed of them.
pub assume_specification<T>[ std::sync::mpsc::sync_channel::<T> ](bound: usize) -> (ends: (
    SyncSender<T>,
    Receiver<T>,
));

/// `Receiver::try_recv` returns the next value of the channel without
/// blocking, or the reason why there is none. What it returns depends on the
/// sending threads, so nothing is claimed of it.
pub assume_specification<T>[ Receiver::<T>::try_recv ](rx: &Receiver<T>) -> (next: Result<
    T,
    TryRecvError,
>);

/// How many sources the sender may hand over before it has to wait.
pub const HANDOVER_BOUND: usize = 3;

/// What the adapter reports about its client.
#[derive(Clone, Copy, Debug, PartialEq, Eq, Structural)]
pub struct States {
    /// Whether a source is attached and takes data.
    pub client_connected: bool,
}

impl States {
    /// Records whether a client is connected.
    pub fn set_client_connected(&mut self, connected: bool)
        ensures
            final(self).client_connected == connected,
    {
        self.client_connected = connected;
    }
}

/// The state object after `connected` was reported to it, if there is one.
pub open spec fn reported(state: Option<States>, connected: bool) -> Option<States> {
    match state {
        Some(_) => Some(States { client_connected: connected }),
        None => None,
    }
}

/// A sink that takes media data.
pub trait MediaSink {
    /// Hands `data` to the sink; `false` when the sink refused it.
    fn push(&self, data: &[u8]) -> bool;

    /// Tells the sink that no more data will come.
    fn end_of_stream(&self);
}

/// A writer around a source that is provided later.
#[verifier::reject_recursive_types(S)]
pub struct MaybeAppSrc<S> {
    rx: Receiver<S>,
    app_src: Option<S>,
    state: Option<States>,
}

impl<S> MaybeAppSrc<S> {
    /// The source that the adapter holds at the moment.
    pub closed spec fn source(&self) -> Option<S> {
        self.app_src
    }

    /// The state object in which connectivity is recorded, if there is one.
    pub closed spec fn state(&self) -> Option<States> {
        self.state
    }

    /// Whether `after` is this adapter once a source has refused what was
    /// written to it: the source is dropped and a disconnected client is
    /// reported.
    pub open spec fn refused(&self, after: Self) -> bool {
        after.source() is None && after.state() == reported(self.state(), false)
    }

    /// Whether `after` is this adapter once it has taken over what was
    /// sent to it: nothing, so that it is as before, or at least one source,
    /// so that it holds a source and has reported a connected client.
    pub open spec fn taken_over(&self, after: Self) -> bool {
        ||| after.source() == self.source() && after.state() == self.state()
        ||| after.source() is Some && after.state() == reported(self.state(), true)
    }

    /// Makes an adapter without a source and without a state object, and the
    /// sender through which the source is to be provided.
    pub fn new_with_tx() -> (made: (Self, SyncSender<S>))
        ensures
            made.0.source() is None,
            made.0.state() is None,
    {
        let (tx, rx) = std::sync::mpsc::sync_channel(HANDOVER_BOUND);
        (MaybeAppSrc { rx, app_src: None, state: None }, tx)
    }

    /// The state object in which connectivity is recorded, if there is one.
    pub fn current_state(&self) -> (state: Option<States>)
        ensures
            state == self.state(),
    {
        self.state
    }

    /// Puts `state` in the place of the state object, or takes the state
    /// object away.
    pub fn set_state(&mut self, state: Option<States>)
        ensures
            final(self).state() == state,
            final(self).source() == old(self).source(),
    {
        self.state = state;
    }

    /// Takes note of what became of a push to the source: a source that
    /// refused the data is dropped, and a disconnected client is reported.
    pub fn pushed(&mut self, delivered: bool)
        ensures
            delivered ==> final(self).source() == old(self).source() && final(self).state() == old(
                self,
            ).state(),
            !delivered ==> final(self).source() is None && final(self).state() == reported(
                old(self).state(),
                false,
            ),
    {
        if !delivered {
            self.app_src = None;
            match self.state {
                Some(ref mut state) => state.set_client_connected(false),
                None => {},
            }
        }
    }

    /// Takes `src` as the source from now on and reports a connected client.
    pub fn attach(&mut self, src: S)
        ensures
            final(self).source() == Some(src),
            final(self).state() == reported(old(self).state(), true),
    {
        self.app_src = Some(src);
        match self.state {
            Some(ref mut state) => state.set_client_connected(true),
            None => {},
        }
    }

    /// Takes over every source that has been sent so far, the last one
    /// staying, and returns the source that the adapter then holds.
    pub fn try_get_src(&mut self) -> (src: Option<&S>)
        ensures
            match src {
                Some(s) => final(self).source() == Some(*s),
                None => final(self).source() is None,
            },
            old(self).taken_over(*final(self)),
    {
        // The count is what shows that the loop ends: no sender hands over
        // as many sources as would stop it.
        let mut taken: usize = 0;
        while taken < usize::MAX
            invariant
                taken == 0 ==> *self == *old(self),
                taken > 0 ==> self.source() is Some && self.state() == reported(
                    old(self).state(),
                    true,
                ),
            decreases usize::MAX - taken,
        {
            match self.rx.try_recv().ok() {
                Some(src) => {
                    self.attach(src);
                    taken = taken + 1;
                },
                None => {
                    break ;
                },
            }
        }
        self.app_src.as_ref()
    }
}

impl<S: MediaSink> MaybeAppSrc<S> {
    /// Writes `buf` to the source and claims all of it as written, whatever
    /// became of it: without a source the data is thrown away, and a source
    /// that refuses the data is dropped.
    pub fn write(&mut self, buf: &[u8]) -> (written: usize)
        ensures
            written == buf@.len(),
            old(self).taken_over(*final(self)) || old(self).refused(*final(self)),
    {
        let delivered = match self.try_get_src() {
            Some(src) => src.push(buf),
            None => {
                return buf.len();
            },
        };
        self.pushed(delivered);
        buf.len()
    }

    /// Has nothing to do: the adapter holds no data back.
    pub fn flush(&self) {
    }

    /// Ends the stream of the source, if one is there, after a problem with
    /// the video source behind the adapter.
    pub fn on_stream_error(&mut self)
        ensures
            old(self).taken_over(*final(self)),
    {
        match self.try_get_src() {
            Some(src) => src.end_of_stream(),
            None => {},
        }
    }
}

} // verus!
