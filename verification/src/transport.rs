//! Endpoint message bus: registration, addressing, and delivery of typed
//! messages between independently scheduled firmware components.

use vstd::prelude::*;

verus! {

/// Internal subsystem tags: logical destinations that live on this chip.
#[derive(Copy, Clone, Debug, PartialEq, Eq, Structural)]
pub enum Internal {
    /// The power-button / indicator subsystem.
    Power,
    /// The battery subsystem.
    Battery,
    /// The USB Type-C subsystem.
    Usbc,
}

/// External tags: logical destinations that live off-chip.
#[derive(Copy, Clone, Debug, PartialEq, Eq, Structural)]
pub enum External {
    /// The host connected to this controller.
    Host,
}

/// A logical endpoint address. The set of valid tags is fixed at build time.
#[derive(Copy, Clone, Debug, PartialEq, Eq, Structural)]
pub enum Endpoint {
    Internal(Internal),
    External(External),
}

/// Failures reported by the endpoint bus.
#[derive(Copy, Clone, Debug, PartialEq, Eq, Structural)]
pub enum BusError {
    /// Registration targeted an address that already has a handler; a fatal
    /// configuration error, never retried.
    AlreadyRegistered,
    /// An `EndpointLink` was registered under an address it is not bound to; a
    /// build-time wiring bug.
    AddressMismatch,
    /// `send` targeted an address with no registered handler; recoverable and
    /// always surfaced to the caller.
    UnknownDestination,
}

/// Registration state of an [`EndpointLink`]: one-way, exactly once.
#[derive(Copy, Clone, Debug, PartialEq, Eq, Structural)]
pub enum LinkState {
    Uninitialized,
    Registered,
}

/// A handle bound to exactly one endpoint address, created uninitialized and
/// moved to the registered state exactly once by a successful registration.
#[derive(Copy, Clone, Debug)]
pub struct EndpointLink {
    endpoint: Endpoint,
    state: LinkState,
}

impl EndpointLink {
    /// The address this link is bound to, stable for the link's lifetime.
    pub closed spec fn endpoint(self) -> Endpoint {
        self.endpoint
    }

    /// True while the link has never been registered.
    pub closed spec fn is_uninit(self) -> bool {
        self.state is Uninitialized
    }

    /// True once the link has been registered.
    pub closed spec fn is_registered(self) -> bool {
        self.state is Registered
    }

    /// Creates a link bound to `endpoint`, in the uninitialized state.
    pub fn uninit(endpoint: Endpoint) -> (link: Self)
        ensures
            link.endpoint() == endpoint,
            link.is_uninit(),
    {
        EndpointLink { endpoint, state: LinkState::Uninitialized }
    }

    /// The address this link is bound to.
    pub fn bound_endpoint(&self) -> (endpoint: Endpoint)
        ensures
            endpoint == self.endpoint(),
    {
        self.endpoint
    }
}

/// A message in flight: the destination it was addressed to and the payload
/// the sender built. Read-only to the bus and to the handler.
pub struct Message<P> {
    pub destination: Endpoint,
    pub payload: P,
}

/// A receiver capability: one non-blocking processing callback, invoked
/// synchronously by the bus for each message delivered to the endpoint the
/// implementor registered.
///
/// `observed` abstracts the receiver's state as the sequence of payloads it
/// has processed, in arrival order; `process` must extend that sequence by
/// exactly the payload it was handed.
pub trait MessageDelegate: Sized {
    type Payload;

    /// The payloads this delegate has processed, in arrival order.
    spec fn observed(&self) -> Seq<Self::Payload>;

    /// Handles one delivered message. Expected to complete in bounded time,
    /// typically by recording the payload and signalling a waiting task.
    fn process(&mut self, message: &Message<Self::Payload>)
        ensures
            final(self).observed() == old(self).observed().push(message.payload),
    ;
}

/// The process-wide endpoint registry: at most one handler per address, added
/// only through registration and never removed in normal operation. `send`
/// looks the destination up here and dispatches synchronously.
pub struct Bus<H> {
    power: Option<H>,
    battery: Option<H>,
    usbc: Option<H>,
    host: Option<H>,
}

impl<H: MessageDelegate> Bus<H> {
    /// The handler registered for `endpoint`, if any.
    pub closed spec fn handler_at(self, endpoint: Endpoint) -> Option<H> {
        match endpoint {
            Endpoint::Internal(Internal::Power) => self.power,
            Endpoint::Internal(Internal::Battery) => self.battery,
            Endpoint::Internal(Internal::Usbc) => self.usbc,
            Endpoint::External(External::Host) => self.host,
        }
    }

    /// True when a handler occupies `endpoint`.
    pub open spec fn registered(self, endpoint: Endpoint) -> bool {
        self.handler_at(endpoint) is Some
    }

    /// The payloads delivered so far to the handler at `endpoint`; empty while
    /// no handler is registered there.
    pub open spec fn delivered(self, endpoint: Endpoint) -> Seq<H::Payload> {
        if self.handler_at(endpoint) is Some {
            self.handler_at(endpoint)->0.observed()
        } else {
            Seq::empty()
        }
    }

    /// Creates an empty registry: no endpoint has a handler.
    pub fn new() -> (bus: Self)
        ensures
            forall|e: Endpoint| bus.handler_at(e) is None,
    {
        let bus = Bus::<H> { power: None, battery: None, usbc: None, host: None };
        proof {
            assert forall|e: Endpoint| bus.handler_at(e) is None by {
                match e {
                    Endpoint::Internal(Internal::Power) => {},
                    Endpoint::Internal(Internal::Battery) => {},
                    Endpoint::Internal(Internal::Usbc) => {},
                    Endpoint::External(External::Host) => {},
                }
            }
        }
        bus
    }

    /// Registers `handler` for `endpoint` and marks `link` registered.
    ///
    /// Fails with `AlreadyRegistered` when the address is occupied and with
    /// `AddressMismatch` when `link` is bound to some other address; on every
    /// failure the registry and the link are left exactly as they were.
    pub fn register_endpoint(
        &mut self,
        endpoint: Endpoint,
        handler: H,
        link: &mut EndpointLink,
    ) -> (r: Result<(), BusError>)
        requires
            old(link).is_uninit(),
        ensures
            r is Ok <==> (!old(self).registered(endpoint) && old(link).endpoint() == endpoint),
            old(self).registered(endpoint) ==> {
                &&& r == Err::<(), BusError>(BusError::AlreadyRegistered)
                &&& *final(self) == *old(self)
                &&& *final(link) == *old(link)
            },
            !old(self).registered(endpoint) && old(link).endpoint() != endpoint ==> {
                &&& r == Err::<(), BusError>(BusError::AddressMismatch)
                &&& *final(self) == *old(self)
                &&& *final(link) == *old(link)
            },
            r is Ok ==> {
                &&& final(self).handler_at(endpoint) == Some(handler)
                &&& final(link).is_registered()
                &&& final(link).endpoint() == old(link).endpoint()
            },
            r is Ok ==> forall|e: Endpoint|
                e != endpoint ==> final(self).handler_at(e) == old(self).handler_at(e),
    {
        if self.lookup_occupied(endpoint) {
            return Err(BusError::AlreadyRegistered);
        }
        let bound = link.bound_endpoint();
        if bound != endpoint {
            return Err(BusError::AddressMismatch);
        }
        match endpoint {
            Endpoint::Internal(Internal::Power) => {
                self.power = Some(handler);
            },
            Endpoint::Internal(Internal::Battery) => {
                self.battery = Some(handler);
            },
            Endpoint::Internal(Internal::Usbc) => {
                self.usbc = Some(handler);
            },
            Endpoint::External(External::Host) => {
                self.host = Some(handler);
            },
        }
        link.state = LinkState::Registered;
        proof {
            assert forall|e: Endpoint|
                e != endpoint implies self.handler_at(e) == old(self).handler_at(e) by {
                match e {
                    Endpoint::Internal(Internal::Power) => {},
                    Endpoint::Internal(Internal::Battery) => {},
                    Endpoint::Internal(Internal::Usbc) => {},
                    Endpoint::External(External::Host) => {},
                }
            }
        }
        Ok(())
    }

    /// Sends `payload` to `destination`, invoking the registered handler's
    /// processing callback synchronously with a message built from the call.
    ///
    /// Fails with `UnknownDestination`, with no observable side effect, when
    /// no handler is registered there; a handler is never invoked for a send
    /// that reports failure. Any caller may send, registered or not.
    pub fn send(&mut self, destination: Endpoint, payload: H::Payload) -> (r: Result<
        (),
        BusError,
    >)
        ensures
            r is Ok <==> old(self).registered(destination),
            !old(self).registered(destination) ==> {
                &&& r == Err::<(), BusError>(BusError::UnknownDestination)
                &&& *final(self) == *old(self)
            },
            r is Ok ==> {
                &&& final(self).registered(destination)
                &&& final(self).delivered(destination) == old(self).delivered(destination).push(
                    payload,
                )
            },
            r is Ok ==> forall|e: Endpoint|
                e != destination ==> final(self).handler_at(e) == old(self).handler_at(e),
    {
        let result = match destination {
            Endpoint::Internal(Internal::Power) => Self::dispatch(
                &mut self.power,
                destination,
                payload,
            ),
            Endpoint::Internal(Internal::Battery) => Self::dispatch(
                &mut self.battery,
                destination,
                payload,
            ),
            Endpoint::Internal(Internal::Usbc) => Self::dispatch(
                &mut self.usbc,
                destination,
                payload,
            ),
            Endpoint::External(External::Host) => Self::dispatch(
                &mut self.host,
                destination,
                payload,
            ),
        };
        proof {
            assert forall|e: Endpoint|
                e != destination implies self.handler_at(e) == old(self).handler_at(e) by {
                match e {
                    Endpoint::Internal(Internal::Power) => {},
                    Endpoint::Internal(Internal::Battery) => {},
                    Endpoint::Internal(Internal::Usbc) => {},
                    Endpoint::External(External::Host) => {},
                }
            }
        }
        result
    }

    /// Hands one message to the handler in `slot`, if the slot is occupied.
    fn dispatch(slot: &mut Option<H>, destination: Endpoint, payload: H::Payload) -> (r: Result<
        (),
        BusError,
    >)
        ensures
            r is Ok <==> *old(slot) is Some,
            *old(slot) is None ==> {
                &&& r == Err::<(), BusError>(BusError::UnknownDestination)
                &&& *final(slot) == *old(slot)
            },
            r is Ok ==> {
                &&& *final(slot) is Some
                &&& (*final(slot))->0.observed() == (*old(slot))->0.observed().push(payload)
            },
    {
        match slot {
            Some(handler) => {
                let message = Message { destination, payload };
                handler.process(&message);
                Ok(())
            },
            None => Err(BusError::UnknownDestination),
        }
    }

    /// A shared view of the handler registered for `endpoint`, letting the
    /// component that owns the consuming task read what its delegate recorded.
    pub fn handler(&self, endpoint: Endpoint) -> (h: Option<&H>)
        ensures
            h is Some <==> self.registered(endpoint),
            h is Some ==> h->0 == self.handler_at(endpoint)->0,
    {
        let slot = match endpoint {
            Endpoint::Internal(Internal::Power) => &self.power,
            Endpoint::Internal(Internal::Battery) => &self.battery,
            Endpoint::Internal(Internal::Usbc) => &self.usbc,
            Endpoint::External(External::Host) => &self.host,
        };
        match slot {
            Some(handler) => Some(handler),
            None => None,
        }
    }

    /// True when a handler occupies `endpoint`.
    fn lookup_occupied(&self, endpoint: Endpoint) -> (occupied: bool)
        ensures
            occupied == self.registered(endpoint),
    {
        match endpoint {
            Endpoint::Internal(Internal::Power) => self.power.is_some(),
            Endpoint::Internal(Internal::Battery) => self.battery.is_some(),
            Endpoint::Internal(Internal::Usbc) => self.usbc.is_some(),
            Endpoint::External(External::Host) => self.host.is_some(),
        }
    }
}

/// A receiver that records every payload handed to it, in arrival order, for
/// a separate task to drain. The simplest delegate: deliveries are kept, and
/// kept in order.
pub struct Mailbox<P> {
    messages: Vec<P>,
}

impl<P: Copy> Mailbox<P> {
    /// Creates a mailbox that has observed nothing.
    pub fn new() -> (mailbox: Self)
        ensures
            mailbox.observed() == Seq::<P>::empty(),
    {
        Mailbox { messages: Vec::new() }
    }

    /// How many payloads have been delivered to this mailbox.
    pub fn count(&self) -> (n: usize)
        ensures
            n == self.observed().len(),
    {
        self.messages.len()
    }

    /// The `i`-th payload delivered to this mailbox, in arrival order.
    pub fn message_at(&self, i: usize) -> (payload: P)
        requires
            i < self.observed().len(),
        ensures
            payload == self.observed()[i as int],
    {
        self.messages[i]
    }
}

impl<P: Copy> MessageDelegate for Mailbox<P> {
    type Payload = P;

    closed spec fn observed(&self) -> Seq<P> {
        self.messages@
    }

    fn process(&mut self, message: &Message<P>) {
        self.messages.push(message.payload);
    }
}

/// Two sequential sends from the same task to the same destination are
/// delivered in program order: against any prior delivery sequence, the first
/// payload sent stands immediately before the second.
pub proof fn lemma_delivery_in_program_order<P>(prior: Seq<P>, first: P, second: P)
    ensures
        prior.push(first).push(second).len() == prior.len() + 2,
        prior.push(first).push(second)[prior.len() as int] == first,
        prior.push(first).push(second)[prior.len() as int + 1] == second,
{
}

} // verus!
