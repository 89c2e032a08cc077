//! The client side of a connection to the engine: commands are numbered as they are sent, and
//! what comes back is routed. A response can arrive before or after the note of who waits for
//! it; whichever comes second is matched with the first by the command's id. The waiting
//! senders are tokens of the connection's owner, who delivers and forwards.
use crate::commands::{BroadcastAction, ClientCommand, EngineCommand, EngineCommandPackage, ResponseAction, ResponsePackage};
use vstd::prelude::*;

verus! {

/// Numbers the commands sent over a connection: 0, 1, 2, and so on (wrapping at the end of
/// `u64`).
pub struct CommandIds {
    pub next: u64,
}

impl CommandIds {
    /// No command sent yet.
    pub fn new() -> (c: CommandIds)
        ensures
            c.next == 0,
    {
        CommandIds { next: 0 }
    }

    /// The package that sends `command` under the next id.
    pub fn package(&mut self, command: EngineCommand) -> (p: EngineCommandPackage)
        ensures
            p == (EngineCommandPackage { command, id: old(self).next }),
            final(self).next == old(self).next.wrapping_add(1),
    {
        let id = self.next;
        self.next = self.next.wrapping_add(1);
        EngineCommandPackage { command, id }
    }
}

/// A sender waiting for the response to its command with id `id`.
pub struct Waiting<T> {
    pub id: u64,
    pub token: T,
}

/// What to do with what arrived.
pub enum Delivery<T> {
    /// Hand `action` to the waiting sender `to`.
    Deliver { to: T, action: ResponseAction },
    /// Hand the broadcast to the receiving side.
    Forward(BroadcastAction),
    /// Nothing yet: what arrived waits for its counterpart.
    Keep,
}

/// The senders waiting for responses that did not arrive yet, and the responses that arrived
/// before anyone was noted to wait for them.
pub struct Distributor<T> {
    pub waiting: Vec<Waiting<T>>,
    pub early: Vec<ResponsePackage>,
}

/// The ids of the waiting senders.
pub open spec fn waiting_ids<T>(w: Seq<Waiting<T>>) -> Seq<u64> {
    w.map_values(|x: Waiting<T>| x.id)
}

/// The ids of the responses that arrived early.
pub open spec fn early_ids(r: Seq<ResponsePackage>) -> Seq<u64> {
    r.map_values(|x: ResponsePackage| x.id)
}

/// `i` is the first index in `ids` of `id`.
pub open spec fn first_index(ids: Seq<u64>, id: u64, i: int) -> bool {
    0 <= i < ids.len() && ids[i] == id && forall|j: int| 0 <= j < i ==> ids[j] != id
}

impl<T> Distributor<T> {
    /// No sender waits, and no response arrived early.
    pub open spec fn is_idle(self) -> bool {
        self.waiting@.len() == 0 && self.early@.len() == 0
    }

    /// Nothing waits for its counterpart with id `id`.
    pub open spec fn nothing_pending(self, id: u64) -> bool {
        !waiting_ids(self.waiting@).contains(id) && !early_ids(self.early@).contains(id)
    }

    /// Nobody waits and nothing arrived.
    pub fn new() -> (d: Distributor<T>)
        ensures
            d.is_idle(),
    {
        Distributor { waiting: Vec::new(), early: Vec::new() }
    }

    /// `token` waits for the response to command `id`: where that response arrived already,
    /// the first such is handed to `token` (and no longer kept); otherwise `token` waits.
    pub fn on_waiting(&mut self, id: u64, token: T) -> (r: Delivery<T>)
        ensures
            noted(*old(self), *final(self), id, token, r),
    {
        let mut i: usize = 0;
        while i < self.early.len()
            invariant
                *self == *old(self),
                i <= self.early@.len(),
                forall|j: int| 0 <= j < i ==> self.early@[j].id != id,
            decreases self.early@.len() - i,
        {
            if self.early[i].id == id {
                let pkg = self.early.swap_remove(i);
                proof {
                    assert(early_ids(old(self).early@)[i as int] == id);
                    assert(first_index(early_ids(old(self).early@), id, i as int));
                }
                return Delivery::Deliver { to: token, action: pkg.action };
            }
            i = i + 1;
        }
        proof {
            assert forall|j: int| 0 <= j < early_ids(self.early@).len() implies early_ids(self.early@)[j] != id by {
                assert(early_ids(self.early@)[j] == self.early@[j].id);
            }
        }
        self.waiting.push(Waiting { id, token });
        Delivery::Keep
    }

    /// What came from the engine: a broadcast is forwarded; a response goes to the first sender
    /// waiting for it (who waits no longer), or is kept until one is noted.
    pub fn on_message(&mut self, message: ClientCommand) -> (r: Delivery<T>)
        ensures
            match message {
                ClientCommand::Broadcast(b) => r == Delivery::<T>::Forward(b) && *final(self) == *old(self),
                ClientCommand::Response(pkg) => arrived(*old(self), *final(self), pkg, r),
            },
    {
        let ghost m = message;
        match message {
            ClientCommand::Broadcast(b) => Delivery::Forward(b),
            ClientCommand::Response(pkg) => {
                let mut i: usize = 0;
                while i < self.waiting.len()
                    invariant
                        *self == *old(self),
                        m == ClientCommand::Response(pkg),
                        m == message,
                        i <= self.waiting@.len(),
                        forall|j: int| 0 <= j < i ==> self.waiting@[j].id != pkg.id,
                    decreases self.waiting@.len() - i,
                {
                    if self.waiting[i].id == pkg.id {
                        let w = self.waiting.swap_remove(i);
                        proof {
                            assert(waiting_ids(old(self).waiting@)[i as int] == pkg.id);
                            assert(first_index(waiting_ids(old(self).waiting@), pkg.id, i as int));
                        }
                        return Delivery::Deliver { to: w.token, action: pkg.action };
                    }
                    i = i + 1;
                }
                proof {
                    assert forall|j: int| 0 <= j < waiting_ids(self.waiting@).len() implies waiting_ids(self.waiting@)[j] != pkg.id by {
                        assert(waiting_ids(self.waiting@)[j] == self.waiting@[j].id);
                    }
                }
                self.early.push(pkg);
                Delivery::Keep
            },
        }
    }
}

/// Law: a response reaches the sender of its command, whichever of the two arrives first,
/// where nothing else with that id is pending: after the sender is noted and then the response
/// arrives, or the response arrives and then the sender is noted, the response's action is
/// handed to that sender, and nothing with that id is pending any more.
pub proof fn law_response_reaches_sender<T>(
    d0: Distributor<T>,
    d1: Distributor<T>,
    d2: Distributor<T>,
    pkg: ResponsePackage,
    token: T,
    sender_first: bool,
    r1: Delivery<T>,
    r2: Delivery<T>,
)
    requires
        d0.nothing_pending(pkg.id),
        sender_first ==> noted(d0, d1, pkg.id, token, r1) && arrived(d1, d2, pkg, r2),
        !sender_first ==> arrived(d0, d1, pkg, r1) && noted(d1, d2, pkg.id, token, r2),
    ensures
        r1 == Delivery::<T>::Keep,
        r2 == (Delivery::Deliver { to: token, action: pkg.action }),
        d2.nothing_pending(pkg.id),
        d2.waiting@.len() == d0.waiting@.len(),
        d2.early@.len() == d0.early@.len(),
{
    let id = pkg.id;
    if sender_first {
        assert(!early_ids(d0.early@).contains(id));
        let n = d0.waiting@.len() as int;
        assert(waiting_ids(d1.waiting@)[n] == id);
        assert(first_index(waiting_ids(d1.waiting@), id, n)) by {
            assert forall|j: int| 0 <= j < n implies waiting_ids(d1.waiting@)[j] != id by {
                assert(waiting_ids(d1.waiting@)[j] == waiting_ids(d0.waiting@)[j]);
            }
        }
        assert(d2.waiting@ =~= d0.waiting@);
        assert(d2.early@ == d0.early@);
    } else {
        assert(!waiting_ids(d0.waiting@).contains(id));
        let n = d0.early@.len() as int;
        assert(early_ids(d1.early@)[n] == id);
        assert(first_index(early_ids(d1.early@), id, n)) by {
            assert forall|j: int| 0 <= j < n implies early_ids(d1.early@)[j] != id by {
                assert(early_ids(d1.early@)[j] == early_ids(d0.early@)[j]);
            }
        }
        assert(d2.early@ =~= d0.early@);
        assert(d2.waiting@ == d0.waiting@);
    }
}

/// `d1` and `r` are what `Distributor::on_waiting` makes of `d0` when `token` is noted to wait
/// for the response with id `id`.
pub open spec fn noted<T>(d0: Distributor<T>, d1: Distributor<T>, id: u64, token: T, r: Delivery<T>) -> bool {
    &&& d1.waiting@ == if early_ids(d0.early@).contains(id) {
        d0.waiting@
    } else {
        d0.waiting@.push(Waiting { id, token })
    }
    &&& forall|i: int|
        first_index(early_ids(d0.early@), id, i) ==> r == (Delivery::Deliver { to: token, action: d0.early@[i].action })
            && d1.early@ == d0.early@.update(i, d0.early@.last()).drop_last()
    &&& !early_ids(d0.early@).contains(id) ==> r == Delivery::<T>::Keep && d1.early@ == d0.early@
}

/// `d1` and `r` are what `Distributor::on_message` makes of `d0` when the response `pkg`
/// arrives.
pub open spec fn arrived<T>(d0: Distributor<T>, d1: Distributor<T>, pkg: ResponsePackage, r: Delivery<T>) -> bool {
    &&& d1.early@ == if waiting_ids(d0.waiting@).contains(pkg.id) {
        d0.early@
    } else {
        d0.early@.push(pkg)
    }
    &&& forall|i: int|
        first_index(waiting_ids(d0.waiting@), pkg.id, i) ==> r == (Delivery::Deliver {
            to: d0.waiting@[i].token,
            action: pkg.action,
        }) && d1.waiting@ == d0.waiting@.update(i, d0.waiting@.last()).drop_last()
    &&& !waiting_ids(d0.waiting@).contains(pkg.id) ==> r == Delivery::<T>::Keep && d1.waiting@ == d0.waiting@
}

} // verus!
