//! Bounded queue of the events that still have to reach the server.

use vstd::prelude::*;
use std::collections::VecDeque;

verus! {

/// One event to report: whether the machine is on, the RMS value that
/// decided it and the Unix time at which it was queued.
pub type Evento = (bool, u16, u64);

/// Most events the queue holds.
pub const CAPACIDAD_COLA: usize = 50;

/// Queue contents after queueing `ev`: when the queue is full, its oldest
/// event is dropped first.
pub open spec fn encolar_spec(q: Seq<Evento>, ev: Evento) -> Seq<Evento> {
    if q.len() >= CAPACIDAD_COLA {
        q.drop_first().push(ev)
    } else {
        q.push(ev)
    }
}

/// Events waiting to be sent, oldest first.
pub struct ColaEnvios {
    cola: VecDeque<Evento>,
}

impl View for ColaEnvios {
    type V = Seq<Evento>;

    closed spec fn view(&self) -> Seq<Evento> {
        self.cola@
    }
}

impl ColaEnvios {
    /// The queue holds at most `CAPACIDAD_COLA` events.
    pub open spec fn bien_formada(&self) -> bool {
        self@.len() <= CAPACIDAD_COLA
    }

    /// An empty queue.
    pub fn nueva() -> (c: ColaEnvios)
        ensures
            c@ == Seq::<Evento>::empty(),
            c.bien_formada(),
    {
        ColaEnvios { cola: VecDeque::new() }
    }

    /// Number of queued events.
    pub fn len(&self) -> (n: usize)
        ensures
            n == self@.len(),
    {
        self.cola.len()
    }

    /// Whether no event is queued.
    pub fn esta_vacia(&self) -> (b: bool)
        ensures
            b == (self@.len() == 0),
    {
        self.cola.len() == 0
    }

    /// The oldest queued event, if any.
    pub fn frente(&self) -> (ev: Option<Evento>)
        ensures
            ev == (if self@.len() == 0 {
                None::<Evento>
            } else {
                Some(self@[0])
            }),
    {
        if self.cola.len() == 0 {
            None
        } else {
            Some(self.cola[0])
        }
    }

    /// Queues `ev` behind the others; when the queue is full its oldest event
    /// is dropped to make room. Returns whether an event was dropped.
    pub fn encolar(&mut self, ev: Evento) -> (descartado: bool)
        requires
            old(self).bien_formada(),
        ensures
            final(self).bien_formada(),
            final(self)@ == encolar_spec(old(self)@, ev),
            descartado == (old(self)@.len() >= CAPACIDAD_COLA),
    {
        let descartado = self.cola.len() >= CAPACIDAD_COLA;
        if descartado {
            self.cola.pop_front();
        }
        self.cola.push_back(ev);
        proof {
            if descartado {
                assert(old(self)@.subrange(1, old(self)@.len() as int) =~= old(self)@.drop_first());
            }
        }
        descartado
    }

    /// Removes the oldest event, once it has been delivered.
    pub fn quitar_frente(&mut self)
        requires
            old(self).bien_formada(),
        ensures
            final(self).bien_formada(),
            final(self)@ == (if old(self)@.len() == 0 {
                old(self)@
            } else {
                old(self)@.drop_first()
            }),
    {
        let _ = self.cola.pop_front();
        proof {
            if old(self)@.len() > 0 {
                assert(old(self)@.subrange(1, old(self)@.len() as int) =~= old(self)@.drop_first());
            }
        }
    }
}

/// The queue keeps the newest events: after queueing `ev` onto a valid queue
/// it holds exactly the last `CAPACIDAD_COLA` (or fewer, when there were
/// fewer) of the old events followed by `ev`, in their order of arrival, and
/// never more than `CAPACIDAD_COLA` events.
pub proof fn ley_cola_conserva_los_recientes(q: Seq<Evento>, ev: Evento)
    requires
        q.len() <= CAPACIDAD_COLA,
    ensures
        encolar_spec(q, ev).len() <= CAPACIDAD_COLA,
        encolar_spec(q, ev).last() == ev,
        encolar_spec(q, ev) == q.push(ev).subrange(
            if q.len() + 1 > CAPACIDAD_COLA {
                (q.len() + 1 - CAPACIDAD_COLA) as int
            } else {
                0
            },
            q.len() + 1 as int,
        ),
{
    if q.len() + 1 > CAPACIDAD_COLA {
        assert(encolar_spec(q, ev) =~= q.push(ev).subrange(1, q.len() + 1 as int));
    } else {
        assert(encolar_spec(q, ev) =~= q.push(ev).subrange(0, q.len() + 1 as int));
    }
}

} // verus!
