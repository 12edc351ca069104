//! Decisions of the monitor: start-up guard, clock synchronisation wait,
//! change detection on the sensor side and handling of sensor messages and
//! of the send queue on the reporting side.

use vstd::prelude::*;
use crate::cola::{ColaEnvios, Evento, encolar_spec, CAPACIDAD_COLA};
use crate::sensor::{SensorError, encendida};

verus! {

// ---------------------------------------------------------------------------
// Start-up guard
// ---------------------------------------------------------------------------

/// Consecutive start-ups without a working sensor after which the device
/// stays in safe mode.
pub const MAX_REINICIOS: u8 = 3;

/// What a start-up does with the stored counter of failed start-ups.
#[derive(Debug, Clone, Copy, PartialEq, Eq, Structural)]
pub struct DecisionArranque {
    /// The device halts in safe mode instead of starting.
    pub modo_seguro: bool,
    /// Value written back to the counter.
    pub contador_guardado: u8,
}

/// A start-up that finds `reinicios` in the counter enters safe mode when
/// `reinicios >= MAX_REINICIOS`, and then resets the counter to 0 so that the
/// next manual reset may try again; otherwise it counts itself and starts.
pub open spec fn arranque_spec(reinicios: u8) -> DecisionArranque {
    if reinicios >= MAX_REINICIOS {
        DecisionArranque { modo_seguro: true, contador_guardado: 0 }
    } else {
        DecisionArranque { modo_seguro: false, contador_guardado: (reinicios + 1) as u8 }
    }
}

/// Decides a start-up from the stored counter of failed start-ups.
pub fn decidir_arranque(reinicios: u8) -> (d: DecisionArranque)
    ensures
        d == arranque_spec(reinicios),
{
    if reinicios >= MAX_REINICIOS {
        DecisionArranque { modo_seguro: true, contador_guardado: 0 }
    } else {
        DecisionArranque { modo_seguro: false, contador_guardado: reinicios + 1 }
    }
}

/// Counter after `k` start-ups in a row that never got a sensor reading.
pub open spec fn contador_tras(reinicios: u8, k: nat) -> u8
    decreases k,
{
    if k == 0 {
        reinicios
    } else {
        arranque_spec(contador_tras(reinicios, (k - 1) as nat)).contador_guardado
    }
}

/// Start-ups that never reach a working sensor are counted: from a counter
/// `r <= MAX_REINICIOS`, the next `MAX_REINICIOS - r` start-ups run normally
/// and the one after them enters safe mode, which clears the counter.
pub proof fn ley_modo_seguro_tras_fallos(r: u8, k: nat)
    requires
        r <= MAX_REINICIOS,
        k <= MAX_REINICIOS - r,
    ensures
        contador_tras(r, k) == r + k,
        k < MAX_REINICIOS - r ==> !arranque_spec(contador_tras(r, k)).modo_seguro,
        k == MAX_REINICIOS - r ==> arranque_spec(contador_tras(r, k)).modo_seguro,
        k == MAX_REINICIOS - r ==> contador_tras(r, k + 1) == 0,
    decreases k,
{
    if k > 0 {
        ley_modo_seguro_tras_fallos(r, (k - 1) as nat);
    }
}

// ---------------------------------------------------------------------------
// Clock synchronisation wait
// ---------------------------------------------------------------------------

/// Waits of half a second after which the device gives up waiting for the
/// clock and runs with timestamp 0.
pub const MAX_ESPERAS_NTP: u8 = 60;

/// Progress of the wait for clock synchronisation.
pub struct EsperaNtp {
    /// Waits done so far.
    pub esperas: u8,
}

impl EsperaNtp {
    /// No wait done yet.
    pub fn nueva() -> (e: EsperaNtp)
        ensures
            e.esperas == 0,
    {
        EsperaNtp { esperas: 0 }
    }

    /// Counts one more wait; returns whether the device gives up waiting.
    pub fn tras_espera(&mut self) -> (rendirse: bool)
        requires
            old(self).esperas < MAX_ESPERAS_NTP,
        ensures
            final(self).esperas == old(self).esperas + 1,
            rendirse == (final(self).esperas >= MAX_ESPERAS_NTP),
    {
        self.esperas = self.esperas + 1;
        self.esperas >= MAX_ESPERAS_NTP
    }
}

// ---------------------------------------------------------------------------
// Change detection
// ---------------------------------------------------------------------------

/// Watches the machine state and reports only its changes.
pub struct DetectorCambios {
    /// Last state reported.
    pub estado: bool,
}

/// State reported last after measuring `rs`, starting from state `e`.
pub open spec fn estado_tras(e: bool, rs: Seq<u16>) -> bool {
    if rs.len() == 0 {
        e
    } else {
        encendida(rs.last())
    }
}

/// Reports produced for the measurements `rs`, starting from state `e`.
pub open spec fn avisos(e: bool, rs: Seq<u16>) -> Seq<(bool, u16)>
    decreases rs.len(),
{
    if rs.len() == 0 {
        Seq::empty()
    } else {
        let previos = avisos(e, rs.drop_last());
        if encendida(rs.last()) != estado_tras(e, rs.drop_last()) {
            previos.push((encendida(rs.last()), rs.last()))
        } else {
            previos
        }
    }
}

impl DetectorCambios {
    /// Starts from the state of the first measurement, which is reported by
    /// the caller.
    pub fn nuevo(inicial: bool) -> (d: DetectorCambios)
        ensures
            d.estado == inicial,
    {
        DetectorCambios { estado: inicial }
    }

    /// Takes one measurement; returns the report to send when the machine
    /// state changed with it, and nothing otherwise.
    pub fn observar(&mut self, rms: u16) -> (aviso: Option<(bool, u16)>)
        ensures
            final(self).estado == (rms > 90),
            aviso is Some <==> (rms > 90) != old(self).estado,
            aviso matches Some(c) ==> c == (rms > 90, rms),
            final(self).estado == encendida(rms),
            aviso == (if encendida(rms) != old(self).estado {
                Some((encendida(rms), rms))
            } else {
                None
            }),
    {
        let corriente = rms > crate::sensor::UMBRAL_CORRIENTE;
        if corriente != self.estado {
            self.estado = corriente;
            Some((corriente, rms))
        } else {
            None
        }
    }
}

/// Only changes are reported: over any run of measurements, each report
/// differs in state from the one before it, the first differs from the
/// starting state, the last matches the current state, and no report at all
/// means the state never changed.
pub proof fn ley_solo_cambios(e: bool, rs: Seq<u16>)
    ensures
        forall|i: int|
            0 <= i < avisos(e, rs).len() - 1 ==> #[trigger] avisos(e, rs)[i].0 != avisos(
                e,
                rs,
            )[i + 1].0,
        avisos(e, rs).len() > 0 ==> avisos(e, rs)[0].0 != e,
        avisos(e, rs).len() > 0 ==> avisos(e, rs).last().0 == estado_tras(e, rs),
        avisos(e, rs).len() == 0 ==> estado_tras(e, rs) == e,
    decreases rs.len(),
{
    if rs.len() > 0 {
        let t = rs.drop_last();
        ley_solo_cambios(e, t);
        let p = avisos(e, t);
        let a = avisos(e, rs);
        if encendida(rs.last()) != estado_tras(e, t) {
            assert forall|i: int| 0 <= i < a.len() - 1 implies #[trigger] a[i].0 != a[i + 1].0 by {
                if i < p.len() - 1 {
                    assert(a[i] == p[i] && a[i + 1] == p[i + 1]);
                } else {
                    assert(a[i] == p.last());
                }
            }
            if p.len() > 0 {
                assert(a[0] == p[0]);
            }
        } else {
            assert(a == p);
        }
    }
}

// ---------------------------------------------------------------------------
// Reporting side
// ---------------------------------------------------------------------------

/// What the reporting side receives from the sensor side within one wait.
#[derive(Debug, Clone, Copy, PartialEq, Eq, Structural)]
pub enum Mensaje {
    /// A machine state to report, with its RMS value.
    Lectura(bool, u16),
    /// The sensor side stopped on an error.
    FalloSensor(SensorError),
    /// Nothing arrived within the wait.
    SinNovedad,
    /// The sensor side is gone.
    CanalCerrado,
}

/// What the reporting side does on a message.
#[derive(Debug, Clone, Copy, PartialEq, Eq, Structural)]
pub enum Accion {
    /// The state was queued. `primer_dato`: it is the first reading since
    /// start-up, so the counter of failed start-ups is cleared.
    /// `descartado`: the queue was full and its oldest event was dropped.
    Encolado { primer_dato: bool, descartado: bool },
    /// Nothing to do but try to empty the queue.
    Esperar,
    /// The device restarts.
    Reiniciar,
}

/// What to do with the oldest queued event.
#[derive(Debug, Clone, Copy, PartialEq, Eq, Structural)]
pub enum AccionEnvio {
    /// Reconnect the WiFi, then decide again.
    Reconectar,
    /// Send this event: machine state, RMS value, Unix time.
    Enviar(bool, u16, u64),
    /// Stop emptying the queue until the next message.
    Detener,
}

/// Whether message `m` clears the counter of failed start-ups, given whether
/// a reading had already arrived.
pub open spec fn limpia_contador(sensor_ok: bool, m: Mensaje) -> bool {
    !sensor_ok && m is Lectura
}

/// Whether a reading has arrived once `m` is handled.
pub open spec fn sensor_ok_tras(sensor_ok: bool, m: Mensaje) -> bool {
    sensor_ok || m is Lectura
}

/// Number of messages among `ms` that clear the counter, starting with
/// `sensor_ok`.
pub open spec fn limpiezas(sensor_ok: bool, ms: Seq<Mensaje>) -> nat
    decreases ms.len(),
{
    if ms.len() == 0 {
        0
    } else {
        (if limpia_contador(sensor_ok, ms[0]) { 1nat } else { 0nat })
            + limpiezas(sensor_ok_tras(sensor_ok, ms[0]), ms.drop_first())
    }
}

/// The counter of failed start-ups is cleared once per start-up at most:
/// over any run of messages it is cleared exactly once if some reading
/// arrives and never otherwise, and never again once a reading has arrived.
pub proof fn ley_contador_se_limpia_una_vez(sensor_ok: bool, ms: Seq<Mensaje>)
    ensures
        sensor_ok ==> limpiezas(sensor_ok, ms) == 0,
        !sensor_ok ==> (limpiezas(sensor_ok, ms) == 1 <==> exists|i: int|
            0 <= i < ms.len() && #[trigger] ms[i] is Lectura),
        limpiezas(sensor_ok, ms) <= 1,
    decreases ms.len(),
{
    if ms.len() > 0 {
        let t = ms.drop_first();
        ley_contador_se_limpia_una_vez(sensor_ok_tras(sensor_ok, ms[0]), t);
        if !sensor_ok && !(ms[0] is Lectura) {
            if exists|i: int| 0 <= i < ms.len() && #[trigger] ms[i] is Lectura {
                let i = choose|i: int| 0 <= i < ms.len() && #[trigger] ms[i] is Lectura;
                assert(t[i - 1] == ms[i]);
            }
            if exists|j: int| 0 <= j < t.len() && #[trigger] t[j] is Lectura {
                let j = choose|j: int| 0 <= j < t.len() && #[trigger] t[j] is Lectura;
                assert(ms[j + 1] == t[j]);
            }
        }
    }
}

/// Next step in emptying the queue `q`, given the WiFi state just observed
/// and whether a reconnection was already tried for the oldest event.
pub open spec fn accion_envio_spec(q: Seq<Evento>, wifi_conectado: bool, ya_reconectado: bool) -> AccionEnvio {
    if q.len() == 0 {
        AccionEnvio::Detener
    } else if wifi_conectado {
        AccionEnvio::Enviar(q[0].0, q[0].1, q[0].2)
    } else if ya_reconectado {
        AccionEnvio::Detener
    } else {
        AccionEnvio::Reconectar
    }
}

/// Queue after the oldest event of `q` was sent, delivered or not.
pub open spec fn tras_envio(q: Seq<Evento>, entregado: bool) -> Seq<Evento> {
    if entregado && q.len() > 0 {
        q.drop_first()
    } else {
        q
    }
}

/// Events go out oldest first and none is skipped: an undelivered event is
/// the one sent again at the next try, and once it is delivered the next one
/// in order of arrival is sent.
pub proof fn ley_entrega_en_orden(q: Seq<Evento>, ya_reconectado: bool)
    requires
        q.len() > 0,
    ensures
        accion_envio_spec(q, true, ya_reconectado) == AccionEnvio::Enviar(q[0].0, q[0].1, q[0].2),
        accion_envio_spec(tras_envio(q, false), true, ya_reconectado) == accion_envio_spec(
            q,
            true,
            ya_reconectado,
        ),
        q.len() > 1 ==> accion_envio_spec(tras_envio(q, true), true, ya_reconectado)
            == AccionEnvio::Enviar(q[1].0, q[1].1, q[1].2),
        q.len() == 1 ==> accion_envio_spec(tras_envio(q, true), true, ya_reconectado)
            == AccionEnvio::Detener,
{
}

/// The WiFi is only touched for pending events: with an empty queue the
/// decision is to stop whatever the WiFi state; a reconnection is asked only
/// when an event waits, the WiFi is down and no reconnection was tried yet;
/// an event is sent only when the WiFi is up, and it is the oldest one; a
/// WiFi still down after the reconnection stops.
pub proof fn ley_vaciado(q: Seq<Evento>, wifi_conectado: bool, ya_reconectado: bool)
    ensures
        q.len() == 0 ==> accion_envio_spec(q, wifi_conectado, ya_reconectado)
            == AccionEnvio::Detener,
        accion_envio_spec(q, wifi_conectado, ya_reconectado) == AccionEnvio::Reconectar
            <==> (q.len() > 0 && !wifi_conectado && !ya_reconectado),
        accion_envio_spec(q, wifi_conectado, ya_reconectado) is Enviar <==> (q.len() > 0
            && wifi_conectado),
        accion_envio_spec(q, wifi_conectado, ya_reconectado) matches AccionEnvio::Enviar(e, r, t)
            ==> (e, r, t) == q[0],
        q.len() > 0 && !wifi_conectado && ya_reconectado ==> accion_envio_spec(
            q,
            wifi_conectado,
            ya_reconectado,
        ) == AccionEnvio::Detener,
{
}

/// State of the reporting side.
pub struct Controlador {
    /// A reading has arrived since start-up.
    pub sensor_ok: bool,
    /// Events still to deliver.
    pub cola: ColaEnvios,
}

impl Controlador {
    /// Validity of the reporting side.
    pub open spec fn bien_formado(&self) -> bool {
        self.cola.bien_formada()
    }

    /// State at start-up: no reading yet, nothing to send.
    pub fn nuevo() -> (c: Controlador)
        ensures
            c.bien_formado(),
            !c.sensor_ok,
            c.cola@ == Seq::<Evento>::empty(),
    {
        Controlador { sensor_ok: false, cola: ColaEnvios::nueva() }
    }

    /// Handles one message; `ts` is the current Unix time, stamped on a
    /// queued reading. A reading is queued (dropping the oldest event when the
    /// queue is full) and marks the sensor as working; a sensor error or a
    /// closed channel restarts the device; silence changes nothing.
    pub fn procesar(&mut self, m: Mensaje, ts: u64) -> (a: Accion)
        requires
            old(self).bien_formado(),
        ensures
            final(self).bien_formado(),
            final(self).sensor_ok == sensor_ok_tras(old(self).sensor_ok, m),
            (a matches Accion::Encolado { primer_dato, .. } && primer_dato) == limpia_contador(
                old(self).sensor_ok,
                m,
            ),
            match m {
                Mensaje::Lectura(corriente, rms) => {
                    &&& a == Accion::Encolado {
                        primer_dato: !old(self).sensor_ok,
                        descartado: old(self).cola@.len() >= CAPACIDAD_COLA,
                    }
                    &&& final(self).sensor_ok
                    &&& final(self).cola@ == encolar_spec(old(self).cola@, (corriente, rms, ts))
                },
                Mensaje::SinNovedad => {
                    &&& a == Accion::Esperar
                    &&& final(self).sensor_ok == old(self).sensor_ok
                    &&& final(self).cola@ == old(self).cola@
                },
                _ => {
                    &&& a == Accion::Reiniciar
                    &&& final(self).sensor_ok == old(self).sensor_ok
                    &&& final(self).cola@ == old(self).cola@
                },
            },
    {
        match m {
            Mensaje::Lectura(corriente, rms) => {
                let primer_dato = !self.sensor_ok;
                self.sensor_ok = true;
                let descartado = self.cola.encolar((corriente, rms, ts));
                Accion::Encolado { primer_dato, descartado }
            },
            Mensaje::SinNovedad => Accion::Esperar,
            Mensaje::FalloSensor(_) => Accion::Reiniciar,
            Mensaje::CanalCerrado => Accion::Reiniciar,
        }
    }

    /// Decides the next step in emptying the queue. `wifi_conectado` is the
    /// WiFi state just observed; `ya_reconectado` says whether a reconnection
    /// was already tried for this event. An empty queue, or a WiFi still down
    /// after reconnecting, stops; a WiFi down asks for a reconnection; a WiFi
    /// up sends the oldest event.
    pub fn decidir_envio(&self, wifi_conectado: bool, ya_reconectado: bool) -> (a: AccionEnvio)
        requires
            self.bien_formado(),
        ensures
            a == accion_envio_spec(self.cola@, wifi_conectado, ya_reconectado),
            self.cola@.len() == 0 ==> a == AccionEnvio::Detener,
            a == AccionEnvio::Reconectar ==> self.cola@.len() > 0 && !wifi_conectado
                && !ya_reconectado,
            a matches AccionEnvio::Enviar(e, r, t) ==> wifi_conectado && self.cola@.len() > 0
                && (e, r, t) == self.cola@[0],
    {
        match self.cola.frente() {
            None => AccionEnvio::Detener,
            Some(ev) => {
                if wifi_conectado {
                    AccionEnvio::Enviar(ev.0, ev.1, ev.2)
                } else if ya_reconectado {
                    AccionEnvio::Detener
                } else {
                    AccionEnvio::Reconectar
                }
            },
        }
    }

    /// Takes the outcome of sending the oldest event: a delivered event leaves
    /// the queue and emptying goes on; an undelivered one stays at the front
    /// and emptying stops. Returns whether to go on.
    pub fn resultado_envio(&mut self, entregado: bool) -> (seguir: bool)
        requires
            old(self).bien_formado(),
        ensures
            final(self).bien_formado(),
            final(self).sensor_ok == old(self).sensor_ok,
            seguir == entregado,
            final(self).cola@ == tras_envio(old(self).cola@, entregado),
    {
        if entregado {
            self.cola.quitar_frente();
        }
        entregado
    }
}

} // verus!
