//! Connection attempts to the WiFi network.

use vstd::prelude::*;

verus! {

/// Failures of the WiFi set-up. The number carried is the ESP-IDF error code.
#[derive(Debug, Clone, Copy, PartialEq, Eq, Structural)]
pub enum WifiError {
    /// The driver could not be created.
    InitFailed(i32),
    /// The station configuration was refused.
    ConfigFailed(i32),
    /// The driver could not be started or the association failed.
    ConnectionFailed(i32),
    /// Associated, but the network interface did not come up.
    NetworkInterfaceTimeout,
}

/// Connection attempts before giving up.
pub const MAX_INTENTOS_WIFI: u8 = 3;

/// Outcome of one connection attempt.
#[derive(Debug, Clone, Copy, PartialEq, Eq, Structural)]
pub enum ResultadoIntento {
    /// Associated and the network interface is up.
    Conectado,
    /// Association failed with this ESP-IDF error code.
    FalloConexion(i32),
    /// Associated, but the network interface did not come up.
    FalloRed,
}

/// What to do after an attempt.
#[derive(Debug, Clone, Copy, PartialEq, Eq, Structural)]
pub enum AccionWifi {
    /// The connection is ready.
    Listo,
    /// Disconnect, wait, and try again.
    Reintentar,
    /// Give up with this error.
    Fallar(WifiError),
}

/// Error that a failed attempt leaves behind.
pub open spec fn error_de(r: ResultadoIntento) -> WifiError {
    match r {
        ResultadoIntento::FalloConexion(c) => WifiError::ConnectionFailed(c),
        _ => WifiError::NetworkInterfaceTimeout,
    }
}

/// What attempt number `intento` leads to when its outcome is `r`.
pub open spec fn accion_wifi(intento: u8, r: ResultadoIntento) -> AccionWifi {
    if r == ResultadoIntento::Conectado {
        AccionWifi::Listo
    } else if intento < MAX_INTENTOS_WIFI {
        AccionWifi::Reintentar
    } else {
        AccionWifi::Fallar(error_de(r))
    }
}

/// End of the attempts whose outcomes are `rs`, starting at attempt number
/// `intento`; `None` while they are not over.
pub open spec fn desenlace(rs: Seq<ResultadoIntento>, intento: u8) -> Option<AccionWifi>
    decreases rs.len(),
{
    if rs.len() == 0 {
        None
    } else {
        match accion_wifi(intento, rs[0]) {
            AccionWifi::Reintentar => desenlace(rs.drop_first(), (intento + 1) as u8),
            a => Some(a),
        }
    }
}

/// Progress of the connection attempts.
pub struct ReintentoWifi {
    /// Number of the current attempt, from 1.
    pub intento: u8,
    /// Error of the last failed attempt.
    pub ultimo_error: WifiError,
}

impl ReintentoWifi {
    /// Before the first attempt.
    pub fn nuevo() -> (r: ReintentoWifi)
        ensures
            r.intento == 1,
            r.ultimo_error == WifiError::NetworkInterfaceTimeout,
    {
        ReintentoWifi { intento: 1, ultimo_error: WifiError::NetworkInterfaceTimeout }
    }

    /// Takes the outcome of the current attempt. Success ends the attempts;
    /// a failure before the last attempt asks for another one; a failure of
    /// the last attempt gives up with the error of that attempt.
    pub fn registrar(&mut self, r: ResultadoIntento) -> (a: AccionWifi)
        requires
            1 <= old(self).intento <= MAX_INTENTOS_WIFI,
        ensures
            a == accion_wifi(old(self).intento, r),
            r == ResultadoIntento::Conectado ==> a == AccionWifi::Listo && *final(self) == *old(
                self,
            ),
            r != ResultadoIntento::Conectado ==> final(self).ultimo_error == error_de(r),
            r != ResultadoIntento::Conectado && old(self).intento < MAX_INTENTOS_WIFI ==> {
                &&& a == AccionWifi::Reintentar
                &&& final(self).intento == old(self).intento + 1
            },
            r != ResultadoIntento::Conectado && old(self).intento == MAX_INTENTOS_WIFI ==> {
                &&& a == AccionWifi::Fallar(error_de(r))
                &&& final(self).intento == old(self).intento
            },
    {
        let error = match r {
            ResultadoIntento::Conectado => {
                return AccionWifi::Listo;
            },
            ResultadoIntento::FalloConexion(c) => WifiError::ConnectionFailed(c),
            ResultadoIntento::FalloRed => WifiError::NetworkInterfaceTimeout,
        };
        self.ultimo_error = error;
        if self.intento < MAX_INTENTOS_WIFI {
            self.intento = self.intento + 1;
            AccionWifi::Reintentar
        } else {
            AccionWifi::Fallar(error)
        }
    }
}

/// The device tries to connect `MAX_INTENTOS_WIFI` times at most: whatever
/// the outcomes, the attempts are over after the third; they succeed exactly
/// when one of the three attempts connects, and otherwise fail with the error
/// of the third attempt.
pub proof fn ley_tres_intentos(rs: Seq<ResultadoIntento>)
    requires
        rs.len() >= MAX_INTENTOS_WIFI,
    ensures
        desenlace(rs, 1) is Some,
        desenlace(rs, 1) == Some(AccionWifi::Listo) <==> exists|i: int|
            0 <= i < MAX_INTENTOS_WIFI && rs[i] == ResultadoIntento::Conectado,
        (forall|i: int| 0 <= i < MAX_INTENTOS_WIFI ==> rs[i] != ResultadoIntento::Conectado)
            ==> desenlace(rs, 1) == Some(AccionWifi::Fallar(error_de(rs[2]))),
{
    let r1 = rs.drop_first();
    let r2 = r1.drop_first();
    let r3 = r2.drop_first();
    assert(r1[0] == rs[1]);
    assert(r2[0] == rs[2]);
    assert(desenlace(r2, 3) == Some(accion_wifi(3, rs[2])));
    if rs[0] != ResultadoIntento::Conectado {
        assert(accion_wifi(1, rs[0]) == AccionWifi::Reintentar);
        assert(desenlace(rs, 1) == desenlace(r1, 2));
        if rs[1] != ResultadoIntento::Conectado {
            assert(accion_wifi(2, r1[0]) == AccionWifi::Reintentar);
            assert(desenlace(r1, 2) == desenlace(r2, 3));
        } else {
            assert(desenlace(r1, 2) == Some(AccionWifi::Listo));
        }
    } else {
        assert(desenlace(rs, 1) == Some(AccionWifi::Listo));
    }
}

} // verus!
