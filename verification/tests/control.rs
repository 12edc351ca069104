use prueba1::cola::{ColaEnvios, CAPACIDAD_COLA};
use prueba1::control::{
    decidir_arranque, Accion, AccionEnvio, Controlador, DecisionArranque, DetectorCambios,
    EsperaNtp, Mensaje, MAX_ESPERAS_NTP, MAX_REINICIOS,
};
use prueba1::sensor::SensorError;
use prueba1::wifi::{AccionWifi, ReintentoWifi, ResultadoIntento, WifiError, MAX_INTENTOS_WIFI};

#[test]
fn arranque_normal_cuenta() {
    assert_eq!(MAX_REINICIOS, 3);
    assert_eq!(
        decidir_arranque(0),
        DecisionArranque { modo_seguro: false, contador_guardado: 1 }
    );
    assert_eq!(
        decidir_arranque(2),
        DecisionArranque { modo_seguro: false, contador_guardado: 3 }
    );
}

#[test]
fn arranque_en_modo_seguro() {
    assert_eq!(
        decidir_arranque(3),
        DecisionArranque { modo_seguro: true, contador_guardado: 0 }
    );
    assert_eq!(
        decidir_arranque(255),
        DecisionArranque { modo_seguro: true, contador_guardado: 0 }
    );
}

#[test]
fn tres_arranques_fallidos_llevan_a_modo_seguro() {
    let mut contador = 0u8;
    for _ in 0..3 {
        let d = decidir_arranque(contador);
        assert!(!d.modo_seguro);
        contador = d.contador_guardado;
    }
    let d = decidir_arranque(contador);
    assert!(d.modo_seguro);
    assert!(!decidir_arranque(d.contador_guardado).modo_seguro);
}

#[test]
fn espera_ntp_se_rinde_a_las_sesenta() {
    let mut e = EsperaNtp::nueva();
    for _ in 0..(MAX_ESPERAS_NTP - 1) {
        assert!(!e.tras_espera());
    }
    assert!(e.tras_espera());
    assert_eq!(e.esperas, 60);
}

#[test]
fn detector_solo_avisa_cambios() {
    let mut d = DetectorCambios::nuevo(false);
    assert_eq!(d.observar(10), None);
    assert_eq!(d.observar(90), None);
    assert_eq!(d.observar(91), Some((true, 91)));
    assert_eq!(d.observar(500), None);
    assert_eq!(d.observar(3), Some((false, 3)));
    assert!(!d.estado);
}

#[test]
fn cola_descarta_el_mas_antiguo() {
    let mut c = ColaEnvios::nueva();
    assert!(c.esta_vacia());
    for i in 0..CAPACIDAD_COLA as u64 {
        assert!(!c.encolar((true, 1, i)));
    }
    assert_eq!(c.len(), 50);
    assert!(c.encolar((false, 2, 50)));
    assert_eq!(c.len(), 50);
    assert_eq!(c.frente(), Some((true, 1, 1)));
    c.quitar_frente();
    assert_eq!(c.frente(), Some((true, 1, 2)));
    assert_eq!(c.len(), 49);
}

#[test]
fn controlador_primera_lectura_limpia_contador() {
    let mut c = Controlador::nuevo();
    assert_eq!(
        c.procesar(Mensaje::Lectura(true, 120), 1000),
        Accion::Encolado { primer_dato: true, descartado: false }
    );
    assert!(c.sensor_ok);
    assert_eq!(
        c.procesar(Mensaje::Lectura(false, 4), 1010),
        Accion::Encolado { primer_dato: false, descartado: false }
    );
    assert_eq!(c.cola.len(), 2);
    assert_eq!(c.cola.frente(), Some((true, 120, 1000)));
}

#[test]
fn controlador_reinicia_ante_fallos() {
    let mut c = Controlador::nuevo();
    assert_eq!(c.procesar(Mensaje::SinNovedad, 1), Accion::Esperar);
    assert_eq!(
        c.procesar(Mensaje::FalloSensor(SensorError::AdcRead), 1),
        Accion::Reiniciar
    );
    assert_eq!(c.procesar(Mensaje::CanalCerrado, 1), Accion::Reiniciar);
    assert!(!c.sensor_ok);
    assert!(c.cola.esta_vacia());
}

#[test]
fn controlador_cola_llena() {
    let mut c = Controlador::nuevo();
    for i in 0..50u64 {
        c.procesar(Mensaje::Lectura(i % 2 == 0, 100), i);
    }
    assert_eq!(
        c.procesar(Mensaje::Lectura(true, 100), 99),
        Accion::Encolado { primer_dato: false, descartado: true }
    );
    assert_eq!(c.cola.len(), 50);
    assert_eq!(c.cola.frente(), Some((false, 100, 1)));
}

#[test]
fn vaciado_de_la_cola() {
    let mut c = Controlador::nuevo();
    assert_eq!(c.decidir_envio(true, false), AccionEnvio::Detener);
    c.procesar(Mensaje::Lectura(true, 100), 5);
    c.procesar(Mensaje::Lectura(false, 10), 6);
    assert_eq!(c.decidir_envio(false, false), AccionEnvio::Reconectar);
    assert_eq!(c.decidir_envio(false, true), AccionEnvio::Detener);
    assert_eq!(c.decidir_envio(true, false), AccionEnvio::Enviar(true, 100, 5));
    assert!(!c.resultado_envio(false));
    assert_eq!(c.decidir_envio(true, true), AccionEnvio::Enviar(true, 100, 5));
    assert!(c.resultado_envio(true));
    assert_eq!(c.decidir_envio(true, false), AccionEnvio::Enviar(false, 10, 6));
    assert!(c.resultado_envio(true));
    assert_eq!(c.decidir_envio(true, false), AccionEnvio::Detener);
}

#[test]
fn wifi_conecta_al_segundo_intento() {
    let mut r = ReintentoWifi::nuevo();
    assert_eq!(r.registrar(ResultadoIntento::FalloConexion(-1)), AccionWifi::Reintentar);
    assert_eq!(r.intento, 2);
    assert_eq!(r.registrar(ResultadoIntento::Conectado), AccionWifi::Listo);
}

#[test]
fn wifi_se_rinde_con_el_ultimo_error() {
    assert_eq!(MAX_INTENTOS_WIFI, 3);
    let mut r = ReintentoWifi::nuevo();
    assert_eq!(r.registrar(ResultadoIntento::FalloConexion(12308)), AccionWifi::Reintentar);
    assert_eq!(r.registrar(ResultadoIntento::FalloRed), AccionWifi::Reintentar);
    assert_eq!(
        r.registrar(ResultadoIntento::FalloConexion(-1)),
        AccionWifi::Fallar(WifiError::ConnectionFailed(-1))
    );
    let mut s = ReintentoWifi::nuevo();
    s.registrar(ResultadoIntento::FalloConexion(5));
    s.registrar(ResultadoIntento::FalloConexion(5));
    assert_eq!(
        s.registrar(ResultadoIntento::FalloRed),
        AccionWifi::Fallar(WifiError::NetworkInterfaceTimeout)
    );
}
