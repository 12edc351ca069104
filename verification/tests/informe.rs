use prueba1::http::{cuerpo_json, envio_exitoso, escribir_decimal, longitud_cuerpo};
use prueba1::reloj::{now_unix, segundos_o_cero, unix_de};
use std::time::{Duration, UNIX_EPOCH};

#[test]
fn cuerpo_con_corriente() {
    let c = cuerpo_json(true, 123, 1700000000);
    assert_eq!(c, b"{\"estado\":1,\"rms\":123,\"ts\":1700000000}".to_vec());
}

#[test]
fn cuerpo_sin_corriente_y_ceros() {
    let c = cuerpo_json(false, 0, 0);
    assert_eq!(c, b"{\"estado\":0,\"rms\":0,\"ts\":0}".to_vec());
}

#[test]
fn cuerpo_con_maximos() {
    let c = cuerpo_json(true, u16::MAX, u64::MAX);
    assert_eq!(
        c,
        b"{\"estado\":1,\"rms\":65535,\"ts\":18446744073709551615}".to_vec()
    );
}

#[test]
fn decimal_se_anexa() {
    let mut v = b"x=".to_vec();
    escribir_decimal(1090, &mut v);
    assert_eq!(v, b"x=1090".to_vec());
    let mut w = Vec::new();
    escribir_decimal(7, &mut w);
    assert_eq!(w, b"7".to_vec());
}

#[test]
fn decimal_se_lee_de_vuelta() {
    for n in [0u64, 9, 10, 99, 100, 4095, 1234567890123, u64::MAX] {
        let mut v = Vec::new();
        escribir_decimal(n, &mut v);
        let texto = String::from_utf8(v).unwrap();
        assert_eq!(texto.parse::<u64>().unwrap(), n);
    }
}

#[test]
fn longitud_del_cuerpo() {
    let c = cuerpo_json(true, 123, 1700000000);
    assert_eq!(c.len(), 38);
    assert_eq!(longitud_cuerpo(&c), b"38".to_vec());
    assert_eq!(longitud_cuerpo(&Vec::new()), b"0".to_vec());
}

#[test]
fn clasificacion_de_respuestas() {
    assert!(envio_exitoso(Some(200)));
    assert!(envio_exitoso(Some(201)));
    assert!(envio_exitoso(Some(299)));
    assert!(!envio_exitoso(Some(199)));
    assert!(!envio_exitoso(Some(300)));
    assert!(!envio_exitoso(Some(404)));
    assert!(!envio_exitoso(Some(500)));
    assert!(!envio_exitoso(None));
}

#[test]
fn marca_de_tiempo_o_cero() {
    assert_eq!(segundos_o_cero(Some(1700000000)), 1700000000);
    assert_eq!(segundos_o_cero(None), 0);
}

#[test]
fn reloj_da_la_hora_unix() {
    let antes = std::time::SystemTime::now()
        .duration_since(std::time::UNIX_EPOCH)
        .unwrap()
        .as_secs();
    let t = now_unix();
    let despues = std::time::SystemTime::now()
        .duration_since(std::time::UNIX_EPOCH)
        .unwrap()
        .as_secs();
    assert!(antes <= t && t <= despues);
    assert!(t > 1_500_000_000);
}

#[test]
fn hora_unix_trunca_los_segundos() {
    let t = UNIX_EPOCH + Duration::new(1_700_000_000, 999_999_999);
    assert_eq!(unix_de(&t), 1_700_000_000);
    assert_eq!(unix_de(&UNIX_EPOCH), 0);
}

#[test]
fn hora_antes_de_la_epoca_es_cero() {
    let t = UNIX_EPOCH - Duration::from_secs(1);
    assert_eq!(unix_de(&t), 0);
}

#[test]
fn hora_unix_creciente() {
    let t1 = UNIX_EPOCH + Duration::from_secs(1000);
    let t2 = t1 + Duration::from_millis(1500);
    assert!(unix_de(&t1) <= unix_de(&t2));
    assert_eq!(unix_de(&t2), 1001);
}

#[test]
fn cuerpos_distintos_para_eventos_distintos() {
    let eventos = [
        (true, 12, 345),
        (true, 123, 45),
        (false, 12, 345),
        (true, 1, 2345),
        (true, 1234, 5),
    ];
    for (i, a) in eventos.iter().enumerate() {
        for (j, b) in eventos.iter().enumerate() {
            let ca = cuerpo_json(a.0, a.1, a.2);
            let cb = cuerpo_json(b.0, b.1, b.2);
            assert_eq!(ca == cb, i == j);
        }
    }
}
