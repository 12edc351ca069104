use prueba1::sensor::{
    hay_corriente_en, varianza_de_lecturas, Muestreo, SensorError, MAX_ERRORES_ADC,
    NUM_MUESTRAS, UMBRAL_CORRIENTE,
};

fn n() -> usize {
    NUM_MUESTRAS as usize
}

#[test]
fn constantes_de_la_medicion() {
    assert_eq!(NUM_MUESTRAS, 66);
    assert_eq!(UMBRAL_CORRIENTE, 90);
    assert_eq!(MAX_ERRORES_ADC, 5);
}

#[test]
fn umbral_de_corriente() {
    assert_eq!(hay_corriente_en(0), (false, 0));
    assert_eq!(hay_corriente_en(90), (false, 90));
    assert_eq!(hay_corriente_en(91), (true, 91));
    assert_eq!(hay_corriente_en(u16::MAX), (true, u16::MAX));
}

#[test]
fn senal_constante_no_tiene_componente_alterna() {
    let l = vec![Some(1800u16); n()];
    assert_eq!(varianza_de_lecturas(&l), Ok(0));
}

#[test]
fn senal_cuadrada() {
    let l: Vec<Option<u16>> = (0..n()).map(|i| Some(if i % 2 == 0 { 0 } else { 200 })).collect();
    // mean 100, every deviation 100
    assert_eq!(varianza_de_lecturas(&l), Ok(10000));
}

#[test]
fn desplazamiento_no_cambia_la_medida() {
    let base: Vec<Option<u16>> = (0..n()).map(|i| Some((i * 37 % 101) as u16)).collect();
    let alta: Vec<Option<u16>> = base.iter().map(|x| x.map(|v| v + 2000)).collect();
    let a = varianza_de_lecturas(&base).unwrap();
    assert_eq!(varianza_de_lecturas(&alta), Ok(a));
    assert!(a > 0);
}

#[test]
fn media_redondeada_hacia_abajo() {
    // 65 samples at 0 and one at 66: mean 1, squares 65*1 + 65*65 = 4290, /66 = 65
    let mut l = vec![Some(0u16); n()];
    l[10] = Some(66);
    assert_eq!(varianza_de_lecturas(&l), Ok(65));
}

#[test]
fn valores_extremos_sin_desbordar() {
    let l: Vec<Option<u16>> =
        (0..n()).map(|i| Some(if i % 2 == 0 { 0 } else { u16::MAX })).collect();
    // mean 32767, deviations 32767 and 32768
    let esperado = (33u64 * 32767 * 32767 + 33u64 * 32768 * 32768) / 66;
    assert_eq!(varianza_de_lecturas(&l), Ok(esperado));
}

#[test]
fn cuatro_fallos_se_toleran() {
    let mut l = vec![Some(500u16); n()];
    for i in [3, 20, 40, 65] {
        l[i] = None;
    }
    assert_eq!(varianza_de_lecturas(&l), Ok(0));
}

#[test]
fn fallo_repite_la_ultima_lectura() {
    let mut l = vec![Some(0u16); n()];
    l[0] = Some(66);
    l[1] = None;
    // samples: 66, 66, then 0s: mean 2, squares 2*64*64 + 64*4 = 8448, /66 = 128
    assert_eq!(varianza_de_lecturas(&l), Ok(128));
}

#[test]
fn fallo_antes_de_la_primera_lectura_vale_cero() {
    let mut l = vec![Some(66u16); n()];
    l[0] = None;
    // samples: 0, then 65 times 66: mean 65, squares 65*65 + 65*1 = 4290, /66 = 65
    assert_eq!(varianza_de_lecturas(&l), Ok(65));
}

#[test]
fn cinco_fallos_abandonan() {
    let mut l = vec![Some(500u16); n()];
    for i in [0, 1, 2, 3, 65] {
        l[i] = None;
    }
    assert_eq!(varianza_de_lecturas(&l), Err(SensorError::AdcRead));
    let todos = vec![None; n()];
    assert_eq!(varianza_de_lecturas(&todos), Err(SensorError::AdcRead));
}

#[test]
fn muestreo_paso_a_paso() {
    let mut m = Muestreo::nuevo();
    assert!(!m.completo());
    for i in 0..n() {
        let lectura = if i < 4 { None } else { Some(7u16) };
        assert_eq!(m.registrar(lectura), Ok(()));
    }
    assert!(m.completo());
    // samples: 4 zeros then 62 sevens: mean 6, squares 4*36 + 62*1 = 206, /66 = 3
    assert_eq!(m.varianza(), 3);
}

#[test]
fn muestreo_quinto_fallo() {
    let mut m = Muestreo::nuevo();
    for _ in 0..4 {
        assert_eq!(m.registrar(None), Ok(()));
    }
    assert_eq!(m.registrar(None), Err(SensorError::AdcRead));
}

#[test]
fn orden_de_las_muestras_indiferente() {
    let v: Vec<Option<u16>> = (0..n()).map(|i| Some((i * i % 4096) as u16)).collect();
    let mut w = v.clone();
    w.reverse();
    w.swap(3, 40);
    let a = varianza_de_lecturas(&v).unwrap();
    assert_eq!(varianza_de_lecturas(&w), Ok(a));
}
