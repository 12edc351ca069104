//! Sampling of the current sensor and measurement of the AC component of
//! its signal.

use vstd::prelude::*;

verus! {

/// Failures of the sensor path.
#[derive(Debug, Clone, Copy, PartialEq, Eq, Structural)]
pub enum SensorError {
    /// The ADC unit could not be set up.
    AdcInit,
    /// The ADC channel of the sensor pin could not be set up.
    AdcPin,
    /// Too many failed ADC reads within one measurement.
    AdcRead,
}

/// RMS value above which the machine is considered on.
pub const UMBRAL_CORRIENTE: u16 = 90;

/// Mains cycles covered by one measurement.
pub const CICLOS: u32 = 4;

/// Mains frequency, in hertz.
pub const HZ: u32 = 60;

/// Samples per measurement, one per millisecond over `CICLOS` cycles at `HZ`.
pub const NUM_MUESTRAS: u32 = CICLOS * 1000 / HZ;

/// Number of failed reads at which a measurement is abandoned.
pub const MAX_ERRORES_ADC: u8 = 5;

/// Largest value an ADC read can give.
pub open spec fn max_lectura() -> int {
    0xffff
}

/// Sum of the samples.
pub open spec fn suma(s: Seq<u32>) -> int
    decreases s.len(),
{
    if s.len() == 0 {
        0
    } else {
        suma(s.drop_last()) + s.last()
    }
}

/// Mean of a full measurement, rounded down.
pub open spec fn media(s: Seq<u32>) -> int {
    suma(s) / (NUM_MUESTRAS as int)
}

/// Sum of the squared deviations of the samples from `m`.
pub open spec fn suma_cuadrados(s: Seq<u32>, m: int) -> int
    decreases s.len(),
{
    if s.len() == 0 {
        0
    } else {
        suma_cuadrados(s.drop_last(), m) + (s.last() - m) * (s.last() - m)
    }
}

/// Mean square of the AC component of a full measurement: the squared
/// deviations from the (rounded-down) mean, summed and divided by the number
/// of samples, rounded down. Its square root is the RMS value of the signal.
pub open spec fn varianza_ac(s: Seq<u32>) -> int {
    suma_cuadrados(s, media(s)) / (NUM_MUESTRAS as int)
}

/// The machine is on when the RMS value exceeds the threshold.
pub open spec fn encendida(rms: u16) -> bool {
    rms > UMBRAL_CORRIENTE
}

/// The machine-on test is a plain threshold at 90 over the whole range of
/// RMS values: every value above 90 means on, every value up to 90 means off,
/// and a larger RMS never reads as off where a smaller one reads as on.
pub proof fn ley_umbral(r1: u16, r2: u16)
    ensures
        encendida(r1) <==> r1 > 90,
        r1 <= r2 && encendida(r1) ==> encendida(r2),
        encendida(91),
        !encendida(90),
        r1 <= 90 ==> !encendida(r1),
        r1 >= 91 ==> encendida(r1),
{
}

/// Every sample lies in the range of an ADC read.
pub open spec fn muestras_validas(s: Seq<u32>) -> bool {
    forall|i: int| 0 <= i < s.len() ==> #[trigger] s[i] <= max_lectura()
}

proof fn lema_suma_acotada(s: Seq<u32>)
    requires
        muestras_validas(s),
    ensures
        0 <= suma(s) <= s.len() * max_lectura(),
    decreases s.len(),
{
    if s.len() > 0 {
        assert(muestras_validas(s.drop_last()));
        lema_suma_acotada(s.drop_last());
    }
}

proof fn lema_cuadrado_acotado(v: int, m: int)
    requires
        0 <= v <= max_lectura(),
        0 <= m <= max_lectura(),
    ensures
        0 <= (v - m) * (v - m) <= max_lectura() * max_lectura(),
{
    assert(0 <= (v - m) * (v - m) <= 0xffff * 0xffff) by (nonlinear_arith)
        requires
            0 <= v <= 0xffff,
            0 <= m <= 0xffff,
    ;
}

/// Classifies one measurement: whether the machine is on, with the RMS value.
pub fn hay_corriente_en(rms: u16) -> (r: (bool, u16))
    ensures
        r == (encendida(rms), rms),
        r.0 <==> rms > 90,
        r.1 == rms,
{
    (rms > UMBRAL_CORRIENTE, rms)
}

/// One measurement in progress: the samples taken so far, the failed reads so
/// far and the last successful read, which stands in for a failed one.
pub struct Muestreo {
    muestras: Vec<u32>,
    suma: u32,
    errores: u8,
    ultimo: u32,
}

impl Muestreo {
    /// Samples taken so far.
    pub closed spec fn muestras(&self) -> Seq<u32> {
        self.muestras@
    }

    /// Failed reads so far.
    pub closed spec fn errores(&self) -> nat {
        self.errores as nat
    }

    /// Last successful read, 0 before the first.
    pub closed spec fn ultimo(&self) -> u32 {
        self.ultimo
    }

    /// The state of a measurement that is still running.
    pub closed spec fn bien_formado(&self) -> bool {
        &&& self.muestras@.len() <= NUM_MUESTRAS
        &&& muestras_validas(self.muestras@)
        &&& self.suma == suma(self.muestras@)
        &&& self.errores < MAX_ERRORES_ADC
        &&& self.ultimo <= max_lectura()
    }

    /// A measurement with no sample yet.
    pub fn nuevo() -> (m: Muestreo)
        ensures
            m.bien_formado(),
            m.muestras() == Seq::<u32>::empty(),
            m.errores() == 0,
            m.ultimo() == 0,
    {
        Muestreo { muestras: Vec::new(), suma: 0, errores: 0, ultimo: 0 }
    }

    /// Whether all samples of the measurement are taken.
    pub fn completo(&self) -> (c: bool)
        requires
            self.bien_formado(),
        ensures
            c == (self.muestras().len() == NUM_MUESTRAS),
    {
        self.muestras.len() == NUM_MUESTRAS as usize
    }

    /// Takes the outcome of one ADC read: `Some(v)` for a read of `v`, `None`
    /// for a failed read. A successful read is the next sample. A failed read
    /// repeats the last successful read as the next sample, unless it is the
    /// `MAX_ERRORES_ADC`-th failure, which abandons the measurement with
    /// `SensorError::AdcRead`.
    pub fn registrar(&mut self, lectura: Option<u16>) -> (r: Result<(), SensorError>)
        requires
            old(self).bien_formado(),
            old(self).muestras().len() < NUM_MUESTRAS,
        ensures
            match lectura {
                Some(v) => {
                    &&& r is Ok
                    &&& final(self).muestras() == old(self).muestras().push(v as u32)
                    &&& final(self).errores() == old(self).errores()
                    &&& final(self).ultimo() == v as u32
                },
                None => {
                    &&& final(self).errores() == old(self).errores() + 1
                    &&& final(self).ultimo() == old(self).ultimo()
                    &&& if old(self).errores() + 1 >= MAX_ERRORES_ADC {
                        r == Err::<(), SensorError>(SensorError::AdcRead)
                    } else {
                        &&& r is Ok
                        &&& final(self).muestras() == old(self).muestras().push(
                            old(self).ultimo(),
                        )
                    }
                },
            },
            r is Ok ==> final(self).bien_formado(),
    {
        proof {
            lema_suma_acotada(self.muestras@);
        }
        let v: u32 = match lectura {
            Some(val) => {
                self.ultimo = val as u32;
                self.ultimo
            },
            None => {
                self.errores = self.errores + 1;
                if self.errores >= MAX_ERRORES_ADC {
                    return Err(SensorError::AdcRead);
                }
                self.ultimo
            },
        };
        let ghost antes = self.muestras@;
        self.muestras.push(v);
        self.suma = self.suma + v;
        proof {
            assert(self.muestras@.drop_last() =~= antes);
            assert(muestras_validas(self.muestras@)) by {
                assert forall|i: int| 0 <= i < self.muestras@.len() implies #[trigger]
                    self.muestras@[i] <= max_lectura() by {
                    if i < antes.len() {
                        assert(self.muestras@[i] == antes[i]);
                    }
                }
            }
        }
        Ok(())
    }

    /// Mean square of the AC component of the finished measurement.
    pub fn varianza(&self) -> (v: u64)
        requires
            self.bien_formado(),
            self.muestras().len() == NUM_MUESTRAS,
        ensures
            v == varianza_ac(self.muestras()),
    {
        let n: u32 = NUM_MUESTRAS;
        proof {
            lema_suma_acotada(self.muestras@);
        }
        let media_v: u32 = self.suma / n;
        assert(media_v <= max_lectura()) by (nonlinear_arith)
            requires
                media_v == self.suma / 66,
                self.suma <= 66 * 0xffff,
        ;
        let mut sc: u64 = 0;
        let mut i: usize = 0;
        let ghost s = self.muestras@;
        while i < self.muestras.len()
            invariant
                s == self.muestras@,
                self.muestras@.len() == NUM_MUESTRAS,
                muestras_validas(s),
                media_v == media(s),
                media_v <= max_lectura(),
                i <= s.len(),
                sc == suma_cuadrados(s.take(i as int), media_v as int),
                sc <= i * 4294836225,
            decreases s.len() - i,
        {
            let x: u32 = self.muestras[i];
            let d: u64 = if x >= media_v {
                (x - media_v) as u64
            } else {
                (media_v - x) as u64
            };
            proof {
                lema_cuadrado_acotado(x as int, media_v as int);
                assert(s.take(i + 1).drop_last() =~= s.take(i as int));
                assert(d * d == (x - media_v) * (x - media_v)) by (nonlinear_arith)
                    requires
                        d == x - media_v || d == media_v - x,
                ;
                assert(d * d <= 4294836225);
                assert((i + 1) * 4294836225 == i * 4294836225 + 4294836225);
            }
            sc = sc + d * d;
            i = i + 1;
        }
        assert(s.take(s.len() as int) =~= s);
        sc / (n as u64)
    }
}

/// The samples `s` with `c` added to each.
pub open spec fn desplazar(s: Seq<u32>, c: u32) -> Seq<u32> {
    s.map_values(|x: u32| (x + c) as u32)
}

proof fn lema_suma_constante(s: Seq<u32>, c: u32)
    requires
        forall|i: int| 0 <= i < s.len() ==> #[trigger] s[i] == c,
    ensures
        suma(s) == s.len() * c,
        suma_cuadrados(s, c as int) == 0,
    decreases s.len(),
{
    if s.len() > 0 {
        let t = s.drop_last();
        assert(forall|i: int| 0 <= i < t.len() ==> #[trigger] t[i] == s[i]);
        lema_suma_constante(t, c);
        assert(s.last() == c);
        assert((s.last() - c) * (s.last() - c) == 0);
        assert(s.len() * c == t.len() * c + c) by (nonlinear_arith)
            requires s.len() == t.len() + 1;
    }
}

proof fn lema_suma_desplazada(s: Seq<u32>, c: u32, m: int)
    requires
        forall|i: int| 0 <= i < s.len() ==> #[trigger] s[i] + c <= u32::MAX,
    ensures
        suma(desplazar(s, c)) == suma(s) + s.len() * c,
        suma_cuadrados(desplazar(s, c), m + c) == suma_cuadrados(s, m),
    decreases s.len(),
{
    if s.len() > 0 {
        let t = s.drop_last();
        assert(forall|i: int| 0 <= i < t.len() ==> #[trigger] t[i] == s[i]);
        lema_suma_desplazada(t, c, m);
        assert(desplazar(s, c).drop_last() =~= desplazar(t, c));
        assert(desplazar(s, c).last() == s.last() + c);
        assert(s.len() * c == t.len() * c + c) by (nonlinear_arith)
            requires s.len() == t.len() + 1;
    }
}

/// A steady signal has no AC component: when every sample of a measurement
/// is the same value, the mean square of the AC component is zero.
pub proof fn ley_senal_constante(s: Seq<u32>, c: u32)
    requires
        s.len() == NUM_MUESTRAS,
        forall|i: int| 0 <= i < s.len() ==> #[trigger] s[i] == c,
    ensures
        varianza_ac(s) == 0,
{
    lema_suma_constante(s, c);
    assert((66 * c) / 66 == c) by (nonlinear_arith);
}

/// The measurement ignores the DC level: adding the same offset to every
/// sample leaves the mean square of the AC component unchanged.
pub proof fn ley_invariante_a_desplazamiento(s: Seq<u32>, c: u32)
    requires
        s.len() == NUM_MUESTRAS,
        forall|i: int| 0 <= i < s.len() ==> #[trigger] s[i] + c <= u32::MAX,
    ensures
        varianza_ac(desplazar(s, c)) == varianza_ac(s),
{
    lema_suma_desplazada(s, c, media(s));
    let a = suma(s);
    lema_suma_no_negativa(s);
    assert((a + 66 * c) / 66 == a / 66 + c) by (nonlinear_arith)
        requires a >= 0;
    assert(desplazar(s, c).len() == s.len());
}

proof fn lema_suma_no_negativa(s: Seq<u32>)
    ensures
        suma(s) >= 0,
    decreases s.len(),
{
    if s.len() > 0 {
        lema_suma_no_negativa(s.drop_last());
    }
}

proof fn lema_quitar(s: Seq<u32>, j: int, m: int)
    requires
        0 <= j < s.len(),
    ensures
        suma(s) == suma(s.remove(j)) + s[j],
        suma_cuadrados(s, m) == suma_cuadrados(s.remove(j), m) + (s[j] - m) * (s[j] - m),
    decreases s.len(),
{
    if j == s.len() - 1 {
        assert(s.remove(j) =~= s.drop_last());
    } else {
        let t = s.drop_last();
        lema_quitar(t, j, m);
        let r = s.remove(j);
        assert(r.drop_last() =~= t.remove(j));
        assert(r.last() == s.last());
        assert(t[j] == s[j]);
    }
}

proof fn lema_permutacion(a: Seq<u32>, b: Seq<u32>, m: int)
    requires
        a.to_multiset() == b.to_multiset(),
    ensures
        suma(a) == suma(b),
        suma_cuadrados(a, m) == suma_cuadrados(b, m),
    decreases a.len(),
{
    vstd::seq_lib::to_multiset_len(a);
    vstd::seq_lib::to_multiset_len(b);
    assert(a.len() == b.len());
    if a.len() > 0 {
        let x = a.last();
        let t = a.drop_last();
        assert(a =~= t.push(x));
        vstd::seq_lib::to_multiset_build(t, x);
        vstd::seq_lib::to_multiset_contains(b, x);
        assert(b.to_multiset().count(x) > 0);
        assert(b.contains(x));
        let j = choose|j: int| 0 <= j < b.len() && b[j] == x;
        vstd::seq_lib::to_multiset_remove(b, j);
        assert(t.to_multiset() =~= b.remove(j).to_multiset());
        lema_permutacion(t, b.remove(j), m);
        lema_quitar(b, j, m);
    }
}

/// The order of the samples does not matter: a measurement whose samples are
/// a rearrangement of another's has the same mean square of the AC component.
pub proof fn ley_orden_indiferente(a: Seq<u32>, b: Seq<u32>)
    requires
        a.to_multiset() == b.to_multiset(),
    ensures
        varianza_ac(a) == varianza_ac(b),
{
    lema_permutacion(a, b, media(a));
}

/// Last successful read among `l`, 0 when there is none.
pub open spec fn ultimo_valido(l: Seq<Option<u16>>) -> u32
    decreases l.len(),
{
    if l.len() == 0 {
        0
    } else {
        match l.last() {
            Some(v) => v as u32,
            None => ultimo_valido(l.drop_last()),
        }
    }
}

/// Samples that a run of reads gives: each failed read is replaced by the
/// last successful read before it (0 when there is none).
pub open spec fn rellenar(l: Seq<Option<u16>>) -> Seq<u32>
    decreases l.len(),
{
    if l.len() == 0 {
        Seq::empty()
    } else {
        rellenar(l.drop_last()).push(
            match l.last() {
                Some(v) => v as u32,
                None => ultimo_valido(l.drop_last()),
            },
        )
    }
}

/// Number of failed reads in `l`.
pub open spec fn fallos(l: Seq<Option<u16>>) -> nat
    decreases l.len(),
{
    if l.len() == 0 {
        0
    } else {
        fallos(l.drop_last()) + if l.last() is None {
            1nat
        } else {
            0nat
        }
    }
}

proof fn lema_fallos_prefijo(l: Seq<Option<u16>>, k: int)
    requires
        0 <= k <= l.len(),
    ensures
        fallos(l.take(k)) <= fallos(l),
    decreases l.len() - k,
{
    if k < l.len() {
        lema_fallos_prefijo(l, k + 1);
        assert(l.take(k + 1).drop_last() =~= l.take(k));
    } else {
        assert(l.take(k) =~= l);
    }
}

/// Runs one whole measurement over the outcomes of its `NUM_MUESTRAS` reads
/// (`None` for a failed read). It fails with `SensorError::AdcRead` exactly
/// when `MAX_ERRORES_ADC` or more of the reads failed; otherwise it gives the
/// mean square of the AC component of the samples, failed reads replaced by
/// the last successful one.
pub fn varianza_de_lecturas(lecturas: &Vec<Option<u16>>) -> (r: Result<u64, SensorError>)
    requires
        lecturas@.len() == NUM_MUESTRAS,
    ensures
        r is Err <==> fallos(lecturas@) >= MAX_ERRORES_ADC,
        r matches Err(e) ==> e == SensorError::AdcRead,
        r matches Ok(v) ==> v == varianza_ac(rellenar(lecturas@)),
{
    let mut m = Muestreo::nuevo();
    let mut i: usize = 0;
    let ghost l = lecturas@;
    while i < lecturas.len()
        invariant
            l == lecturas@,
            l.len() == NUM_MUESTRAS,
            i <= l.len(),
            m.bien_formado(),
            m.muestras() == rellenar(l.take(i as int)),
            m.errores() == fallos(l.take(i as int)),
            m.ultimo() == ultimo_valido(l.take(i as int)),
            m.muestras().len() == i,
        decreases l.len() - i,
    {
        let lectura = lecturas[i];
        let r = m.registrar(lectura);
        proof {
            assert(l.take(i + 1).drop_last() =~= l.take(i as int));
            assert(l.take(i + 1).last() == lectura);
        }
        match r {
            Err(e) => {
                proof {
                    lema_fallos_prefijo(l, i + 1);
                }
                return Err(e);
            },
            Ok(()) => {},
        }
        i = i + 1;
    }
    assert(l.take(l.len() as int) =~= l);
    Ok(m.varianza())
}

} // verus!
