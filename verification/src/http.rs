//! Report encoding and server-answer classification.

use vstd::prelude::*;

verus! {

/// ASCII code of the digit `d` (`0 <= d < 10`).
pub open spec fn digito(d: nat) -> u8 {
    (48 + d) as u8
}

/// Decimal representation of `n` in ASCII, without sign or leading zeros.
pub open spec fn decimal(n: nat) -> Seq<u8>
    decreases n,
{
    if n < 10 {
        seq![digito(n)]
    } else {
        decimal(n / 10).push(digito(n % 10))
    }
}

/// Appends the decimal representation of `n` to `out`.
pub fn escribir_decimal(n: u64, out: &mut Vec<u8>)
    ensures
        final(out)@ == old(out)@ + decimal(n as nat),
    decreases n,
{
    if n >= 10 {
        escribir_decimal(n / 10, out);
    }
    let d: u8 = (n % 10) as u8;
    out.push(48u8 + d);
}

/// `{"estado":`
pub open spec fn clave_estado() -> Seq<u8> {
    seq![123u8, 34u8, 101u8, 115u8, 116u8, 97u8, 100u8, 111u8, 34u8, 58u8]
}

/// `,"rms":`
pub open spec fn clave_rms() -> Seq<u8> {
    seq![44u8, 34u8, 114u8, 109u8, 115u8, 34u8, 58u8]
}

/// `,"ts":`
pub open spec fn clave_ts() -> Seq<u8> {
    seq![44u8, 34u8, 116u8, 115u8, 34u8, 58u8]
}

/// The JSON object reported for one event:
/// `{"estado":E,"rms":R,"ts":T}` where `E` is `1` when current flows and `0`
/// otherwise, and `R`, `T` are the decimal values of the RMS and the timestamp.
pub open spec fn cuerpo_spec(estado: bool, rms: u16, ts: u64) -> Seq<u8> {
    clave_estado() + seq![digito(if estado { 1 } else { 0 })] + clave_rms() + decimal(rms as nat)
        + clave_ts() + decimal(ts as nat) + seq![125u8]
}

/// Appends the bytes of `s` to `out`.
fn escribir_bytes(out: &mut Vec<u8>, s: &[u8])
    ensures
        final(out)@ == old(out)@ + s@,
{
    let mut i: usize = 0;
    while i < s.len()
        invariant
            i <= s.len(),
            out@ == old(out)@ + s@.take(i as int),
        decreases s.len() - i,
    {
        out.push(s[i]);
        i = i + 1;
        assert(s@.take(i as int) =~= s@.take((i - 1) as int).push(s@[i - 1]));
    }
    assert(s@.take(s.len() as int) =~= s@);
}

/// Builds the JSON body of the report of one event.
pub fn cuerpo_json(estado: bool, rms: u16, ts: u64) -> (cuerpo: Vec<u8>)
    ensures
        cuerpo@ == cuerpo_spec(estado, rms, ts),
{
    let mut out: Vec<u8> = Vec::new();
    let k_estado: [u8; 10] = [123u8, 34u8, 101u8, 115u8, 116u8, 97u8, 100u8, 111u8, 34u8, 58u8];
    let k_rms: [u8; 7] = [44u8, 34u8, 114u8, 109u8, 115u8, 34u8, 58u8];
    let k_ts: [u8; 6] = [44u8, 34u8, 116u8, 115u8, 34u8, 58u8];
    assert(k_estado@ =~= clave_estado());
    assert(k_rms@ =~= clave_rms());
    assert(k_ts@ =~= clave_ts());
    escribir_bytes(&mut out, &k_estado);
    let bit: u8 = if estado { 1 } else { 0 };
    out.push(48u8 + bit);
    escribir_bytes(&mut out, &k_rms);
    escribir_decimal(rms as u64, &mut out);
    escribir_bytes(&mut out, &k_ts);
    escribir_decimal(ts, &mut out);
    out.push(125u8);
    assert(out@ =~= cuerpo_spec(estado, rms, ts));
    out
}

/// Value of a sequence of ASCII digits read in base ten.
pub open spec fn valor_decimal(s: Seq<u8>) -> nat
    decreases s.len(),
{
    if s.len() == 0 {
        0
    } else {
        valor_decimal(s.drop_last()) * 10 + ((s.last() - 48) as nat)
    }
}

/// Every byte of `s` is an ASCII digit.
pub open spec fn solo_digitos(s: Seq<u8>) -> bool {
    forall|i: int| 0 <= i < s.len() ==> 48 <= #[trigger] s[i] < 58
}

/// The decimal text of a number is a non-empty run of digits that reads back
/// as the same number, so the numeric fields of a report are never ambiguous.
pub proof fn ley_decimal_reversible(n: nat)
    ensures
        decimal(n).len() >= 1,
        solo_digitos(decimal(n)),
        valor_decimal(decimal(n)) == n,
    decreases n,
{
    if n >= 10 {
        ley_decimal_reversible(n / 10);
        let s = decimal(n);
        assert(s.drop_last() =~= decimal(n / 10));
        assert(s.last() == 48 + n % 10);
        assert(valor_decimal(s) == valor_decimal(decimal(n / 10)) * 10 + n % 10);
        assert((n / 10) * 10 + n % 10 == n) by (nonlinear_arith)
            requires n >= 10;
    } else {
        let s = decimal(n);
        assert(s.drop_last() =~= Seq::<u8>::empty());
        assert(s.last() == 48 + n);
        assert(valor_decimal(s.drop_last()) == 0);
        assert(valor_decimal(s) == n);
    }
}

proof fn lema_partes_cuerpo(estado: bool, rms: u16, ts: u64)
    ensures
        ({
            let b = cuerpo_spec(estado, rms, ts);
            let dr = decimal(rms as nat);
            let dt = decimal(ts as nat);
            &&& b.len() == 25 + dr.len() + dt.len()
            &&& b[10] == digito(if estado { 1 } else { 0 })
            &&& b.subrange(18, 18 + (dr.len() as int)) == dr
            &&& b[18 + (dr.len() as int)] == 44
            &&& b.subrange(24 + (dr.len() as int), 24 + (dr.len() as int) + (dt.len() as int)) == dt
        }),
{
    let b = cuerpo_spec(estado, rms, ts);
    let dr = decimal(rms as nat);
    let dt = decimal(ts as nat);
    let p1 = clave_estado() + seq![digito(if estado { 1 } else { 0 })] + clave_rms();
    let p2 = p1 + dr + clave_ts();
    assert(p1.len() == 18);
    assert(b =~= p2 + dt + seq![125u8]);
    assert(b[10] == p1[10]);
    assert(b.subrange(18, 18 + (dr.len() as int)) =~= dr) by {
        assert forall|i: int| 0 <= i < (dr.len() as int) implies b[18 + i] == dr[i] by {
            assert(b[18 + i] == p2[18 + i]);
            assert(p2[18 + i] == (p1 + dr)[18 + i]);
        }
    }
    assert(b[18 + (dr.len() as int)] == p2[18 + (dr.len() as int)]);
    assert(p2[18 + (dr.len() as int)] == clave_ts()[0]);
    assert(b.subrange(24 + (dr.len() as int), 24 + (dr.len() as int) + (dt.len() as int)) =~= dt) by {
        assert forall|i: int| 0 <= i < (dt.len() as int) implies b[24 + (dr.len() as int) + i] == dt[i] by {
            assert(b[24 + (dr.len() as int) + i] == (p2 + dt)[24 + (dr.len() as int) + i]);
        }
    }
}

/// A report determines the event it reports: distinct events give distinct
/// bodies, since the state digit, the RMS digits and the timestamp digits
/// each read back from their fixed places in the body.
pub proof fn ley_cuerpo_inyectivo(e1: bool, r1: u16, t1: u64, e2: bool, r2: u16, t2: u64)
    requires
        cuerpo_spec(e1, r1, t1) == cuerpo_spec(e2, r2, t2),
    ensures
        e1 == e2,
        r1 == r2,
        t1 == t2,
{
    lema_partes_cuerpo(e1, r1, t1);
    lema_partes_cuerpo(e2, r2, t2);
    ley_decimal_reversible(r1 as nat);
    ley_decimal_reversible(r2 as nat);
    ley_decimal_reversible(t1 as nat);
    ley_decimal_reversible(t2 as nat);
    let b = cuerpo_spec(e1, r1, t1);
    let d1 = decimal(r1 as nat);
    let d2 = decimal(r2 as nat);
    if (d1.len() as int) < (d2.len() as int) {
        assert(b.subrange(18, 18 + (d2.len() as int))[(d1.len() as int) as int] == d2[(d1.len() as int) as int]);
        assert(b[18 + (d1.len() as int)] == 44);
        assert(false);
    }
    if (d2.len() as int) < (d1.len() as int) {
        assert(b.subrange(18, 18 + (d1.len() as int))[(d2.len() as int) as int] == d1[(d2.len() as int) as int]);
        assert(b[18 + (d2.len() as int)] == 44);
        assert(false);
    }
    assert(d1 == d2);
    let u1 = decimal(t1 as nat);
    let u2 = decimal(t2 as nat);
    assert(u1.len() == u2.len());
    assert(u1 == u2);
}

/// Text of the `Content-Length` header for a body: the decimal length of the body.
pub fn longitud_cuerpo(cuerpo: &Vec<u8>) -> (texto: Vec<u8>)
    ensures
        texto@ == decimal(cuerpo@.len()),
{
    let mut out: Vec<u8> = Vec::new();
    escribir_decimal(cuerpo.len() as u64, &mut out);
    assert(out@ =~= decimal(cuerpo@.len()));
    out
}

/// A server status code that reports success: the 2xx class.
pub open spec fn es_exito_http(estado: u16) -> bool {
    200 <= estado < 300
}

/// Success is exactly the 2xx class: every status from 200 to 299 (204 No
/// Content included) is a success, and every status outside it is not.
pub proof fn ley_exito_2xx(s: u16)
    ensures
        es_exito_http(s) <==> (200 <= s && s < 300),
        200 <= s < 300 ==> es_exito_http(s),
        s < 200 ==> !es_exito_http(s),
        s >= 300 ==> !es_exito_http(s),
        es_exito_http(200),
        es_exito_http(204),
        es_exito_http(299),
{
}

/// Outcome of one report. `respuesta` is the HTTP status the server answered
/// with, or `None` when no answer came (connection, DNS, TLS, write or timeout
/// failure). The report counts as delivered only on a 2xx answer.
pub fn envio_exitoso(respuesta: Option<u16>) -> (ok: bool)
    ensures
        ok == (respuesta matches Some(s) && es_exito_http(s)),
        ok <==> (respuesta matches Some(s) && 200 <= s && s < 300),
{
    match respuesta {
        Some(s) => s >= 200 && s < 300,
        None => false,
    }
}

} // verus!
