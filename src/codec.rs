use vstd::prelude::*;

use crate::sample::SensorData;

verus! {

/// The ASCII decimal digits of `n`, without sign or leading zeros.
pub open spec fn decimal(n: nat) -> Seq<u8>
    decreases n,
{
    if n < 10 {
        seq![(48 + n) as u8]
    } else {
        decimal(n / 10).push((48 + n % 10) as u8)
    }
}

/// `10` to the power `k`.
pub open spec fn pow10(k: nat) -> nat
    decreases k,
{
    if k == 0 {
        1
    } else {
        10 * pow10((k - 1) as nat)
    }
}

/// A number below `10^k` has at most `k` digits.
pub proof fn lemma_decimal_len(n: nat, k: nat)
    requires
        k >= 1,
        n < pow10(k),
    ensures
        decimal(n).len() <= k,
    decreases n,
{
    if n >= 10 {
        if k == 1 {
            assert(pow10(1) == 10) by {
                reveal_with_fuel(pow10, 2);
            }
        }
        let p = pow10((k - 1) as nat);
        assert(n / 10 < p) by (nonlinear_arith)
            requires
                n < 10 * p,
        ;
        lemma_decimal_len(n / 10, (k - 1) as nat);
    }
}

/// The wire text of any sample is short: at most 85 bytes.
pub proof fn lemma_sample_text_len(s: SensorData)
    ensures
        sample_text(s).len() <= 85,
{
    reveal_with_fuel(pow10, 21);
    assert(pow10(5) == 100000);
    assert(pow10(20) == 100000000000000000000);
    lemma_decimal_len(s.co2 as nat, 5);
    lemma_decimal_len(s.humidity as nat, 5);
    lemma_decimal_len(s.temperature as nat, 5);
    lemma_decimal_len(s.time as nat, 20);
}

/// `"<name>":` followed by the value's digits.
pub open spec fn member(name: Seq<u8>, value: nat) -> Seq<u8> {
    seq![34u8] + name + seq![34u8, 58u8] + decimal(value)
}

/// The ASCII bytes of `co2`.
pub open spec fn key_co2() -> Seq<u8> {
    seq![99u8, 111u8, 50u8]
}

/// The ASCII bytes of `humidity`.
pub open spec fn key_humidity() -> Seq<u8> {
    seq![104u8, 117u8, 109u8, 105u8, 100u8, 105u8, 116u8, 121u8]
}

/// The ASCII bytes of `temperature`.
pub open spec fn key_temperature() -> Seq<u8> {
    seq![116u8, 101u8, 109u8, 112u8, 101u8, 114u8, 97u8, 116u8, 117u8, 114u8, 101u8]
}

/// The ASCII bytes of `time`.
pub open spec fn key_time() -> Seq<u8> {
    seq![116u8, 105u8, 109u8, 101u8]
}

/// The wire text of a sample: a JSON object with the integer members
/// `co2`, `humidity`, `temperature` and `time`, in that order, with no
/// white space.
pub open spec fn sample_text(s: SensorData) -> Seq<u8> {
    seq![123u8]
        + member(key_co2(), s.co2 as nat) + seq![44u8]
        + member(key_humidity(), s.humidity as nat) + seq![44u8]
        + member(key_temperature(), s.temperature as nat) + seq![44u8]
        + member(key_time(), s.time as nat)
        + seq![125u8]
}

#[verifier::external_type_specification]
#[verifier::external_body]
pub struct ExJsonError(serde_json::Error);

/// Relies on serde_json::to_vec on a `u64`: the serializer writes the
/// number's decimal digits (through itoa) and nothing else into a fresh
/// `Vec`, a write that cannot fail.
#[verifier::external_body]
fn number_json(n: u64) -> (r: Result<Vec<u8>, serde_json::Error>)
    ensures
        r is Ok,
        r->Ok_0@ == decimal(n as nat),
{
    serde_json::to_vec(&n)
}

fn append_member(out: &mut Vec<u8>, name: Vec<u8>, value: u64)
    ensures
        final(out)@ == old(out)@ + member(name@, value as nat),
{
    let ghost key = name@;
    let mut name = name;
    out.push(34u8);
    out.append(&mut name);
    out.push(34u8);
    out.push(58u8);
    match number_json(value) {
        Ok(digits) => {
            let mut digits = digits;
            out.append(&mut digits);
            assert(out@ =~= old(out)@ + member(key, value as nat));
        },
        Err(_) => {},
    }
}

/// Encodes a sample as its wire text.
pub fn encode_sample(s: &SensorData) -> (r: Vec<u8>)
    ensures
        r@ == sample_text(*s),
{
    let mut out: Vec<u8> = Vec::new();
    out.push(123u8);
    append_member(&mut out, vec![99u8, 111u8, 50u8], s.co2 as u64);
    out.push(44u8);
    append_member(&mut out, vec![104u8, 117u8, 109u8, 105u8, 100u8, 105u8, 116u8, 121u8], s.humidity as u64);
    out.push(44u8);
    append_member(
        &mut out,
        vec![116u8, 101u8, 109u8, 112u8, 101u8, 114u8, 97u8, 116u8, 117u8, 114u8, 101u8],
        s.temperature as u64,
    );
    out.push(44u8);
    append_member(&mut out, vec![116u8, 105u8, 109u8, 101u8], s.time);
    out.push(125u8);
    proof {
        assert(out@ =~= sample_text(*s));
    }
    out
}

} // verus!
