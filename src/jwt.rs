//! The display name carried in a session token's payload. The token is never
//! validated: the name is only shown in a greeting.
use vstd::prelude::*;
use vstd::string::StrSliceExecFns;
use base64::Engine as _;

verus! {

fn chars_of(s: &str) -> (r: Vec<char>)
    ensures
        r@ == s@,
{
    let n = s.unicode_len();
    let mut out: Vec<char> = Vec::new();
    let mut i: usize = 0;
    while i < n
        invariant
            n == s@.len(),
            0 <= i <= n,
            out@ == s@.take(i as int),
        decreases n - i,
    {
        out.push(s.get_char(i));
        assert(s@.take(i as int + 1) =~= s@.take(i as int).push(s@[i as int]));
        i = i + 1;
    }
    assert(s@.take(n as int) =~= s@);
    out
}

/// Relies on String's FromIterator over characters: a string of these characters.
#[verifier::external_body]
fn string_of(v: &Vec<char>) -> (r: String)
    ensures
        r@ == v@,
{
    v.iter().collect()
}

/// What base64's standard engine (with padding) decodes from a text; `None`
/// where the text is not valid standard base64.
pub uninterp spec fn base64_decoded_of(s: Seq<char>) -> Option<Seq<u8>>;

/// Relies on base64::engine::general_purpose::STANDARD.decode.
#[verifier::external_body]
fn base64_decode(s: &str) -> (r: Option<Vec<u8>>)
    ensures
        r.is_some() == base64_decoded_of(s@).is_some(),
        r.is_some() ==> r.unwrap()@ == base64_decoded_of(s@).unwrap(),
{
    base64::engine::general_purpose::STANDARD.decode(s).ok()
}

/// What serde_json reads as the string under `key` of the JSON object in
/// `text`; `None` where the text is no JSON object, the key is absent or its
/// value is no string.
pub uninterp spec fn json_str_field_of(text: Seq<u8>, key: Seq<char>) -> Option<Seq<char>>;

/// Relies on serde_json::from_slice, Value::get and Value::as_str to read one
/// string field of a JSON object.
#[verifier::external_body]
fn json_str_field(text: &[u8], key: &str) -> (r: Option<String>)
    ensures
        r.is_some() == json_str_field_of(text@, key@).is_some(),
        r.is_some() ==> r.unwrap()@ == json_str_field_of(text@, key@).unwrap(),
{
    serde_json::from_slice::<serde_json::Value>(text).ok().and_then(
        |v| v.get(key).and_then(|f| f.as_str()).map(|s| s.to_string()),
    )
}

/// The number of `.` in a text.
pub open spec fn dot_count(t: Seq<char>) -> nat
    decreases t.len(),
{
    if t.len() == 0 {
        0
    } else {
        dot_count(t.drop_last()) + if t.last() == '.' {
            1nat
        } else {
            0nat
        }
    }
}

/// The text between the first and the second `.` (to the end if there is no
/// second one; empty if there is no first one).
pub open spec fn second_part(t: Seq<char>) -> Seq<char>
    decreases t.len(),
{
    if t.len() == 0 {
        Seq::empty()
    } else if t.last() != '.' && dot_count(t.drop_last()) == 1 {
        second_part(t.drop_last()).push(t.last())
    } else {
        second_part(t.drop_last())
    }
}

/// The standard base64 alphabet's character for a URL-safe one.
pub open spec fn to_standard_alphabet(c: char) -> char {
    if c == '-' {
        '+'
    } else if c == '_' {
        '/'
    } else {
        c
    }
}

/// A text followed by as many `=` as bring its length to a multiple of four.
pub open spec fn padded(s: Seq<char>) -> Seq<char> {
    s + Seq::new(((4 - s.len() % 4) % 4) as nat, |i: int| '=')
}

/// The payload of a three-part token, in padded standard base64; `None`
/// unless the token has exactly three parts.
pub open spec fn payload_spec(t: Seq<char>) -> Option<Seq<char>> {
    if dot_count(t) == 2 {
        Some(padded(second_part(t).map_values(|c: char| to_standard_alphabet(c))))
    } else {
        None
    }
}

/// The payload of a three-part token, turned from URL-safe unpadded base64
/// into padded standard base64.
pub fn jwt_payload_text(token: &str) -> (r: Option<String>)
    ensures
        r.is_some() == payload_spec(token@).is_some(),
        r.is_some() ==> r.unwrap()@ == payload_spec(token@).unwrap(),
{
    let t = chars_of(token);
    let mut dots: usize = 0;
    let mut payload: Vec<char> = Vec::new();
    let mut i: usize = 0;
    while i < t.len()
        invariant
            0 <= i <= t.len(),
            t@ == token@,
            dots as nat == dot_count(t@.take(i as int)),
            dots <= i,
            payload@ == second_part(t@.take(i as int)).map_values(|c: char| to_standard_alphabet(c)),
        decreases t.len() - i,
    {
        let c = t[i];
        proof {
            assert(t@.take(i as int + 1).drop_last() =~= t@.take(i as int));
            assert(t@.take(i as int + 1).last() == c);
        }
        if c == '.' {
            dots = dots + 1;
        } else if dots == 1 {
            let d = if c == '-' {
                '+'
            } else if c == '_' {
                '/'
            } else {
                c
            };
            payload.push(d);
            proof {
                assert(payload@ =~= second_part(t@.take(i as int + 1)).map_values(
                    |c: char| to_standard_alphabet(c),
                ));
            }
        }
        i = i + 1;
    }
    proof {
        assert(t@.take(t.len() as int) =~= t@);
    }
    if dots != 2 {
        return None;
    }
    let ghost base = payload@;
    while payload.len() % 4 != 0
        invariant
            base.len() <= payload.len(),
            base.len() % 4 + (payload.len() - base.len()) <= 4,
            base.len() % 4 == 0 ==> payload.len() == base.len(),
            payload@ == base + Seq::new((payload.len() - base.len()) as nat, |i: int| '='),
        decreases 4 - (payload.len() - base.len()),
    {
        proof {
            let b = base.len() as int;
            let d = payload.len() - base.len();
            assert(b % 4 + d < 4 && b % 4 != 0) by (nonlinear_arith)
                requires
                    (b + d) % 4 != 0,
                    b % 4 + d <= 4,
                    b % 4 == 0 ==> d == 0,
                    b >= 0,
                    d >= 0,
            ;
        }
        payload.push('=');
        proof {
            assert(payload@ =~= base + Seq::new((payload.len() - base.len()) as nat, |i: int| '='));
        }
    }
    proof {
        let b = base.len() as int;
        let d = payload.len() - base.len();
        assert(d == (4 - b % 4) % 4) by (nonlinear_arith)
            requires
                (b + d) % 4 == 0,
                b % 4 + d <= 4,
                b % 4 == 0 ==> d == 0,
                b >= 0,
                d >= 0,
        ;
    }
    Some(string_of(&payload))
}

/// The name under `nombre_completo` in a decoded token payload.
pub fn name_from_payload(decoded: &[u8]) -> (r: Option<String>)
    ensures
        r.is_some() == json_str_field_of(decoded@, "nombre_completo"@).is_some(),
        r.is_some() ==> r.unwrap()@ == json_str_field_of(decoded@, "nombre_completo"@).unwrap(),
{
    json_str_field(decoded, "nombre_completo")
}

/// The display name in a token: the `nombre_completo` string of the JSON
/// object that its payload part decodes to, if all of that succeeds.
pub fn extract_name_from_jwt(token: &str) -> (r: Option<String>)
    ensures
        r.is_some() == (match payload_spec(token@) {
            Some(p) => match base64_decoded_of(p) {
                Some(b) => json_str_field_of(b, "nombre_completo"@).is_some(),
                None => false,
            },
            None => false,
        }),
        r.is_some() ==> r.unwrap()@ == json_str_field_of(
            base64_decoded_of(payload_spec(token@).unwrap()).unwrap(),
            "nombre_completo"@,
        ).unwrap(),
{
    match jwt_payload_text(token) {
        Some(p) => match base64_decode(p.as_str()) {
            Some(b) => name_from_payload(b.as_slice()),
            None => None,
        },
        None => None,
    }
}

} // verus!
