//! The credential store: a raw token file and a small metadata record
//! `{"clean_exit": bool, "persist": bool}` kept beside it.
use vstd::prelude::*;

verus! {

/// The metadata record stored beside a persisted token.
#[derive(Clone, Copy, Debug, PartialEq, Eq, Structural)]
pub struct TokenMeta {
    pub persist: bool,
    pub clean_exit: bool,
}

/// A field read from a stored document: absent or malformed reads as `false`.
pub open spec fn field_or_false(f: Option<bool>) -> bool {
    match f {
        Some(b) => b,
        None => false,
    }
}

/// The record that results from setting the clean-exit flag on what was stored.
pub open spec fn merged_meta(existing: Option<TokenMeta>, clean: bool) -> TokenMeta {
    TokenMeta {
        persist: match existing {
            Some(m) => m.persist,
            None => false,
        },
        clean_exit: clean,
    }
}

/// The text of `false` or `true`, as ASCII bytes.
pub open spec fn bool_bytes(b: bool) -> Seq<u8> {
    if b {
        seq![116u8, 114u8, 117u8, 101u8]
    } else {
        seq![102u8, 97u8, 108u8, 115u8, 101u8]
    }
}

/// The stored form of a record: the ASCII text of a JSON object with its two
/// fields in key order, `{"clean_exit":..,"persist":..}`.
pub open spec fn meta_bytes(m: TokenMeta) -> Seq<u8> {
    seq![123u8, 34u8, 99u8, 108u8, 101u8, 97u8, 110u8, 95u8, 101u8, 120u8, 105u8, 116u8, 34u8, 58u8]
        + bool_bytes(m.clean_exit)
        + seq![44u8, 34u8, 112u8, 101u8, 114u8, 115u8, 105u8, 115u8, 116u8, 34u8, 58u8]
        + bool_bytes(m.persist)
        + seq![125u8]
}

/// The name of the key of the `persist` flag.
pub open spec fn persist_key() -> Seq<char> {
    "persist"@
}

/// The name of the key of the clean-exit flag.
pub open spec fn clean_exit_key() -> Seq<char> {
    "clean_exit"@
}

/// What `serde_json` reads as the boolean under `key` of the JSON object in
/// `text`: `None` where the text is no JSON object, the key is absent or its
/// value is no boolean.
pub uninterp spec fn json_bool_field_of(text: Seq<u8>, key: Seq<char>) -> Option<bool>;

/// Relies on serde_json::from_slice, Value::get and Value::as_bool to read one
/// boolean field of a JSON object.
#[verifier::external_body]
fn json_bool_field(text: &[u8], key: &str) -> (r: Option<bool>)
    ensures
        r == json_bool_field_of(text@, key@),
{
    serde_json::from_slice::<serde_json::Value>(text).ok().and_then(|v| v.get(key).and_then(|f| f.as_bool()))
}

/// The record whose stored form is exactly `text`, if there is one.
pub open spec fn canonical_meta(text: Seq<u8>) -> Option<TokenMeta> {
    if text == meta_bytes(TokenMeta { persist: false, clean_exit: false }) {
        Some(TokenMeta { persist: false, clean_exit: false })
    } else if text == meta_bytes(TokenMeta { persist: false, clean_exit: true }) {
        Some(TokenMeta { persist: false, clean_exit: true })
    } else if text == meta_bytes(TokenMeta { persist: true, clean_exit: false }) {
        Some(TokenMeta { persist: true, clean_exit: false })
    } else if text == meta_bytes(TokenMeta { persist: true, clean_exit: true }) {
        Some(TokenMeta { persist: true, clean_exit: true })
    } else {
        None
    }
}

/// The record read from stored bytes: the record itself where the bytes are
/// its stored form, else the two fields as serde_json reads them from any other
/// document, a missing or malformed field reading as `false`.
pub open spec fn decoded_meta(text: Seq<u8>) -> TokenMeta {
    match canonical_meta(text) {
        Some(m) => m,
        None => TokenMeta {
            persist: field_or_false(json_bool_field_of(text, persist_key())),
            clean_exit: field_or_false(json_bool_field_of(text, clean_exit_key())),
        },
    }
}

/// What serde_json makes of the JSON object in `text` with `key` set to the
/// boolean `value`, written out again; `None` where `text` is no JSON object.
pub uninterp spec fn json_with_bool_field_of(text: Seq<u8>, key: Seq<char>, value: bool) -> Option<
    Seq<u8>,
>;

/// Relies on serde_json::from_slice, Value::as_object_mut, Map::insert and
/// serde_json::to_vec to set one boolean field of a JSON object, every other
/// field kept as it was.
#[verifier::external_body]
fn json_with_bool_field(text: &[u8], key: &str, value: bool) -> (r: Option<Vec<u8>>)
    ensures
        r.is_some() == json_with_bool_field_of(text@, key@, value).is_some(),
        r.is_some() ==> r.unwrap()@ == json_with_bool_field_of(text@, key@, value).unwrap(),
        r.is_some() ==> json_bool_field_of(r.unwrap()@, key@) == Some(value),
        r.is_some() ==> forall|k: Seq<char>|
            k != key@ ==> #[trigger] json_bool_field_of(r.unwrap()@, k) == json_bool_field_of(text@, k),
{
    let mut v: serde_json::Value = serde_json::from_slice(text).ok()?;
    v.as_object_mut()?.insert(key.to_string(), serde_json::Value::Bool(value));
    serde_json::to_vec(&v).ok()
}

/// The metadata stored after setting the clean-exit flag: on the stored form of
/// a record, the same record with the flag set; on any other JSON object, that
/// object with the flag set and every other field kept; otherwise (nothing
/// stored, or no JSON object) a fresh record with the flag.
pub open spec fn clean_exit_meta_bytes(stored: Option<Seq<u8>>, clean: bool) -> Seq<u8> {
    match stored {
        None => meta_bytes(TokenMeta { persist: false, clean_exit: clean }),
        Some(b) => match canonical_meta(b) {
            Some(m) => meta_bytes(TokenMeta { persist: m.persist, clean_exit: clean }),
            None => match json_with_bool_field_of(b, clean_exit_key(), clean) {
                Some(r) => r,
                None => meta_bytes(TokenMeta { persist: false, clean_exit: clean }),
            },
        },
    }
}

proof fn meta_bytes_marks(m: TokenMeta)
    ensures
        meta_bytes(m)[14] == bool_bytes(m.clean_exit)[0],
        meta_bytes(m)[14 + bool_bytes(m.clean_exit).len() as int + 11] == bool_bytes(m.persist)[0],
{
    let open_part = seq![123u8, 34u8, 99u8, 108u8, 101u8, 97u8, 110u8, 95u8, 101u8, 120u8, 105u8, 116u8, 34u8, 58u8];
    let mid = seq![44u8, 34u8, 112u8, 101u8, 114u8, 115u8, 105u8, 115u8, 116u8, 34u8, 58u8];
    let c = bool_bytes(m.clean_exit);
    let p = bool_bytes(m.persist);
    assert(open_part.len() == 14);
    assert(mid.len() == 11);
    assert(c.len() >= 4 && p.len() >= 4);
    let x1 = open_part + c;
    let x2 = x1 + mid;
    let x3 = x2 + p;
    let x4 = x3 + seq![125u8];
    assert(meta_bytes(m) == x4);
    assert(x1[14] == c[0]);
    assert(x4[14] == c[0]);
    let k: int = 14 + c.len() as int + 11;
    assert(x3[k] == p[0]);
    assert(x4[k] == p[0]);
}

proof fn meta_bytes_injective(a: TokenMeta, b: TokenMeta)
    requires
        meta_bytes(a) == meta_bytes(b),
    ensures
        a == b,
{
    meta_bytes_marks(a);
    meta_bytes_marks(b);
    assert(bool_bytes(true)[0] != bool_bytes(false)[0]);
    assert(a.clean_exit == b.clean_exit);
    assert(a.persist == b.persist);
}

/// The stored form of a record reads back as that record.
pub proof fn stored_meta_reads_back(m: TokenMeta)
    ensures
        canonical_meta(meta_bytes(m)) == Some(m),
        decoded_meta(meta_bytes(m)) == m,
{
    let ff = TokenMeta { persist: false, clean_exit: false };
    let ft = TokenMeta { persist: false, clean_exit: true };
    let tf = TokenMeta { persist: true, clean_exit: false };
    if meta_bytes(m) == meta_bytes(ff) {
        meta_bytes_injective(m, ff);
    } else if meta_bytes(m) == meta_bytes(ft) {
        meta_bytes_injective(m, ft);
    } else if meta_bytes(m) == meta_bytes(tf) {
        meta_bytes_injective(m, tf);
    }
}

fn bytes_equal(a: &[u8], b: &[u8]) -> (r: bool)
    ensures
        r == (a@ == b@),
{
    if a.len() != b.len() {
        return false;
    }
    let mut i: usize = 0;
    while i < a.len()
        invariant
            a.len() == b.len(),
            0 <= i <= a.len(),
            a@.take(i as int) == b@.take(i as int),
        decreases a.len() - i,
    {
        if a[i] != b[i] {
            assert(a@[i as int] != b@[i as int]);
            return false;
        }
        assert(a@.take(i as int + 1) =~= a@.take(i as int).push(a@[i as int]));
        assert(b@.take(i as int + 1) =~= b@.take(i as int).push(b@[i as int]));
        i = i + 1;
    }
    assert(a@ =~= a@.take(a.len() as int));
    assert(b@ =~= b@.take(b.len() as int));
    true
}

fn push_bool(out: &mut Vec<u8>, b: bool)
    ensures
        final(out)@ == old(out)@ + bool_bytes(b),
{
    let mut text: Vec<u8> = if b {
        vec![116u8, 114u8, 117u8, 101u8]
    } else {
        vec![102u8, 97u8, 108u8, 115u8, 101u8]
    };
    out.append(&mut text);
    proof {
        assert(text@ =~= Seq::<u8>::empty()) by {}
    }
}

impl TokenMeta {
    /// The record written with a freshly persisted token: not yet cleanly exited.
    pub fn fresh(persist: bool) -> (r: TokenMeta)
        ensures
            r == (TokenMeta { persist, clean_exit: false }),
    {
        TokenMeta { persist, clean_exit: false }
    }

    /// A record from the fields read out of a stored document.
    pub fn from_fields(persist: Option<bool>, clean_exit: Option<bool>) -> (r: TokenMeta)
        ensures
            r.persist == field_or_false(persist),
            r.clean_exit == field_or_false(clean_exit),
    {
        TokenMeta {
            persist: match persist {
                Some(b) => b,
                None => false,
            },
            clean_exit: match clean_exit {
                Some(b) => b,
                None => false,
            },
        }
    }

    /// Sets the clean-exit flag on the stored record, or on a new one where
    /// nothing was stored; the `persist` flag is kept.
    pub fn merge_clean_exit(existing: Option<TokenMeta>, clean: bool) -> (r: TokenMeta)
        ensures
            r == merged_meta(existing, clean),
    {
        match existing {
            Some(m) => TokenMeta { persist: m.persist, clean_exit: clean },
            None => TokenMeta { persist: false, clean_exit: clean },
        }
    }

    /// The record whose stored form `text` is, if it is one.
    pub fn from_stored_form(text: &[u8]) -> (r: Option<TokenMeta>)
        ensures
            r == canonical_meta(text@),
    {
        let ff = TokenMeta { persist: false, clean_exit: false };
        let ft = TokenMeta { persist: false, clean_exit: true };
        let tf = TokenMeta { persist: true, clean_exit: false };
        let tt = TokenMeta { persist: true, clean_exit: true };
        if bytes_equal(text, ff.encode().as_slice()) {
            Some(ff)
        } else if bytes_equal(text, ft.encode().as_slice()) {
            Some(ft)
        } else if bytes_equal(text, tf.encode().as_slice()) {
            Some(tf)
        } else if bytes_equal(text, tt.encode().as_slice()) {
            Some(tt)
        } else {
            None
        }
    }

    /// The record held in stored bytes.
    pub fn decode(text: &[u8]) -> (r: TokenMeta)
        ensures
            r == decoded_meta(text@),
    {
        match TokenMeta::from_stored_form(text) {
            Some(m) => m,
            None => {
                let persist_name = "persist";
                let clean_name = "clean_exit";
                proof {
                    reveal_strlit("persist");
                    reveal_strlit("clean_exit");
                }
                let persist = json_bool_field(text, persist_name);
                let clean_exit = json_bool_field(text, clean_name);
                TokenMeta::from_fields(persist, clean_exit)
            },
        }
    }

    /// The metadata to store after setting the clean-exit flag on what was
    /// stored.
    pub fn with_clean_exit(stored: Option<Vec<u8>>, clean: bool) -> (r: Vec<u8>)
        ensures
            r@ == clean_exit_meta_bytes(
                match stored {
                    Some(b) => Some(b@),
                    None => None,
                },
                clean,
            ),
    {
        match stored {
            None => TokenMeta { persist: false, clean_exit: clean }.encode(),
            Some(b) => match TokenMeta::from_stored_form(b.as_slice()) {
                Some(m) => TokenMeta { persist: m.persist, clean_exit: clean }.encode(),
                None => {
                    let clean_name = "clean_exit";
                    proof {
                        reveal_strlit("clean_exit");
                    }
                    match json_with_bool_field(b.as_slice(), clean_name, clean) {
                        Some(r) => r,
                        None => TokenMeta { persist: false, clean_exit: clean }.encode(),
                    }
                },
            },
        }
    }

    /// The bytes of the stored form of this record.
    pub fn encode(&self) -> (r: Vec<u8>)
        ensures
            r@ == meta_bytes(*self),
    {
        let mut out: Vec<u8> = vec![
            123u8, 34u8, 99u8, 108u8, 101u8, 97u8, 110u8, 95u8, 101u8, 120u8, 105u8, 116u8, 34u8, 58u8,
        ];
        push_bool(&mut out, self.clean_exit);
        let mut mid: Vec<u8> = vec![44u8, 34u8, 112u8, 101u8, 114u8, 115u8, 105u8, 115u8, 116u8, 34u8, 58u8];
        out.append(&mut mid);
        push_bool(&mut out, self.persist);
        out.push(125u8);
        out
    }
}

} // verus!
