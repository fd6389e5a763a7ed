use vstd::prelude::*;

use crate::text::{str_eq, views};

verus! {

/// Secrets revealed while decrypting one request, kept so that output can be
/// redacted. Strings are only ever added.
pub struct SensitiveStrings {
    strings: Vec<String>,
}

impl View for SensitiveStrings {
    type V = Set<Seq<char>>;

    closed spec fn view(&self) -> Set<Seq<char>> {
        views(self.strings@).to_set()
    }
}

impl SensitiveStrings {
    /// No string is kept twice.
    pub closed spec fn wf(&self) -> bool {
        views(self.strings@).no_duplicates()
    }

    /// An empty set.
    pub fn new() -> (r: SensitiveStrings)
        ensures
            r.wf(),
            r@ == Set::<Seq<char>>::empty(),
    {
        let r = SensitiveStrings { strings: Vec::new() };
        assert(r@ =~= Set::<Seq<char>>::empty());
        assert(views(r.strings@) =~= Seq::<Seq<char>>::empty());
        r
    }

    /// Whether `s` was recorded.
    pub fn contains(&self, s: &str) -> (r: bool)
        ensures
            r == self@.contains(s@),
    {
        let mut i: usize = 0;
        while i < self.strings.len()
            invariant
                i <= self.strings@.len(),
                forall|j: int| 0 <= j < i ==> #[trigger] self.strings@[j]@ != s@,
            decreases self.strings@.len() - i,
        {
            if str_eq(self.strings[i].as_str(), s) {
                assert(views(self.strings@)[i as int] == s@);
                return true;
            }
            i = i + 1;
        }
        assert(!views(self.strings@).contains(s@)) by {
            if views(self.strings@).contains(s@) {
                let j = choose|j: int| 0 <= j < views(self.strings@).len() && views(self.strings@)[j] == s@;
                assert(self.strings@[j]@ == s@);
            }
        }
        false
    }

    /// Records `s`.
    pub fn insert(&mut self, s: String)
        requires
            old(self).wf(),
        ensures
            final(self).wf(),
            final(self)@ == old(self)@.insert(s@),
    {
        if self.contains(s.as_str()) {
            assert(old(self)@.insert(s@) =~= old(self)@);
            return;
        }
        let ghost before = self.strings@;
        let ghost sv = s@;
        self.strings.push(s);
        assert(views(self.strings@) =~= views(before).push(sv));
        assert forall|x: Seq<char>| #[trigger] views(before).push(sv).contains(x) <==> views(
            before,
        ).contains(x) || x == sv by {
            if views(before).contains(x) {
                let j = choose|j: int| 0 <= j < views(before).len() && views(before)[j] == x;
                assert(views(before).push(sv)[j] == x);
            }
            if x == sv {
                assert(views(before).push(sv)[views(before).len() as int] == x);
            }
            if views(before).push(sv).contains(x) {
                let j = choose|j: int| 0 <= j < views(before).push(sv).len() && views(before).push(sv)[j] == x;
                if j < views(before).len() {
                    assert(views(before)[j] == x);
                }
            }
        }
        assert(self@ =~= old(self)@.insert(sv));
        assert(!views(before).contains(sv));
        assert forall|a: int, b: int|
            0 <= a < views(self.strings@).len() && 0 <= b < views(self.strings@).len() && a != b
                implies views(self.strings@)[a] != views(self.strings@)[b] by {
            if a == before.len() {
                assert(views(before)[b] == views(self.strings@)[b]);
            } else if b == before.len() {
                assert(views(before)[a] == views(self.strings@)[a]);
            }
        }
    }

    /// The recorded strings, each once.
    pub fn to_vec(&self) -> (r: Vec<String>)
        requires
            self.wf(),
        ensures
            views(r@).to_set() == self@,
            views(r@).no_duplicates(),
    {
        let r = self.strings.clone();
        assert(views(r@) =~= views(self.strings@));
        r
    }

    /// Whether nothing was recorded.
    pub fn is_empty(&self) -> (r: bool)
        ensures
            r == (self@ == Set::<Seq<char>>::empty()),
    {
        if self.strings.len() == 0 {
            assert(self@ =~= Set::<Seq<char>>::empty());
            true
        } else {
            assert(self@.contains(self.strings@[0]@)) by {
                assert(views(self.strings@)[0] == self.strings@[0]@);
            }
            false
        }
    }
}

/// One field of a request: in the clear, or ciphertext under the service's key.
#[derive(Clone, Debug, PartialEq, Eq)]
pub enum RequestField {
    Plain(String),
    Encrypted(String),
}

/// Why decryption failed.
#[derive(Clone, Copy, Debug, PartialEq, Eq, Structural)]
pub enum DecryptError {
    /// The encrypted field at this position could not be decrypted.
    Undecryptable(usize),
}

/// Whether every encrypted field has a plaintext.
pub open spec fn all_decrypted(fields: Seq<RequestField>, plaintexts: Seq<Option<String>>) -> bool {
    forall|i: int| 0 <= i < fields.len() && #[trigger] fields[i] is Encrypted ==> plaintexts[i] is Some
}

/// The text of field `i` once decrypted.
pub open spec fn field_text(f: RequestField, p: Option<String>) -> Seq<char> {
    match f {
        RequestField::Plain(s) => s@,
        RequestField::Encrypted(_) => p->0@,
    }
}

/// The plaintexts revealed by decrypting the encrypted fields.
pub open spec fn revealed(fields: Seq<RequestField>, plaintexts: Seq<Option<String>>) -> Set<
    Seq<char>,
> {
    Set::new(
        |s: Seq<char>|
            exists|i: int|
                0 <= i < fields.len() && #[trigger] fields[i] is Encrypted && plaintexts[i] is Some
                    && plaintexts[i]->0@ == s,
    )
}

/// Replaces each encrypted field by its plaintext, where `plaintexts[i]` is
/// what decrypting field `i` gave (`None` if it could not be decrypted), and
/// records every revealed plaintext as sensitive. Nothing is recorded when a
/// field fails, and the first such field is named.
pub fn apply_decryption(
    fields: &Vec<RequestField>,
    plaintexts: &Vec<Option<String>>,
    sensitive: &mut SensitiveStrings,
) -> (r: Result<Vec<String>, DecryptError>)
    requires
        old(sensitive).wf(),
        fields@.len() == plaintexts@.len(),
    ensures
        final(sensitive).wf(),
        r is Ok <==> all_decrypted(fields@, plaintexts@),
        r matches Err(DecryptError::Undecryptable(i)) ==> i < fields@.len()
            && fields@[i as int] is Encrypted && plaintexts@[i as int] is None
            && all_decrypted(fields@.take(i as int), plaintexts@.take(i as int)),
        r is Err ==> final(sensitive)@ == old(sensitive)@,
        r matches Ok(out) ==> out@.len() == fields@.len() && (forall|i: int|
            0 <= i < fields@.len() ==> #[trigger] out@[i]@ == field_text(fields@[i], plaintexts@[i]))
            && final(sensitive)@ == old(sensitive)@.union(revealed(fields@, plaintexts@)),
{
    let n = fields.len();
    let mut i: usize = 0;
    while i < n
        invariant
            n == fields@.len(),
            n == plaintexts@.len(),
            i <= n,
            all_decrypted(fields@.take(i as int), plaintexts@.take(i as int)),
            sensitive@ == old(sensitive)@,
            sensitive.wf(),
        decreases n - i,
    {
        match &fields[i] {
            RequestField::Encrypted(_) => {
                if plaintexts[i].is_none() {
                    return Err(DecryptError::Undecryptable(i));
                }
            },
            RequestField::Plain(_) => {},
        }
        assert forall|j: int|
            0 <= j < i + 1 && #[trigger] fields@.take(i + 1)[j] is Encrypted implies plaintexts@.take(
            i + 1,
        )[j] is Some by {
            if j < i {
                assert(fields@.take(i as int)[j] == fields@[j]);
            }
        }
        i = i + 1;
    }
    assert(fields@.take(n as int) =~= fields@);
    assert(plaintexts@.take(n as int) =~= plaintexts@);
    let mut out: Vec<String> = Vec::new();
    let mut k: usize = 0;
    while k < n
        invariant
            n == fields@.len(),
            n == plaintexts@.len(),
            k <= n,
            all_decrypted(fields@, plaintexts@),
            out@.len() == k,
            sensitive.wf(),
            forall|j: int| 0 <= j < k ==> #[trigger] out@[j]@ == field_text(fields@[j], plaintexts@[j]),
            sensitive@ == old(sensitive)@.union(revealed(fields@.take(k as int), plaintexts@.take(k as int))),
        decreases n - k,
    {
        let ghost before = sensitive@;
        match &fields[k] {
            RequestField::Plain(s) => {
                out.push(s.clone());
                assert(revealed(fields@.take(k + 1), plaintexts@.take(k + 1)) =~= revealed(
                    fields@.take(k as int),
                    plaintexts@.take(k as int),
                )) by {
                    assert forall|s: Seq<char>| #[trigger] revealed(fields@.take(k + 1), plaintexts@.take(k + 1)).contains(s)
                        implies revealed(fields@.take(k as int), plaintexts@.take(k as int)).contains(s) by {
                        let j = choose|j: int| 0 <= j < k + 1 && #[trigger] fields@.take(k + 1)[j] is Encrypted
                            && plaintexts@.take(k + 1)[j] is Some && plaintexts@.take(k + 1)[j]->0@ == s;
                        assert(j != k);
                        assert(fields@.take(k as int)[j] == fields@[j]);
                    }
                    assert forall|s: Seq<char>| #[trigger] revealed(fields@.take(k as int), plaintexts@.take(k as int)).contains(s)
                        implies revealed(fields@.take(k + 1), plaintexts@.take(k + 1)).contains(s) by {
                        let j = choose|j: int| 0 <= j < k && #[trigger] fields@.take(k as int)[j] is Encrypted
                            && plaintexts@.take(k as int)[j] is Some && plaintexts@.take(k as int)[j]->0@ == s;
                        assert(fields@.take(k + 1)[j] == fields@[j]);
                    }
                }
            },
            RequestField::Encrypted(_) => {
                assert(fields@[k as int] is Encrypted);
                let p = match &plaintexts[k] {
                    Some(p) => p.clone(),
                    None => {
                        assert(false);
                        String::new()
                    },
                };
                let ghost pv = p@;
                sensitive.insert(p.clone());
                out.push(p);
                assert(revealed(fields@.take(k + 1), plaintexts@.take(k + 1)) =~= revealed(
                    fields@.take(k as int),
                    plaintexts@.take(k as int),
                ).insert(pv)) by {
                    assert forall|s: Seq<char>| #[trigger] revealed(fields@.take(k + 1), plaintexts@.take(k + 1)).contains(s)
                        implies revealed(fields@.take(k as int), plaintexts@.take(k as int)).insert(pv).contains(s) by {
                        let j = choose|j: int| 0 <= j < k + 1 && #[trigger] fields@.take(k + 1)[j] is Encrypted
                            && plaintexts@.take(k + 1)[j] is Some && plaintexts@.take(k + 1)[j]->0@ == s;
                        if j < k {
                            assert(fields@.take(k as int)[j] == fields@[j]);
                        }
                    }
                    assert forall|s: Seq<char>| #[trigger] revealed(fields@.take(k as int), plaintexts@.take(k as int)).insert(pv).contains(s)
                        implies revealed(fields@.take(k + 1), plaintexts@.take(k + 1)).contains(s) by {
                        if s == pv {
                            assert(fields@.take(k + 1)[k as int] is Encrypted);
                        } else {
                            let j = choose|j: int| 0 <= j < k && #[trigger] fields@.take(k as int)[j] is Encrypted
                                && plaintexts@.take(k as int)[j] is Some && plaintexts@.take(k as int)[j]->0@ == s;
                            assert(fields@.take(k + 1)[j] == fields@[j]);
                        }
                    }
                }
            },
        }
        k = k + 1;
    }
    Ok(out)
}

/// What base64's standard alphabet decodes `s` to, if `s` is valid base64.
pub uninterp spec fn base64_decoded(s: Seq<char>) -> Option<Seq<u8>>;

/// What opening the sealed box `ciphertext` with the secret key `key` gives,
/// if it opens.
pub uninterp spec fn unsealed(key: Seq<u8>, ciphertext: Seq<u8>) -> Option<Seq<u8>>;

/// The text that `bytes` encode as UTF-8, if they are valid UTF-8.
pub uninterp spec fn utf8_text(bytes: Seq<u8>) -> Option<Seq<char>>;

/// Relies on base64's `Engine::decode` with the `STANDARD` engine: the bytes
/// that `s` encodes, or an error when `s` is not valid base64.
#[verifier::external_body]
fn decode_base64(s: &str) -> (r: Option<Vec<u8>>)
    ensures
        r is Some <==> base64_decoded(s@) is Some,
        r matches Some(v) ==> base64_decoded(s@) == Some(v@),
{
    base64::Engine::decode(&base64::engine::general_purpose::STANDARD, s).ok()
}

/// Relies on crypto_box's `SecretKey::unseal`, libsodium's sealed-box open:
/// the plaintext, or an error when the box does not open under the key.
/// `SecretKey::from_bytes` only turns the key bytes into a key.
#[verifier::external_body]
fn unseal(key: &[u8; 32], ciphertext: &Vec<u8>) -> (r: Option<Vec<u8>>)
    ensures
        r is Some <==> unsealed(key@, ciphertext@) is Some,
        r matches Some(v) ==> unsealed(key@, ciphertext@) == Some(v@),
{
    crypto_box::SecretKey::from_bytes(*key).unseal(ciphertext.as_slice()).ok()
}

/// Relies on std's `String::from_utf8`: the text, or an error when the bytes
/// are not valid UTF-8.
#[verifier::external_body]
fn utf8_string(bytes: Vec<u8>) -> (r: Option<String>)
    ensures
        r is Some <==> utf8_text(bytes@) is Some,
        r matches Some(t) ==> utf8_text(bytes@) == Some(t@),
{
    String::from_utf8(bytes).ok()
}

/// The plaintext of an encrypted field: base64 text of a box sealed to the
/// service's key, holding UTF-8 text.
pub open spec fn field_plaintext(key: Seq<u8>, ciphertext: Seq<char>) -> Option<Seq<char>> {
    match base64_decoded(ciphertext) {
        Some(sealed) => match unsealed(key, sealed) {
            Some(bytes) => utf8_text(bytes),
            None => None,
        },
        None => None,
    }
}

/// Opens one encrypted field with the service's secret key.
pub fn open_field(key: &[u8; 32], ciphertext: &str) -> (r: Option<String>)
    ensures
        r is Some <==> field_plaintext(key@, ciphertext@) is Some,
        r matches Some(p) ==> field_plaintext(key@, ciphertext@) == Some(p@),
{
    let sealed = match decode_base64(ciphertext) {
        Some(b) => b,
        None => return None,
    };
    let bytes = match unseal(key, &sealed) {
        Some(b) => b,
        None => return None,
    };
    utf8_string(bytes)
}

/// The ciphertext of a field, or nothing for a field in the clear.
pub open spec fn ciphertext_of(f: RequestField) -> Seq<char> {
    match f {
        RequestField::Encrypted(c) => c@,
        RequestField::Plain(_) => Seq::empty(),
    }
}

/// Whether `plaintexts` holds, for each encrypted field, what opening it
/// under `key` gives, and nothing for the fields in the clear.
pub open spec fn opened_with(key: Seq<u8>, fields: Seq<RequestField>, plaintexts: Seq<Option<String>>) -> bool {
    &&& plaintexts.len() == fields.len()
    &&& forall|i: int|
        0 <= i < fields.len() ==> (#[trigger] plaintexts[i] is Some <==> fields[i] is Encrypted
            && field_plaintext(key, ciphertext_of(fields[i])) is Some)
    &&& forall|i: int|
        0 <= i < fields.len() && #[trigger] plaintexts[i] is Some ==> field_plaintext(
            key,
            ciphertext_of(fields[i]),
        ) == Some(plaintexts[i]->0@)
}

/// The text of a field once opened under `key`.
pub open spec fn opened_text(key: Seq<u8>, f: RequestField) -> Seq<char> {
    match f {
        RequestField::Plain(s) => s@,
        RequestField::Encrypted(c) => field_plaintext(key, c@)->0,
    }
}

/// The plaintexts that opening the encrypted fields under `key` reveals.
pub open spec fn revealed_with(key: Seq<u8>, fields: Seq<RequestField>) -> Set<Seq<char>> {
    Set::new(
        |s: Seq<char>|
            exists|i: int|
                0 <= i < fields.len() && #[trigger] fields[i] is Encrypted && field_plaintext(
                    key,
                    ciphertext_of(fields[i]),
                ) == Some(s),
    )
}

/// Opens every encrypted field of a request with the service's secret key,
/// replaces each by its plaintext and records the revealed secrets. Nothing
/// is recorded when a field does not open, and the first such field is
/// named.
pub fn decrypt_request(key: &[u8; 32], fields: &Vec<RequestField>, sensitive: &mut SensitiveStrings) -> (r:
    Result<Vec<String>, DecryptError>)
    requires
        old(sensitive).wf(),
    ensures
        final(sensitive).wf(),
        r is Ok <==> forall|i: int|
            0 <= i < fields@.len() && #[trigger] fields@[i] is Encrypted ==> field_plaintext(
                key@,
                ciphertext_of(fields@[i]),
            ) is Some,
        r matches Err(DecryptError::Undecryptable(i)) ==> i < fields@.len()
            && fields@[i as int] is Encrypted && field_plaintext(key@, ciphertext_of(fields@[i as int]))
            is None,
        r is Err ==> final(sensitive)@ == old(sensitive)@,
        r matches Ok(out) ==> out@.len() == fields@.len() && (forall|i: int|
            0 <= i < fields@.len() ==> #[trigger] out@[i]@ == opened_text(key@, fields@[i]))
            && final(sensitive)@ == old(sensitive)@.union(revealed_with(key@, fields@)),
{
    let n = fields.len();
    let mut plaintexts: Vec<Option<String>> = Vec::new();
    let mut i: usize = 0;
    while i < n
        invariant
            n == fields@.len(),
            i <= n,
            opened_with(key@, fields@.take(i as int), plaintexts@),
        decreases n - i,
    {
        let p = match &fields[i] {
            RequestField::Encrypted(c) => open_field(key, c.as_str()),
            RequestField::Plain(_) => None,
        };
        let ghost before = plaintexts@;
        plaintexts.push(p);
        assert forall|j: int| 0 <= j < i + 1 implies fields@.take(i + 1)[j] == fields@[j] by {}
        assert forall|j: int| 0 <= j < i implies fields@.take(i as int)[j] == fields@[j] by {}
        assert forall|j: int| 0 <= j < i implies plaintexts@[j] == before[j] by {}
        assert(opened_with(key@, fields@.take(i + 1), plaintexts@)) by {
            assert forall|j: int| 0 <= j < i + 1 implies (#[trigger] plaintexts@[j] is Some <==> fields@.take(i + 1)[j] is Encrypted
                && field_plaintext(key@, ciphertext_of(fields@.take(i + 1)[j])) is Some) by {
                if j < i {
                    assert(before[j] == plaintexts@[j]);
                }
            }
            assert forall|j: int| 0 <= j < i + 1 && #[trigger] plaintexts@[j] is Some implies field_plaintext(
                key@,
                ciphertext_of(fields@.take(i + 1)[j]),
            ) == Some(plaintexts@[j]->0@) by {
                if j < i {
                    assert(before[j] == plaintexts@[j]);
                }
            }
        }
        i = i + 1;
    }
    assert(fields@.take(n as int) =~= fields@);
    let ghost f = fields@;
    let ghost p = plaintexts@;
    let r = apply_decryption(fields, &plaintexts, sensitive);
    proof {
        assert(all_decrypted(f, p) <==> forall|i: int|
            0 <= i < f.len() && #[trigger] f[i] is Encrypted ==> field_plaintext(
                key@,
                ciphertext_of(f[i]),
            ) is Some) by {
            if all_decrypted(f, p) {
                assert forall|i: int| 0 <= i < f.len() && #[trigger] f[i] is Encrypted implies field_plaintext(
                    key@,
                    ciphertext_of(f[i]),
                ) is Some by {
                    assert(p[i] is Some);
                }
            }
        }
        if r is Ok {
            assert forall|i: int| 0 <= i < f.len() implies field_text(f[i], p[i]) == opened_text(key@, f[i]) by {
                if f[i] is Encrypted {
                    assert(p[i] is Some);
                }
            }
            assert(revealed(f, p) =~= revealed_with(key@, f)) by {
                assert forall|s: Seq<char>| #[trigger] revealed(f, p).contains(s) implies revealed_with(key@, f).contains(s) by {
                    let i = choose|i: int| 0 <= i < f.len() && #[trigger] f[i] is Encrypted && p[i] is Some && p[i]->0@ == s;
                    assert(f[i] is Encrypted);
                }
                assert forall|s: Seq<char>| #[trigger] revealed_with(key@, f).contains(s) implies revealed(f, p).contains(s) by {
                    let i = choose|i: int| 0 <= i < f.len() && #[trigger] f[i] is Encrypted && field_plaintext(
                        key@,
                        ciphertext_of(f[i]),
                    ) == Some(s);
                    assert(p[i] is Some);
                    assert(f[i] is Encrypted);
                }
            }
        }
    }
    r
}

} // verus!
