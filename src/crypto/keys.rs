//! Key pairs of the X25519 age scheme, as their textual encodings.
use vstd::prelude::*;

verus! {

/// Whether `age::x25519::Identity::from_str` accepts `s`.
pub uninterp spec fn identity_parses(s: Seq<char>) -> bool;

/// Whether `age::x25519::Recipient::from_str` accepts `s`.
pub uninterp spec fn recipient_parses(s: Seq<char>) -> bool;

/// The encoding of the public key of the identity encoded by `secret`, as
/// `Identity::to_public` followed by `Recipient::to_string` gives it.
pub uninterp spec fn public_of(secret: Seq<char>) -> Seq<char>;

/// Relies on `age::x25519::Identity::generate` (operating-system randomness),
/// `Identity::to_public` and the two encodings: the secret encoding parses
/// back as an identity, and the public encoding is that identity's public key.
/// The public key is a clamped scalar times the base point, of prime order,
/// so it is never of small order.
/// The two parsers want different Bech32 prefixes (`age-secret-key-` and
/// `age`), so neither string parses as the other kind.
#[verifier::external_body]
fn fresh_keypair() -> (r: (String, String))
    ensures
        identity_parses(r.0@),
        recipient_parses(r.1@),
        r.1@ == public_of(r.0@),
        !weak_recipient(r.1@),
        !recipient_parses(r.0@),
        !identity_parses(r.1@),
{
    let secret = age::x25519::Identity::generate();
    let public = secret.to_public();
    let encoded = secret.to_string();
    (age::secrecy::ExposeSecret::expose_secret(&encoded).clone(), public.to_string())
}

/// Relies on `<age::x25519::Identity as FromStr>::from_str`.
#[verifier::external_body]
pub(crate) fn is_identity(s: &str) -> (r: bool)
    ensures
        r == identity_parses(s@),
{
    s.parse::<age::x25519::Identity>().is_ok()
}

/// Relies on `<age::x25519::Recipient as FromStr>::from_str`.
#[verifier::external_body]
pub(crate) fn is_recipient(s: &str) -> (r: bool)
    ensures
        r == recipient_parses(s@),
{
    s.parse::<age::x25519::Recipient>().is_ok()
}

/// A fresh key pair `(secret, public)`, independent of every earlier one.
/// The secret parses as an identity and `public` is its public key; a secret
/// is never accepted as a public key nor the reverse, so the two differ.
pub fn generate() -> (r: (String, String))
    ensures
        identity_parses(r.0@),
        recipient_parses(r.1@),
        r.1@ == public_of(r.0@),
        !weak_recipient(r.1@),
        !recipient_parses(r.0@),
        !identity_parses(r.1@),
        r.0@ != r.1@,
{
    fresh_keypair()
}

/// What `bech32::decode` followed by `FromBase32::from_base32` gives for
/// `s`: the payload bytes, or `None` when either step fails.
pub uninterp spec fn bech32_payload(s: Seq<char>) -> Option<Seq<u8>>;

/// Relies on `bech32::decode` and `<Vec<u8> as FromBase32>::from_base32`,
/// the decoding that age's key parsers apply before checking the prefix.
#[verifier::external_body]
fn decode_payload(s: &str) -> (r: Option<Vec<u8>>)
    ensures
        match r {
            Some(b) => bech32_payload(s@) == Some(b@),
            None => bech32_payload(s@) is None,
        },
{
    let (_, data, _) = bech32::decode(s).ok()?;
    <Vec<u8> as bech32::FromBase32>::from_base32(&data).ok()
}

/// The little-endian X25519 u-coordinates whose points have order dividing
/// 8 on Curve25519 or its twist, with the non-canonical encodings of 0 and 1:
/// 0, 1, the two points of order 8, p - 1, p and p + 1 (p = 2^255 - 19).
/// A clamped scalar times any of them is the all-zero shared secret.
pub open spec fn small_order_encodings() -> Seq<Seq<u8>> {
    seq![
        seq![
        0x00u8, 0x00, 0x00, 0x00, 0x00, 0x00, 0x00, 0x00, 0x00, 0x00, 0x00, 0x00, 0x00, 0x00, 0x00, 0x00,
        0x00, 0x00, 0x00, 0x00, 0x00, 0x00, 0x00, 0x00, 0x00, 0x00, 0x00, 0x00, 0x00, 0x00, 0x00, 0x00
        ],
        seq![
        0x01u8, 0x00, 0x00, 0x00, 0x00, 0x00, 0x00, 0x00, 0x00, 0x00, 0x00, 0x00, 0x00, 0x00, 0x00, 0x00,
        0x00, 0x00, 0x00, 0x00, 0x00, 0x00, 0x00, 0x00, 0x00, 0x00, 0x00, 0x00, 0x00, 0x00, 0x00, 0x00
        ],
        seq![
        0xe0u8, 0xeb, 0x7a, 0x7c, 0x3b, 0x41, 0xb8, 0xae, 0x16, 0x56, 0xe3, 0xfa, 0xf1, 0x9f, 0xc4, 0x6a,
        0xda, 0x09, 0x8d, 0xeb, 0x9c, 0x32, 0xb1, 0xfd, 0x86, 0x62, 0x05, 0x16, 0x5f, 0x49, 0xb8, 0x00
        ],
        seq![
        0x5fu8, 0x9c, 0x95, 0xbc, 0xa3, 0x50, 0x8c, 0x24, 0xb1, 0xd0, 0xb1, 0x55, 0x9c, 0x83, 0xef, 0x5b,
        0x04, 0x44, 0x5c, 0xc4, 0x58, 0x1c, 0x8e, 0x86, 0xd8, 0x22, 0x4e, 0xdd, 0xd0, 0x9f, 0x11, 0x57
        ],
        seq![
        0xecu8, 0xff, 0xff, 0xff, 0xff, 0xff, 0xff, 0xff, 0xff, 0xff, 0xff, 0xff, 0xff, 0xff, 0xff, 0xff,
        0xff, 0xff, 0xff, 0xff, 0xff, 0xff, 0xff, 0xff, 0xff, 0xff, 0xff, 0xff, 0xff, 0xff, 0xff, 0x7f
        ],
        seq![
        0xedu8, 0xff, 0xff, 0xff, 0xff, 0xff, 0xff, 0xff, 0xff, 0xff, 0xff, 0xff, 0xff, 0xff, 0xff, 0xff,
        0xff, 0xff, 0xff, 0xff, 0xff, 0xff, 0xff, 0xff, 0xff, 0xff, 0xff, 0xff, 0xff, 0xff, 0xff, 0x7f
        ],
        seq![
        0xeeu8, 0xff, 0xff, 0xff, 0xff, 0xff, 0xff, 0xff, 0xff, 0xff, 0xff, 0xff, 0xff, 0xff, 0xff, 0xff,
        0xff, 0xff, 0xff, 0xff, 0xff, 0xff, 0xff, 0xff, 0xff, 0xff, 0xff, 0xff, 0xff, 0xff, 0xff, 0x7f
        ]
    ]
}

/// `key` equals the encoding `e`, the top bit of the last byte aside (X25519
/// ignores it).
pub open spec fn same_u(key: Seq<u8>, e: Seq<u8>) -> bool {
    &&& key.len() == 32
    &&& e.len() == 32
    &&& forall|j: int| 0 <= j < 31 ==> #[trigger] key[j] == e[j]
    &&& key[31] % 128 == e[31]
}

/// `key` is a 32-byte public key of small order.
pub open spec fn small_order_key(key: Seq<u8>) -> bool {
    exists|i: int| 0 <= i < small_order_encodings().len() && same_u(key, #[trigger] small_order_encodings()[i])
}

/// `s` is a public key that age accepts but cannot seal to: X25519 with it
/// gives the all-zero secret, on which age stops the process.
pub open spec fn weak_recipient(s: Seq<char>) -> bool {
    bech32_payload(s) matches Some(b) && small_order_key(b)
}

fn same_u_exec(key: &Vec<u8>, e: &Vec<u8>) -> (r: bool)
    requires
        key@.len() == 32,
        e@.len() == 32,
    ensures
        r == same_u(key@, e@),
{
    let mut j: usize = 0;
    while j < 31
        invariant
            j <= 31,
            key@.len() == 32,
            e@.len() == 32,
            forall|i: int| 0 <= i < j ==> #[trigger] key@[i] == e@[i],
        decreases 31 - j,
    {
        if key[j] != e[j] {
            return false;
        }
        j += 1;
    }
    key[31] % 128 == e[31]
}

/// Whether the 32-byte key `key` is of small order.
fn is_small_order(key: &Vec<u8>) -> (r: bool)
    requires
        key@.len() == 32,
    ensures
        r == small_order_key(key@),
{
    let e0: Vec<u8> = vec![
        0x00u8, 0x00, 0x00, 0x00, 0x00, 0x00, 0x00, 0x00, 0x00, 0x00, 0x00, 0x00, 0x00, 0x00, 0x00, 0x00,
        0x00, 0x00, 0x00, 0x00, 0x00, 0x00, 0x00, 0x00, 0x00, 0x00, 0x00, 0x00, 0x00, 0x00, 0x00, 0x00
    ];
    let e1: Vec<u8> = vec![
        0x01u8, 0x00, 0x00, 0x00, 0x00, 0x00, 0x00, 0x00, 0x00, 0x00, 0x00, 0x00, 0x00, 0x00, 0x00, 0x00,
        0x00, 0x00, 0x00, 0x00, 0x00, 0x00, 0x00, 0x00, 0x00, 0x00, 0x00, 0x00, 0x00, 0x00, 0x00, 0x00
    ];
    let e2: Vec<u8> = vec![
        0xe0u8, 0xeb, 0x7a, 0x7c, 0x3b, 0x41, 0xb8, 0xae, 0x16, 0x56, 0xe3, 0xfa, 0xf1, 0x9f, 0xc4, 0x6a,
        0xda, 0x09, 0x8d, 0xeb, 0x9c, 0x32, 0xb1, 0xfd, 0x86, 0x62, 0x05, 0x16, 0x5f, 0x49, 0xb8, 0x00
    ];
    let e3: Vec<u8> = vec![
        0x5fu8, 0x9c, 0x95, 0xbc, 0xa3, 0x50, 0x8c, 0x24, 0xb1, 0xd0, 0xb1, 0x55, 0x9c, 0x83, 0xef, 0x5b,
        0x04, 0x44, 0x5c, 0xc4, 0x58, 0x1c, 0x8e, 0x86, 0xd8, 0x22, 0x4e, 0xdd, 0xd0, 0x9f, 0x11, 0x57
    ];
    let e4: Vec<u8> = vec![
        0xecu8, 0xff, 0xff, 0xff, 0xff, 0xff, 0xff, 0xff, 0xff, 0xff, 0xff, 0xff, 0xff, 0xff, 0xff, 0xff,
        0xff, 0xff, 0xff, 0xff, 0xff, 0xff, 0xff, 0xff, 0xff, 0xff, 0xff, 0xff, 0xff, 0xff, 0xff, 0x7f
    ];
    let e5: Vec<u8> = vec![
        0xedu8, 0xff, 0xff, 0xff, 0xff, 0xff, 0xff, 0xff, 0xff, 0xff, 0xff, 0xff, 0xff, 0xff, 0xff, 0xff,
        0xff, 0xff, 0xff, 0xff, 0xff, 0xff, 0xff, 0xff, 0xff, 0xff, 0xff, 0xff, 0xff, 0xff, 0xff, 0x7f
    ];
    let e6: Vec<u8> = vec![
        0xeeu8, 0xff, 0xff, 0xff, 0xff, 0xff, 0xff, 0xff, 0xff, 0xff, 0xff, 0xff, 0xff, 0xff, 0xff, 0xff,
        0xff, 0xff, 0xff, 0xff, 0xff, 0xff, 0xff, 0xff, 0xff, 0xff, 0xff, 0xff, 0xff, 0xff, 0xff, 0x7f
    ];
    let table = vec![e0, e1, e2, e3, e4, e5, e6];
    let ghost enc = small_order_encodings();
    assert(table@.len() == enc.len());
    assert(table@[0]@ =~= enc[0]);
    assert(table@[1]@ =~= enc[1]);
    assert(table@[2]@ =~= enc[2]);
    assert(table@[3]@ =~= enc[3]);
    assert(table@[4]@ =~= enc[4]);
    assert(table@[5]@ =~= enc[5]);
    assert(table@[6]@ =~= enc[6]);
    assert(forall|k: int| 0 <= k < table@.len() ==> (#[trigger] table@[k])@ == enc[k]);
    let mut i: usize = 0;
    while i < table.len()
        invariant
            i <= table@.len(),
            table@.len() == enc.len(),
            key@.len() == 32,
            enc == small_order_encodings(),
            forall|k: int| 0 <= k < table@.len() ==> (#[trigger] table@[k])@ == enc[k],
            forall|k: int| 0 <= k < enc.len() ==> (#[trigger] enc[k]).len() == 32,
            forall|k: int| 0 <= k < i ==> !same_u(key@, #[trigger] enc[k]),
        decreases table@.len() - i,
    {
        if same_u_exec(key, &table[i]) {
            assert(same_u(key@, small_order_encodings()[i as int]));
            return true;
        }
        i += 1;
    }
    assert forall|k: int| 0 <= k < small_order_encodings().len() implies !same_u(key@, #[trigger] small_order_encodings()[k]) by {
        assert(!same_u(key@, enc[k]));
    }
    false
}

/// Whether the recipient string `s` decodes to a key of small order.
pub(crate) fn is_weak_recipient(s: &str) -> (r: bool)
    ensures
        r == weak_recipient(s@),
{
    match decode_payload(s) {
        Some(b) => b.len() == 32 && is_small_order(&b),
        None => false,
    }
}

} // verus!
