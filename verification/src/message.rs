//! The data contract for client-server communication: the structures that
//! represent client messages on the wire, and the checks that keep them
//! well formed.
use vstd::prelude::*;

verus! {

/// Why a payload or a message was refused.
#[derive(Debug, PartialEq, Eq, Structural)]
pub enum MessageError {
    WrongSignatureSize(usize),
    WrongPublicKeySize(usize),
    EmptyPayload,
}

/// The character of a decimal digit.
pub open spec fn digit_char(d: nat) -> char {
    if d == 0 {
        '0'
    } else if d == 1 {
        '1'
    } else if d == 2 {
        '2'
    } else if d == 3 {
        '3'
    } else if d == 4 {
        '4'
    } else if d == 5 {
        '5'
    } else if d == 6 {
        '6'
    } else if d == 7 {
        '7'
    } else if d == 8 {
        '8'
    } else {
        '9'
    }
}

/// The decimal notation of a natural number, without leading zeros.
pub open spec fn decimal(n: nat) -> Seq<char>
    decreases n,
{
    if n < 10 {
        seq![digit_char(n)]
    } else {
        decimal(n / 10).push(digit_char(n % 10))
    }
}

fn digit_str(d: usize) -> (s: &'static str)
    requires
        d < 10,
    ensures
        s@ == seq![digit_char(d as nat)],
{
    proof {
        reveal_strlit("0");
        reveal_strlit("1");
        reveal_strlit("2");
        reveal_strlit("3");
        reveal_strlit("4");
        reveal_strlit("5");
        reveal_strlit("6");
        reveal_strlit("7");
        reveal_strlit("8");
        reveal_strlit("9");
    }
    if d == 0 {
        "0"
    } else if d == 1 {
        "1"
    } else if d == 2 {
        "2"
    } else if d == 3 {
        "3"
    } else if d == 4 {
        "4"
    } else if d == 5 {
        "5"
    } else if d == 6 {
        "6"
    } else if d == 7 {
        "7"
    } else if d == 8 {
        "8"
    } else {
        "9"
    }
}

/// The decimal notation of `n`, as `Display` writes it.
pub fn decimal_string(n: usize) -> (s: String)
    ensures
        s@ == decimal(n as nat),
    decreases n,
{
    if n < 10 {
        String::from_str(digit_str(n))
    } else {
        let mut s = decimal_string(n / 10);
        s.append(digit_str(n % 10));
        s
    }
}

/// The human-readable text of each error.
pub open spec fn message_error_text(e: MessageError) -> Seq<char> {
    match e {
        MessageError::WrongSignatureSize(n) => "Signature is wrong size: "@ + decimal(n as nat)
            + ". Must be 64 bytes"@,
        MessageError::WrongPublicKeySize(n) => "Public key is wrong size: "@ + decimal(n as nat)
            + ". Must be 32 bytes"@,
        MessageError::EmptyPayload => "Payload is empty. It must contain cipher text AND nonce"@,
    }
}

impl MessageError {
    /// The human-readable text of this error.
    pub fn description(&self) -> (s: String)
        ensures
            s@ == message_error_text(*self),
    {
        match self {
            MessageError::WrongSignatureSize(n) => {
                let mut s = String::from_str("Signature is wrong size: ");
                s.append(decimal_string(*n).as_str());
                s.append(". Must be 64 bytes");
                s
            },
            MessageError::WrongPublicKeySize(n) => {
                let mut s = String::from_str("Public key is wrong size: ");
                s.append(decimal_string(*n).as_str());
                s.append(". Must be 32 bytes");
                s
            },
            MessageError::EmptyPayload => String::from_str(
                "Payload is empty. It must contain cipher text AND nonce",
            ),
        }
    }
}

/// The length of an X25519 or Ed25519 public key.
pub const PUBLIC_KEY_LEN: usize = 32;

/// The length of an Ed25519 signature.
pub const SIGNATURE_LEN: usize = 64;

/// An encrypted payload: the AES-GCM nonce and the cipher text it sealed.
#[derive(Clone, Debug, Default, PartialEq)]
pub struct PayLoad {
    pub nonce: [u8; 12],
    pub cipher_text: Vec<u8>,
}

/// The bytes of a payload as it is signed: the nonce, then the cipher text.
pub open spec fn payload_bytes(nonce: Seq<u8>, cipher_text: Seq<u8>) -> Seq<u8> {
    nonce + cipher_text
}

/// Appends the bytes of `src` to `dst`.
pub(crate) fn append_bytes(dst: &mut Vec<u8>, src: &[u8])
    ensures
        final(dst)@ == old(dst)@ + src@,
{
    let n: usize = src.len();
    let mut i: usize = 0;
    while i < n
        invariant
            n == src@.len(),
            i <= n,
            dst@ == old(dst)@ + src@.subrange(0, i as int),
        decreases n - i,
    {
        dst.push(src[i]);
        i = i + 1;
        assert(src@.subrange(0, i as int) == src@.subrange(0, i - 1) + seq![src@[i - 1]]);
    }
    assert(src@.subrange(0, n as int) == src@);
}

impl PayLoad {
    /// Builds a payload; the cipher text must not be empty.
    pub fn new(cipher_text: Vec<u8>, nonce: [u8; 12]) -> (r: Result<Self, MessageError>)
        ensures
            cipher_text@.len() == 0 ==> r == Err::<Self, MessageError>(MessageError::EmptyPayload),
            cipher_text@.len() > 0 ==> (r matches Ok(p) && p.nonce == nonce && p.cipher_text@
                == cipher_text@),
    {
        if cipher_text.is_empty() {
            return Err(MessageError::EmptyPayload);
        }
        Ok(Self { cipher_text, nonce })
    }

    /// The bytes that a signature covers: the nonce followed by the cipher
    /// text.
    pub fn to_bytes(&self) -> (r: Vec<u8>)
        ensures
            r@ == payload_bytes(self.nonce@, self.cipher_text@),
    {
        let mut res: Vec<u8> = Vec::new();
        append_bytes(&mut res, self.nonce.as_slice());
        append_bytes(&mut res, self.cipher_text.as_slice());
        res
    }
}

/// The nonce has a fixed length, so the bytes of a payload determine it.
pub proof fn lemma_payload_bytes_injective(
    nonce1: Seq<u8>,
    cipher_text1: Seq<u8>,
    nonce2: Seq<u8>,
    cipher_text2: Seq<u8>,
)
    requires
        nonce1.len() == 12,
        nonce2.len() == 12,
        payload_bytes(nonce1, cipher_text1) == payload_bytes(nonce2, cipher_text2),
    ensures
        nonce1 == nonce2,
        cipher_text1 == cipher_text2,
{
    let b1 = payload_bytes(nonce1, cipher_text1);
    let b2 = payload_bytes(nonce2, cipher_text2);
    assert(nonce1 == b1.subrange(0, 12));
    assert(nonce2 == b2.subrange(0, 12));
    assert(cipher_text1 == b1.subrange(12, b1.len() as int));
    assert(cipher_text2 == b2.subrange(12, b2.len() as int));
}

/// What a message holds: the sender's public key, the payload and the
/// sender's signature.
pub struct MessageView {
    pub pub_key: Seq<u8>,
    pub payload: PayLoad,
    pub signature: Seq<u8>,
}

/// A single message block: the sender's public key (32 bytes), the payload
/// (a 12-byte nonce and a cipher text that is not empty) and the sender's
/// signature (64 bytes).
#[derive(Debug)]
pub struct Message {
    pub_key: Vec<u8>,
    payload: PayLoad,
    signature: Vec<u8>,
}

impl Message {
    /// A message always carries a 32-byte key, a non-empty cipher text and a
    /// 64-byte signature.
    #[verifier::type_invariant]
    spec fn sizes_hold(self) -> bool {
        &&& self.pub_key@.len() == PUBLIC_KEY_LEN
        &&& self.payload.cipher_text@.len() > 0
        &&& self.signature@.len() == SIGNATURE_LEN
    }

    pub closed spec fn view(&self) -> MessageView {
        MessageView { pub_key: self.pub_key@, payload: self.payload, signature: self.signature@ }
    }

    /// Builds a message. The public key is checked first: it must be 32
    /// bytes, then the signature must be 64 bytes, then the payload's cipher
    /// text must not be empty.
    pub fn new(pub_key: Vec<u8>, payload: PayLoad, signature: Vec<u8>) -> (r: Result<
        Self,
        MessageError,
    >)
        ensures
            pub_key@.len() != PUBLIC_KEY_LEN ==> r == Err::<Self, MessageError>(
                MessageError::WrongPublicKeySize(pub_key@.len() as usize),
            ),
            pub_key@.len() == PUBLIC_KEY_LEN && signature@.len() != SIGNATURE_LEN ==> r == Err::<
                Self,
                MessageError,
            >(MessageError::WrongSignatureSize(signature@.len() as usize)),
            pub_key@.len() == PUBLIC_KEY_LEN && signature@.len() == SIGNATURE_LEN
                && payload.cipher_text@.len() == 0 ==> r == Err::<Self, MessageError>(
                MessageError::EmptyPayload,
            ),
            pub_key@.len() == PUBLIC_KEY_LEN && signature@.len() == SIGNATURE_LEN
                && payload.cipher_text@.len() > 0 ==> (r matches Ok(
                m,
            ) && m.view() == (MessageView {
                pub_key: pub_key@,
                payload: payload,
                signature: signature@,
            })),
    {
        if pub_key.len() != PUBLIC_KEY_LEN {
            return Err(MessageError::WrongPublicKeySize(pub_key.len()));
        }
        if signature.len() != SIGNATURE_LEN {
            return Err(MessageError::WrongSignatureSize(signature.len()));
        }
        if payload.cipher_text.is_empty() {
            return Err(MessageError::EmptyPayload);
        }
        Ok(Self { pub_key, payload, signature })
    }

    /// The sender's public key.
    pub fn pub_key(&self) -> (r: &[u8])
        ensures
            r@ == self.view().pub_key,
            r@.len() == PUBLIC_KEY_LEN,
    {
        proof {
            use_type_invariant(self);
        }
        self.pub_key.as_slice()
    }

    /// The encrypted payload.
    pub fn payload(&self) -> (r: &PayLoad)
        ensures
            *r == self.view().payload,
            r.cipher_text@.len() > 0,
    {
        proof {
            use_type_invariant(self);
        }
        &self.payload
    }

    /// The sender's signature.
    pub fn signature(&self) -> (r: &[u8])
        ensures
            r@ == self.view().signature,
            r@.len() == SIGNATURE_LEN,
    {
        proof {
            use_type_invariant(self);
        }
        self.signature.as_slice()
    }
}

} // verus!
