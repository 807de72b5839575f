//! Key material as plain bytes, and the two outside computations that the
//! import of a key rests on: base58 decoding and the keypair check.

use solana_sdk::signer::keypair::Keypair;
use solana_sdk::signer::Signer;
use vstd::prelude::*;

verus! {

/// Number of bytes of a keypair: the secret half, then the public half.
pub const KEY_LENGTH: usize = 64;

/// The address of an account: the public half of a keypair.
#[derive(Clone, Copy, Debug, PartialEq, Eq)]
pub struct Pubkey {
    pub bytes: [u8; 32],
}

impl View for Pubkey {
    type V = Seq<u8>;

    open spec fn view(&self) -> Seq<u8> {
        self.bytes@
    }
}

/// The characters of the base58 alphabet that keys are written in: digits
/// and letters without `0`, `O`, `I` and `l`.
pub open spec fn is_base58_char(c: char) -> bool {
    ||| '1' <= c <= '9'
    ||| 'A' <= c <= 'H'
    ||| 'J' <= c <= 'N'
    ||| 'P' <= c <= 'Z'
    ||| 'a' <= c <= 'k'
    ||| 'm' <= c <= 'z'
}

/// A text made of base58 characters only. The empty text is one.
pub open spec fn is_base58_text(text: Seq<char>) -> bool {
    forall|i: int| 0 <= i < text.len() ==> is_base58_char(#[trigger] text[i])
}

/// The bytes that `bs58` decodes a base58 text to, with its default alphabet.
pub uninterp spec fn bs58_decoded(text: Seq<char>) -> Seq<u8>;

/// Whether `solana_sdk`'s `Keypair::from_bytes` takes these bytes for a keypair.
pub uninterp spec fn keypair_accepted(bytes: Seq<u8>) -> bool;

/// Calls `bs58::decode(text).into_vec()`, as `solana_sdk` hands it on.
///
/// Believed of it: decoding succeeds exactly on texts made of characters of
/// the default alphabet; what it gives for such a text depends on the text
/// alone; and it gives no more bytes than the text has characters.
#[verifier::external_body]
pub(crate) fn bs58_decode(text: &str) -> (decoded: Option<Vec<u8>>)
    ensures
        decoded is Some <==> is_base58_text(text@),
        decoded matches Some(bytes) ==> bytes@ == bs58_decoded(text@),
        decoded matches Some(bytes) ==> bytes@.len() <= text@.len(),
{
    solana_sdk::bs58::decode(text).into_vec().ok()
}

/// Calls `Keypair::from_bytes(bytes)` of `solana_sdk` and, where it takes the
/// bytes, `pubkey()` on the keypair.
///
/// Believed of it: whether the bytes are taken depends on the bytes alone;
/// only 64 bytes are ever taken; and the public key of the keypair is the
/// second half of the bytes.
#[verifier::external_body]
pub(crate) fn keypair_pubkey(bytes: &Vec<u8>) -> (key: Option<[u8; 32]>)
    ensures
        key is Some <==> keypair_accepted(bytes@),
        key is Some ==> bytes@.len() == KEY_LENGTH,
        key matches Some(k) ==> k@ == bytes@.subrange(32, 64),
{
    match Keypair::from_bytes(bytes) {
        Ok(keypair) => Some(keypair.pubkey().to_bytes()),
        Err(_) => None,
    }
}

/// Whether two public keys hold the same bytes.
pub fn same_pubkey(a: &Pubkey, b: &Pubkey) -> (same: bool)
    ensures
        same <==> a@ == b@,
{
    let mut i: usize = 0;
    while i < 32
        invariant
            i <= 32,
            forall|j: int| 0 <= j < i ==> a.bytes@[j] == b.bytes@[j],
        decreases 32 - i,
    {
        if a.bytes[i] != b.bytes[i] {
            return false;
        }
        i += 1;
    }
    assert(a.bytes@ =~= b.bytes@);
    true
}

} // verus!
