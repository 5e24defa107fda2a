use vstd::prelude::*;

verus! {

/// What `data_encoding::BASE32_NOPAD.encode` returns for the given bytes:
/// unpadded base32 over the RFC 4648 alphabet, a function of the bytes
/// alone.
pub uninterp spec fn base32_nopad_of(b: Seq<u8>) -> Seq<char>;

/// Relies on `data_encoding::BASE32_NOPAD.encode`: encodes the bytes as
/// unpadded base32, one character for every five bits of input, so the
/// encoded length is the rounded-up quotient.
#[verifier::external_body]
fn base32_nopad(b: &Vec<u8>) -> (r: String)
    ensures
        r@ == base32_nopad_of(b@),
        r@.len() == (b@.len() * 8 + 4) / 5,
{
    data_encoding::BASE32_NOPAD.encode(b.as_slice())
}

/// Relies on `rand::random`: 32 bytes drawn from the thread-local
/// generator.  Nothing is promised of the values themselves.
#[verifier::external_body]
fn random_bytes32() -> (r: Vec<u8>)
    ensures
        r@.len() == 32,
{
    let b: [u8; 32] = rand::random();
    b.to_vec()
}

/// Relies on `users::get_current_username`: the name of the user running
/// this process, if the system knows one.  The outcome depends on the
/// environment, so nothing is promised of it.
#[verifier::external_body]
pub fn current_username() -> Option<String> {
    users::get_current_username().map(|n| n.to_string_lossy().to_string())
}

/// Encodes secret bytes the way the persisted record holds them.
pub fn encode_secret(bytes: &Vec<u8>) -> (s: String)
    ensures
        s@ == base32_nopad_of(bytes@),
        s@.len() == (bytes@.len() * 8 + 4) / 5,
{
    base32_nopad(bytes)
}

/// Draws a fresh 256-bit secret and encodes it for the record.
pub fn fresh_secret() -> (s: String)
    ensures
        s@.len() == 52,
{
    let bytes = random_bytes32();
    encode_secret(&bytes)
}

/// The lowercase letter a byte picks from the alphabet.
pub open spec fn letter_of(x: u8) -> char {
    "abcdefghijklmnopqrstuvwxyz"@[x as int % 26]
}

/// Maps each byte to a lowercase letter.
pub fn name_from_bytes(bytes: &Vec<u8>) -> (s: String)
    ensures
        s@.len() == bytes@.len(),
        forall|i: int| 0 <= i < s@.len() ==> s@[i] == letter_of(bytes@[i]),
{
    let alphabet = "abcdefghijklmnopqrstuvwxyz";
    proof {
        reveal_strlit("abcdefghijklmnopqrstuvwxyz");
    }
    let mut out = String::new();
    let n = bytes.len();
    let mut i: usize = 0;
    while i < n
        invariant
            i <= n,
            n == bytes@.len(),
            out@.len() == i,
            alphabet@ == "abcdefghijklmnopqrstuvwxyz"@,
            forall|k: int| 0 <= k < i ==> out@[k] == letter_of(bytes@[k]),
        decreases n - i,
    {
        let k = (bytes[i] % 26) as usize;
        proof {
            reveal_strlit("abcdefghijklmnopqrstuvwxyz");
            assert(k + 1 <= alphabet@.len());
        }
        let letter = alphabet.substring_char(k, k + 1);
        proof {
            assert(letter@ =~= seq![alphabet@[k as int]]);
        }
        out.append(letter);
        i = i + 1;
    }
    out
}

/// A random name of `n` lowercase letters.
pub fn random_name(n: usize) -> (s: String)
    ensures
        s@.len() == n as int,
{
    let mut prefix: Vec<u8> = Vec::new();
    let mut pool = random_bytes32();
    let mut i: usize = 0;
    while prefix.len() < n
        invariant
            i <= 32,
            pool@.len() == 32,
            prefix@.len() <= n,
        decreases n - prefix@.len(),
    {
        if i == 32 {
            pool = random_bytes32();
            i = 0;
        }
        prefix.push(pool[i]);
        i = i + 1;
    }
    name_from_bytes(&prefix)
}

} // verus!
