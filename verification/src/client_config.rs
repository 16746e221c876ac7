//! The desktop client's local configuration: its values, the secrets it is
//! created with, and the changes that the setup commands make to it.
use rand::RngCore;
use vstd::prelude::*;

verus! {

/// Local client configuration (persisted by the application as
/// `config.json` in its local data directory).
#[derive(Debug, Clone)]
pub struct ClientConfig {
    /// Bearer token handed to the sidecar as `TIYGATE_ADMIN_TOKEN`.
    pub admin_token: String,
    /// 64-character hex string handed to the sidecar as `TIYGATE_MASTER_KEY`.
    pub master_key: String,
    /// `false` until the user completes the setup wizard.
    pub first_run_completed: bool,
    /// Last port the sidecar was started on (informational).
    pub server_port: Option<u16>,
}

/// The lowercase hexadecimal digit for `n` (which is below 16).
pub open spec fn hex_digit(n: int) -> char {
    if n < 10 {
        (48 + n) as char
    } else {
        (87 + n) as char
    }
}

/// `bytes` written as lowercase hexadecimal, two digits per byte, high nibble first.
pub open spec fn hex_of(bytes: Seq<u8>) -> Seq<char>
    decreases bytes.len(),
{
    if bytes.len() == 0 {
        Seq::empty()
    } else {
        hex_of(bytes.drop_last()) + seq![
            hex_digit(bytes.last() as int / 16),
            hex_digit(bytes.last() as int % 16),
        ]
    }
}

/// A character of `0-9` or `a-f`.
pub open spec fn is_lower_hex_char(c: char) -> bool {
    ('0' <= c && c <= '9') || ('a' <= c && c <= 'f')
}

/// The hex text of a byte string has two characters per byte, each a lowercase hex digit.
pub proof fn lemma_hex_of_shape(bytes: Seq<u8>)
    ensures
        hex_of(bytes).len() == 2 * bytes.len(),
        forall|i: int| 0 <= i < hex_of(bytes).len() ==> is_lower_hex_char(#[trigger] hex_of(bytes)[i]),
    decreases bytes.len(),
{
    if bytes.len() > 0 {
        lemma_hex_of_shape(bytes.drop_last());
        let b = bytes.last() as int;
        assert(is_lower_hex_char(hex_digit(b / 16)));
        assert(is_lower_hex_char(hex_digit(b % 16)));
    }
}

/// Text that hex-encodes some byte string of length `n`.
pub open spec fn is_hex_of_len(s: Seq<char>, n: nat) -> bool {
    exists|b: Seq<u8>| b.len() == n && s == #[trigger] hex_of(b)
}

/// `hex::encode`: writes each byte as two lowercase hex digits, high nibble
/// first, as the crate's documentation and source state.
#[verifier::external_body]
fn hex_encode(bytes: &Vec<u8>) -> (s: String)
    ensures
        s@ == hex_of(bytes@),
{
    hex::encode(bytes)
}

/// `RngCore::fill_bytes` on `rand::thread_rng()`: overwrites every byte of
/// `buf` with random data and keeps its length. Which bytes come out is not
/// stated; `thread_rng` panics if the operating system's generator cannot
/// seed it.
#[verifier::external_body]
fn fill_random(buf: &mut Vec<u8>)
    ensures
        final(buf)@.len() == old(buf)@.len(),
{
    rand::thread_rng().fill_bytes(buf.as_mut_slice())
}

/// A cryptographically random hex string of `num_bytes` bytes
/// (`2 * num_bytes` lowercase hex digits).
pub fn generate_random_hex(num_bytes: usize) -> (s: String)
    ensures
        is_hex_of_len(s@, num_bytes as nat),
        s@.len() == 2 * num_bytes,
        forall|i: int| 0 <= i < s@.len() ==> is_lower_hex_char(#[trigger] s@[i]),
{
    let mut buf: Vec<u8> = vec![0u8; num_bytes];
    fill_random(&mut buf);
    let s = hex_encode(&buf);
    proof {
        lemma_hex_of_shape(buf@);
    }
    s
}

/// A URL-safe random token made from `num_bytes` random bytes, written in hex.
pub fn generate_random_token(num_bytes: usize) -> (s: String)
    ensures
        is_hex_of_len(s@, num_bytes as nat),
        s@.len() == 2 * num_bytes,
        forall|i: int| 0 <= i < s@.len() ==> is_lower_hex_char(#[trigger] s@[i]),
{
    let mut buf: Vec<u8> = vec![0u8; num_bytes];
    fill_random(&mut buf);
    let s = hex_encode(&buf);
    proof {
        lemma_hex_of_shape(buf@);
    }
    s
}

/// `c` with the first-run wizard marked as completed.
pub open spec fn setup_done(c: ClientConfig) -> ClientConfig {
    ClientConfig { first_run_completed: true, ..c }
}

/// `c` with `token` as its admin token.
pub open spec fn with_admin_token(c: ClientConfig, token: String) -> ClientConfig {
    ClientConfig { admin_token: token, ..c }
}

/// `c` with `key` as its master key.
pub open spec fn with_master_key(c: ClientConfig, key: String) -> ClientConfig {
    ClientConfig { master_key: key, ..c }
}

/// Each setter changes its own field to the given value and keeps the
/// others; marking setup as done twice is the same as once, and setters of
/// different fields commute.
pub proof fn lemma_setters(c: ClientConfig, token: String, key: String)
    ensures
        setup_done(c).first_run_completed,
        setup_done(c).admin_token == c.admin_token,
        setup_done(c).master_key == c.master_key,
        setup_done(c).server_port == c.server_port,
        setup_done(setup_done(c)) == setup_done(c),
        with_admin_token(c, token).admin_token == token,
        with_admin_token(c, token).master_key == c.master_key,
        with_admin_token(c, token).first_run_completed == c.first_run_completed,
        with_admin_token(c, token).server_port == c.server_port,
        with_master_key(c, key).master_key == key,
        with_master_key(c, key).admin_token == c.admin_token,
        with_master_key(c, key).first_run_completed == c.first_run_completed,
        with_master_key(c, key).server_port == c.server_port,
        setup_done(with_admin_token(c, token)) == with_admin_token(setup_done(c), token),
{
}

impl ClientConfig {
    /// A fresh configuration with random secrets: a token and a master
    /// key of 32 random bytes each, setup not completed, no port yet.
    pub fn generate() -> (c: Self)
        ensures
            is_hex_of_len(c.admin_token@, 32),
            is_hex_of_len(c.master_key@, 32),
            c.admin_token@.len() == 64,
            c.master_key@.len() == 64,
            !c.first_run_completed,
            c.server_port.is_none(),
    {
        ClientConfig {
            admin_token: generate_random_token(32),
            master_key: generate_random_hex(32),
            first_run_completed: false,
            server_port: None,
        }
    }

    /// Marks the first-run wizard as completed; nothing else changes.
    pub fn mark_first_run_done(&mut self)
        ensures
            *final(self) == setup_done(*old(self)),
    {
        self.first_run_completed = true;
    }

    /// Replaces the admin token and returns the new value; nothing else changes.
    pub fn update_admin_token(&mut self, token: String) -> (t: String)
        ensures
            *final(self) == with_admin_token(*old(self), token),
            t == token,
    {
        self.admin_token = token;
        self.admin_token.clone()
    }

    /// Replaces the master key; nothing else changes.
    pub fn set_master_key(&mut self, key: String)
        ensures
            *final(self) == with_master_key(*old(self), key),
    {
        self.master_key = key;
    }
}


/// Hex text is made byte by byte: byte `i` becomes characters `2i` (high
/// nibble) and `2i + 1` (low nibble), each taken from `0123456789abcdef`;
/// so the text of a concatenation is the concatenation of the texts.
pub proof fn lemma_hex_of_bytes(b: Seq<u8>, c: Seq<u8>)
    ensures
        hex_of(b).len() == 2 * b.len(),
        forall|i: int|
            0 <= i < b.len() ==> #[trigger] hex_of(b)[2 * i] == "0123456789abcdef"@[b[i] as int / 16]
                && hex_of(b)[2 * i + 1] == "0123456789abcdef"@[b[i] as int % 16],
        hex_of(b + c) == hex_of(b) + hex_of(c),
    decreases c.len(),
{
    lemma_hex_digits();
    lemma_hex_of_nibbles(b);
    if c.len() == 0 {
        assert(b + c =~= b);
        assert(hex_of(b) + hex_of(c) =~= hex_of(b));
    } else {
        lemma_hex_of_bytes(b, c.drop_last());
        assert((b + c).drop_last() =~= b + c.drop_last());
        assert((b + c).last() == c.last());
        assert(hex_of(b + c) =~= hex_of(b) + hex_of(c));
    }
}

/// The hex digit of each nibble is the nibble's place in `0123456789abcdef`.
proof fn lemma_hex_digits()
    ensures
        forall|n: int| 0 <= n < 16 ==> #[trigger] hex_digit(n) == "0123456789abcdef"@[n],
{
    reveal_strlit("0123456789abcdef");
    assert forall|n: int| 0 <= n < 16 implies #[trigger] hex_digit(n) == "0123456789abcdef"@[n] by {
        if n == 0 { assert(hex_digit(0) == '0'); }
        else if n == 1 { assert(hex_digit(1) == '1'); }
        else if n == 2 { assert(hex_digit(2) == '2'); }
        else if n == 3 { assert(hex_digit(3) == '3'); }
        else if n == 4 { assert(hex_digit(4) == '4'); }
        else if n == 5 { assert(hex_digit(5) == '5'); }
        else if n == 6 { assert(hex_digit(6) == '6'); }
        else if n == 7 { assert(hex_digit(7) == '7'); }
        else if n == 8 { assert(hex_digit(8) == '8'); }
        else if n == 9 { assert(hex_digit(9) == '9'); }
        else if n == 10 { assert(hex_digit(10) == 'a'); }
        else if n == 11 { assert(hex_digit(11) == 'b'); }
        else if n == 12 { assert(hex_digit(12) == 'c'); }
        else if n == 13 { assert(hex_digit(13) == 'd'); }
        else if n == 14 { assert(hex_digit(14) == 'e'); }
        else { assert(hex_digit(15) == 'f'); }
    }
}

proof fn lemma_hex_of_nibbles(b: Seq<u8>)
    ensures
        hex_of(b).len() == 2 * b.len(),
        forall|i: int|
            0 <= i < b.len() ==> #[trigger] hex_of(b)[2 * i] == hex_digit(b[i] as int / 16)
                && hex_of(b)[2 * i + 1] == hex_digit(b[i] as int % 16),
    decreases b.len(),
{
    if b.len() > 0 {
        lemma_hex_of_nibbles(b.drop_last());
        assert forall|i: int| 0 <= i < b.len() implies #[trigger] hex_of(b)[2 * i] == hex_digit(
            b[i] as int / 16,
        ) && hex_of(b)[2 * i + 1] == hex_digit(b[i] as int % 16) by {
            if i < b.len() - 1 {
                assert(b[i] == b.drop_last()[i]);
            }
        }
    }
}

} // verus!
