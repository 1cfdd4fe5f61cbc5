//! The payloads that travel over the connection: the controller's numbered
//! messages, the worker's replies and the sentinel that ends the exchange.
//!
//! A payload is raw bytes with no header or delimiter. Text goes out as its
//! UTF-8 encoding; what comes in is decoded leniently, so that no input is an
//! error.

use vstd::prelude::*;
use vstd::string::*;
use vstd::utf8::*;
use crate::text::{decimal, lemma_decimal_digits, push_decimal};

verus! {

/// The message that makes the worker stop.
pub const SENTINEL: &'static str = "exit";

/// Size in bytes of the buffer that either side reads into.
pub const READ_BUFFER_SIZE: usize = 1024;

/// The sentinel as it travels: the bytes `65 78 69 74` (hexadecimal).
pub open spec fn sentinel_bytes() -> Seq<u8> {
    encode_utf8(SENTINEL@)
}

/// Text of the controller's message in the given round.
pub open spec fn round_text(round: u8) -> Seq<char> {
    "Message "@ + decimal(round as nat) + " from controller"@
}

/// The controller's message of the given round as it travels.
pub open spec fn round_bytes(round: u8) -> Seq<u8> {
    encode_utf8(round_text(round))
}

/// Text of the reply of worker `pid` to a message that read `received`.
pub open spec fn reply_text(pid: u32, received: Seq<char>) -> Seq<char> {
    "Worker["@ + decimal(pid as nat) + "] processed: "@ + received
}

/// The text that lenient UTF-8 decoding makes of `bytes`: each malformed
/// stretch becomes U+FFFD, everything else is decoded as it stands.
pub uninterp spec fn utf8_lossy(bytes: Seq<u8>) -> Seq<char>;

/// Calls `String::from_utf8_lossy`. Its documentation promises that well-formed
/// UTF-8 comes back as the string that it encodes, and that otherwise the
/// result holds U+FFFD REPLACEMENT CHARACTER in place of what was malformed.
/// The contract names the result and states those two facts, taking
/// `vstd::utf8::valid_utf8` as the definition of well-formed.
#[verifier::external_body]
fn from_utf8_lossy(bytes: &[u8]) -> (text: String)
    ensures
        text@ == utf8_lossy(bytes@),
        valid_utf8(bytes@) ==> text@ == decode_utf8(bytes@),
        !valid_utf8(bytes@) ==> text@.contains('\u{FFFD}'),
{
    String::from_utf8_lossy(bytes).into_owned()
}

/// The sentinel is four ASCII bytes.
pub proof fn lemma_sentinel_bytes()
    ensures
        sentinel_bytes() == seq![0x65u8, 0x78u8, 0x69u8, 0x74u8],
        SENTINEL@ == seq!['e', 'x', 'i', 't'],
{
    reveal_strlit("exit");
    let s = SENTINEL@;
    assert(s =~= seq!['e', 'x', 'i', 't']);
    assert(is_ascii_chars(s));
    is_ascii_chars_encode_utf8(s);
    assert(encode_utf8(s) =~= seq![0x65u8, 0x78u8, 0x69u8, 0x74u8]);
}

/// No round's message can be taken for the sentinel.
pub proof fn lemma_round_is_not_sentinel(round: u8)
    ensures
        round_text(round) != SENTINEL@,
        round_bytes(round) != sentinel_bytes(),
{
    reveal_strlit("exit");
    reveal_strlit("Message ");
    reveal_strlit(" from controller");
    lemma_decimal_digits(round as nat);
    assert(round_text(round).len() > SENTINEL@.len());
    encode_utf8_decode_utf8(round_text(round));
    encode_utf8_decode_utf8(SENTINEL@);
}

/// Decodes what a read delivered. Beyond the decoded text the contract says
/// when that text is the sentinel: exactly when the bytes are the sentinel's.
pub fn decode(bytes: &Vec<u8>) -> (text: String)
    ensures
        text@ == utf8_lossy(bytes@),
        valid_utf8(bytes@) ==> text@ == decode_utf8(bytes@),
        !valid_utf8(bytes@) ==> text@.contains('\u{FFFD}'),
        (text@ == SENTINEL@) == (bytes@ == sentinel_bytes()),
{
    let text = from_utf8_lossy(bytes.as_slice());
    proof {
        lemma_sentinel_bytes();
        encode_utf8_valid_utf8(SENTINEL@);
        encode_utf8_decode_utf8(SENTINEL@);
        if valid_utf8(bytes@) {
            decode_utf8_encode_utf8(bytes@);
        } else {
            assert(!SENTINEL@.contains('\u{FFFD}'));
        }
    }
    text
}

/// Whether a decoded message is the sentinel.
pub fn is_sentinel(text: &str) -> (yes: bool)
    ensures
        yes == (text@ == SENTINEL@),
{
    String::from_str(text) == String::from_str(SENTINEL)
}

/// The sentinel as a payload.
pub fn sentinel() -> (payload: Vec<u8>)
    ensures
        payload@ == sentinel_bytes(),
{
    SENTINEL.as_bytes_vec()
}

/// The controller's message for the given round.
pub fn round_message(round: u8) -> (message: String)
    ensures
        message@ == round_text(round),
{
    let mut message = String::from_str("Message ");
    push_decimal(&mut message, round as u32);
    message.append(" from controller");
    message
}

/// The reply of worker `pid` to a message that read `received`.
pub fn reply(pid: u32, received: &str) -> (message: String)
    ensures
        message@ == reply_text(pid, received@),
{
    let mut message = String::from_str("Worker[");
    push_decimal(&mut message, pid);
    message.append("] processed: ");
    message.append(received);
    message
}

/// A text as a payload: its UTF-8 encoding.
pub fn payload(text: &str) -> (bytes: Vec<u8>)
    ensures
        bytes@ == encode_utf8(text@),
{
    text.as_bytes_vec()
}

} // verus!
