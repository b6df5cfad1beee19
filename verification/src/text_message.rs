//! One complete, bounded WebDriver BiDi text message and the UTF-8 conversions the parsers use.

use vstd::prelude::*;
use vstd::utf8::*;

verus! {

/// Largest assembled WebDriver BiDi text message admitted, in UTF-8 bytes (1 MiB).
pub const MAX_WEBDRIVER_BIDI_MESSAGE_SIZE: usize = 1_048_576;

/// One complete UTF-8 WebDriver BiDi text message no larger than
/// [`MAX_WEBDRIVER_BIDI_MESSAGE_SIZE`] bytes.
pub struct WebDriverBiDiWebSocketTextMessage {
    text: String,
}

impl WebDriverBiDiWebSocketTextMessage {
    /// The UTF-8 bytes of the message.
    pub closed spec fn bytes(&self) -> Seq<u8> {
        encode_utf8(self.text@)
    }

    /// Admit one complete text message, refusing text above the message size bound.
    pub fn new(text: &str) -> (message: Option<Self>)
        ensures
            message is Some <==> encode_utf8(text@).len() <= MAX_WEBDRIVER_BIDI_MESSAGE_SIZE,
            message matches Some(m) ==> m.bytes() == encode_utf8(text@),
    {
        if text.as_bytes().len() > MAX_WEBDRIVER_BIDI_MESSAGE_SIZE {
            return None;
        }
        Some(WebDriverBiDiWebSocketTextMessage { text: text.to_owned() })
    }

    /// Borrow the message text.
    pub fn as_str(&self) -> (text: &str)
        ensures
            encode_utf8(text@) == self.bytes(),
    {
        self.text.as_str()
    }

    /// Borrow the UTF-8 bytes of the message.
    pub fn as_bytes(&self) -> (bytes: &[u8])
        ensures
            bytes@ == self.bytes(),
            bytes@.len() <= usize::MAX,
    {
        let bytes = self.text.as_str().as_bytes();
        let _len = bytes.len();
        bytes
    }
}

/// `std::str::from_utf8`: borrows `bytes` as text exactly when they are well-formed UTF-8; the
/// text then decodes to the characters that the bytes encode.
#[verifier::external_body]
pub fn str_from_utf8(bytes: &[u8]) -> (text: Option<&str>)
    ensures
        text is Some <==> valid_utf8(bytes@),
        text matches Some(t) ==> t@ == decode_utf8(bytes@),
{
    std::str::from_utf8(bytes).ok()
}

/// `String::from_utf8`: takes ownership of `bytes` as text exactly when they are well-formed
/// UTF-8; the text then decodes to the characters that the bytes encode.
#[verifier::external_body]
pub fn string_from_utf8(bytes: Vec<u8>) -> (text: Option<String>)
    ensures
        text is Some <==> valid_utf8(bytes@),
        text matches Some(t) ==> t@ == decode_utf8(bytes@),
{
    String::from_utf8(bytes).ok()
}

} // verus!
