//! The pure part of the speech effect: the synthesis request for a text.
use vstd::prelude::*;
use vstd::string::StringSliceAdditionalSpecFns;

verus! {

/// Whether a byte of the text is written as `%XX` in the request: control
/// bytes, bytes outside ASCII, space, `"`, `<`, `>` and backtick.
pub open spec fn needs_escape(b: u8) -> bool {
    b < 0x20 || b >= 0x7f || b == 0x20 || b == 0x22 || b == 0x3c || b == 0x3e || b == 0x60
}

pub open spec fn hex_upper(d: nat) -> char {
    if d < 10 {
        digit_char(d)
    } else if d == 10 {
        'A'
    } else if d == 11 {
        'B'
    } else if d == 12 {
        'C'
    } else if d == 13 {
        'D'
    } else if d == 14 {
        'E'
    } else {
        'F'
    }
}

/// `%` and the two upper-case hex digits of `b`.
pub open spec fn percent_triplet(b: u8) -> Seq<char> {
    seq!['%', hex_upper(b as nat / 16), hex_upper(b as nat % 16)]
}

pub open spec fn encode_byte(b: u8) -> Seq<char> {
    if needs_escape(b) {
        percent_triplet(b)
    } else {
        seq![b as char]
    }
}

/// The request form of a text's UTF-8 bytes, byte by byte.
pub open spec fn fragment_encoded(bytes: Seq<u8>) -> Seq<char>
    decreases bytes.len(),
{
    if bytes.len() == 0 {
        Seq::empty()
    } else {
        fragment_encoded(bytes.drop_last()) + encode_byte(bytes.last())
    }
}

/// Relies on percent_encoding::percent_encode_byte: `%` and the two
/// upper-case hex digits of the byte.
#[verifier::external_body]
fn percent_byte(b: u8) -> (r: &'static str)
    ensures
        r@ == percent_triplet(b),
{
    percent_encoding::percent_encode_byte(b)
}

/// Relies on char's ToString: the one-character string of an ASCII byte.
#[verifier::external_body]
fn ascii_text(b: u8) -> (r: String)
    requires
        b < 0x80,
    ensures
        r@ == seq![b as char],
{
    char::from(b).to_string()
}

/// Percent-encodes the UTF-8 bytes of `text` for the request's query.
pub fn encode_fragment(text: &str) -> (r: String)
    ensures
        r@ == fragment_encoded(text.spec_bytes()),
{
    let bytes = text.as_bytes();
    let mut out = String::new();
    let mut i: usize = 0;
    while i < bytes.len()
        invariant
            bytes@ == text.spec_bytes(),
            i <= bytes@.len(),
            out@ == fragment_encoded(bytes@.subrange(0, i as int)),
        decreases bytes@.len() - i,
    {
        let b = bytes[i];
        if b < 0x20 || b >= 0x7f || b == 0x20 || b == 0x22 || b == 0x3c || b == 0x3e || b == 0x60 {
            out.append(percent_byte(b));
        } else {
            let one = ascii_text(b);
            out.append(one.as_str());
        }
        assert(bytes@.subrange(0, i + 1).drop_last() =~= bytes@.subrange(0, i as int));
        i = i + 1;
    }
    assert(bytes@.subrange(0, i as int) =~= bytes@);
    out
}

pub open spec fn digit_char(d: nat) -> char {
    if d == 0 { '0' }
    else if d == 1 { '1' }
    else if d == 2 { '2' }
    else if d == 3 { '3' }
    else if d == 4 { '4' }
    else if d == 5 { '5' }
    else if d == 6 { '6' }
    else if d == 7 { '7' }
    else if d == 8 { '8' }
    else { '9' }
}

/// Decimal digits of `n`, most significant first, without leading zeros.
pub open spec fn decimal(n: nat) -> Seq<char>
    decreases n,
{
    if n < 10 {
        seq![digit_char(n)]
    } else {
        decimal(n / 10).push(digit_char(n % 10))
    }
}

/// Relies on usize's Display, through ToString: its decimal digits.
#[verifier::external_body]
fn decimal_text(n: usize) -> (r: String)
    ensures
        r@ == decimal(n as nat),
{
    n.to_string()
}

pub open spec fn url_head() -> Seq<char> {
    "https://translate.google.fr/translate_tts?ie=UTF-8&q="@
}

pub open spec fn url_middle() -> Seq<char> {
    "&tl=ar&total=1&idx=0&textlen="@
}

pub open spec fn url_tail() -> Seq<char> {
    "&tl=ar&client=tw-ob&ttsspeed=1"@
}

/// The synthesis request for an already encoded text whose UTF-8 form is
/// `text_len` bytes long.
pub open spec fn request_url(encoded: Seq<char>, text_len: nat) -> Seq<char> {
    url_head() + encoded + url_middle() + decimal(text_len) + url_tail()
}

/// Builds the synthesis request from the encoded text and the byte length
/// of the text before encoding.
pub fn tts_url_from_encoded(encoded: &str, text_len: usize) -> (r: String)
    ensures
        r@ == request_url(encoded@, text_len as nat),
{
    let mut url = String::from_str("https://translate.google.fr/translate_tts?ie=UTF-8&q=");
    url.append(encoded);
    url.append("&tl=ar&total=1&idx=0&textlen=");
    let digits = decimal_text(text_len);
    url.append(digits.as_str());
    url.append("&tl=ar&client=tw-ob&ttsspeed=1");
    url
}

/// The synthesis request for `text`: the percent-encoded text and the
/// byte length of its UTF-8 form.
pub fn tts_url(text: &str) -> (r: String)
    ensures
        r@ == request_url(fragment_encoded(text.spec_bytes()), text.len() as nat),
{
    let encoded = encode_fragment(text);
    tts_url_from_encoded(encoded.as_str(), text.len())
}

/// Why a speech task failed; either way the failure stays in the task.
#[derive(Clone, Copy, Debug, PartialEq, Eq, Structural)]
pub enum EffectError {
    SynthesisFailed,
    PlaybackFailed,
}

impl EffectError {
    /// A line for the error log.
    pub fn describe(&self) -> (r: &'static str)
        ensures
            r@ == match self {
                EffectError::SynthesisFailed => "speech synthesis failed"@,
                EffectError::PlaybackFailed => "audio playback failed"@,
            },
    {
        proof {
            reveal_strlit("speech synthesis failed");
            reveal_strlit("audio playback failed");
        }
        match self {
            EffectError::SynthesisFailed => "speech synthesis failed",
            EffectError::PlaybackFailed => "audio playback failed",
        }
    }
}

} // verus!
