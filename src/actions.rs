//! The toolbar's actions as far as they compute: the key combinations to
//! inject, the search address, the sample translation and the reading of a
//! translation service's reply.
use crate::text::{eq_ascii_folded, eq_ignore_ascii_case, trim, trimmed};
use vstd::prelude::*;
use vstd::string::{StringExecFns, StringSliceAdditionalSpecFns};

verus! {

/// A key that the actions inject.
#[derive(Clone, Copy, Debug, PartialEq, Eq, Structural)]
pub enum Key {
    Control,
    C,
    V,
    X,
}

/// One synthetic keyboard input: a key pressed, or released.
#[derive(Clone, Copy, Debug, PartialEq, Eq, Structural)]
pub struct KeyStroke {
    pub key: Key,
    pub release: bool,
}

/// Control held while `key` is pressed and released.
pub open spec fn control_combo(key: Key) -> Seq<KeyStroke> {
    seq![
        KeyStroke { key: Key::Control, release: false },
        KeyStroke { key, release: false },
        KeyStroke { key, release: true },
        KeyStroke { key: Key::Control, release: true },
    ]
}

/// The inputs that type Control+`key`, in the order they must be sent.
pub fn key_combo(key: Key) -> (r: Vec<KeyStroke>)
    ensures
        r@ == control_combo(key),
{
    let r = vec![
        KeyStroke { key: Key::Control, release: false },
        KeyStroke { key, release: false },
        KeyStroke { key, release: true },
        KeyStroke { key: Key::Control, release: true },
    ];
    assert(r@ =~= control_combo(key));
    r
}

/// The inputs that copy the active application's selection (Control+C).
pub fn copy_keys() -> (r: Vec<KeyStroke>)
    ensures
        r@ == control_combo(Key::C),
{
    key_combo(Key::C)
}

/// The inputs that paste into the active application (Control+V).
pub fn paste() -> (r: Vec<KeyStroke>)
    ensures
        r@ == control_combo(Key::V),
{
    key_combo(Key::V)
}

/// The inputs that cut the active application's selection (Control+X).
pub fn cut() -> (r: Vec<KeyStroke>)
    ensures
        r@ == control_combo(Key::X),
{
    key_combo(Key::X)
}

/// Bytes that percent-encoding leaves as they are: ASCII letters and
/// digits, `-`, `.`, `_` and `~`.
pub open spec fn is_unreserved(b: u8) -> bool {
    ||| 48 <= b <= 57
    ||| 65 <= b <= 90
    ||| 97 <= b <= 122
    ||| b == 45
    ||| b == 46
    ||| b == 95
    ||| b == 126
}

/// The upper-case hexadecimal digit of `d` (below 16).
pub open spec fn hex_digit(d: u8) -> char {
    if d < 10 {
        (48 + d) as u8 as char
    } else {
        (55 + d) as u8 as char
    }
}

/// One byte percent-encoded.
pub open spec fn escape_byte(b: u8) -> Seq<char> {
    if is_unreserved(b) {
        seq![b as char]
    } else {
        seq!['%', hex_digit(b / 16), hex_digit(b % 16)]
    }
}

/// Bytes percent-encoded, one after the other.
pub open spec fn percent_encode(bytes: Seq<u8>) -> Seq<char>
    decreases bytes.len(),
{
    if bytes.len() == 0 {
        Seq::empty()
    } else {
        percent_encode(bytes.drop_last()) + escape_byte(bytes.last())
    }
}

/// Relies on `urlencoding::encode`: every byte of the UTF-8 form
/// percent-encoded with upper-case digits, but for ASCII letters, digits
/// and `-`, `.`, `_`, `~`.
#[verifier::external_body]
fn url_encode(s: &str) -> (r: String)
    ensures
        r@ == percent_encode(s.spec_bytes()),
{
    urlencoding::encode(s).into_owned()
}

/// The address that searches for `text` on Perplexity.
pub fn search_url(text: &str) -> (r: String)
    ensures
        r@ == "https://www.perplexity.ai/search?q="@ + percent_encode(text.spec_bytes()),
{
    let mut url = "https://www.perplexity.ai/search?q=".to_owned();
    let query = url_encode(text);
    url.append(query.as_str());
    url
}

/// The sample translation of a trimmed text: a fixed answer for a few
/// words (compared without regard to ASCII case), a template otherwise.
pub open spec fn translation_of(t: Seq<char>) -> Seq<char> {
    if eq_ascii_folded(t, "hello"@) {
        "こんにちは (挨拶)"@
    } else if eq_ascii_folded(t, "simulation"@) {
        "シミュレーション (模擬実験)"@
    } else if eq_ascii_folded(t, "popwin"@) {
        "ポップウィン (このアプリ)"@
    } else if eq_ascii_folded(t, "rust"@) {
        "Rust (プログラミング言語)"@
    } else {
        "翻訳(PoC): "@ + t + " の日本語訳サンプル"@
    }
}

/// A sample translation into Japanese that needs no service: `text` is
/// trimmed first.
pub fn translate(text: &str) -> (r: String)
    ensures
        r@ == translation_of(trimmed(text@)),
{
    let text = trim(text);
    if eq_ignore_ascii_case(text, "hello") {
        "こんにちは (挨拶)".to_owned()
    } else if eq_ignore_ascii_case(text, "simulation") {
        "シミュレーション (模擬実験)".to_owned()
    } else if eq_ignore_ascii_case(text, "popwin") {
        "ポップウィン (このアプリ)".to_owned()
    } else if eq_ignore_ascii_case(text, "rust") {
        "Rust (プログラミング言語)".to_owned()
    } else {
        let mut r = "翻訳(PoC): ".to_owned();
        r.append(text);
        r.append(" の日本語訳サンプル");
        r
    }
}

/// What came back from the translation service.
pub enum TranslationReply {
    /// The request did not reach the service.
    Unreachable,
    /// The service answered with a failure status, or with a body that is
    /// not JSON or has no list of sentences first.
    Rejected,
    /// For each sentence of the reply, its translated text if the sentence
    /// starts with a string.
    Sentences(Vec<Option<String>>),
}

/// The texts of the present parts, concatenated in order.
pub open spec fn joined(parts: Seq<Option<String>>) -> Seq<char>
    decreases parts.len(),
{
    if parts.len() == 0 {
        Seq::empty()
    } else {
        joined(parts.drop_last()) + match parts.last() {
            Some(s) => s@,
            None => Seq::empty(),
        }
    }
}

/// The text shown for a reply: the joined sentences, or an error message
/// (in Japanese) for a failed request and for a reply with no text.
pub open spec fn reply_text(reply: TranslationReply) -> Seq<char> {
    match reply {
        TranslationReply::Unreachable => "通信エラー"@,
        TranslationReply::Rejected => "翻訳エラー"@,
        TranslationReply::Sentences(parts) => if joined(parts@).len() > 0 {
            joined(parts@)
        } else {
            "翻訳エラー"@
        },
    }
}

/// The text shown for a reply of the translation service.
pub fn translation_text(reply: &TranslationReply) -> (r: String)
    ensures
        r@ == reply_text(*reply),
{
    match reply {
        TranslationReply::Unreachable => "通信エラー".to_owned(),
        TranslationReply::Rejected => "翻訳エラー".to_owned(),
        TranslationReply::Sentences(parts) => {
            let mut out = String::new();
            let mut i: usize = 0;
            while i < parts.len()
                invariant
                    i <= parts@.len(),
                    out@ == joined(parts@.subrange(0, i as int)),
                decreases parts.len() - i,
            {
                match &parts[i] {
                    Some(s) => out.append(s.as_str()),
                    None => {},
                }
                i = i + 1;
                assert(parts@.subrange(0, i as int).drop_last() =~= parts@.subrange(0, i - 1));
            }
            assert(parts@.subrange(0, parts@.len() as int) =~= parts@);
            if out.as_str().is_empty() {
                "翻訳エラー".to_owned()
            } else {
                out
            }
        },
    }
}

} // verus!
