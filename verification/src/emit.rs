use vstd::prelude::*;
use vstd::string::StrSliceExecFns;
use vstd::string::StringExecFns;

use std::io::Write;

use crate::buffer::EvcxrContent;

verus! {

/// The sixty-four digits of standard base64, in value order.
pub open spec fn b64_alphabet() -> Seq<char> {
    "ABCDEFGHIJKLMNOPQRSTUVWXYZabcdefghijklmnopqrstuvwxyz0123456789+/"@
}

/// The digit standing for a six-bit value.
pub open spec fn b64_digit(v: int) -> char {
    b64_alphabet()[v]
}

/// Standard base64 of a byte sequence: each group of three bytes becomes
/// four digits, a trailing group of one or two bytes is padded with `=`,
/// and no line breaks are inserted.
pub open spec fn base64_of(b: Seq<u8>) -> Seq<char>
    decreases b.len(),
{
    if b.len() == 0 {
        Seq::empty()
    } else if b.len() == 1 {
        let n = b[0] as int;
        seq![b64_digit(n / 4), b64_digit((n % 4) * 16), '=', '=']
    } else if b.len() == 2 {
        let n = (b[0] as int) * 256 + (b[1] as int);
        seq![b64_digit(n / 1024), b64_digit((n / 16) % 64), b64_digit((n % 16) * 4), '=']
    } else {
        let n = (b[0] as int) * 65536 + (b[1] as int) * 256 + (b[2] as int);
        seq![
            b64_digit(n / 262144),
            b64_digit((n / 4096) % 64),
            b64_digit((n / 64) % 64),
            b64_digit(n % 64),
        ] + base64_of(b.skip(3))
    }
}

/// Relies on base64's general-purpose STANDARD engine: canonical base64 of
/// the input (RFC 4648 alphabet, `=`-padded, no line wrapping).
#[verifier::external_body]
fn encode_base64(bytes: &[u8]) -> (r: String)
    requires
        4 * ((bytes@.len() + 2) / 3) <= usize::MAX,
    ensures
        r@ == base64_of(bytes@),
{
    base64::engine::Engine::encode(&base64::engine::general_purpose::STANDARD, bytes)
}

/// The MIME types framed as an inline audio element rather than emitted raw:
/// anything under `audio/`, and exactly `application/ogg`.
pub open spec fn is_audio_mime(m: Seq<char>) -> bool {
    (m.len() >= 6 && m.subrange(0, 6) == "audio/"@) || m == "application/ogg"@
}

/// The full protocol frame for a buffer holding `data` under the tag `mime`:
/// a begin marker naming the effective MIME type, one payload line, and an
/// end marker, each line newline-terminated. Audio-like tags wrap the
/// base64 payload in an HTML audio element under a data URI and declare the
/// frame as `text/html`; every other tag is emitted raw with its own name.
pub open spec fn frame_of(mime: Seq<char>, data: Seq<u8>) -> Seq<char> {
    if is_audio_mime(mime) {
        "EVCXR_BEGIN_CONTENT text/html\n<audio controls src=\"data:"@ + mime + ";base64,"@
            + base64_of(data) + "\"/>\nEVCXR_END_CONTENT\n"@
    } else {
        "EVCXR_BEGIN_CONTENT "@ + mime + "\n"@ + base64_of(data) + "\nEVCXR_END_CONTENT\n"@
    }
}

/// Whether `p` is a prefix of `s`, compared character by character.
fn str_has_prefix(s: &str, p: &str) -> (r: bool)
    ensures
        r == (s@.len() >= p@.len() && s@.subrange(0, p@.len() as int) == p@),
{
    let sl: usize = s.unicode_len();
    let pl: usize = p.unicode_len();
    if sl < pl {
        return false;
    }
    let mut k: usize = 0;
    while k < pl
        invariant
            k <= pl,
            pl <= sl,
            sl == s@.len(),
            pl == p@.len(),
            forall|i: int| 0 <= i < k ==> s@[i] == p@[i],
        decreases pl - k,
    {
        if s.get_char(k) != p.get_char(k) {
            assert(s@.subrange(0, pl as int)[k as int] != p@[k as int]);
            return false;
        }
        k = k + 1;
    }
    assert(s@.subrange(0, pl as int) =~= p@);
    true
}

/// Whether the two strings hold the same characters.
fn str_eq(a: &str, b: &str) -> (r: bool)
    ensures
        r == (a@ == b@),
{
    let al: usize = a.unicode_len();
    let bl: usize = b.unicode_len();
    if al != bl {
        return false;
    }
    let mut k: usize = 0;
    while k < al
        invariant
            k <= al,
            al == a@.len(),
            bl == b@.len(),
            al == bl,
            forall|i: int| 0 <= i < k ==> a@[i] == b@[i],
        decreases al - k,
    {
        if a.get_char(k) != b.get_char(k) {
            return false;
        }
        k = k + 1;
    }
    assert(a@ =~= b@);
    true
}

/// Whether the tag asks for the audio frame shape.
fn is_audio_mime_exec(m: &str) -> (r: bool)
    ensures
        r == is_audio_mime(m@),
{
    proof {
        reveal_strlit("audio/");
    }
    str_has_prefix(m, "audio/") || str_eq(m, "application/ogg")
}

/// Relies on the std::io write machinery behind the `write` macro: sends the
/// rendered text to the process's standard output stream.
#[verifier::external_body]
fn print_to_stdout(s: &str) {
    let _ = write!(std::io::stdout(), "{}", s);
}

impl EvcxrContent {
    /// The text of the protocol frame this buffer emits: the exact byte-for-
    /// byte output of `evcxr_display`, as a string. Reading it changes
    /// nothing, so rendering twice gives identical text.
    pub fn display_text(&self) -> (r: String)
        requires
            4 * ((self@.data.len() + 2) / 3) <= usize::MAX,
        ensures
            r@ == frame_of(self@.mime, self@.data),
    {
        proof {
            self.lemma_view();
        }
        let payload = encode_base64(self.data.as_slice());
        if is_audio_mime_exec(self.mime_type.as_str()) {
            let mut out = String::from_str("EVCXR_BEGIN_CONTENT text/html\n<audio controls src=\"data:");
            out.append(self.mime_type.as_str());
            out.append(";base64,");
            out.append(payload.as_str());
            out.append("\"/>\nEVCXR_END_CONTENT\n");
            out
        } else {
            let mut out = String::from_str("EVCXR_BEGIN_CONTENT ");
            out.append(self.mime_type.as_str());
            out.append("\n");
            out.append(payload.as_str());
            out.append("\nEVCXR_END_CONTENT\n");
            out
        }
    }

    /// Renders the protocol frame when the payload is small enough for its
    /// base64 to be addressable — every buffer that fits in memory in
    /// practice — and reports `None` otherwise.
    pub fn try_display_text(&self) -> (r: Option<String>)
        ensures
            match r {
                Some(s) => 4 * ((self@.data.len() + 2) / 3) <= usize::MAX && s@ == frame_of(
                    self@.mime,
                    self@.data,
                ),
                None => 4 * ((self@.data.len() + 2) / 3) > usize::MAX,
            },
    {
        proof {
            self.lemma_view();
        }
        let fits: bool = 4u128 * ((self.data.len() as u128 + 2) / 3) <= usize::MAX as u128;
        if fits {
            Some(self.display_text())
        } else {
            None
        }
    }

    /// Base64-encodes the accumulated bytes and prints the protocol frame on
    /// standard output for the host to pick up. The buffer is read
    /// untouched, so emitting twice prints the same frame twice.
    pub fn evcxr_display(&self)
        requires
            4 * ((self@.data.len() + 2) / 3) <= usize::MAX,
    {
        let text = self.display_text();
        print_to_stdout(text.as_str());
    }
}

/// Under the tag `image/png` the frame is exactly three newline-terminated
/// lines: the begin marker naming the tag itself after a single space, the
/// base64 payload on a line of its own, and the end marker with nothing
/// after it on its line.
pub proof fn lemma_png_frame_shape(data: Seq<u8>)
    ensures
        frame_of("image/png"@, data) == "EVCXR_BEGIN_CONTENT image/png\n"@ + base64_of(data)
            + "\nEVCXR_END_CONTENT\n"@,
{
    reveal_strlit("audio/");
    reveal_strlit("image/png");
    reveal_strlit("application/ogg");
    reveal_strlit("EVCXR_BEGIN_CONTENT ");
    reveal_strlit("\n");
    reveal_strlit("EVCXR_BEGIN_CONTENT image/png\n");
    assert(!is_audio_mime("image/png"@)) by {
        assert(("image/png"@).subrange(0, 6)[0] != "audio/"@[0]);
        assert(("image/png"@).len() != ("application/ogg"@).len());
    }
    assert("EVCXR_BEGIN_CONTENT "@ + "image/png"@ + "\n"@
        =~= "EVCXR_BEGIN_CONTENT image/png\n"@);
}

/// Under the tag `application/ogg` the frame's begin marker names
/// `text/html` instead, and the middle line is the literal audio element
/// embedding the base64 payload in a data URI.
pub proof fn lemma_ogg_frame_shape(data: Seq<u8>)
    ensures
        frame_of("application/ogg"@, data)
            == "EVCXR_BEGIN_CONTENT text/html\n<audio controls src=\"data:application/ogg;base64,"@
            + base64_of(data) + "\"/>\nEVCXR_END_CONTENT\n"@,
{
    reveal_strlit("application/ogg");
    reveal_strlit(";base64,");
    reveal_strlit("EVCXR_BEGIN_CONTENT text/html\n<audio controls src=\"data:");
    reveal_strlit("EVCXR_BEGIN_CONTENT text/html\n<audio controls src=\"data:application/ogg;base64,");
    assert(is_audio_mime("application/ogg"@));
    assert("EVCXR_BEGIN_CONTENT text/html\n<audio controls src=\"data:"@ + "application/ogg"@
        + ";base64,"@
        =~= "EVCXR_BEGIN_CONTENT text/html\n<audio controls src=\"data:application/ogg;base64,"@);
}

/// Emission is a pure function of the buffer's tag and bytes: two buffers
/// that agree on both render byte-identical frames, however often either is
/// emitted.
pub proof fn lemma_display_idempotent(a: crate::buffer::ContentView, b: crate::buffer::ContentView)
    requires
        a.mime == b.mime,
        a.data == b.data,
    ensures
        frame_of(a.mime, a.data) == frame_of(b.mime, b.data),
{
}

} // verus!


