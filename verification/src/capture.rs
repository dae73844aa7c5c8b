//! The stand-in for a script's standard output: what the script prints is
//! kept in memory and never reaches a real stream.

use vstd::prelude::*;
use vstd::utf8::{
    decode_utf8, encode_utf8, valid_utf8, encode_utf8_valid_utf8, encode_utf8_decode_utf8,
    decode_utf8_encode_utf8,
};

verus! {

/// The error of `String::from_utf8`. Nothing of it is read here.
#[verifier::external_type_specification]
#[verifier::external_body]
pub struct ExFromUtf8Error(std::string::FromUtf8Error);

/// `String::from_utf8` of std: it succeeds exactly on well-formed UTF-8, and
/// the string it returns is the text that the bytes encode.
pub assume_specification[ String::from_utf8 ](vec: Vec<u8>) -> (r: Result<
    String,
    std::string::FromUtf8Error,
>)
    ensures
        r is Ok <==> valid_utf8(vec@),
        r matches Ok(s) ==> s@ == decode_utf8(vec@),
;

/// Encoding a text piece by piece gives the encoding of the whole.
pub proof fn lemma_encode_utf8_concat(a: Seq<char>, b: Seq<char>)
    ensures
        encode_utf8(a + b) == encode_utf8(a) + encode_utf8(b),
    decreases a.len(),
{
    if a.len() == 0 {
        assert(a + b =~= b);
        assert(encode_utf8(a) + encode_utf8(b) =~= encode_utf8(b));
    } else {
        lemma_encode_utf8_concat(a.drop_first(), b);
        assert((a + b).drop_first() =~= a.drop_first() + b);
        assert(encode_utf8(a + b) =~= encode_utf8(a) + encode_utf8(b));
    }
}

/// No bytes are well-formed UTF-8, and they encode the empty text.
pub proof fn lemma_empty_is_valid()
    ensures
        valid_utf8(Seq::<u8>::empty()),
        decode_utf8(Seq::<u8>::empty()) == Seq::<char>::empty(),
{
    let none = Seq::<char>::empty();
    assert(encode_utf8(none) =~= Seq::<u8>::empty());
    encode_utf8_valid_utf8(none);
    encode_utf8_decode_utf8(none);
}

/// Appending the encoding of a text to well-formed bytes keeps them
/// well-formed, and they then decode to the old text followed by the new.
pub proof fn lemma_append_encoded(bytes: Seq<u8>, text: Seq<char>)
    requires
        valid_utf8(bytes),
    ensures
        valid_utf8(bytes + encode_utf8(text)),
        decode_utf8(bytes + encode_utf8(text)) == decode_utf8(bytes) + text,
{
    decode_utf8_encode_utf8(bytes);
    lemma_encode_utf8_concat(decode_utf8(bytes), text);
    encode_utf8_valid_utf8(decode_utf8(bytes) + text);
    encode_utf8_decode_utf8(decode_utf8(bytes) + text);
}

/// What a script has printed so far, as raw bytes. Only `write` adds to them,
/// and it adds the bytes of a string, so they are well-formed UTF-8 at all
/// times.
pub struct StdoutCapture {
    bytes: Vec<u8>,
}

impl View for StdoutCapture {
    type V = Seq<char>;

    /// The text printed so far.
    closed spec fn view(&self) -> Seq<char> {
        decode_utf8(self.bytes@)
    }
}

impl StdoutCapture {
    #[verifier::type_invariant]
    spec fn well_formed(self) -> bool {
        valid_utf8(self.bytes@)
    }

    /// A capture that holds nothing yet.
    pub fn new() -> (r: StdoutCapture)
        ensures
            r@ == Seq::<char>::empty(),
    {
        let bytes: Vec<u8> = Vec::new();
        proof {
            lemma_empty_is_valid();
            assert(bytes@ =~= Seq::<u8>::empty());
        }
        StdoutCapture { bytes }
    }

    /// Appends the bytes of `data` to what was printed before.
    pub fn write(&mut self, data: &str)
        ensures
            final(self)@ == old(self)@ + data@,
    {
        proof {
            use_type_invariant(&*self);
            lemma_append_encoded(self.bytes@, data@);
            lemma_empty_is_valid();
        }
        // The bytes are taken out, grown and put back, so that the capture
        // holds well-formed bytes at every step.
        let mut bytes: Vec<u8> = Vec::new();
        core::mem::swap(&mut self.bytes, &mut bytes);
        let ghost before = bytes@;
        bytes.extend_from_slice(data.as_bytes());
        assert(bytes@ =~= before + encode_utf8(data@));
        core::mem::swap(&mut self.bytes, &mut bytes);
    }

    /// Does nothing: there is no stream behind the capture to flush to.
    pub fn flush(&mut self)
        ensures
            final(self)@ == old(self)@,
    {
    }

    /// The text printed so far, the capture given up for it.
    pub fn into_text(self) -> (text: String)
        ensures
            text@ == self@,
    {
        proof {
            use_type_invariant(&self);
        }
        match String::from_utf8(self.bytes) {
            Ok(text) => text,
            Err(_) => vstd::pervasive::unreached(),
        }
    }
}

} // verus!
