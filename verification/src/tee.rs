//! Enclave attestation quote: the measurements an SGX quote carries, in hex.

use vstd::prelude::*;

verus! {

/// Smallest quote that holds both measurements.
pub const MIN_QUOTE_LEN: usize = 432;

/// First byte of MRENCLAVE inside a quote.
pub const MRENCLAVE_START: usize = 112;

/// End of MRENCLAVE inside a quote.
pub const MRENCLAVE_END: usize = 144;

/// First byte of MRSIGNER inside a quote.
pub const MRSIGNER_START: usize = 176;

/// End of MRSIGNER inside a quote.
pub const MRSIGNER_END: usize = 208;

/// The lower-case hexadecimal digit of a value below sixteen.
pub open spec fn hex_digit(nibble: int) -> char {
    seq!['0', '1', '2', '3', '4', '5', '6', '7', '8', '9', 'a', 'b', 'c', 'd', 'e', 'f'][nibble]
}

/// Lower-case hexadecimal text of `bytes`: two digits per byte, high nibble
/// first.
pub open spec fn hex_lower(bytes: Seq<u8>) -> Seq<char> {
    Seq::new(
        2 * bytes.len(),
        |i: int|
            if i % 2 == 0 {
                hex_digit(bytes[i / 2] as int / 16)
            } else {
                hex_digit(bytes[i / 2] as int % 16)
            },
    )
}

/// Why no quote could be produced.
#[derive(Debug, Clone, Copy, PartialEq, Eq, Structural)]
pub enum QuoteError {
    /// The attestation device could not be read or written.
    IoError,
    /// The quoting layer reported a failure, or handed back a quote too short
    /// to hold the measurements.
    IntelQuote3Error,
}

/// An attestation quote with its two measurements, all hex encoded.
#[derive(Debug, Clone)]
pub struct Quote {
    raw_quote: String,
    mrsigner: String,
    mrenclave: String,
}

impl Quote {
    /// The whole quote in hex.
    pub closed spec fn raw_quote_view(&self) -> Seq<char> {
        self.raw_quote@
    }

    /// MRSIGNER in hex.
    pub closed spec fn mrsigner_view(&self) -> Seq<char> {
        self.mrsigner@
    }

    /// MRENCLAVE in hex.
    pub closed spec fn mrenclave_view(&self) -> Seq<char> {
        self.mrenclave@
    }

    /// True when `self` is exactly the hex rendering of the quote `bytes`.
    pub open spec fn describes(&self, bytes: Seq<u8>) -> bool {
        &&& self.raw_quote_view() == hex_lower(bytes)
        &&& self.mrenclave_view() == hex_lower(
            bytes.subrange(MRENCLAVE_START as int, MRENCLAVE_END as int),
        )
        &&& self.mrsigner_view() == hex_lower(
            bytes.subrange(MRSIGNER_START as int, MRSIGNER_END as int),
        )
    }

    /// True when all three fields are empty.
    pub open spec fn is_empty(&self) -> bool {
        &&& self.raw_quote_view().len() == 0
        &&& self.mrenclave_view().len() == 0
        &&& self.mrsigner_view().len() == 0
    }

    /// A quote from its three fields as they are published.
    pub fn new(raw_quote: String, mrsigner: String, mrenclave: String) -> (quote: Quote)
        ensures
            quote.raw_quote_view() == raw_quote@,
            quote.mrsigner_view() == mrsigner@,
            quote.mrenclave_view() == mrenclave@,
    {
        Quote { raw_quote, mrsigner, mrenclave }
    }

    /// The whole quote in hex.
    pub fn raw_quote(&self) -> (text: &String)
        ensures
            text@ == self.raw_quote_view(),
    {
        &self.raw_quote
    }

    /// MRSIGNER in hex.
    pub fn mrsigner(&self) -> (text: &String)
        ensures
            text@ == self.mrsigner_view(),
    {
        &self.mrsigner
    }

    /// MRENCLAVE in hex.
    pub fn mrenclave(&self) -> (text: &String)
        ensures
            text@ == self.mrenclave_view(),
    {
        &self.mrenclave
    }
}

impl Default for Quote {
    fn default() -> (quote: Quote)
        ensures
            quote.is_empty(),
    {
        Quote { raw_quote: String::new(), mrsigner: String::new(), mrenclave: String::new() }
    }
}

/// `hex::encode` on a byte slice. The crate walks the bytes in order and emits
/// for each the digit of its high nibble, then of its low nibble, from the
/// table `0123456789abcdef`; the contract says exactly that.
#[verifier::external_body]
fn hex_encode(bytes: &[u8]) -> (text: String)
    ensures
        text@ == hex_lower(bytes@),
{
    hex::encode(bytes)
}

/// Renders the quote read from the attestation device.
///
/// A quote shorter than [`MIN_QUOTE_LEN`] cannot hold the measurements and is
/// refused; any other is rendered whole, together with the two measurement
/// ranges.
pub fn gramine_quote(quote: Vec<u8>) -> (outcome: Result<Quote, QuoteError>)
    ensures
        quote@.len() < MIN_QUOTE_LEN <==> outcome is Err,
        outcome is Err ==> outcome == Err::<Quote, QuoteError>(QuoteError::IntelQuote3Error),
        outcome is Ok ==> outcome->Ok_0.describes(quote@),
{
    if quote.len() < MIN_QUOTE_LEN {
        return Err(QuoteError::IntelQuote3Error);
    }
    let bytes = quote.as_slice();
    let mrenclave = hex_encode(vstd::slice::slice_subrange(bytes, MRENCLAVE_START, MRENCLAVE_END));
    let mrsigner = hex_encode(vstd::slice::slice_subrange(bytes, MRSIGNER_START, MRSIGNER_END));
    let raw_quote = hex_encode(bytes);
    Ok(Quote { raw_quote, mrsigner, mrenclave })
}

/// The quote to publish: the rendered one when reading and rendering both
/// succeeded, the empty quote otherwise.
pub fn quote(read: Result<Vec<u8>, QuoteError>) -> (published: Quote)
    ensures
        match read {
            Ok(bytes) if bytes@.len() >= MIN_QUOTE_LEN => published.describes(bytes@),
            _ => published.is_empty(),
        },
{
    match read {
        Ok(bytes) => match gramine_quote(bytes) {
            Ok(rendered) => rendered,
            Err(_) => Quote::default(),
        },
        Err(_) => Quote::default(),
    }
}

} // verus!
