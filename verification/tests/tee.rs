use tls_mpc::tee::{gramine_quote, quote, Quote, QuoteError};

fn sample(len: usize) -> Vec<u8> {
    (0..len).map(|i| (i % 251) as u8).collect()
}

#[test]
fn quote_renders_the_measurements_in_hex() {
    let bytes = sample(432);
    let rendered = gramine_quote(bytes.clone()).unwrap();
    assert_eq!(rendered.raw_quote().len(), 864);
    assert_eq!(rendered.raw_quote(), &hex::encode(&bytes));
    assert_eq!(rendered.mrenclave().len(), 64);
    assert_eq!(rendered.mrsigner().len(), 64);
    assert!(rendered.mrenclave().starts_with("70717273"));
    assert!(rendered.mrenclave().ends_with("8c8d8e8f"));
    assert!(rendered.mrsigner().starts_with("b0b1b2b3"));
    assert!(rendered.mrsigner().ends_with("cccdcecf"));
}

#[test]
fn hex_is_lower_case_with_the_high_nibble_first() {
    let mut bytes = vec![0u8; 500];
    bytes[112] = 0xab;
    bytes[143] = 0x0f;
    bytes[176] = 0xf0;
    let rendered = gramine_quote(bytes).unwrap();
    assert!(rendered.mrenclave().starts_with("ab00"));
    assert!(rendered.mrenclave().ends_with("000f"));
    assert!(rendered.mrsigner().starts_with("f000"));
    assert_eq!(rendered.raw_quote().len(), 1000);
}

#[test]
fn short_quote_is_refused() {
    assert_eq!(gramine_quote(sample(431)).unwrap_err(), QuoteError::IntelQuote3Error);
    assert_eq!(gramine_quote(vec![]).unwrap_err(), QuoteError::IntelQuote3Error);
    assert!(gramine_quote(sample(432)).is_ok());
}

#[test]
fn failures_publish_the_empty_quote() {
    for outcome in [
        Err(QuoteError::IoError),
        Err(QuoteError::IntelQuote3Error),
        Ok(sample(100)),
    ] {
        let published = quote(outcome);
        assert_eq!(published.raw_quote(), "");
        assert_eq!(published.mrenclave(), "");
        assert_eq!(published.mrsigner(), "");
    }
    let published = quote(Ok(sample(600)));
    assert_eq!(published.raw_quote().len(), 1200);
    assert_eq!(published.mrenclave().len(), 64);
}

#[test]
fn default_quote_is_empty() {
    let empty = Quote::default();
    assert!(empty.raw_quote().is_empty());
    assert!(empty.mrsigner().is_empty());
    assert!(empty.mrenclave().is_empty());
}
