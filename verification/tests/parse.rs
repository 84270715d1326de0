use sick::decoder::{Error, FromBytes, Incomplete};

/// A message of exactly three bytes, borrowed from the input.
#[derive(Debug, PartialEq)]
struct Triple<'a>(&'a [u8]);

impl<'a> FromBytes<'a> for Triple<'a> {
    type Error = &'static str;

    fn from_bytes(input: &'a [u8]) -> Result<(&'a [u8], Self), Error<Self::Error>> {
        if input.first() == Some(&0xFF) {
            return Err(Error::Decode("a message cannot begin with 0xFF"));
        }
        if input.len() < 3 {
            return Err(Error::Incomplete(Incomplete::Bytes(3 - input.len())));
        }
        let (head, tail) = input.split_at(3);
        Ok((tail, Triple(head)))
    }
}

/// A message that ends at the first zero byte.
#[derive(Debug, PartialEq)]
struct Text(Vec<u8>);

impl<'a> FromBytes<'a> for Text {
    type Error = ();

    fn from_bytes(input: &'a [u8]) -> Result<(&'a [u8], Self), Error<()>> {
        match input.iter().position(|b| *b == 0) {
            Some(end) => Ok((&input[end + 1..], Text(input[..end].to_vec()))),
            None => Err(Error::Incomplete(Incomplete::Unknown)),
        }
    }
}

#[test]
fn as_option_of_unknown_is_none() {
    assert_eq!(Incomplete::Unknown.as_option(), None);
}

#[test]
fn as_option_of_bytes_is_the_count() {
    assert_eq!(Incomplete::Bytes(0).as_option(), Some(0));
    assert_eq!(Incomplete::Bytes(7).as_option(), Some(7));
    assert_eq!(Incomplete::Bytes(usize::MAX).as_option(), Some(usize::MAX));
}

#[test]
fn as_option_defaults_to_one_byte() {
    assert_eq!(Incomplete::Unknown.as_option().unwrap_or(1), 1);
    assert_eq!(Incomplete::Bytes(283).as_option().unwrap_or(1), 283);
}

#[test]
fn incomplete_is_copy_and_comparable() {
    let a = Incomplete::Bytes(3);
    let b = a;
    assert_eq!(a, b);
    assert_ne!(a, Incomplete::Unknown);
    assert_ne!(a, Incomplete::Bytes(4));
}

#[test]
fn check_reports_the_hint_of_from_bytes() {
    assert_eq!(Triple::check(&[]), Some(Incomplete::Bytes(3)));
    assert_eq!(Triple::check(&[1]), Some(Incomplete::Bytes(2)));
    assert_eq!(Triple::check(&[1, 2]), Some(Incomplete::Bytes(1)));
    assert_eq!(Text::check(b"abc"), Some(Incomplete::Unknown));
}

#[test]
fn check_is_none_on_success_and_on_malformed_input() {
    assert_eq!(Triple::check(&[1, 2, 3]), None);
    assert_eq!(Triple::check(&[1, 2, 3, 4]), None);
    assert_eq!(Triple::check(&[0xFF]), None);
    assert_eq!(Text::check(b"abc\0"), None);
}

#[test]
fn from_bytes_returns_value_and_tail() {
    let input = [1u8, 2, 3, 4, 5];
    let (tail, value) = Triple::from_bytes(&input).unwrap();
    assert_eq!(value, Triple(&[1, 2, 3]));
    assert_eq!(tail, &[4, 5]);
}

#[test]
fn error_variants_are_told_apart() {
    assert!(matches!(
        Triple::from_bytes(&[9]),
        Err(Error::Incomplete(Incomplete::Bytes(2)))
    ));
    assert!(matches!(
        Triple::from_bytes(&[0xFF, 1, 2]),
        Err(Error::Decode("a message cannot begin with 0xFF"))
    ));
    assert!(matches!(
        Text::from_bytes(b"no end"),
        Err(Error::Incomplete(Incomplete::Unknown))
    ));
}

#[test]
fn error_has_debug() {
    let e: Error<u8> = Error::Incomplete(Incomplete::Bytes(2));
    assert_eq!(format!("{:?}", e), "Incomplete(Bytes(2))");
    let e: Error<u8> = Error::Decode(5);
    assert_eq!(format!("{:?}", e), "Decode(5)");
}
