use jd_client::config::{
    find_field_end, key_or_unrecoverable, parse_port, resolve_authority_key,
    resolve_configuration, split_endpoint, ResolvedConfiguration, AUTHORITY_KEY_LEN,
};
use jd_client::error::Error;
use key_utils::Secp256k1PublicKey;
use std::str::FromStr;

const PUBLIC_KEY: &str = "9bDuixKmZqAJnrmP746n8zU1wyAQRrus7th9dxnkPg6RzQvCnan";

#[test]
fn authority_key_is_decoded_to_its_bytes() {
    let key = resolve_authority_key(PUBLIC_KEY).unwrap();
    assert_eq!(key.len(), AUTHORITY_KEY_LEN);
    assert_eq!(key.len(), 32);
    let expected = Secp256k1PublicKey::from_str(PUBLIC_KEY).unwrap().into_bytes();
    assert_eq!(key, expected.to_vec());
    assert_ne!(key, PUBLIC_KEY.as_bytes().to_vec());
}

#[test]
fn key_with_a_bad_checksum_is_unrecoverable() {
    let bad = "9bDuixKmZqAJnrmP746n8zU1wyAQRrus7th9dxnkPg6RzQvCnam";
    assert_eq!(resolve_authority_key(bad), Err(Error::Unrecoverable));
}

#[test]
fn key_with_a_bad_version_is_unrecoverable() {
    let bad = "2myPhc5vkPzuC5FXNK5tee79WmP7uoLh55SxezoF8iqwF3E3rnPY";
    assert_eq!(resolve_authority_key(bad), Err(Error::Unrecoverable));
}

#[test]
fn key_that_is_too_short_is_unrecoverable() {
    let bad = "2wmHTKZkLg2QzXyEXGMBXzKP7JXDUt8yy9SA5hoQwERc92qR6c";
    assert_eq!(resolve_authority_key(bad), Err(Error::Unrecoverable));
    assert_eq!(resolve_authority_key(""), Err(Error::Unrecoverable));
}

#[test]
fn missing_key_becomes_an_error() {
    assert_eq!(key_or_unrecoverable(None), Err(Error::Unrecoverable));
    assert_eq!(key_or_unrecoverable(Some(vec![1, 2, 3])), Ok(vec![1, 2, 3]));
}

#[test]
fn address_is_split_into_host_and_port() {
    assert_eq!(split_endpoint(b"127.0.0.1:8442"), Ok((b"127.0.0.1".to_vec(), 8442)));
    assert_eq!(split_endpoint(b"10.0.0.1:8442"), Ok((b"10.0.0.1".to_vec(), 8442)));
    assert_eq!(split_endpoint(b"host:0"), Ok((b"host".to_vec(), 0)));
    assert_eq!(split_endpoint(b"host:65535"), Ok((b"host".to_vec(), 65535)));
    assert_eq!(split_endpoint(b":1"), Ok((vec![], 1)));
}

#[test]
fn what_follows_a_second_colon_is_not_looked_at() {
    assert_eq!(split_endpoint(b"a:12:zz"), Ok((b"a".to_vec(), 12)));
    assert_eq!(split_endpoint(b"a:12:"), Ok((b"a".to_vec(), 12)));
}

#[test]
fn address_without_port_is_unrecoverable() {
    assert_eq!(split_endpoint(b""), Err(Error::Unrecoverable));
    assert_eq!(split_endpoint(b"127.0.0.1"), Err(Error::Unrecoverable));
    assert_eq!(split_endpoint(b"127.0.0.1:"), Err(Error::Unrecoverable));
    assert_eq!(split_endpoint(b"127.0.0.1::8442"), Err(Error::Unrecoverable));
}

#[test]
fn port_that_is_no_sixteen_bit_number_is_unrecoverable() {
    assert_eq!(split_endpoint(b"h:65536"), Err(Error::Unrecoverable));
    assert_eq!(split_endpoint(b"h:99999999999999999999"), Err(Error::Unrecoverable));
    assert_eq!(split_endpoint(b"h:-1"), Err(Error::Unrecoverable));
    assert_eq!(split_endpoint(b"h:84a2"), Err(Error::Unrecoverable));
    assert_eq!(split_endpoint(b"h: 8442"), Err(Error::Unrecoverable));
    assert_eq!(split_endpoint(b"h:+"), Err(Error::Unrecoverable));
}

#[test]
fn port_is_read_as_std_reads_it() {
    for text in ["0", "8442", "+8442", "0008442", "65535", "65536", "+", "", "-0", "++1", "1+", "12x"] {
        let bytes = text.as_bytes();
        assert_eq!(parse_port(bytes, 0, bytes.len()), text.parse::<u16>().ok());
    }
    assert_eq!(parse_port(b"ab:8442:cd", 3, 7), Some(8442));
    assert_eq!(parse_port(b"ab:8442:cd", 3, 3), None);
    assert_eq!(parse_port(b"000065535", 0, 9), Some(65535));
    assert_eq!(parse_port(b"655350", 0, 6), None);
}

#[test]
fn field_ends_at_the_next_colon_or_the_end() {
    assert_eq!(find_field_end(b"ab:cd:e", 0), 2);
    assert_eq!(find_field_end(b"ab:cd:e", 2), 2);
    assert_eq!(find_field_end(b"ab:cd:e", 3), 5);
    assert_eq!(find_field_end(b"ab:cd:e", 6), 7);
    assert_eq!(find_field_end(b"ab:cd:e", 7), 7);
    assert_eq!(find_field_end(b"", 0), 0);
}

#[test]
fn configuration_is_resolved_from_address_and_key() {
    let expected = Secp256k1PublicKey::from_str(PUBLIC_KEY).unwrap().into_bytes().to_vec();
    assert_eq!(
        resolve_configuration(b"127.0.0.1:8442", PUBLIC_KEY),
        Ok(ResolvedConfiguration {
            template_provider_host: b"127.0.0.1".to_vec(),
            template_provider_port: 8442,
            authority_key: expected,
        })
    );
}

#[test]
fn configuration_with_a_bad_address_or_key_is_unrecoverable() {
    assert_eq!(resolve_configuration(b"127.0.0.1", PUBLIC_KEY), Err(Error::Unrecoverable));
    assert_eq!(resolve_configuration(b"127.0.0.1:8442", "nokey"), Err(Error::Unrecoverable));
    assert_eq!(resolve_configuration(b"", ""), Err(Error::Unrecoverable));
}
