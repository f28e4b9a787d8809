use capabilities::{decode_flag_byte, flag_byte, Capabilities, DecodeError, ENCODED_LEN};

fn every_value() -> Vec<Capabilities> {
    let mut all: Vec<Capabilities> = Vec::new();
    for write in [false, true] {
        for log in [false, true] {
            all.push(Capabilities { write, log });
        }
    }
    all
}

#[test]
fn round_trip_every_value() {
    for x in every_value() {
        let encoded = x.encode();
        assert_eq!(encoded.len(), ENCODED_LEN);
        assert_eq!(Capabilities::decode(&encoded), Ok(x));
    }
}

#[test]
fn is_subset_reflexive() {
    for x in every_value() {
        assert!(x.is_subset(&x));
    }
}

#[test]
fn is_subset_antisymmetric() {
    for x in every_value() {
        for y in every_value() {
            if x.is_subset(&y) && y.is_subset(&x) {
                assert_eq!(x, y);
            }
        }
    }
}

#[test]
fn is_subset_transitive() {
    for x in every_value() {
        for y in every_value() {
            for z in every_value() {
                if x.is_subset(&y) && y.is_subset(&z) {
                    assert!(x.is_subset(&z));
                }
            }
        }
    }
}

#[test]
fn none_is_bottom_and_all_is_top() {
    for x in every_value() {
        assert!(Capabilities::none().is_subset(&x));
        assert!(x.is_subset(&Capabilities::all()));
    }
}

#[test]
fn none_differs_from_all() {
    assert_ne!(Capabilities::none(), Capabilities::all());
}

#[test]
fn default_equals_none() {
    assert_eq!(Capabilities::default(), Capabilities::none());
}

#[test]
fn encodes_write_only_as_one_zero() {
    let x = Capabilities { write: true, log: false };
    assert_eq!(x.encode(), vec![0x01, 0x00]);
}

#[test]
fn decodes_one_one_as_all() {
    assert_eq!(Capabilities::decode(&[0x01, 0x01]), Ok(Capabilities::all()));
    assert_eq!(
        Capabilities::decode(&[0x01, 0x01]),
        Ok(Capabilities { write: true, log: true })
    );
}

#[test]
fn rejects_invalid_flag_byte() {
    assert_eq!(
        Capabilities::decode(&[0x02, 0x00]),
        Err(DecodeError::InvalidEncoding)
    );
}

#[test]
fn rejects_truncated_input() {
    assert_eq!(
        Capabilities::decode(&[0x01]),
        Err(DecodeError::UnexpectedEof)
    );
}

#[test]
fn incomparable_values_are_no_subsets() {
    let write_only = Capabilities { write: true, log: false };
    let log_only = Capabilities { write: false, log: true };
    assert!(!write_only.is_subset(&log_only));
    assert!(!log_only.is_subset(&write_only));
}

#[test]
fn rejects_empty_input() {
    assert_eq!(Capabilities::decode(&[]), Err(DecodeError::UnexpectedEof));
}

#[test]
fn rejects_invalid_second_flag_byte() {
    assert_eq!(
        Capabilities::decode(&[0x00, 0xff]),
        Err(DecodeError::InvalidEncoding)
    );
}

#[test]
fn invalid_first_byte_wins_over_truncation() {
    assert_eq!(
        Capabilities::decode(&[0x02]),
        Err(DecodeError::InvalidEncoding)
    );
}

#[test]
fn decode_reads_only_the_flag_bytes() {
    assert_eq!(
        Capabilities::decode(&[0x01, 0x00, 0x37]),
        Ok(Capabilities { write: true, log: false })
    );
}

#[test]
fn decodes_zero_zero_as_none() {
    assert_eq!(Capabilities::decode(&[0x00, 0x00]), Ok(Capabilities::none()));
}

#[test]
fn encode_to_appends_to_existing_bytes() {
    let mut dest = vec![0xaa];
    Capabilities { write: false, log: true }.encode_to(&mut dest);
    assert_eq!(dest, vec![0xaa, 0x00, 0x01]);
}

#[test]
fn flag_byte_markers() {
    assert_eq!(flag_byte(true), 0x01);
    assert_eq!(flag_byte(false), 0x00);
}

#[test]
fn decode_flag_byte_is_strict() {
    assert_eq!(decode_flag_byte(0x00), Ok(false));
    assert_eq!(decode_flag_byte(0x01), Ok(true));
    for byte in 0x02..=0xffu8 {
        assert_eq!(decode_flag_byte(byte), Err(DecodeError::InvalidEncoding));
    }
}
