use std::cell::{Cell, RefCell};

use bss_verify::{verify, DecodeError, Field, VerifyOutcome, VerifyParams};

/// A scheme for tests: a text decodes when it starts with `good`, and the
/// verifier accepts when the message is the one that was signed.
fn decode_marked(text: &str) -> Option<String> {
    if text.starts_with("good") {
        Some(text.to_string())
    } else {
        None
    }
}

fn request(signature: &str, gpk: &str, message: &[u8]) -> Vec<u8> {
    VerifyParams {
        message: message.to_vec(),
        signature: signature.to_string(),
        gpk: gpk.to_string(),
    }
    .to_bytes()
}

#[test]
fn matching_message_is_verified() {
    let data = request("good signature", "good gpk", b"hoge");
    let outcome = verify(&data, decode_marked, decode_marked, |message, _, _| message == b"hoge");
    assert_eq!(outcome, VerifyOutcome::Verified);
}

#[test]
fn different_message_is_rejected_not_malformed() {
    let data = request("good signature", "good gpk", b"fuga");
    let outcome = verify(&data, decode_marked, decode_marked, |message, _, _| message == b"hoge");
    assert_eq!(outcome, VerifyOutcome::Rejected);
}

#[test]
fn single_line_is_malformed_and_nothing_is_asked() {
    let asked = Cell::new(0u32);
    let outcome = verify(
        b"a single line with no separators",
        |_| {
            asked.set(asked.get() + 1);
            Some(())
        },
        |_| {
            asked.set(asked.get() + 1);
            Some(())
        },
        |_, _, _| {
            asked.set(asked.get() + 1);
            true
        },
    );
    assert_eq!(outcome, VerifyOutcome::Malformed(DecodeError::TooFewFields));
    assert_eq!(asked.get(), 0);
}

#[test]
fn two_byte_buffer_is_malformed() {
    let outcome = verify(b"ab", decode_marked, decode_marked, |_, _, _| true);
    assert_eq!(outcome, VerifyOutcome::Malformed(DecodeError::TooFewFields));
    let outcome = verify(b"\n\n", decode_marked, decode_marked, |_, _, _| true);
    assert_eq!(
        outcome,
        VerifyOutcome::Malformed(DecodeError::SubObject { which: Field::Signature })
    );
}

#[test]
fn corrupted_signature_is_malformed_and_the_verifier_is_not_asked() {
    let asked = Cell::new(false);
    let data = request("bad signature", "good gpk", b"hoge");
    let outcome = verify(&data, decode_marked, decode_marked, |_, _, _| {
        asked.set(true);
        true
    });
    assert_eq!(
        outcome,
        VerifyOutcome::Malformed(DecodeError::SubObject { which: Field::Signature })
    );
    assert!(!asked.get());
}

#[test]
fn corrupted_gpk_is_malformed_and_the_verifier_is_not_asked() {
    let asked = Cell::new(false);
    let data = request("good signature", "bad gpk", b"hoge");
    let outcome = verify(&data, decode_marked, decode_marked, |_, _, _| {
        asked.set(true);
        true
    });
    assert_eq!(outcome, VerifyOutcome::Malformed(DecodeError::SubObject { which: Field::Gpk }));
    assert!(!asked.get());
}

#[test]
fn signature_is_decoded_before_the_gpk() {
    let data = request("bad signature", "bad gpk", b"hoge");
    let gpk_asked = Cell::new(false);
    let outcome = verify(
        &data,
        decode_marked,
        |text| {
            gpk_asked.set(true);
            decode_marked(text)
        },
        |_, _, _| true,
    );
    assert_eq!(
        outcome,
        VerifyOutcome::Malformed(DecodeError::SubObject { which: Field::Signature })
    );
    assert!(!gpk_asked.get());
}

#[test]
fn capabilities_see_the_fields_as_they_were_sent() {
    let seen_signature = RefCell::new(String::new());
    let seen_gpk = RefCell::new(String::new());
    let seen_message = RefCell::new(Vec::new());
    let message: Vec<u8> = vec![0x0a, 0x00, 0xff, 0x0a, 0x7b, 0x0a];
    let data = request("{\"t1\":[1,2]}", "{\"h\":[3]}", &message);
    let outcome = verify(
        &data,
        |text| {
            *seen_signature.borrow_mut() = text.to_string();
            Some(1u8)
        },
        |text| {
            *seen_gpk.borrow_mut() = text.to_string();
            Some(2u16)
        },
        |bytes, signature, gpk| {
            *seen_message.borrow_mut() = bytes.to_vec();
            *signature == 1 && *gpk == 2
        },
    );
    assert_eq!(outcome, VerifyOutcome::Verified);
    assert_eq!(*seen_signature.borrow(), "{\"t1\":[1,2]}");
    assert_eq!(*seen_gpk.borrow(), "{\"h\":[3]}");
    assert_eq!(*seen_message.borrow(), message);
}

#[test]
fn json_sub_objects_are_decoded_by_the_capabilities() {
    let signature = "{\"hash\":[192,26,219],\"sa\":[51,221]}";
    let gpk = "{\"h\":[182,195],\"partical_gpks\":[{\"h\":[128],\"omega\":[169]}]}";
    let message = b"{\"username\":\"Xxvv\",\"password\":\"ccthvvf\",\"signature\":\"test\"}";
    let decode_json = |text: &str| serde_json::from_str::<serde_json::Value>(text).ok();
    let accepts = |_: &[u8], signature: &serde_json::Value, gpk: &serde_json::Value| {
        signature.get("hash").is_some() && gpk.get("partical_gpks").is_some()
    };

    let data = request(signature, gpk, message);
    assert_eq!(verify(&data, decode_json, decode_json, accepts), VerifyOutcome::Verified);

    let data = request("{\"hash\":[192,26,219", gpk, message);
    assert_eq!(
        verify(&data, decode_json, decode_json, accepts),
        VerifyOutcome::Malformed(DecodeError::SubObject { which: Field::Signature })
    );

    let data = request(signature, "bm90IGpzb24=", message);
    assert_eq!(
        verify(&data, decode_json, decode_json, accepts),
        VerifyOutcome::Malformed(DecodeError::SubObject { which: Field::Gpk })
    );
}

#[test]
fn same_bytes_give_the_same_outcome() {
    let buffers: Vec<Vec<u8>> = vec![
        request("good signature", "good gpk", b"hoge"),
        request("good signature", "good gpk", b"fuga"),
        request("bad", "good gpk", b"hoge"),
        request("good signature", "bad", b"hoge"),
        b"no separators".to_vec(),
    ];
    for buffer in buffers {
        let first = verify(&buffer, decode_marked, decode_marked, |m, _, _| m == b"hoge");
        let second = verify(&buffer, decode_marked, decode_marked, |m, _, _| m == b"hoge");
        assert_eq!(first, second);
    }
}
