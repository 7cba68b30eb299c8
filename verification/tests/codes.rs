use totp26::{current_time, generate_auth_code, generate_auth_code_for_time, AuthCodeError};

#[test]
fn time_works() {
    assert!(current_time() > 0);
}

#[test]
fn generating_a_code_works() {
    let secret = String::from("000000000000000000000000000=");
    let time: u32 = 1634603498;
    let code = generate_auth_code_for_time(secret, time).unwrap();

    assert_eq!(code, "2C5H2");
}

#[test]
fn second_known_vector() {
    // "another secret key" in base64.
    let secret = String::from("YW5vdGhlciBzZWNyZXQga2V5");
    assert_eq!(generate_auth_code_for_time(secret.clone(), 0).unwrap(), "YYQ76");
    assert_eq!(generate_auth_code_for_time(secret, 59).unwrap(), "33WMY");
}

#[test]
fn same_inputs_same_code() {
    let secret = String::from("000000000000000000000000000=");
    let a = generate_auth_code_for_time(secret.clone(), 1634603498).unwrap();
    let b = generate_auth_code_for_time(secret, 1634603498).unwrap();
    assert_eq!(a, b);
}

#[test]
fn same_window_same_code() {
    let secret = String::from("000000000000000000000000000=");
    let first = generate_auth_code_for_time(secret.clone(), 1634603490).unwrap();
    let last = generate_auth_code_for_time(secret.clone(), 1634603519).unwrap();
    assert_eq!(first, last);
    assert_eq!(first, "2C5H2");

    let secret2 = String::from("YW5vdGhlciBzZWNyZXQga2V5");
    let a = generate_auth_code_for_time(secret2.clone(), 0).unwrap();
    let b = generate_auth_code_for_time(secret2, 29).unwrap();
    assert_eq!(a, b);
}

#[test]
fn window_boundary_changes_code() {
    let secret = String::from("000000000000000000000000000=");
    let before = generate_auth_code_for_time(secret.clone(), 1634603489).unwrap();
    let after = generate_auth_code_for_time(secret, 1634603490).unwrap();
    assert_eq!(before, "MW9FF");
    assert_eq!(after, "2C5H2");
    assert_ne!(before, after);
}

#[test]
fn invalid_secret_is_rejected() {
    let bad = String::from("!!! not base64 !!!");
    assert_eq!(
        generate_auth_code_for_time(bad.clone(), 1634603498),
        Err(AuthCodeError::InvalidSecret)
    );
    assert_eq!(generate_auth_code(bad), Err(AuthCodeError::InvalidSecret));
}

#[test]
fn codes_are_five_symbols_from_the_alphabet() {
    let alphabet = "23456789BCDFGHJKMNPQRTVWXY";
    let secret = String::from("000000000000000000000000000=");
    for k in 0..50u32 {
        let code = generate_auth_code_for_time(secret.clone(), 30 * k).unwrap();
        assert_eq!(code.chars().count(), 5);
        for c in code.chars() {
            assert!(alphabet.contains(c), "unexpected symbol {c}");
        }
    }
}

#[test]
fn every_symbol_eventually_appears() {
    let alphabet = "23456789BCDFGHJKMNPQRTVWXY";
    let secret = String::from("000000000000000000000000000=");
    let mut seen = [false; 26];
    for k in 0..200u32 {
        let code = generate_auth_code_for_time(secret.clone(), 30 * k).unwrap();
        for c in code.chars() {
            let pos = alphabet.chars().position(|a| a == c).expect("symbol from the alphabet");
            seen[pos] = true;
        }
    }
    assert!(seen.iter().all(|&b| b), "some alphabet symbol never appeared");
}

#[test]
fn current_time_code_matches_some_recent_window() {
    let secret = String::from("000000000000000000000000000=");
    let before = current_time();
    let code = generate_auth_code(secret.clone()).unwrap();
    let after = current_time();
    // The clock can only have moved forward a little between the reads, so
    // the code must match one of the windows the call could have seen.
    let mut matched = false;
    for t in before..=after {
        if generate_auth_code_for_time(secret.clone(), t).unwrap() == code {
            matched = true;
            break;
        }
    }
    assert!(matched);
}
