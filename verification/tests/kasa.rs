use automation::devices::kasa_outlet::{
    decrypt, encrypt, ErrorCode, Request, Response, ResponseError, ResponseGetSysinfo,
    ResponseSetRelayState, ResponseSystem,
};

#[test]
fn encrypt_frames_and_xors() {
    let frame = encrypt(b"{}");
    // length 2, big-endian, then 171 ^ '{' and (171 ^ '{') ^ '}'
    let k0 = 171u8 ^ b'{';
    let k1 = k0 ^ b'}';
    assert_eq!(frame, vec![0, 0, 0, 2, k0, k1]);
}

#[test]
fn decrypt_inverts_encrypt() {
    let data = br#"{"system":{"get_sysinfo":null}}"#.to_vec();
    let frame = encrypt(&data);
    match decrypt(&frame) {
        Ok(plain) => assert_eq!(plain, data),
        Err(_) => panic!("expected the plain bytes back"),
    }
}

#[test]
fn decrypt_rejects_short_frames() {
    assert!(matches!(decrypt(&[0, 0, 1]), Err(ResponseError::ToShort)));
    match decrypt(&[0, 0, 0, 0]) {
        Ok(plain) => assert!(plain.is_empty()),
        Err(_) => panic!("a bare header is a valid empty frame"),
    }
}

#[test]
fn request_builders() {
    let r = Request::get_sysinfo();
    assert!(r.system.get_sysinfo.is_some());
    assert!(r.system.set_relay_state.is_none());
    let on = Request::set_relay_state(true);
    assert_eq!(on.system.set_relay_state.unwrap().state, 1);
    let off = Request::set_relay_state(false);
    assert_eq!(off.system.set_relay_state.unwrap().state, 0);
    assert!(off.system.get_sysinfo.is_none());
}

#[test]
fn error_code_ok() {
    assert!(ErrorCode { err_code: 0 }.ok().is_ok());
    assert!(matches!(ErrorCode { err_code: -3 }.ok(), Err(ResponseError::ErrorCode(-3))));
}

#[test]
fn relay_state_from_response() {
    let resp = Response {
        system: ResponseSystem {
            set_relay_state: None,
            get_sysinfo: Some(ResponseGetSysinfo { err_code: ErrorCode { err_code: 0 }, relay_state: 1 }),
        },
    };
    assert!(matches!(resp.get_current_relay_state(), Ok(true)));
    assert!(matches!(resp.check_set_relay_success(), Err(ResponseError::RelayStateNotFound)));

    let off = Response {
        system: ResponseSystem {
            set_relay_state: Some(ResponseSetRelayState { err_code: ErrorCode { err_code: 0 } }),
            get_sysinfo: Some(ResponseGetSysinfo { err_code: ErrorCode { err_code: 0 }, relay_state: 0 }),
        },
    };
    assert!(matches!(off.get_current_relay_state(), Ok(false)));
    assert!(off.check_set_relay_success().is_ok());

    let failed = Response {
        system: ResponseSystem {
            set_relay_state: Some(ResponseSetRelayState { err_code: ErrorCode { err_code: 7 } }),
            get_sysinfo: Some(ResponseGetSysinfo { err_code: ErrorCode { err_code: 9 }, relay_state: 1 }),
        },
    };
    assert!(matches!(failed.get_current_relay_state(), Err(ResponseError::ErrorCode(9))));
    assert!(matches!(failed.check_set_relay_success(), Err(ResponseError::ErrorCode(7))));

    let empty = Response { system: ResponseSystem { set_relay_state: None, get_sysinfo: None } };
    assert!(matches!(empty.get_current_relay_state(), Err(ResponseError::SysinfoNotFound)));
}
