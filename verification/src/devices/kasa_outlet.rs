//! TP-Link Kasa smart plug: request builders, response checks and the
//! "autokey" xor framing that the plug speaks over TCP port 9999.
use vstd::prelude::*;
use crate::config::IpAddress;
use crate::google_home::errors::{DeviceError, ErrorCode as HomeErrorCode};

verus! {

/// The key with which the plug's cipher starts.
pub const INITIAL_KEY: u8 = 171;

/// The TCP port on which a Kasa plug listens.
pub const KASA_PORT: u16 = 9999;

/// The cipher key in force just before plain byte `i` is encrypted: the
/// initial key xor-ed with every plain byte before position `i`.
pub open spec fn autokey(plain: Seq<u8>, i: nat) -> u8
    decreases i,
{
    if i == 0 {
        INITIAL_KEY
    } else {
        autokey(plain, (i - 1) as nat) ^ plain[i - 1]
    }
}

/// The encrypted body: byte `i` is the key after plain byte `i` was mixed in.
pub open spec fn encrypt_body(plain: Seq<u8>) -> Seq<u8> {
    Seq::new(plain.len(), |i: int| autokey(plain, (i + 1) as nat))
}

/// The decrypted body: each byte is xor-ed with the previous cipher byte,
/// the first one with the initial key.
pub open spec fn decrypt_body(cipher: Seq<u8>) -> Seq<u8> {
    Seq::new(
        cipher.len(),
        |i: int| (if i == 0 { INITIAL_KEY } else { cipher[i - 1] }) ^ cipher[i],
    )
}

/// A 32-bit number as four big-endian bytes.
pub open spec fn be_u32(n: u32) -> Seq<u8> {
    seq![
        (n / 0x100_0000) as u8,
        ((n / 0x1_0000) % 0x100) as u8,
        ((n / 0x100) % 0x100) as u8,
        (n % 0x100) as u8,
    ]
}

/// A whole frame: the body length (truncated to 32 bits) in big-endian,
/// followed by the encrypted body.
pub open spec fn spec_encrypt(plain: Seq<u8>) -> Seq<u8> {
    be_u32((plain.len() % 0x1_0000_0000) as u32) + encrypt_body(plain)
}

/// What decrypting a frame gives: nothing for a frame shorter than its
/// four-byte header, else the decrypted bytes after the header.
pub open spec fn spec_decrypt(frame: Seq<u8>) -> Option<Seq<u8>> {
    if frame.len() < 4 {
        None
    } else {
        Some(decrypt_body(frame.subrange(4, frame.len() as int)))
    }
}

proof fn lemma_xor_cancel(a: u8, b: u8)
    ensures
        a ^ (a ^ b) == b,
{
    assert(a ^ (a ^ b) == b) by (bit_vector);
}

/// Decrypting an encrypted frame gives back exactly the plain bytes.
pub proof fn lemma_decrypt_encrypt(plain: Seq<u8>)
    ensures
        spec_decrypt(spec_encrypt(plain)) == Some(plain),
{
    let frame = spec_encrypt(plain);
    let cipher = encrypt_body(plain);
    assert(frame.subrange(4, frame.len() as int) =~= cipher);
    assert forall|i: int| 0 <= i < plain.len() implies #[trigger] decrypt_body(cipher)[i]
        == plain[i] by {
        let k = autokey(plain, i as nat);
        if i == 0 {
            assert(cipher[0] == INITIAL_KEY ^ plain[0]);
        } else {
            assert(cipher[i - 1] == autokey(plain, i as nat));
        }
        assert(autokey(plain, (i + 1) as nat) == k ^ plain[i]);
        lemma_xor_cancel(k, plain[i]);
    }
    assert(decrypt_body(cipher) =~= plain);
}

/// The ways in which talking to a plug can fail.
pub enum ResponseError {
    /// The frame is shorter than its four-byte header.
    ToShort,
    /// The reply has no system information.
    SysinfoNotFound,
    /// The reply has no relay-state answer.
    RelayStateNotFound,
    /// The plug answered with a non-zero error code.
    ErrorCode(isize),
    /// The reply could not be decoded; the text says why.
    Other(String),
}

/// Frames serialized request bytes for the plug: the length as a big-endian
/// `u32`, then the body under the autokey cipher.
pub fn encrypt(data: &[u8]) -> (res: Vec<u8>)
    ensures
        res@ == spec_encrypt(data@),
{
    let len: usize = data.len();
    let len32: u32 = ((len as u64) % 0x1_0000_0000u64) as u32;
    let mut encrypted: Vec<u8> = Vec::new();
    encrypted.push((len32 / 0x100_0000) as u8);
    encrypted.push(((len32 / 0x1_0000) % 0x100) as u8);
    encrypted.push(((len32 / 0x100) % 0x100) as u8);
    encrypted.push((len32 % 0x100) as u8);
    assert(encrypted@ =~= be_u32((data@.len() % 0x1_0000_0000) as u32));
    let ghost header = encrypted@;

    let mut key: u8 = INITIAL_KEY;
    let mut i: usize = 0;
    while i < len
        invariant
            len == data@.len(),
            i <= len,
            header == be_u32((data@.len() % 0x1_0000_0000) as u32),
            key == autokey(data@, i as nat),
            encrypted@ =~= header + encrypt_body(data@).take(i as int),
        decreases len - i,
    {
        key = key ^ data[i];
        encrypted.push(key);
        i = i + 1;
        assert(encrypted@ =~= header + encrypt_body(data@).take(i as int));
    }
    assert(encrypt_body(data@).take(len as int) =~= encrypt_body(data@));
    encrypted
}

/// Unframes a reply of the plug: checks the four-byte header and decrypts
/// the body that follows it.
pub fn decrypt(data: &[u8]) -> (res: Result<Vec<u8>, ResponseError>)
    ensures
        data@.len() < 4 <==> res is Err,
        res matches Err(e) ==> e is ToShort,
        res matches Ok(v) ==> spec_decrypt(data@) == Some(v@),
{
    let len: usize = data.len();
    if len < 4 {
        return Err(ResponseError::ToShort);
    }
    let ghost body = data@.subrange(4, len as int);
    let mut decrypted: Vec<u8> = Vec::new();
    let mut key: u8 = INITIAL_KEY;
    let mut i: usize = 4;
    while i < len
        invariant
            len == data@.len(),
            4 <= i <= len,
            body == data@.subrange(4, len as int),
            key == (if i == 4 { INITIAL_KEY } else { data@[i - 1] }),
            decrypted@ =~= decrypt_body(body).take(i - 4),
        decreases len - i,
    {
        let c = data[i];
        decrypted.push(key ^ c);
        key = c;
        i = i + 1;
        assert(decrypted@ =~= decrypt_body(body).take(i - 4));
    }
    assert(decrypt_body(body).take(len - 4) =~= decrypt_body(body));
    Ok(decrypted)
}

/// The `set_relay_state` part of a request.
pub struct RequestRelayState {
    pub state: isize,
}

/// The `get_sysinfo` part of a request; it carries nothing.
pub struct RequestSysinfo;

/// The `system` part of a request.
pub struct RequestSystem {
    pub get_sysinfo: Option<RequestSysinfo>,
    pub set_relay_state: Option<RequestRelayState>,
}

/// A request to a plug.
pub struct Request {
    pub system: RequestSystem,
}

impl Request {
    /// A request for the plug's system information.
    pub fn get_sysinfo() -> (res: Self)
        ensures
            res.system.get_sysinfo is Some,
            res.system.set_relay_state is None,
    {
        Request {
            system: RequestSystem { get_sysinfo: Some(RequestSysinfo), set_relay_state: None },
        }
    }

    /// A request to switch the relay: state 1 for on, 0 for off.
    pub fn set_relay_state(on: bool) -> (res: Self)
        ensures
            res.system.get_sysinfo is None,
            res.system.set_relay_state matches Some(r) && r.state == (if on { 1isize } else { 0isize }),
    {
        Request {
            system: RequestSystem {
                get_sysinfo: None,
                set_relay_state: Some(RequestRelayState { state: if on { 1 } else { 0 } }),
            },
        }
    }
}

/// The error code that every answer of the plug carries.
pub struct ErrorCode {
    pub err_code: isize,
}

impl ErrorCode {
    /// Success exactly when the code is zero.
    pub fn ok(&self) -> (res: Result<(), ResponseError>)
        ensures
            res == (if self.err_code == 0 {
                Ok(())
            } else {
                Err(ResponseError::ErrorCode(self.err_code))
            }),
    {
        if self.err_code != 0 {
            Err(ResponseError::ErrorCode(self.err_code))
        } else {
            Ok(())
        }
    }
}

/// The answer to `set_relay_state`.
pub struct ResponseSetRelayState {
    pub err_code: ErrorCode,
}

/// The answer to `get_sysinfo`.
pub struct ResponseGetSysinfo {
    pub err_code: ErrorCode,
    pub relay_state: isize,
}

/// The `system` part of a reply.
pub struct ResponseSystem {
    pub set_relay_state: Option<ResponseSetRelayState>,
    pub get_sysinfo: Option<ResponseGetSysinfo>,
}

/// A reply of a plug.
pub struct Response {
    pub system: ResponseSystem,
}

/// What a reply says of the relay: on when its state is 1.
pub open spec fn spec_relay_state(resp: Response) -> Result<bool, ResponseError> {
    match resp.system.get_sysinfo {
        Some(sysinfo) => if sysinfo.err_code.err_code != 0 {
            Err(ResponseError::ErrorCode(sysinfo.err_code.err_code))
        } else {
            Ok(sysinfo.relay_state == 1)
        },
        None => Err(ResponseError::SysinfoNotFound),
    }
}

/// Whether a reply confirms that the relay was switched.
pub open spec fn spec_set_relay_success(resp: Response) -> Result<(), ResponseError> {
    match resp.system.set_relay_state {
        Some(r) => if r.err_code.err_code != 0 {
            Err(ResponseError::ErrorCode(r.err_code.err_code))
        } else {
            Ok(())
        },
        None => Err(ResponseError::RelayStateNotFound),
    }
}

impl Response {
    /// The relay state that a `get_sysinfo` reply reports.
    pub fn get_current_relay_state(&self) -> (res: Result<bool, ResponseError>)
        ensures
            res == spec_relay_state(*self),
    {
        if let Some(sysinfo) = &self.system.get_sysinfo {
            return match sysinfo.err_code.ok() {
                Ok(()) => Ok(sysinfo.relay_state == 1),
                Err(e) => Err(e),
            };
        }
        Err(ResponseError::SysinfoNotFound)
    }

    /// Whether a `set_relay_state` reply reports success.
    pub fn check_set_relay_success(&self) -> (res: Result<(), ResponseError>)
        ensures
            res == spec_set_relay_success(*self),
    {
        if let Some(set_relay_state) = &self.system.set_relay_state {
            return set_relay_state.err_code.ok();
        }
        Err(ResponseError::RelayStateNotFound)
    }
}

/// Configuration of a plug: its id and IP address.
pub struct Config {
    pub identifier: String,
    pub ip: IpAddress,
}

/// A Kasa plug.
pub struct KasaOutlet {
    config: Config,
}

/// What Google Home is told when a plug's reply is missing or says no.
pub open spec fn transient() -> HomeErrorCode {
    HomeErrorCode::DeviceError(DeviceError::TransientError)
}

impl KasaOutlet {
    pub closed spec fn config(&self) -> Config {
        self.config
    }

    pub fn create(config: Config) -> (res: Self)
        ensures
            res.config() == config,
    {
        KasaOutlet { config }
    }

    pub fn get_id(&self) -> (res: String)
        ensures
            res == self.config().identifier,
    {
        self.config.identifier.clone()
    }

    /// Whether the plug is on, from the whole exchange with it: `None` when
    /// no connection could be made, which means the plug is offline; else
    /// its reply as `on_from_reply` reads it.
    pub fn on_from_exchange(exchange: Option<Result<Response, ResponseError>>) -> (res: Result<bool, HomeErrorCode>)
        ensures
            match exchange {
                None => res == Err::<bool, HomeErrorCode>(HomeErrorCode::DeviceError(DeviceError::DeviceOffline)),
                Some(Ok(r)) => match spec_relay_state(r) {
                    Ok(on) => res == Ok::<bool, HomeErrorCode>(on),
                    Err(_) => res == Err::<bool, HomeErrorCode>(transient()),
                },
                Some(Err(_)) => res == Err::<bool, HomeErrorCode>(transient()),
            },
    {
        match exchange {
            None => Err(HomeErrorCode::DeviceError(DeviceError::DeviceOffline)),
            Some(reply) => Self::on_from_reply(reply),
        }
    }

    /// Whether switching the plug worked, from the whole exchange with it:
    /// `None` when no connection could be made (offline); else its reply as
    /// `set_on_from_reply` reads it.
    pub fn set_on_from_exchange(exchange: Option<Result<Response, ResponseError>>) -> (res: Result<(), HomeErrorCode>)
        ensures
            match exchange {
                None => res == Err::<(), HomeErrorCode>(HomeErrorCode::DeviceError(DeviceError::DeviceOffline)),
                Some(Ok(r)) => match spec_set_relay_success(r) {
                    Ok(()) => res == Ok::<(), HomeErrorCode>(()),
                    Err(_) => res == Err::<(), HomeErrorCode>(transient()),
                },
                Some(Err(_)) => res == Err::<(), HomeErrorCode>(transient()),
            },
    {
        match exchange {
            None => Err(HomeErrorCode::DeviceError(DeviceError::DeviceOffline)),
            Some(reply) => Self::set_on_from_reply(reply),
        }
    }

    /// Whether the plug is on, from its (decoded) reply to `get_sysinfo`;
    /// any failure is a transient error.
    pub fn on_from_reply(reply: Result<Response, ResponseError>) -> (res: Result<bool, HomeErrorCode>)
        ensures
            match reply {
                Ok(r) => match spec_relay_state(r) {
                    Ok(on) => res == Ok::<bool, HomeErrorCode>(on),
                    Err(_) => res == Err::<bool, HomeErrorCode>(transient()),
                },
                Err(_) => res == Err::<bool, HomeErrorCode>(transient()),
            },
    {
        match reply {
            Ok(resp) => match resp.get_current_relay_state() {
                Ok(on) => Ok(on),
                Err(_) => Err(HomeErrorCode::DeviceError(DeviceError::TransientError)),
            },
            Err(_) => Err(HomeErrorCode::DeviceError(DeviceError::TransientError)),
        }
    }

    /// Whether switching the plug worked, from its (decoded) reply to
    /// `set_relay_state`; any failure is a transient error.
    pub fn set_on_from_reply(reply: Result<Response, ResponseError>) -> (res: Result<(), HomeErrorCode>)
        ensures
            match reply {
                Ok(r) => match spec_set_relay_success(r) {
                    Ok(()) => res == Ok::<(), HomeErrorCode>(()),
                    Err(_) => res == Err::<(), HomeErrorCode>(transient()),
                },
                Err(_) => res == Err::<(), HomeErrorCode>(transient()),
            },
    {
        match reply {
            Ok(resp) => match resp.check_set_relay_success() {
                Ok(()) => Ok(()),
                Err(_) => Err(HomeErrorCode::DeviceError(DeviceError::TransientError)),
            },
            Err(_) => Err(HomeErrorCode::DeviceError(DeviceError::TransientError)),
        }
    }
}

} // verus!
