//! The opening handshake, run on the raw transport before any task is
//! spawned.
//!
//! The sequence is: protocol header, `Start`/`StartOk` (SASL mechanism
//! choice), zero or more `Secure`/`SecureOk` rounds, `Tune`/`TuneOk`
//! (limit negotiation), `Open`/`OpenOk`.  The whole exchange is a state
//! machine over typed frames; the loop that reads and writes them lives
//! outside the crate.

use vstd::prelude::*;
use crate::error::HandshakeStage;

verus! {

/// Client tuning preferences used when the server proposes no limit.
pub const DEFAULT_CHANNEL_MAX: u16 = 2047;

pub const DEFAULT_FRAME_MAX: u32 = 131072;

/// Seconds; `0` disables the heartbeat.
pub const DEFAULT_HEARTBEAT: u16 = 60;

/// The tunable triple of `Connection.Tune` / `Connection.TuneOk`.
#[derive(Clone, Copy, Debug, PartialEq, Eq, Structural)]
pub struct TuneParams {
    pub channel_max: u16,
    pub frame_max: u32,
    pub heartbeat: u16,
}

/// A SASL mechanism the server advertises.  The client supports `Plain`
/// and `AmqPlain`; anything else appears as `Other`.
#[derive(Clone, Copy, Debug, PartialEq, Eq, Structural)]
pub enum Mechanism {
    Plain,
    AmqPlain,
    Other,
}

pub open spec fn spec_supported(m: Mechanism) -> bool {
    m is Plain || m is AmqPlain
}

/// The first server-advertised mechanism the client supports.
pub open spec fn spec_pick(s: Seq<Mechanism>) -> Option<Mechanism>
    decreases s.len(),
{
    if s.len() == 0 {
        None
    } else if spec_supported(s[0]) {
        Some(s[0])
    } else {
        spec_pick(s.skip(1))
    }
}

/// Picks the first supported mechanism of the advertised list.
pub fn pick_mechanism(list: &Vec<Mechanism>) -> (r: Option<Mechanism>)
    ensures
        r == spec_pick(list@),
        r matches Some(m) ==> spec_supported(m),
{
    let mut i: usize = 0;
    assert(list@.skip(0) =~= list@);
    while i < list.len()
        invariant
            i <= list@.len(),
            spec_pick(list@) == spec_pick(list@.skip(i as int)),
        decreases list@.len() - i,
    {
        proof {
            assert(list@.skip(i as int)[0] == list@[i as int]);
            assert(list@.skip(i as int).skip(1) =~= list@.skip(i as int + 1));
        }
        let m = list[i];
        match m {
            Mechanism::Plain => {
                return Some(m);
            },
            Mechanism::AmqPlain => {
                return Some(m);
            },
            Mechanism::Other => {},
        }
        i = i + 1;
    }
    None
}

/// The 8-byte protocol header that opens the wire conversation.
pub open spec fn spec_protocol_header() -> Seq<u8> {
    seq![0x41u8, 0x4du8, 0x51u8, 0x50u8, 0u8, 0u8, 9u8, 1u8]
}

pub fn protocol_header() -> (h: Vec<u8>)
    ensures
        h@ =~= spec_protocol_header(),
{
    let mut h: Vec<u8> = Vec::new();
    h.push(0x41);
    h.push(0x4d);
    h.push(0x51);
    h.push(0x50);
    h.push(0);
    h.push(0);
    h.push(9);
    h.push(1);
    h
}

/// The SASL PLAIN response: NUL, user, NUL, password.
pub open spec fn spec_sasl_plain(user: Seq<u8>, pass: Seq<u8>) -> Seq<u8> {
    seq![0u8] + user + seq![0u8] + pass
}

pub fn sasl_plain_response(user: &Vec<u8>, pass: &Vec<u8>) -> (r: Vec<u8>)
    requires
        user@.len() + pass@.len() + 2 <= usize::MAX,
    ensures
        r@ =~= spec_sasl_plain(user@, pass@),
{
    let mut r: Vec<u8> = Vec::new();
    r.push(0);
    append_bytes(&mut r, user);
    r.push(0);
    append_bytes(&mut r, pass);
    r
}

fn append_bytes(dst: &mut Vec<u8>, src: &Vec<u8>)
    requires
        old(dst)@.len() + src@.len() <= usize::MAX,
    ensures
        final(dst)@ =~= old(dst)@ + src@,
{
    let mut i: usize = 0;
    while i < src.len()
        invariant
            i <= src@.len(),
            dst@.len() == old(dst)@.len() + i,
            dst@ =~= old(dst)@ + src@.subrange(0, i as int),
        decreases src@.len() - i,
    {
        dst.push(src[i]);
        proof {
            assert(dst@ =~= old(dst)@ + src@.subrange(0, i as int + 1));
        }
        i = i + 1;
    }
    proof {
        assert(src@.subrange(0, src@.len() as int) =~= src@);
    }
}

/// One negotiated field: the smaller of the two proposals, where `0`
/// means "no preference" and the other side wins.
pub open spec fn spec_negotiate_u16(server: u16, client: u16) -> u16 {
    if server == 0 {
        client
    } else if client == 0 {
        server
    } else if server <= client {
        server
    } else {
        client
    }
}

pub open spec fn spec_negotiate_u32(server: u32, client: u32) -> u32 {
    if server == 0 {
        client
    } else if client == 0 {
        server
    } else if server <= client {
        server
    } else {
        client
    }
}

pub fn negotiate_u16(server: u16, client: u16) -> (r: u16)
    ensures
        r == spec_negotiate_u16(server, client),
{
    if server == 0 {
        client
    } else if client == 0 {
        server
    } else if server <= client {
        server
    } else {
        client
    }
}

pub fn negotiate_u32(server: u32, client: u32) -> (r: u32)
    ensures
        r == spec_negotiate_u32(server, client),
{
    if server == 0 {
        client
    } else if client == 0 {
        server
    } else if server <= client {
        server
    } else {
        client
    }
}

/// The whole negotiated triple.
pub open spec fn spec_negotiate_tune(server: TuneParams, client: TuneParams) -> TuneParams {
    TuneParams {
        channel_max: spec_negotiate_u16(server.channel_max, client.channel_max),
        frame_max: spec_negotiate_u32(server.frame_max, client.frame_max),
        heartbeat: spec_negotiate_u16(server.heartbeat, client.heartbeat),
    }
}

pub fn negotiate_tune(server: TuneParams, client: TuneParams) -> (r: TuneParams)
    ensures
        r == spec_negotiate_tune(server, client),
{
    TuneParams {
        channel_max: negotiate_u16(server.channel_max, client.channel_max),
        frame_max: negotiate_u32(server.frame_max, client.frame_max),
        heartbeat: negotiate_u16(server.heartbeat, client.heartbeat),
    }
}

/// The channel limit the runtime actually uses: a negotiated `0`
/// (both sides declined to limit) falls back to the default.
pub fn effective_channel_max(negotiated: u16) -> (r: u16)
    ensures
        r == (if negotiated == 0 { DEFAULT_CHANNEL_MAX } else { negotiated }),
        r >= 1,
{
    if negotiated == 0 {
        DEFAULT_CHANNEL_MAX
    } else {
        negotiated
    }
}

/// The frame limit the runtime actually uses, with the same fallback.
/// The heartbeat has no such fallback: a negotiated `0` disables it.
pub fn effective_frame_max(negotiated: u32) -> (r: u32)
    ensures
        r == (if negotiated == 0 { DEFAULT_FRAME_MAX } else { negotiated }),
{
    if negotiated == 0 {
        DEFAULT_FRAME_MAX
    } else {
        negotiated
    }
}

/// What the client brings to the handshake.
pub struct HandshakeConfig {
    pub prefs: TuneParams,
    pub user: Vec<u8>,
    pub pass: Vec<u8>,
    pub vhost: String,
}

/// Where the handshake stands.
#[derive(Clone, Copy, Debug, PartialEq, Eq, Structural)]
pub enum HandshakeState {
    AwaitStart,
    AwaitTune { mechanism: Mechanism },
    AwaitOpenOk { tuning: TuneParams },
    Done { tuning: TuneParams },
    Failed { stage: HandshakeStage },
}

/// A server frame of the handshake, as the codec types it.  Anything
/// out of place arrives as `Unexpected`.
pub enum HandshakeIn {
    Start { mechanisms: Vec<Mechanism> },
    Secure,
    Tune { params: TuneParams },
    OpenOk,
    Unexpected,
}

/// The SASL response of `StartOk` / `SecureOk`.  The field-table form
/// of `AmqPlain` is encoded by the codec; `Plain` is already bytes.
pub enum SaslResponse {
    Plain { response: Vec<u8> },
    AmqPlain { user: Vec<u8>, pass: Vec<u8> },
}

/// A client frame of the handshake.
pub enum HandshakeOut {
    StartOk { mechanism: Mechanism, response: SaslResponse },
    SecureOk { response: SaslResponse },
    TuneOk { params: TuneParams },
    Open { vhost: String },
}

fn sasl_for(cfg: &HandshakeConfig, m: Mechanism) -> (r: SaslResponse)
    requires
        spec_supported(m),
        cfg.user@.len() + cfg.pass@.len() + 2 <= usize::MAX,
    ensures
        m is Plain ==> (r matches SaslResponse::Plain { response }
            && response@ == spec_sasl_plain(cfg.user@, cfg.pass@)),
        m is AmqPlain ==> (r matches SaslResponse::AmqPlain { user, pass }
            && user@ == cfg.user@ && pass@ == cfg.pass@),
{
    match m {
        Mechanism::Plain => SaslResponse::Plain {
            response: sasl_plain_response(&cfg.user, &cfg.pass),
        },
        Mechanism::AmqPlain => SaslResponse::AmqPlain {
            user: clone_bytes(&cfg.user),
            pass: clone_bytes(&cfg.pass),
        },
        Mechanism::Other => SaslResponse::Plain { response: Vec::new() },
    }
}

fn clone_bytes(src: &Vec<u8>) -> (r: Vec<u8>)
    requires
        src@.len() <= usize::MAX,
    ensures
        r@ == src@,
{
    let mut r: Vec<u8> = Vec::new();
    append_bytes(&mut r, src);
    proof {
        assert(Seq::<u8>::empty() + src@ =~= src@);
    }
    r
}

/// One step of the handshake: consumes a server frame, returns the new
/// state and the client frames to write, in order.
///
/// `Start` is answered with `StartOk` carrying the first supported
/// mechanism (failing the handshake at the `Auth` stage when there is
/// none); `Secure` rounds are tolerated until `Tune` arrives; `Tune` is
/// answered with the negotiated `TuneOk` followed immediately by
/// `Open`; `OpenOk` completes.  A frame out of place fails the
/// handshake at the stage it interrupted.
pub fn handshake_step(state: HandshakeState, cfg: &HandshakeConfig, input: HandshakeIn) -> (r: (
    HandshakeState,
    Vec<HandshakeOut>,
))
    requires
        cfg.user@.len() + cfg.pass@.len() + 2 <= usize::MAX,
    ensures
        match state {
            HandshakeState::AwaitStart => match input {
                HandshakeIn::Start { mechanisms } => match spec_pick(mechanisms@) {
                    Some(m) => {
                        &&& r.0 == (HandshakeState::AwaitTune { mechanism: m })
                        &&& r.1@.len() == 1
                        &&& r.1@[0] matches HandshakeOut::StartOk { mechanism, response }
                            && mechanism == m
                            && (m is Plain ==> (response matches SaslResponse::Plain {
                                response: b,
                            } && b@ == spec_sasl_plain(cfg.user@, cfg.pass@)))
                            && (m is AmqPlain ==> (response matches SaslResponse::AmqPlain {
                                user,
                                pass,
                            } && user@ == cfg.user@ && pass@ == cfg.pass@))
                    },
                    None => r.0 == (HandshakeState::Failed { stage: HandshakeStage::Auth })
                        && r.1@.len() == 0,
                },
                _ => r.0 == (HandshakeState::Failed { stage: HandshakeStage::Start })
                    && r.1@.len() == 0,
            },
            HandshakeState::AwaitTune { mechanism } => match input {
                HandshakeIn::Secure => {
                    &&& r.0 == (HandshakeState::AwaitTune { mechanism })
                    &&& r.1@.len() == 1
                    &&& r.1@[0] matches HandshakeOut::SecureOk { response }
                        && (mechanism is Plain ==> (response matches SaslResponse::Plain {
                            response: b,
                        } && b@ == spec_sasl_plain(cfg.user@, cfg.pass@)))
                        && (mechanism is AmqPlain ==> (response
                            matches SaslResponse::AmqPlain { user, pass }
                            && user@ == cfg.user@ && pass@ == cfg.pass@))
                },
                HandshakeIn::Tune { params } => {
                    let negotiated = spec_negotiate_tune(params, cfg.prefs);
                    &&& r.0 == (HandshakeState::AwaitOpenOk { tuning: negotiated })
                    &&& r.1@.len() == 2
                    &&& r.1@[0] == (HandshakeOut::TuneOk { params: negotiated })
                    &&& r.1@[1] matches HandshakeOut::Open { vhost } && vhost@ == cfg.vhost@
                },
                _ => r.0 == (HandshakeState::Failed { stage: HandshakeStage::Tune })
                    && r.1@.len() == 0,
            },
            HandshakeState::AwaitOpenOk { tuning } => match input {
                HandshakeIn::OpenOk => r.0 == (HandshakeState::Done { tuning })
                    && r.1@.len() == 0,
                _ => r.0 == (HandshakeState::Failed { stage: HandshakeStage::Open })
                    && r.1@.len() == 0,
            },
            HandshakeState::Done { tuning } => r.0 == (HandshakeState::Done { tuning })
                && r.1@.len() == 0,
            HandshakeState::Failed { stage } => r.0 == (HandshakeState::Failed { stage })
                && r.1@.len() == 0,
        },
{
    match state {
        HandshakeState::AwaitStart => match input {
            HandshakeIn::Start { mechanisms } => match pick_mechanism(&mechanisms) {
                Some(m) => {
                    let response = sasl_for(cfg, m);
                    let mut out: Vec<HandshakeOut> = Vec::new();
                    out.push(HandshakeOut::StartOk { mechanism: m, response });
                    (HandshakeState::AwaitTune { mechanism: m }, out)
                },
                None => (HandshakeState::Failed { stage: HandshakeStage::Auth }, Vec::new()),
            },
            _ => (HandshakeState::Failed { stage: HandshakeStage::Start }, Vec::new()),
        },
        HandshakeState::AwaitTune { mechanism } => match input {
            HandshakeIn::Secure => {
                // the credentials are repeated in the chosen mechanism's
                // form; AwaitTune is only ever reached with a supported one
                let response = match mechanism {
                    Mechanism::Other => SaslResponse::Plain {
                        response: sasl_plain_response(&cfg.user, &cfg.pass),
                    },
                    m => sasl_for(cfg, m),
                };
                let mut out: Vec<HandshakeOut> = Vec::new();
                out.push(HandshakeOut::SecureOk { response });
                (HandshakeState::AwaitTune { mechanism }, out)
            },
            HandshakeIn::Tune { params } => {
                let negotiated = negotiate_tune(params, cfg.prefs);
                let mut out: Vec<HandshakeOut> = Vec::new();
                out.push(HandshakeOut::TuneOk { params: negotiated });
                out.push(HandshakeOut::Open { vhost: cfg.vhost.clone() });
                (HandshakeState::AwaitOpenOk { tuning: negotiated }, out)
            },
            _ => (HandshakeState::Failed { stage: HandshakeStage::Tune }, Vec::new()),
        },
        HandshakeState::AwaitOpenOk { tuning } => match input {
            HandshakeIn::OpenOk => (HandshakeState::Done { tuning }, Vec::new()),
            _ => (HandshakeState::Failed { stage: HandshakeStage::Open }, Vec::new()),
        },
        HandshakeState::Done { tuning } => (HandshakeState::Done { tuning }, Vec::new()),
        HandshakeState::Failed { stage } => (HandshakeState::Failed { stage }, Vec::new()),
    }
}

} // verus!
