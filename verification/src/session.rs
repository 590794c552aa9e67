//! Per-connection session state and its mathematical model.
//!
//! A `Session` belongs to exactly one control connection and is mutated only
//! by that connection's handling task; the library never shares it.  Its
//! model, `ModelSession`, is what every contract in this crate speaks of.

use vstd::prelude::*;

verus! {

/// How transferred bytes are interpreted on the data channel.
#[derive(Clone, Copy, PartialEq, Eq, Structural, Debug)]
pub enum RepType {
    Ascii,
    Binary,
}

/// An IPv4 address together with a port, as negotiated for a data channel.
#[derive(Clone, Copy, PartialEq, Eq, Structural, Debug)]
pub struct HostPort {
    pub h1: u8,
    pub h2: u8,
    pub h3: u8,
    pub h4: u8,
    pub port: u16,
}

/// The data-channel configuration most recently negotiated for a session.
///
/// `Passive` records the address the server is listening on; `Active` the
/// address the server must connect out to.  `NoChannel` means a transfer
/// command must fail until `PASV` or `PORT` negotiates a new channel.
#[derive(Clone, Copy, PartialEq, Eq, Structural, Debug)]
pub enum ChannelConfig {
    NoChannel,
    Passive(HostPort),
    Active(HostPort),
}

/// Read-only server configuration shared by all sessions.
pub struct ServerConfig {
    /// Absolute path every session starts in.
    pub root_directory: Vec<u8>,
    /// Lowest port the passive listener may bind.
    pub pasv_port_min: u16,
    /// Highest port the passive listener may bind.
    pub pasv_port_max: u16,
    /// Bound, in milliseconds, on waiting for a data connection.
    pub data_timeout_ms: u64,
    /// Whether sessions start in `Binary` rather than `Ascii` representation.
    pub default_binary: bool,
}

/// Mutable state of one control connection.
pub struct Session {
    /// True once a `USER`/`PASS` exchange has been verified.
    pub authenticated: bool,
    /// True between an accepted `USER` and the next `PASS`.
    pub awaiting_password: bool,
    /// The candidate (or verified) user name.
    pub username: Option<Vec<u8>>,
    /// Current working directory, an absolute path.
    pub current_directory: Vec<u8>,
    /// Representation negotiated by `TYPE`.
    pub representation_type: RepType,
    /// Path recorded by `RNFR`, consumed by `RNTO`.
    pub rename_source: Option<Vec<u8>>,
    /// Data-channel configuration negotiated by `PASV`/`PORT`.
    pub data_channel: ChannelConfig,
}

/// Mathematical model of a `Session`.
#[verifier::ext_equal]
pub struct ModelSession {
    pub authenticated: bool,
    pub awaiting_password: bool,
    pub username: Option<Seq<u8>>,
    pub current_directory: Seq<u8>,
    pub representation_type: RepType,
    pub rename_source: Option<Seq<u8>>,
    pub data_channel: ChannelConfig,
}

impl View for Session {
    type V = ModelSession;

    open spec fn view(&self) -> ModelSession {
        ModelSession {
            authenticated: self.authenticated,
            awaiting_password: self.awaiting_password,
            username: match self.username {
                Option::Some(u) => Option::Some(u@),
                Option::None => Option::None,
            },
            current_directory: self.current_directory@,
            representation_type: self.representation_type,
            rename_source: match self.rename_source {
                Option::Some(p) => Option::Some(p@),
                Option::None => Option::None,
            },
            data_channel: self.data_channel,
        }
    }
}

impl ModelSession {
    /// Invariant tying the authentication fields together: a session waiting
    /// for a password, or already authenticated, always knows a user name,
    /// and an authenticated session is not also mid-login.
    pub open spec fn wf(self) -> bool {
        &&& self.awaiting_password ==> self.username is Some
        &&& self.authenticated ==> self.username is Some && !self.awaiting_password
    }
}

/// The state every session starts in: unauthenticated, in the configured
/// root, with the configured representation and no channel or rename pending.
pub open spec fn spec_init(root: Seq<u8>, default_binary: bool) -> ModelSession {
    ModelSession {
        authenticated: false,
        awaiting_password: false,
        username: Option::None,
        current_directory: root,
        representation_type: if default_binary { RepType::Binary } else { RepType::Ascii },
        rename_source: Option::None,
        data_channel: ChannelConfig::NoChannel,
    }
}

impl Session {
    /// Create the session for a freshly accepted control connection.
    pub fn new(config: &ServerConfig) -> (s: Session)
        ensures
            s@ == spec_init(config.root_directory@, config.default_binary),
            s@.wf(),
    {
        let s = Session {
            authenticated: false,
            awaiting_password: false,
            username: Option::None,
            current_directory: clone_bytes(&config.root_directory),
            representation_type: if config.default_binary { RepType::Binary } else { RepType::Ascii },
            rename_source: Option::None,
            data_channel: ChannelConfig::NoChannel,
        };
        proof {
            assert(s@ =~= spec_init(config.root_directory@, config.default_binary));
        }
        s
    }
}

/// Copy a byte vector; used where a path must both stay in the session and
/// travel in a reply or request.
pub fn clone_bytes(v: &Vec<u8>) -> (r: Vec<u8>)
    ensures
        r@ == v@,
{
    let mut r: Vec<u8> = Vec::new();
    let mut i: usize = 0;
    while i < v.len()
        invariant
            i <= v.len(),
            r@ == v@.subrange(0, i as int),
        decreases v.len() - i,
    {
        r.push(v[i]);
        i = i + 1;
        proof {
            assert(r@ =~= v@.subrange(0, i as int));
        }
    }
    proof {
        assert(r@ =~= v@);
    }
    r
}

} // verus!
