//! The session state machine and the transfer orchestrator's sequencing.
//!
//! Each command either completes at once with a [`Reply`], or stops at the
//! point where an external collaborator — credential verification, the file
//! system, the sockets — must act, returning a [`Pending`] request.  The
//! surrounding application performs the request and feeds the result back
//! through the matching `apply_*` function, which produces the one reply the
//! command owes.  Every transition is specified against [`ModelSession`].

use vstd::prelude::*;

use crate::datachan::spec_parse_host_port;
use crate::datachan::parse_host_port;
use crate::paths::spec_resolve;
use crate::paths::spec_parent;
use crate::paths::resolve;
use crate::paths::parent;
use crate::router::CommandTable;
use crate::router::Verb;
use crate::router::spec_split_arg;
use crate::router::spec_split_verb;
use crate::router::spec_upper;
use crate::router::split_line;
use crate::router::upper_bytes;
use crate::router::verb_of;
use crate::session::ChannelConfig;
use crate::session::HostPort;
use crate::session::ModelSession;
use crate::session::RepType;
use crate::session::Session;
use crate::session::clone_bytes;

verus! {

/// Why a file-system request failed, as the collaborator reports it.
#[derive(Clone, Copy, PartialEq, Eq, Structural, Debug)]
pub enum FsError {
    NotFound,
    NoPermission,
    AlreadyExists,
    OtherFailure,
}

/// Why a data connection could not be established or did not survive.
#[derive(Clone, Copy, PartialEq, Eq, Structural, Debug)]
pub enum DataError {
    Refused,
    TimedOut,
    Reset,
}

/// How a transfer attempt ended.
#[derive(Clone, Copy, PartialEq, Eq, Structural, Debug)]
pub enum TransferOutcome {
    Completed,
    DataFailed(DataError),
    FileFailed(FsError),
}

/// Which transfer operation a data connection is being paired with.
#[derive(Clone, Copy, PartialEq, Eq, Structural, Debug)]
pub enum TransferKind {
    Listing,
    Download,
    Upload,
}

/// The one protocol reply a command produces.  The application maps each
/// variant to the wire protocol's reply code.
#[derive(Clone, PartialEq, Eq, Debug)]
pub enum Reply {
    /// User name accepted, password expected next.
    NeedPassword,
    /// Password verified; the session is authenticated.
    LoggedIn,
    /// Password rejected; the session reverts to unauthenticated.
    LoginFailed,
    /// The command requires an authenticated session.
    NotLoggedIn,
    /// The verb is not in the dispatch table.
    NotImplemented,
    /// The command arrived out of its required order.
    BadSequence,
    /// The argument is malformed.
    SyntaxError,
    /// Plain success without further data.
    CommandOk,
    /// Answer to a system-identification request.
    SystemName,
    /// Answer to a feature-listing request.
    FeatureList,
    /// The session is ending at the client's request.
    Goodbye,
    /// The current working directory.
    WorkingDirectory(Vec<u8>),
    /// A file-system action succeeded.
    FileActionOk,
    /// A rename source was recorded; the rename target is expected next.
    RenamePending,
    /// A passive listener is bound at this address.
    PassiveReady(HostPort),
    /// The passive listener could not be set up.
    DataChannelFailed(DataError),
    /// A transfer was attempted with no data channel configured.
    NoDataChannel,
    /// The transfer finished and its data channel is closed.
    TransferComplete,
    /// The transfer's data connection failed.
    TransferFailed(DataError),
    /// The file system refused the requested action.
    FsFailed(FsError),
}

/// Model of a [`Reply`].
#[verifier::ext_equal]
pub enum ModelReply {
    NeedPassword,
    LoggedIn,
    LoginFailed,
    NotLoggedIn,
    NotImplemented,
    BadSequence,
    SyntaxError,
    CommandOk,
    SystemName,
    FeatureList,
    Goodbye,
    WorkingDirectory(Seq<u8>),
    FileActionOk,
    RenamePending,
    PassiveReady(HostPort),
    DataChannelFailed(DataError),
    NoDataChannel,
    TransferComplete,
    TransferFailed(DataError),
    FsFailed(FsError),
}

impl View for Reply {
    type V = ModelReply;

    open spec fn view(&self) -> ModelReply {
        match self {
            Reply::NeedPassword => ModelReply::NeedPassword,
            Reply::LoggedIn => ModelReply::LoggedIn,
            Reply::LoginFailed => ModelReply::LoginFailed,
            Reply::NotLoggedIn => ModelReply::NotLoggedIn,
            Reply::NotImplemented => ModelReply::NotImplemented,
            Reply::BadSequence => ModelReply::BadSequence,
            Reply::SyntaxError => ModelReply::SyntaxError,
            Reply::CommandOk => ModelReply::CommandOk,
            Reply::SystemName => ModelReply::SystemName,
            Reply::FeatureList => ModelReply::FeatureList,
            Reply::Goodbye => ModelReply::Goodbye,
            Reply::WorkingDirectory(p) => ModelReply::WorkingDirectory(p@),
            Reply::FileActionOk => ModelReply::FileActionOk,
            Reply::RenamePending => ModelReply::RenamePending,
            Reply::PassiveReady(hp) => ModelReply::PassiveReady(*hp),
            Reply::DataChannelFailed(e) => ModelReply::DataChannelFailed(*e),
            Reply::NoDataChannel => ModelReply::NoDataChannel,
            Reply::TransferComplete => ModelReply::TransferComplete,
            Reply::TransferFailed(e) => ModelReply::TransferFailed(*e),
            Reply::FsFailed(e) => ModelReply::FsFailed(*e),
        }
    }
}

/// A request the application must perform before the command's reply exists.
#[derive(Clone, PartialEq, Eq, Debug)]
pub enum Pending {
    /// Verify these credentials; answer through `apply_verify_result`.
    Verify { username: Vec<u8>, password: Vec<u8> },
    /// Check that this directory exists; answer through `apply_cwd_result`.
    ChangeDir { path: Vec<u8> },
    /// Create this directory; answer through `fs_reply`.
    MakeDir { path: Vec<u8> },
    /// Remove this directory; answer through `fs_reply`.
    RemoveDir { path: Vec<u8> },
    /// Remove this file; answer through `fs_reply`.
    RemoveFile { path: Vec<u8> },
    /// Rename `from` to `to`; answer through `fs_reply`.
    Rename { from: Vec<u8>, to: Vec<u8> },
    /// Bind a passive listener; answer through `apply_pasv_result`.
    OpenPassive,
    /// Run a transfer over the negotiated channel; answer through
    /// `finish_transfer`.
    Transfer { kind: TransferKind, path: Vec<u8>, channel: ChannelConfig, rep: RepType },
}

/// Model of a [`Pending`] request.
#[verifier::ext_equal]
pub enum ModelPending {
    Verify { username: Seq<u8>, password: Seq<u8> },
    ChangeDir { path: Seq<u8> },
    MakeDir { path: Seq<u8> },
    RemoveDir { path: Seq<u8> },
    RemoveFile { path: Seq<u8> },
    Rename { from: Seq<u8>, to: Seq<u8> },
    OpenPassive,
    Transfer { kind: TransferKind, path: Seq<u8>, channel: ChannelConfig, rep: RepType },
}

impl View for Pending {
    type V = ModelPending;

    open spec fn view(&self) -> ModelPending {
        match self {
            Pending::Verify { username, password } => ModelPending::Verify {
                username: username@,
                password: password@,
            },
            Pending::ChangeDir { path } => ModelPending::ChangeDir { path: path@ },
            Pending::MakeDir { path } => ModelPending::MakeDir { path: path@ },
            Pending::RemoveDir { path } => ModelPending::RemoveDir { path: path@ },
            Pending::RemoveFile { path } => ModelPending::RemoveFile { path: path@ },
            Pending::Rename { from, to } => ModelPending::Rename { from: from@, to: to@ },
            Pending::OpenPassive => ModelPending::OpenPassive,
            Pending::Transfer { kind, path, channel, rep } => ModelPending::Transfer {
                kind: *kind,
                path: path@,
                channel: *channel,
                rep: *rep,
            },
        }
    }
}

/// What one dispatched command line comes to: a finished reply, or a request
/// the application must perform first.
#[derive(Clone, PartialEq, Eq, Debug)]
pub enum DispatchStep {
    Done(Reply),
    Pend(Pending),
}

/// Model of a [`DispatchStep`].
#[verifier::ext_equal]
pub enum ModelStep {
    Done(ModelReply),
    Pend(ModelPending),
}

impl View for DispatchStep {
    type V = ModelStep;

    open spec fn view(&self) -> ModelStep {
        match self {
            DispatchStep::Done(r) => ModelStep::Done(r@),
            DispatchStep::Pend(p) => ModelStep::Pend(p@),
        }
    }
}

// ---------------------------------------------------------------------------
// Spec transitions: one per command, each the whole truth about that command.
// ---------------------------------------------------------------------------

/// `USER` always restarts the login sequence, even on an authenticated
/// session, and records the candidate name.
pub open spec fn spec_user_step(s: ModelSession, name: Seq<u8>) -> (ModelSession, ModelStep) {
    (
        ModelSession {
            authenticated: false,
            awaiting_password: true,
            username: Option::Some(name),
            ..s
        },
        ModelStep::Done(ModelReply::NeedPassword),
    )
}

/// `PASS` out of sequence is rejected; in sequence it asks the collaborator
/// to verify the recorded name against the given password.
pub open spec fn spec_pass_step(s: ModelSession, password: Seq<u8>) -> (ModelSession, ModelStep) {
    if s.awaiting_password {
        match s.username {
            Option::Some(u) => (
                s,
                ModelStep::Pend(ModelPending::Verify { username: u, password }),
            ),
            Option::None => (s, ModelStep::Done(ModelReply::BadSequence)),
        }
    } else {
        (s, ModelStep::Done(ModelReply::BadSequence))
    }
}

/// The verdict on a `PASS` command's credentials: success authenticates the
/// session; failure reverts it to unauthenticated and discards the name.
pub open spec fn spec_verify_step(s: ModelSession, verified: bool) -> (ModelSession, ModelReply) {
    if verified {
        (
            ModelSession { authenticated: true, awaiting_password: false, ..s },
            ModelReply::LoggedIn,
        )
    } else {
        (
            ModelSession {
                authenticated: false,
                awaiting_password: false,
                username: Option::None,
                ..s
            },
            ModelReply::LoginFailed,
        )
    }
}

/// `TYPE` sets the representation: `A` for text, `I` for raw bytes,
/// case-insensitively; anything else is malformed.
pub open spec fn spec_type_step(s: ModelSession, arg: Seq<u8>) -> (ModelSession, ModelStep) {
    let u = spec_upper(arg);
    if u == seq![65u8] {
        (
            ModelSession { representation_type: RepType::Ascii, ..s },
            ModelStep::Done(ModelReply::CommandOk),
        )
    } else if u == seq![73u8] {
        (
            ModelSession { representation_type: RepType::Binary, ..s },
            ModelStep::Done(ModelReply::CommandOk),
        )
    } else {
        (s, ModelStep::Done(ModelReply::SyntaxError))
    }
}

/// `PWD` reports the working directory and changes nothing.
pub open spec fn spec_pwd_step(s: ModelSession) -> (ModelSession, ModelStep) {
    (s, ModelStep::Done(ModelReply::WorkingDirectory(s.current_directory)))
}

/// `CWD` needs authentication, then asks the collaborator whether the
/// resolved directory exists.
pub open spec fn spec_cwd_step(s: ModelSession, arg: Seq<u8>) -> (ModelSession, ModelStep) {
    if !s.authenticated {
        (s, ModelStep::Done(ModelReply::NotLoggedIn))
    } else {
        (
            s,
            ModelStep::Pend(
                ModelPending::ChangeDir { path: spec_resolve(s.current_directory, arg) },
            ),
        )
    }
}

/// The file system's verdict on a `CWD` target: on success the working
/// directory moves there; on failure the session is untouched.
pub open spec fn spec_cwd_apply(
    s: ModelSession,
    path: Seq<u8>,
    result: Result<(), FsError>,
) -> (ModelSession, ModelReply) {
    match result {
        Result::Ok(u) => (
            ModelSession { current_directory: path, ..s },
            ModelReply::FileActionOk,
        ),
        Result::Err(k) => (s, ModelReply::FsFailed(k)),
    }
}

/// `CDUP` needs authentication and moves to the parent directory.
pub open spec fn spec_cdup_step(s: ModelSession) -> (ModelSession, ModelStep) {
    if !s.authenticated {
        (s, ModelStep::Done(ModelReply::NotLoggedIn))
    } else {
        (
            ModelSession { current_directory: spec_parent(s.current_directory), ..s },
            ModelStep::Done(ModelReply::FileActionOk),
        )
    }
}

/// `MKD`, `RMD` and `DELE` need authentication, then hand the resolved path
/// to the file system; they change no session state themselves.
pub open spec fn spec_fs_mutation_step(
    s: ModelSession,
    v: Verb,
    arg: Seq<u8>,
) -> (ModelSession, ModelStep) {
    if !s.authenticated {
        (s, ModelStep::Done(ModelReply::NotLoggedIn))
    } else {
        let path = spec_resolve(s.current_directory, arg);
        let p = if v is Mkd {
            ModelPending::MakeDir { path }
        } else if v is Rmd {
            ModelPending::RemoveDir { path }
        } else {
            ModelPending::RemoveFile { path }
        };
        (s, ModelStep::Pend(p))
    }
}

/// `RNFR` needs authentication and records the rename source
/// unconditionally: a second `RNFR` overwrites, nothing stacks.
pub open spec fn spec_rnfr_step(s: ModelSession, arg: Seq<u8>) -> (ModelSession, ModelStep) {
    if !s.authenticated {
        (s, ModelStep::Done(ModelReply::NotLoggedIn))
    } else {
        (
            ModelSession {
                rename_source: Option::Some(spec_resolve(s.current_directory, arg)),
                ..s
            },
            ModelStep::Done(ModelReply::RenamePending),
        )
    }
}

/// `RNTO` without a recorded source is a sequencing error; with one, and
/// authenticated, it consumes the source and hands the pair to the file
/// system.  The source is cleared whatever the rename's outcome.
pub open spec fn spec_rnto_step(s: ModelSession, arg: Seq<u8>) -> (ModelSession, ModelStep) {
    match s.rename_source {
        Option::None => (s, ModelStep::Done(ModelReply::BadSequence)),
        Option::Some(from) => {
            if !s.authenticated {
                (s, ModelStep::Done(ModelReply::NotLoggedIn))
            } else {
                (
                    ModelSession { rename_source: Option::None, ..s },
                    ModelStep::Pend(
                        ModelPending::Rename {
                            from,
                            to: spec_resolve(s.current_directory, arg),
                        },
                    ),
                )
            }
        },
    }
}

/// `PORT` stores a well-formed client address for an active-mode connection
/// and rejects anything malformed without touching the session.
pub open spec fn spec_port_step(s: ModelSession, arg: Seq<u8>) -> (ModelSession, ModelStep) {
    match spec_parse_host_port(arg) {
        Option::Some(hp) => (
            ModelSession { data_channel: ChannelConfig::Active(hp), ..s },
            ModelStep::Done(ModelReply::CommandOk),
        ),
        Option::None => (s, ModelStep::Done(ModelReply::SyntaxError)),
    }
}

/// `PASV` asks the application to bind a listener; the session changes only
/// once the bind's outcome is known.
pub open spec fn spec_pasv_step(s: ModelSession) -> (ModelSession, ModelStep) {
    (s, ModelStep::Pend(ModelPending::OpenPassive))
}

/// The outcome of binding a passive listener: on success the channel is the
/// bound address; on failure no channel is configured at all.
pub open spec fn spec_pasv_apply(
    s: ModelSession,
    result: Result<HostPort, DataError>,
) -> (ModelSession, ModelReply) {
    match result {
        Result::Ok(hp) => (
            ModelSession { data_channel: ChannelConfig::Passive(hp), ..s },
            ModelReply::PassiveReady(hp),
        ),
        Result::Err(e) => (
            ModelSession { data_channel: ChannelConfig::NoChannel, ..s },
            ModelReply::DataChannelFailed(e),
        ),
    }
}

/// A transfer command needs authentication first, then a negotiated data
/// channel; the channel configuration is consumed by the attempt, so a later
/// transfer must negotiate again.
pub open spec fn spec_transfer_step(
    s: ModelSession,
    kind: TransferKind,
    arg: Seq<u8>,
) -> (ModelSession, ModelStep) {
    if !s.authenticated {
        (s, ModelStep::Done(ModelReply::NotLoggedIn))
    } else if s.data_channel is NoChannel {
        (s, ModelStep::Done(ModelReply::NoDataChannel))
    } else {
        (
            ModelSession { data_channel: ChannelConfig::NoChannel, ..s },
            ModelStep::Pend(
                ModelPending::Transfer {
                    kind,
                    path: spec_resolve(s.current_directory, arg),
                    channel: s.data_channel,
                    rep: s.representation_type,
                },
            ),
        )
    }
}

/// However a transfer attempt ended, the data-channel configuration is gone
/// afterwards, and the outcome maps to exactly one reply.
pub open spec fn spec_finish_transfer(
    s: ModelSession,
    outcome: TransferOutcome,
) -> (ModelSession, ModelReply) {
    (
        ModelSession { data_channel: ChannelConfig::NoChannel, ..s },
        match outcome {
            TransferOutcome::Completed => ModelReply::TransferComplete,
            TransferOutcome::DataFailed(e) => ModelReply::TransferFailed(e),
            TransferOutcome::FileFailed(k) => ModelReply::FsFailed(k),
        },
    )
}

/// The reply a file-system verdict maps to, for the requests that change no
/// session state.
pub open spec fn spec_fs_reply(result: Result<(), FsError>) -> ModelReply {
    match result {
        Result::Ok(u) => ModelReply::FileActionOk,
        Result::Err(k) => ModelReply::FsFailed(k),
    }
}

/// What one command does to the session, by verb.
pub open spec fn spec_command_step(
    s: ModelSession,
    v: Verb,
    arg: Seq<u8>,
) -> (ModelSession, ModelStep) {
    match v {
        Verb::Site => (s, ModelStep::Done(ModelReply::CommandOk)),
        Verb::Feat => (s, ModelStep::Done(ModelReply::FeatureList)),
        Verb::Allo => (s, ModelStep::Done(ModelReply::CommandOk)),
        Verb::Syst => (s, ModelStep::Done(ModelReply::SystemName)),
        Verb::Type => spec_type_step(s, arg),
        Verb::Cdup => spec_cdup_step(s),
        Verb::User => spec_user_step(s, arg),
        Verb::Pass => spec_pass_step(s, arg),
        Verb::Quit => (s, ModelStep::Done(ModelReply::Goodbye)),
        Verb::Pwd => spec_pwd_step(s),
        Verb::List => spec_transfer_step(s, TransferKind::Listing, arg),
        Verb::Cwd => spec_cwd_step(s, arg),
        Verb::Noop => (s, ModelStep::Done(ModelReply::CommandOk)),
        Verb::Mkd => spec_fs_mutation_step(s, Verb::Mkd, arg),
        Verb::Rmd => spec_fs_mutation_step(s, Verb::Rmd, arg),
        Verb::Dele => spec_fs_mutation_step(s, Verb::Dele, arg),
        Verb::Rnfr => spec_rnfr_step(s, arg),
        Verb::Rnto => spec_rnto_step(s, arg),
        Verb::Retr => spec_transfer_step(s, TransferKind::Download, arg),
        Verb::Stor => spec_transfer_step(s, TransferKind::Upload, arg),
        Verb::Port => spec_port_step(s, arg),
        Verb::Pasv => spec_pasv_step(s),
    }
}

/// What one received line does to the session: split, look the verb up, run
/// its transition; an unknown verb answers "not implemented" and changes
/// nothing.
pub open spec fn spec_dispatch(s: ModelSession, line: Seq<u8>) -> (ModelSession, ModelStep) {
    match verb_of(spec_split_verb(line)) {
        Option::None => (s, ModelStep::Done(ModelReply::NotImplemented)),
        Option::Some(v) => spec_command_step(s, v, spec_split_arg(line)),
    }
}

// ---------------------------------------------------------------------------
// Executable handlers.
// ---------------------------------------------------------------------------

/// Handle `USER`.
pub fn handle_user(session: &mut Session, name: Vec<u8>) -> (r: DispatchStep)
    ensures
        (final(session)@, r@) == spec_user_step(old(session)@, name@),
{
    session.authenticated = false;
    session.awaiting_password = true;
    session.username = Option::Some(name);
    let r = DispatchStep::Done(Reply::NeedPassword);
    proof {
        assert(session@ =~= spec_user_step(old(session)@, name@).0);
    }
    r
}

/// Handle `PASS`: either reject it out of sequence or request verification.
pub fn handle_pass(session: &mut Session, password: Vec<u8>) -> (r: DispatchStep)
    ensures
        (final(session)@, r@) == spec_pass_step(old(session)@, password@),
{
    if session.awaiting_password {
        match &session.username {
            Option::Some(u) => {
                let username = clone_bytes(u);
                DispatchStep::Pend(Pending::Verify { username, password })
            },
            Option::None => DispatchStep::Done(Reply::BadSequence),
        }
    } else {
        DispatchStep::Done(Reply::BadSequence)
    }
}

/// Apply the credential collaborator's verdict to a session that asked for
/// it through a `Verify` request.
pub fn apply_verify_result(session: &mut Session, verified: bool) -> (r: Reply)
    requires
        old(session)@.awaiting_password,
        old(session)@.wf(),
    ensures
        (final(session)@, r@) == spec_verify_step(old(session)@, verified),
        final(session)@.wf(),
        final(session)@.authenticated == verified,
{
    if verified {
        session.authenticated = true;
        session.awaiting_password = false;
        proof {
            assert(session@ =~= spec_verify_step(old(session)@, true).0);
        }
        Reply::LoggedIn
    } else {
        session.authenticated = false;
        session.awaiting_password = false;
        session.username = Option::None;
        proof {
            assert(session@ =~= spec_verify_step(old(session)@, false).0);
        }
        Reply::LoginFailed
    }
}

/// Handle `TYPE`.
pub fn handle_type(session: &mut Session, arg: Vec<u8>) -> (r: DispatchStep)
    ensures
        (final(session)@, r@) == spec_type_step(old(session)@, arg@),
{
    let u = upper_bytes(arg.as_slice());
    if u.len() == 1 && u[0] == 65 {
        session.representation_type = RepType::Ascii;
        proof {
            assert(u@ =~= seq![65u8]);
            assert(session@ =~= spec_type_step(old(session)@, arg@).0);
        }
        DispatchStep::Done(Reply::CommandOk)
    } else if u.len() == 1 && u[0] == 73 {
        session.representation_type = RepType::Binary;
        proof {
            assert(u@ =~= seq![73u8]);
            assert(session@ =~= spec_type_step(old(session)@, arg@).0);
        }
        DispatchStep::Done(Reply::CommandOk)
    } else {
        proof {
            assert(u@ != seq![65u8] && u@ != seq![73u8]);
        }
        DispatchStep::Done(Reply::SyntaxError)
    }
}

/// Handle `PWD`.
pub fn handle_pwd(session: &mut Session) -> (r: DispatchStep)
    ensures
        (final(session)@, r@) == spec_pwd_step(old(session)@),
{
    DispatchStep::Done(Reply::WorkingDirectory(clone_bytes(&session.current_directory)))
}

/// Handle `CWD`: gate on authentication, then ask the file system.
pub fn handle_cwd(session: &mut Session, arg: Vec<u8>) -> (r: DispatchStep)
    ensures
        (final(session)@, r@) == spec_cwd_step(old(session)@, arg@),
{
    if !session.authenticated {
        DispatchStep::Done(Reply::NotLoggedIn)
    } else {
        let path = resolve(&session.current_directory, &arg);
        DispatchStep::Pend(Pending::ChangeDir { path })
    }
}

/// Apply the file system's verdict on a `CWD` target.
pub fn apply_cwd_result(session: &mut Session, path: Vec<u8>, result: Result<(), FsError>) -> (r:
    Reply)
    ensures
        (final(session)@, r@) == spec_cwd_apply(old(session)@, path@, result),
        old(session)@.wf() ==> final(session)@.wf(),
{
    match result {
        Result::Ok(u) => {
            session.current_directory = path;
            proof {
                assert(session@ =~= spec_cwd_apply(old(session)@, path@, result).0);
            }
            Reply::FileActionOk
        },
        Result::Err(k) => Reply::FsFailed(k),
    }
}

/// Handle `CDUP`.
pub fn handle_cdup(session: &mut Session) -> (r: DispatchStep)
    ensures
        (final(session)@, r@) == spec_cdup_step(old(session)@),
{
    if !session.authenticated {
        DispatchStep::Done(Reply::NotLoggedIn)
    } else {
        session.current_directory = parent(&session.current_directory);
        proof {
            assert(session@ =~= spec_cdup_step(old(session)@).0);
        }
        DispatchStep::Done(Reply::FileActionOk)
    }
}

/// Handle `MKD`, `RMD` or `DELE`, distinguished by `v`.
pub fn handle_fs_mutation(session: &mut Session, v: Verb, arg: Vec<u8>) -> (r: DispatchStep)
    requires
        v is Mkd || v is Rmd || v is Dele,
    ensures
        (final(session)@, r@) == spec_fs_mutation_step(old(session)@, v, arg@),
{
    if !session.authenticated {
        DispatchStep::Done(Reply::NotLoggedIn)
    } else {
        let path = resolve(&session.current_directory, &arg);
        match v {
            Verb::Mkd => DispatchStep::Pend(Pending::MakeDir { path }),
            Verb::Rmd => DispatchStep::Pend(Pending::RemoveDir { path }),
            _ => DispatchStep::Pend(Pending::RemoveFile { path }),
        }
    }
}

/// Map a file-system verdict to its reply, for the requests that change no
/// session state.
pub fn fs_reply(result: Result<(), FsError>) -> (r: Reply)
    ensures
        r@ == spec_fs_reply(result),
{
    match result {
        Result::Ok(u) => Reply::FileActionOk,
        Result::Err(k) => Reply::FsFailed(k),
    }
}

/// Handle `RNFR`.
pub fn handle_rnfr(session: &mut Session, arg: Vec<u8>) -> (r: DispatchStep)
    ensures
        (final(session)@, r@) == spec_rnfr_step(old(session)@, arg@),
{
    if !session.authenticated {
        DispatchStep::Done(Reply::NotLoggedIn)
    } else {
        let path = resolve(&session.current_directory, &arg);
        session.rename_source = Option::Some(path);
        proof {
            assert(session@ =~= spec_rnfr_step(old(session)@, arg@).0);
        }
        DispatchStep::Done(Reply::RenamePending)
    }
}

/// Handle `RNTO`.
pub fn handle_rnto(session: &mut Session, arg: Vec<u8>) -> (r: DispatchStep)
    ensures
        (final(session)@, r@) == spec_rnto_step(old(session)@, arg@),
{
    let has_source = session.rename_source.is_some();
    if !has_source {
        DispatchStep::Done(Reply::BadSequence)
    } else if !session.authenticated {
        DispatchStep::Done(Reply::NotLoggedIn)
    } else {
        let from = match &session.rename_source {
            Option::Some(f) => clone_bytes(f),
            Option::None => Vec::new(),
        };
        session.rename_source = Option::None;
        let to = resolve(&session.current_directory, &arg);
        proof {
            assert(session@ =~= spec_rnto_step(old(session)@, arg@).0);
        }
        DispatchStep::Pend(Pending::Rename { from, to })
    }
}

/// Handle `PORT`.
pub fn handle_port(session: &mut Session, arg: Vec<u8>) -> (r: DispatchStep)
    ensures
        (final(session)@, r@) == spec_port_step(old(session)@, arg@),
{
    match parse_host_port(arg.as_slice()) {
        Option::Some(hp) => {
            session.data_channel = ChannelConfig::Active(hp);
            proof {
                assert(session@ =~= spec_port_step(old(session)@, arg@).0);
            }
            DispatchStep::Done(Reply::CommandOk)
        },
        Option::None => DispatchStep::Done(Reply::SyntaxError),
    }
}

/// Handle `PASV`: the application must bind a listener and answer through
/// `apply_pasv_result`.
pub fn handle_pasv(session: &mut Session) -> (r: DispatchStep)
    ensures
        (final(session)@, r@) == spec_pasv_step(old(session)@),
{
    DispatchStep::Pend(Pending::OpenPassive)
}

/// Apply the outcome of binding a passive listener.
pub fn apply_pasv_result(session: &mut Session, result: Result<HostPort, DataError>) -> (r: Reply)
    ensures
        (final(session)@, r@) == spec_pasv_apply(old(session)@, result),
        old(session)@.wf() ==> final(session)@.wf(),
{
    match result {
        Result::Ok(hp) => {
            session.data_channel = ChannelConfig::Passive(hp);
            proof {
                assert(session@ =~= spec_pasv_apply(old(session)@, result).0);
            }
            Reply::PassiveReady(hp)
        },
        Result::Err(e) => {
            session.data_channel = ChannelConfig::NoChannel;
            proof {
                assert(session@ =~= spec_pasv_apply(old(session)@, result).0);
            }
            Reply::DataChannelFailed(e)
        },
    }
}

/// Handle `LIST`, `RETR` or `STOR`: validate the session, consume the
/// negotiated channel, and hand the transfer to the application.
pub fn handle_transfer(session: &mut Session, kind: TransferKind, arg: Vec<u8>) -> (r: DispatchStep)
    ensures
        (final(session)@, r@) == spec_transfer_step(old(session)@, kind, arg@),
{
    if !session.authenticated {
        return DispatchStep::Done(Reply::NotLoggedIn);
    }
    let channel = session.data_channel;
    match channel {
        ChannelConfig::NoChannel => DispatchStep::Done(Reply::NoDataChannel),
        _ => {
            session.data_channel = ChannelConfig::NoChannel;
            let path = resolve(&session.current_directory, &arg);
            let rep = session.representation_type;
            proof {
                assert(session@ =~= spec_transfer_step(old(session)@, kind, arg@).0);
            }
            DispatchStep::Pend(Pending::Transfer { kind, path, channel, rep })
        },
    }
}

/// Close out a transfer attempt: whatever happened, the channel
/// configuration is discarded and the outcome becomes the owed reply.
pub fn finish_transfer(session: &mut Session, outcome: TransferOutcome) -> (r: Reply)
    ensures
        (final(session)@, r@) == spec_finish_transfer(old(session)@, outcome),
        final(session)@.data_channel is NoChannel,
        old(session)@.wf() ==> final(session)@.wf(),
{
    session.data_channel = ChannelConfig::NoChannel;
    proof {
        assert(session@ =~= spec_finish_transfer(old(session)@, outcome).0);
    }
    match outcome {
        TransferOutcome::Completed => Reply::TransferComplete,
        TransferOutcome::DataFailed(e) => Reply::TransferFailed(e),
        TransferOutcome::FileFailed(k) => Reply::FsFailed(k),
    }
}

/// Dispatch one received command line: split it, look the verb up, and run
/// exactly one handler.  Every outcome carries the one reply the command
/// owes, directly or through its pending request's `apply` function.
pub fn dispatch(table: &CommandTable, session: &mut Session, line: &[u8]) -> (r: DispatchStep)
    requires
        table.wf(),
    ensures
        (final(session)@, r@) == spec_dispatch(old(session)@, line@),
        old(session)@.wf() ==> final(session)@.wf(),
{
    proof {
        if old(session)@.wf() {
            crate::laws::lemma_dispatch_preserves_wf(old(session)@, line@);
        }
    }
    let (verb, arg) = split_line(line);
    match table.lookup(verb.as_slice()) {
        Option::None => DispatchStep::Done(Reply::NotImplemented),
        Option::Some(v) => match v {
            Verb::Site => DispatchStep::Done(Reply::CommandOk),
            Verb::Feat => DispatchStep::Done(Reply::FeatureList),
            Verb::Allo => DispatchStep::Done(Reply::CommandOk),
            Verb::Syst => DispatchStep::Done(Reply::SystemName),
            Verb::Type => handle_type(session, arg),
            Verb::Cdup => handle_cdup(session),
            Verb::User => handle_user(session, arg),
            Verb::Pass => handle_pass(session, arg),
            Verb::Quit => DispatchStep::Done(Reply::Goodbye),
            Verb::Pwd => handle_pwd(session),
            Verb::List => handle_transfer(session, TransferKind::Listing, arg),
            Verb::Cwd => handle_cwd(session, arg),
            Verb::Noop => DispatchStep::Done(Reply::CommandOk),
            Verb::Mkd => handle_fs_mutation(session, Verb::Mkd, arg),
            Verb::Rmd => handle_fs_mutation(session, Verb::Rmd, arg),
            Verb::Dele => handle_fs_mutation(session, Verb::Dele, arg),
            Verb::Rnfr => handle_rnfr(session, arg),
            Verb::Rnto => handle_rnto(session, arg),
            Verb::Retr => handle_transfer(session, TransferKind::Download, arg),
            Verb::Stor => handle_transfer(session, TransferKind::Upload, arg),
            Verb::Port => handle_port(session, arg),
            Verb::Pasv => handle_pasv(session),
        },
    }
}

} // verus!
