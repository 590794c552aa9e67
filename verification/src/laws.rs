//! Laws of the session state machine: properties that relate several
//! transitions, proved once and for all over the spec-level model that every
//! handler's contract is stated against.

use vstd::prelude::*;

use crate::commands::ModelPending;
use crate::commands::ModelReply;
use crate::commands::ModelStep;
use crate::commands::TransferKind;
use crate::commands::TransferOutcome;
use crate::commands::spec_command_step;
use crate::commands::spec_dispatch;
use crate::commands::spec_finish_transfer;
use crate::commands::spec_pass_step;
use crate::commands::spec_rnfr_step;
use crate::commands::spec_rnto_step;
use crate::commands::spec_transfer_step;
use crate::commands::spec_user_step;
use crate::commands::spec_verify_step;
use crate::paths::spec_resolve;
use crate::router::Verb;
use crate::router::spec_split_arg;
use crate::router::spec_split_verb;
use crate::router::verb_of;
use crate::session::ModelSession;
use crate::session::spec_init;

verus! {

/// After `USER u` then `PASS p`, the session is authenticated exactly when
/// the collaborator verified `(u, p)`; on rejection it is unauthenticated
/// and the user name is discarded, and the replies are the rejection and
/// success replies respectively.
pub proof fn lemma_password_decides_authentication(
    s: ModelSession,
    name: Seq<u8>,
    password: Seq<u8>,
    verified: bool,
)
    requires
        s.wf(),
    ensures
        ({
            let s1 = spec_user_step(s, name).0;
            let pass = spec_pass_step(s1, password);
            let after = spec_verify_step(pass.0, verified);
            &&& s1.wf() && s1.awaiting_password && !s1.authenticated
            &&& s1.username == Option::Some(name)
            &&& pass.0 == s1
            &&& pass.1 == ModelStep::Pend(
                ModelPending::Verify { username: name, password },
            )
            &&& after.0.authenticated == verified
            &&& after.0.wf()
            &&& verified ==> after.0.username == Option::Some(name) && after.1
                == ModelReply::LoggedIn
            &&& !verified ==> after.0.username is None && after.1 == ModelReply::LoginFailed
        }),
{
}

/// `RNTO` on a session fresh from server start — no `RNFR` came before — is
/// a sequencing error that leaves the session, its rename source included,
/// exactly as it was.
pub proof fn lemma_rename_to_at_start(root: Seq<u8>, default_binary: bool, to: Seq<u8>)
    ensures
        ({
            let s0 = spec_init(root, default_binary);
            let (s1, step) = spec_rnto_step(s0, to);
            &&& s0.rename_source is None
            &&& s1 == s0
            &&& s1.rename_source is None
            &&& step == ModelStep::Done(ModelReply::BadSequence)
        }),
{
}

/// A second `RNFR` overwrites the first: after `RNFR a`, `RNFR b`, `RNTO c`
/// the requested rename is `b` to `c` — never `a` to `c` — and the source is
/// consumed.
pub proof fn lemma_second_rename_source_wins(
    s: ModelSession,
    a: Seq<u8>,
    b: Seq<u8>,
    c: Seq<u8>,
)
    requires
        s.wf(),
        s.authenticated,
    ensures
        ({
            let s1 = spec_rnfr_step(s, a).0;
            let s2 = spec_rnfr_step(s1, b).0;
            let (s3, step) = spec_rnto_step(s2, c);
            &&& step == ModelStep::Pend(
                ModelPending::Rename {
                    from: spec_resolve(s.current_directory, b),
                    to: spec_resolve(s.current_directory, c),
                },
            )
            &&& spec_resolve(s.current_directory, a) != spec_resolve(s.current_directory, b)
                ==> (step matches ModelStep::Pend(ModelPending::Rename { from, .. })
                && from != spec_resolve(s.current_directory, a))
            &&& s3.rename_source is None
        }),
{
}

/// A transfer consumes the negotiated data channel: once an attempt starts,
/// and whatever outcome closes it, a further transfer command finds no
/// channel configured and fails without touching the session, until
/// `PASV`/`PORT` negotiate anew.
pub proof fn lemma_channel_not_reused(
    s: ModelSession,
    k1: TransferKind,
    arg1: Seq<u8>,
    outcome: TransferOutcome,
    k2: TransferKind,
    arg2: Seq<u8>,
)
    requires
        s.authenticated,
        !(s.data_channel is NoChannel),
    ensures
        ({
            let (s1, step1) = spec_transfer_step(s, k1, arg1);
            let (s2, rep) = spec_finish_transfer(s1, outcome);
            let (s3, step2) = spec_transfer_step(s2, k2, arg2);
            &&& step1 is Pend
            &&& s1.data_channel is NoChannel
            &&& s2.data_channel is NoChannel
            &&& step2 == ModelStep::Done(ModelReply::NoDataChannel)
            &&& s3 == s2
            &&& spec_transfer_step(s1, k2, arg2).1 == ModelStep::Done(ModelReply::NoDataChannel)
        }),
{
}

/// An unauthenticated session's transfer command — a listing included — is
/// answered with permission denied and reaches no collaborator: the step
/// finishes at once, with no pending request.
pub proof fn lemma_unauthenticated_transfer_rejected(
    s: ModelSession,
    k: TransferKind,
    arg: Seq<u8>,
)
    requires
        !s.authenticated,
    ensures
        spec_transfer_step(s, k, arg) == (s, ModelStep::Done(ModelReply::NotLoggedIn)),
{
}

/// Every command that needs an authenticated session — directory movement
/// and mutation, rename recording, and the transfers — answers an
/// unauthenticated client with permission denied, reaches no collaborator,
/// and leaves the session untouched.
pub proof fn lemma_unauthenticated_commands_rejected(s: ModelSession, arg: Seq<u8>)
    requires
        !s.authenticated,
    ensures
        spec_command_step(s, Verb::Cwd, arg) == (s, ModelStep::Done(ModelReply::NotLoggedIn)),
        spec_command_step(s, Verb::Cdup, arg) == (s, ModelStep::Done(ModelReply::NotLoggedIn)),
        spec_command_step(s, Verb::Mkd, arg) == (s, ModelStep::Done(ModelReply::NotLoggedIn)),
        spec_command_step(s, Verb::Rmd, arg) == (s, ModelStep::Done(ModelReply::NotLoggedIn)),
        spec_command_step(s, Verb::Dele, arg) == (s, ModelStep::Done(ModelReply::NotLoggedIn)),
        spec_command_step(s, Verb::Rnfr, arg) == (s, ModelStep::Done(ModelReply::NotLoggedIn)),
        spec_command_step(s, Verb::List, arg) == (s, ModelStep::Done(ModelReply::NotLoggedIn)),
        spec_command_step(s, Verb::Retr, arg) == (s, ModelStep::Done(ModelReply::NotLoggedIn)),
        spec_command_step(s, Verb::Stor, arg) == (s, ModelStep::Done(ModelReply::NotLoggedIn)),
{
}

/// Every command transition preserves the session invariant.
pub proof fn lemma_command_preserves_wf(s: ModelSession, v: Verb, arg: Seq<u8>)
    requires
        s.wf(),
    ensures
        spec_command_step(s, v, arg).0.wf(),
{
}

/// Every dispatched line preserves the session invariant.
pub proof fn lemma_dispatch_preserves_wf(s: ModelSession, line: Seq<u8>)
    requires
        s.wf(),
    ensures
        spec_dispatch(s, line).0.wf(),
{
    if let Option::Some(v) = verb_of(spec_split_verb(line)) {
        lemma_command_preserves_wf(s, v, spec_split_arg(line));
    }
}

} // verus!
