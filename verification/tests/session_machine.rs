use ftp_core::commands::dispatch;
use ftp_core::commands::apply_cwd_result;
use ftp_core::commands::apply_verify_result;
use ftp_core::commands::fs_reply;
use ftp_core::commands::DispatchStep;
use ftp_core::commands::FsError;
use ftp_core::commands::Pending;
use ftp_core::commands::Reply;
use ftp_core::router::initialize_command_handlers;
use ftp_core::router::CommandTable;
use ftp_core::session::RepType;
use ftp_core::session::ServerConfig;
use ftp_core::session::Session;

fn config() -> ServerConfig {
    ServerConfig {
        root_directory: b"/srv".to_vec(),
        pasv_port_min: 40000,
        pasv_port_max: 41000,
        data_timeout_ms: 5000,
        default_binary: false,
    }
}

fn fresh() -> (CommandTable, Session) {
    (initialize_command_handlers(), Session::new(&config()))
}

fn login(table: &CommandTable, s: &mut Session) {
    let step = dispatch(table, s, b"USER alice");
    assert_eq!(step, DispatchStep::Done(Reply::NeedPassword));
    let step = dispatch(table, s, b"PASS secret");
    assert!(matches!(step, DispatchStep::Pend(Pending::Verify { .. })));
    let reply = apply_verify_result(s, true);
    assert_eq!(reply, Reply::LoggedIn);
    assert!(s.authenticated);
}

#[test]
fn user_then_correct_password_authenticates() {
    let (table, mut s) = fresh();
    let step = dispatch(&table, &mut s, b"USER alice");
    assert_eq!(step, DispatchStep::Done(Reply::NeedPassword));
    assert!(s.awaiting_password);
    assert!(!s.authenticated);
    let step = dispatch(&table, &mut s, b"PASS secret");
    assert_eq!(
        step,
        DispatchStep::Pend(Pending::Verify {
            username: b"alice".to_vec(),
            password: b"secret".to_vec(),
        })
    );
    let reply = apply_verify_result(&mut s, true);
    assert_eq!(reply, Reply::LoggedIn);
    assert!(s.authenticated);
    assert_eq!(s.username, Some(b"alice".to_vec()));
}

#[test]
fn user_then_wrong_password_clears_username() {
    let (table, mut s) = fresh();
    dispatch(&table, &mut s, b"USER alice");
    let step = dispatch(&table, &mut s, b"PASS wrong");
    assert!(matches!(step, DispatchStep::Pend(Pending::Verify { .. })));
    let reply = apply_verify_result(&mut s, false);
    assert_eq!(reply, Reply::LoginFailed);
    assert!(!s.authenticated);
    assert!(!s.awaiting_password);
    assert_eq!(s.username, None);
}

#[test]
fn failed_password_requires_new_user_command() {
    let (table, mut s) = fresh();
    dispatch(&table, &mut s, b"USER alice");
    dispatch(&table, &mut s, b"PASS wrong");
    apply_verify_result(&mut s, false);
    // The rejected login discarded the user name, so a bare retry of PASS is
    // out of sequence and the credential collaborator is never consulted.
    let step = dispatch(&table, &mut s, b"PASS correct");
    assert_eq!(step, DispatchStep::Done(Reply::BadSequence));
    assert!(!s.authenticated);
    // Restarting the sequence with USER succeeds.
    dispatch(&table, &mut s, b"USER alice");
    let step = dispatch(&table, &mut s, b"PASS correct");
    assert!(matches!(step, DispatchStep::Pend(Pending::Verify { .. })));
    let reply = apply_verify_result(&mut s, true);
    assert_eq!(reply, Reply::LoggedIn);
    assert!(s.authenticated);
}

#[test]
fn pass_before_user_is_bad_sequence() {
    let (table, mut s) = fresh();
    let step = dispatch(&table, &mut s, b"PASS secret");
    assert_eq!(step, DispatchStep::Done(Reply::BadSequence));
    assert!(!s.authenticated);
}

#[test]
fn user_resets_existing_authentication() {
    let (table, mut s) = fresh();
    login(&table, &mut s);
    let step = dispatch(&table, &mut s, b"USER bob");
    assert_eq!(step, DispatchStep::Done(Reply::NeedPassword));
    assert!(!s.authenticated);
    assert!(s.awaiting_password);
    assert_eq!(s.username, Some(b"bob".to_vec()));
}

#[test]
fn rnto_at_start_is_bad_sequence() {
    let (table, mut s) = fresh();
    let step = dispatch(&table, &mut s, b"RNTO new.txt");
    assert_eq!(step, DispatchStep::Done(Reply::BadSequence));
    assert_eq!(s.rename_source, None);
}

#[test]
fn second_rnfr_overwrites_the_first() {
    let (table, mut s) = fresh();
    login(&table, &mut s);
    let step = dispatch(&table, &mut s, b"RNFR a.txt");
    assert_eq!(step, DispatchStep::Done(Reply::RenamePending));
    let step = dispatch(&table, &mut s, b"RNFR b.txt");
    assert_eq!(step, DispatchStep::Done(Reply::RenamePending));
    let step = dispatch(&table, &mut s, b"RNTO c.txt");
    assert_eq!(
        step,
        DispatchStep::Pend(Pending::Rename {
            from: b"/srv/b.txt".to_vec(),
            to: b"/srv/c.txt".to_vec(),
        })
    );
    assert_eq!(s.rename_source, None);
}

#[test]
fn rnto_after_rename_needs_new_rnfr() {
    let (table, mut s) = fresh();
    login(&table, &mut s);
    dispatch(&table, &mut s, b"RNFR a.txt");
    let step = dispatch(&table, &mut s, b"RNTO b.txt");
    assert!(matches!(step, DispatchStep::Pend(Pending::Rename { .. })));
    let step = dispatch(&table, &mut s, b"RNTO c.txt");
    assert_eq!(step, DispatchStep::Done(Reply::BadSequence));
}

#[test]
fn rnfr_requires_authentication() {
    let (table, mut s) = fresh();
    let step = dispatch(&table, &mut s, b"RNFR a.txt");
    assert_eq!(step, DispatchStep::Done(Reply::NotLoggedIn));
    assert_eq!(s.rename_source, None);
}

#[test]
fn cwd_success_moves_and_failure_leaves() {
    let (table, mut s) = fresh();
    login(&table, &mut s);
    let step = dispatch(&table, &mut s, b"CWD music");
    assert_eq!(step, DispatchStep::Pend(Pending::ChangeDir { path: b"/srv/music".to_vec() }));
    let reply = apply_cwd_result(&mut s, b"/srv/music".to_vec(), Ok(()));
    assert_eq!(reply, Reply::FileActionOk);
    assert_eq!(s.current_directory, b"/srv/music".to_vec());
    let step = dispatch(&table, &mut s, b"CWD nowhere");
    assert_eq!(
        step,
        DispatchStep::Pend(Pending::ChangeDir { path: b"/srv/music/nowhere".to_vec() })
    );
    let reply = apply_cwd_result(&mut s, b"/srv/music/nowhere".to_vec(), Err(FsError::NotFound));
    assert_eq!(reply, Reply::FsFailed(FsError::NotFound));
    assert_eq!(s.current_directory, b"/srv/music".to_vec());
}

#[test]
fn cwd_with_absolute_argument() {
    let (table, mut s) = fresh();
    login(&table, &mut s);
    let step = dispatch(&table, &mut s, b"CWD /other/place");
    assert_eq!(step, DispatchStep::Pend(Pending::ChangeDir { path: b"/other/place".to_vec() }));
}

#[test]
fn pwd_reports_current_directory() {
    let (table, mut s) = fresh();
    let step = dispatch(&table, &mut s, b"PWD");
    assert_eq!(step, DispatchStep::Done(Reply::WorkingDirectory(b"/srv".to_vec())));
}

#[test]
fn cdup_moves_to_parent_and_stops_at_root() {
    let (table, mut s) = fresh();
    login(&table, &mut s);
    apply_cwd_result(&mut s, b"/srv/a/b".to_vec(), Ok(()));
    let step = dispatch(&table, &mut s, b"CDUP");
    assert_eq!(step, DispatchStep::Done(Reply::FileActionOk));
    assert_eq!(s.current_directory, b"/srv/a".to_vec());
    dispatch(&table, &mut s, b"CDUP");
    assert_eq!(s.current_directory, b"/srv".to_vec());
    dispatch(&table, &mut s, b"CDUP");
    assert_eq!(s.current_directory, b"/".to_vec());
    dispatch(&table, &mut s, b"CDUP");
    assert_eq!(s.current_directory, b"/".to_vec());
}

#[test]
fn type_command_sets_representation() {
    let (table, mut s) = fresh();
    assert_eq!(s.representation_type, RepType::Ascii);
    let step = dispatch(&table, &mut s, b"TYPE I");
    assert_eq!(step, DispatchStep::Done(Reply::CommandOk));
    assert_eq!(s.representation_type, RepType::Binary);
    let step = dispatch(&table, &mut s, b"TYPE a");
    assert_eq!(step, DispatchStep::Done(Reply::CommandOk));
    assert_eq!(s.representation_type, RepType::Ascii);
    let step = dispatch(&table, &mut s, b"TYPE X");
    assert_eq!(step, DispatchStep::Done(Reply::SyntaxError));
    assert_eq!(s.representation_type, RepType::Ascii);
}

#[test]
fn unknown_verb_is_not_implemented() {
    let (table, mut s) = fresh();
    let step = dispatch(&table, &mut s, b"XYZZY something");
    assert_eq!(step, DispatchStep::Done(Reply::NotImplemented));
}

#[test]
fn directory_mutations_need_authentication() {
    let (table, mut s) = fresh();
    for line in [b"MKD d".as_slice(), b"RMD d".as_slice(), b"DELE f".as_slice()] {
        let step = dispatch(&table, &mut s, line);
        assert_eq!(step, DispatchStep::Done(Reply::NotLoggedIn));
    }
}

#[test]
fn directory_mutations_hand_resolved_paths_to_the_file_system() {
    let (table, mut s) = fresh();
    login(&table, &mut s);
    let step = dispatch(&table, &mut s, b"MKD fresh");
    assert_eq!(step, DispatchStep::Pend(Pending::MakeDir { path: b"/srv/fresh".to_vec() }));
    let step = dispatch(&table, &mut s, b"RMD stale");
    assert_eq!(step, DispatchStep::Pend(Pending::RemoveDir { path: b"/srv/stale".to_vec() }));
    let step = dispatch(&table, &mut s, b"DELE old.txt");
    assert_eq!(step, DispatchStep::Pend(Pending::RemoveFile { path: b"/srv/old.txt".to_vec() }));
}

#[test]
fn fs_reply_maps_every_error_kind() {
    assert_eq!(fs_reply(Ok(())), Reply::FileActionOk);
    assert_eq!(fs_reply(Err(FsError::NotFound)), Reply::FsFailed(FsError::NotFound));
    assert_eq!(fs_reply(Err(FsError::NoPermission)), Reply::FsFailed(FsError::NoPermission));
    assert_eq!(fs_reply(Err(FsError::AlreadyExists)), Reply::FsFailed(FsError::AlreadyExists));
    assert_eq!(fs_reply(Err(FsError::OtherFailure)), Reply::FsFailed(FsError::OtherFailure));
}

#[test]
fn simple_commands_reply_without_state_change() {
    let (table, mut s) = fresh();
    assert_eq!(dispatch(&table, &mut s, b"NOOP"), DispatchStep::Done(Reply::CommandOk));
    assert_eq!(dispatch(&table, &mut s, b"SYST"), DispatchStep::Done(Reply::SystemName));
    assert_eq!(dispatch(&table, &mut s, b"FEAT"), DispatchStep::Done(Reply::FeatureList));
    assert_eq!(dispatch(&table, &mut s, b"ALLO 1024"), DispatchStep::Done(Reply::CommandOk));
    assert_eq!(dispatch(&table, &mut s, b"SITE HELP"), DispatchStep::Done(Reply::CommandOk));
    assert_eq!(dispatch(&table, &mut s, b"QUIT"), DispatchStep::Done(Reply::Goodbye));
    assert!(!s.authenticated);
    assert_eq!(s.current_directory, b"/srv".to_vec());
}
