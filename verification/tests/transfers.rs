use ftp_core::commands::apply_cwd_result;
use ftp_core::commands::apply_pasv_result;
use ftp_core::commands::apply_verify_result;
use ftp_core::commands::dispatch;
use ftp_core::commands::finish_transfer;
use ftp_core::commands::DataError;
use ftp_core::commands::DispatchStep;
use ftp_core::commands::FsError;
use ftp_core::commands::Pending;
use ftp_core::commands::Reply;
use ftp_core::commands::TransferKind;
use ftp_core::commands::TransferOutcome;
use ftp_core::datachan::ListenerStatus;
use ftp_core::datachan::PassiveListener;
use ftp_core::router::initialize_command_handlers;
use ftp_core::router::CommandTable;
use ftp_core::session::ChannelConfig;
use ftp_core::session::HostPort;
use ftp_core::session::RepType;
use ftp_core::session::ServerConfig;
use ftp_core::session::Session;

fn config() -> ServerConfig {
    ServerConfig {
        root_directory: b"/srv".to_vec(),
        pasv_port_min: 40000,
        pasv_port_max: 41000,
        data_timeout_ms: 5000,
        default_binary: false,
    }
}

fn fresh() -> (CommandTable, Session) {
    (initialize_command_handlers(), Session::new(&config()))
}

fn login(table: &CommandTable, s: &mut Session) {
    dispatch(table, s, b"USER alice");
    dispatch(table, s, b"PASS secret");
    apply_verify_result(s, true);
}

fn hp(h1: u8, h2: u8, h3: u8, h4: u8, port: u16) -> HostPort {
    HostPort { h1, h2, h3, h4, port }
}

#[test]
fn unauthenticated_list_is_rejected_without_any_pending_request() {
    let (table, mut s) = fresh();
    let step = dispatch(&table, &mut s, b"LIST");
    // A finished reply, not a pending request: the file system is never asked.
    assert_eq!(step, DispatchStep::Done(Reply::NotLoggedIn));
}

#[test]
fn transfer_without_negotiated_channel_fails() {
    let (table, mut s) = fresh();
    login(&table, &mut s);
    assert_eq!(s.data_channel, ChannelConfig::NoChannel);
    let step = dispatch(&table, &mut s, b"RETR f.txt");
    assert_eq!(step, DispatchStep::Done(Reply::NoDataChannel));
}

#[test]
fn port_negotiates_an_active_channel_for_one_transfer() {
    let (table, mut s) = fresh();
    login(&table, &mut s);
    let step = dispatch(&table, &mut s, b"PORT 192,168,1,2,19,136");
    assert_eq!(step, DispatchStep::Done(Reply::CommandOk));
    let addr = hp(192, 168, 1, 2, 19 * 256 + 136);
    assert_eq!(s.data_channel, ChannelConfig::Active(addr));
    let step = dispatch(&table, &mut s, b"RETR f.txt");
    assert_eq!(
        step,
        DispatchStep::Pend(Pending::Transfer {
            kind: TransferKind::Download,
            path: b"/srv/f.txt".to_vec(),
            channel: ChannelConfig::Active(addr),
            rep: RepType::Ascii,
        })
    );
    // The attempt consumed the configuration before any byte moved.
    assert_eq!(s.data_channel, ChannelConfig::NoChannel);
    let reply = finish_transfer(&mut s, TransferOutcome::Completed);
    assert_eq!(reply, Reply::TransferComplete);
    // A second transfer needs a fresh PORT or PASV.
    let step = dispatch(&table, &mut s, b"RETR f.txt");
    assert_eq!(step, DispatchStep::Done(Reply::NoDataChannel));
}

#[test]
fn failed_transfer_also_clears_the_channel() {
    let (table, mut s) = fresh();
    login(&table, &mut s);
    dispatch(&table, &mut s, b"PASV");
    apply_pasv_result(&mut s, Ok(hp(10, 0, 0, 1, 40001)));
    let step = dispatch(&table, &mut s, b"STOR up.bin");
    assert!(matches!(step, DispatchStep::Pend(Pending::Transfer { .. })));
    let reply = finish_transfer(&mut s, TransferOutcome::DataFailed(DataError::Reset));
    assert_eq!(reply, Reply::TransferFailed(DataError::Reset));
    assert_eq!(s.data_channel, ChannelConfig::NoChannel);
    let step = dispatch(&table, &mut s, b"STOR up.bin");
    assert_eq!(step, DispatchStep::Done(Reply::NoDataChannel));
}

#[test]
fn finish_transfer_maps_every_outcome() {
    let (_, mut s) = fresh();
    assert_eq!(finish_transfer(&mut s, TransferOutcome::Completed), Reply::TransferComplete);
    assert_eq!(
        finish_transfer(&mut s, TransferOutcome::DataFailed(DataError::TimedOut)),
        Reply::TransferFailed(DataError::TimedOut)
    );
    assert_eq!(
        finish_transfer(&mut s, TransferOutcome::FileFailed(FsError::NoPermission)),
        Reply::FsFailed(FsError::NoPermission)
    );
}

#[test]
fn pasv_outcome_configures_or_clears_the_channel() {
    let (table, mut s) = fresh();
    login(&table, &mut s);
    let step = dispatch(&table, &mut s, b"PASV");
    assert_eq!(step, DispatchStep::Pend(Pending::OpenPassive));
    let addr = hp(10, 0, 0, 7, 40123);
    let reply = apply_pasv_result(&mut s, Ok(addr));
    assert_eq!(reply, Reply::PassiveReady(addr));
    assert_eq!(s.data_channel, ChannelConfig::Passive(addr));
    let reply = apply_pasv_result(&mut s, Err(DataError::TimedOut));
    assert_eq!(reply, Reply::DataChannelFailed(DataError::TimedOut));
    assert_eq!(s.data_channel, ChannelConfig::NoChannel);
}

#[test]
fn port_with_malformed_argument_changes_nothing() {
    let (table, mut s) = fresh();
    login(&table, &mut s);
    for bad in [
        b"192,168,1,2,19".as_slice(),
        b"192,168,1,2,19,136,7".as_slice(),
        b"256,0,0,1,4,1".as_slice(),
        b"a,b,c,d,e,f".as_slice(),
        b"".as_slice(),
        b"1,,3,4,5,6".as_slice(),
    ] {
        let step = dispatch(&table, &mut s, &[b"PORT ", bad].concat());
        assert_eq!(step, DispatchStep::Done(Reply::SyntaxError), "argument {:?}", bad);
        assert_eq!(s.data_channel, ChannelConfig::NoChannel);
    }
}

#[test]
fn passive_listener_accepts_once_then_is_closed() {
    let mut l = PassiveListener::open_listener();
    assert_eq!(l.status, ListenerStatus::Listening);
    assert!(!l.accepted);
    l.accept_connection();
    assert_eq!(l.status, ListenerStatus::Closed);
    assert!(l.accepted);
}

#[test]
fn passive_listener_times_out_without_accepting() {
    // The client of a PASV never connected: the listener is torn down by the
    // timeout and no listening socket outlives the command.
    let mut l = PassiveListener::open_listener();
    l.expire();
    assert_eq!(l.status, ListenerStatus::Closed);
    assert!(!l.accepted);
}

#[test]
fn sessions_do_not_share_state() {
    let table = initialize_command_handlers();
    let mut s1 = Session::new(&config());
    let mut s2 = Session::new(&config());
    login(&table, &mut s1);
    apply_cwd_result(&mut s1, b"/srv/one".to_vec(), Ok(()));
    dispatch(&table, &mut s1, b"RNFR keep.txt");
    dispatch(&table, &mut s1, b"PORT 10,0,0,1,4,1");
    assert!(!s2.authenticated);
    assert_eq!(s2.current_directory, b"/srv".to_vec());
    assert_eq!(s2.rename_source, None);
    assert_eq!(s2.data_channel, ChannelConfig::NoChannel);
    dispatch(&table, &mut s2, b"USER bob");
    assert_eq!(s1.current_directory, b"/srv/one".to_vec());
    assert_eq!(s1.username, Some(b"alice".to_vec()));
    assert!(s1.rename_source.is_some());
    assert!(matches!(s1.data_channel, ChannelConfig::Active(_)));
}
