use ftp_core::datachan::encode_host_port;
use ftp_core::datachan::parse_host_port;
use ftp_core::paths::parent;
use ftp_core::paths::resolve;
use ftp_core::router::initialize_command_handlers;
use ftp_core::router::split_line;
use ftp_core::router::Verb;
use ftp_core::session::HostPort;

fn hp(h1: u8, h2: u8, h3: u8, h4: u8, port: u16) -> HostPort {
    HostPort { h1, h2, h3, h4, port }
}

#[test]
fn lookup_is_case_insensitive_and_exact() {
    let table = initialize_command_handlers();
    assert_eq!(table.lookup(b"USER"), Some(Verb::User));
    assert_eq!(table.lookup(b"user"), Some(Verb::User));
    assert_eq!(table.lookup(b"UsEr"), Some(Verb::User));
    assert_eq!(table.lookup(b"PASV"), Some(Verb::Pasv));
    assert_eq!(table.lookup(b"pwd"), Some(Verb::Pwd));
    // No prefix matching, no fuzz.
    assert_eq!(table.lookup(b"US"), None);
    assert_eq!(table.lookup(b"USERX"), None);
    assert_eq!(table.lookup(b""), None);
}

#[test]
fn every_implemented_verb_is_found() {
    let table = initialize_command_handlers();
    let verbs: [(&[u8], Verb); 22] = [
        (b"SITE", Verb::Site),
        (b"FEAT", Verb::Feat),
        (b"ALLO", Verb::Allo),
        (b"SYST", Verb::Syst),
        (b"TYPE", Verb::Type),
        (b"CDUP", Verb::Cdup),
        (b"USER", Verb::User),
        (b"PASS", Verb::Pass),
        (b"QUIT", Verb::Quit),
        (b"PWD", Verb::Pwd),
        (b"LIST", Verb::List),
        (b"CWD", Verb::Cwd),
        (b"NOOP", Verb::Noop),
        (b"MKD", Verb::Mkd),
        (b"RMD", Verb::Rmd),
        (b"DELE", Verb::Dele),
        (b"RNFR", Verb::Rnfr),
        (b"RNTO", Verb::Rnto),
        (b"RETR", Verb::Retr),
        (b"STOR", Verb::Stor),
        (b"PORT", Verb::Port),
        (b"PASV", Verb::Pasv),
    ];
    for (name, tag) in verbs {
        assert_eq!(table.lookup(name), Some(tag), "verb {:?}", name);
    }
}

#[test]
fn split_line_takes_the_first_space_as_separator() {
    let (verb, arg) = split_line(b"USER alice");
    assert_eq!(verb, b"USER".to_vec());
    assert_eq!(arg, b"alice".to_vec());
    let (verb, arg) = split_line(b"NOOP");
    assert_eq!(verb, b"NOOP".to_vec());
    assert_eq!(arg, b"".to_vec());
    let (verb, arg) = split_line(b"CWD a name with spaces");
    assert_eq!(verb, b"CWD".to_vec());
    assert_eq!(arg, b"a name with spaces".to_vec());
    let (verb, arg) = split_line(b"");
    assert_eq!(verb, b"".to_vec());
    assert_eq!(arg, b"".to_vec());
}

#[test]
fn parse_host_port_accepts_well_formed_arguments() {
    assert_eq!(parse_host_port(b"127,0,0,1,4,1"), Some(hp(127, 0, 0, 1, 1025)));
    assert_eq!(parse_host_port(b"192,168,1,2,19,136"), Some(hp(192, 168, 1, 2, 5000)));
    assert_eq!(
        parse_host_port(b"255,255,255,255,255,255"),
        Some(hp(255, 255, 255, 255, 65535))
    );
    assert_eq!(parse_host_port(b"0,0,0,0,0,0"), Some(hp(0, 0, 0, 0, 0)));
}

#[test]
fn parse_host_port_rejects_malformed_arguments() {
    assert_eq!(parse_host_port(b""), None);
    assert_eq!(parse_host_port(b"1,2,3,4,5"), None);
    assert_eq!(parse_host_port(b"1,2,3,4,5,6,7"), None);
    assert_eq!(parse_host_port(b"256,0,0,1,4,1"), None);
    assert_eq!(parse_host_port(b"1,2,3,4,5,999"), None);
    assert_eq!(parse_host_port(b"a,b,c,d,e,f"), None);
    assert_eq!(parse_host_port(b"1,,3,4,5,6"), None);
    assert_eq!(parse_host_port(b"1,2,3,4,5,"), None);
    assert_eq!(parse_host_port(b"1,2,3,4,5,6 "), None);
    assert_eq!(parse_host_port(b"1234,2,3,4,5,6"), None);
}

#[test]
fn encode_host_port_renders_the_wire_form() {
    assert_eq!(encode_host_port(&hp(192, 168, 0, 10, 5001)), b"192,168,0,10,19,137".to_vec());
    assert_eq!(encode_host_port(&hp(10, 0, 0, 7, 40123)), b"10,0,0,7,156,187".to_vec());
    assert_eq!(encode_host_port(&hp(0, 0, 0, 0, 0)), b"0,0,0,0,0,0".to_vec());
    assert_eq!(encode_host_port(&hp(255, 255, 255, 255, 65535)), b"255,255,255,255,255,255".to_vec());
}

#[test]
fn encode_then_parse_returns_the_same_address() {
    for addr in [
        hp(127, 0, 0, 1, 1025),
        hp(10, 20, 30, 40, 256),
        hp(1, 2, 3, 4, 255),
        hp(255, 0, 255, 0, 65535),
        hp(0, 0, 0, 0, 0),
    ] {
        assert_eq!(parse_host_port(&encode_host_port(&addr)), Some(addr));
    }
}

#[test]
fn resolve_joins_relative_and_keeps_absolute_paths() {
    assert_eq!(resolve(&b"/srv".to_vec(), &b"x.txt".to_vec()), b"/srv/x.txt".to_vec());
    assert_eq!(resolve(&b"/srv/".to_vec(), &b"x.txt".to_vec()), b"/srv/x.txt".to_vec());
    assert_eq!(resolve(&b"/srv".to_vec(), &b"/abs/y".to_vec()), b"/abs/y".to_vec());
    assert_eq!(resolve(&b"/srv".to_vec(), &b"".to_vec()), b"/srv".to_vec());
    assert_eq!(resolve(&b"/".to_vec(), &b"top".to_vec()), b"/top".to_vec());
}

#[test]
fn parent_strips_the_last_component_but_keeps_the_root() {
    assert_eq!(parent(&b"/a/b".to_vec()), b"/a".to_vec());
    assert_eq!(parent(&b"/a".to_vec()), b"/".to_vec());
    assert_eq!(parent(&b"/".to_vec()), b"/".to_vec());
    assert_eq!(parent(&b"".to_vec()), b"/".to_vec());
}

#[test]
fn port_values_split_into_high_and_low_bytes() {
    // 19 * 256 + 136 == 5000: the high and low bytes of the port.
    let encoded = encode_host_port(&hp(1, 1, 1, 1, 5000));
    assert_eq!(encoded, b"1,1,1,1,19,136".to_vec());
    assert_eq!(parse_host_port(&encoded), Some(hp(1, 1, 1, 1, 5000)));
}
