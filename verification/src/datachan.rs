//! Data-connection manager: the wire encoding negotiated by `PASV`, the
//! argument parsing done by `PORT`, and the lifecycle of the passive-mode
//! listening socket.
//!
//! The sockets themselves live in the surrounding application; this module
//! fixes what the application may do with them: a `PORT` argument is accepted
//! exactly when it is six well-formed decimal components, a `PASV` reply
//! advertises exactly the bound address, and a passive listener accepts at
//! most one connection before it is closed.

use vstd::prelude::*;

use crate::router::find_byte;
use crate::router::lemma_find_byte;
use crate::session::HostPort;

verus! {

/// Whether `b` is an ASCII decimal digit.
pub open spec fn is_digit(b: u8) -> bool {
    48 <= b <= 57
}

/// Whether every byte of `t` is a decimal digit.
pub open spec fn all_digits(t: Seq<u8>) -> bool {
    forall|k: int| 0 <= k < t.len() ==> is_digit(t[k])
}

/// Value of a one-, two- or three-digit decimal token.
pub open spec fn spec_dec_val(t: Seq<u8>) -> int {
    if t.len() == 1 {
        t[0] - 48
    } else if t.len() == 2 {
        10 * (t[0] - 48) + (t[1] - 48)
    } else {
        100 * (t[0] - 48) + 10 * (t[1] - 48) + (t[2] - 48)
    }
}

/// Whether `t` is a well-formed decimal component of a `PORT` argument:
/// one to three digits whose value fits in a byte.
pub open spec fn is_dec255(t: Seq<u8>) -> bool {
    1 <= t.len() <= 3 && all_digits(t) && spec_dec_val(t) <= 255
}

/// Decimal rendering of `n`, without leading zeros.
pub open spec fn spec_dec(n: int) -> Seq<u8> {
    if n < 10 {
        seq![(48 + n) as u8]
    } else if n < 100 {
        seq![(48 + n / 10) as u8, (48 + n % 10) as u8]
    } else {
        seq![(48 + n / 100) as u8, (48 + (n % 100) / 10) as u8, (48 + (n % 100) % 10) as u8]
    }
}

/// The `PASV` reply body: the six decimal components of the address and
/// port, separated by commas, with the port split into high and low byte.
pub open spec fn spec_encode_host_port(hp: HostPort) -> Seq<u8> {
    spec_dec(hp.h1 as int) + seq![44u8] + spec_dec(hp.h2 as int) + seq![44u8] + spec_dec(
        hp.h3 as int,
    ) + seq![44u8] + spec_dec(hp.h4 as int) + seq![44u8] + spec_dec(
        (hp.port / 256) as int,
    ) + seq![44u8] + spec_dec((hp.port % 256) as int)
}

/// What a `PORT` argument denotes: six comma-separated decimal components,
/// each at most 255, the last two forming the port; anything else is
/// rejected.
pub open spec fn spec_parse_host_port(s: Seq<u8>) -> Option<HostPort> {
    let e1 = find_byte(s, 44, 0);
    let e2 = find_byte(s, 44, e1 + 1);
    let e3 = find_byte(s, 44, e2 + 1);
    let e4 = find_byte(s, 44, e3 + 1);
    let e5 = find_byte(s, 44, e4 + 1);
    if e5 >= s.len() || find_byte(s, 44, e5 + 1) < s.len() {
        Option::None
    } else {
        let t1 = s.subrange(0, e1);
        let t2 = s.subrange(e1 + 1, e2);
        let t3 = s.subrange(e2 + 1, e3);
        let t4 = s.subrange(e3 + 1, e4);
        let t5 = s.subrange(e4 + 1, e5);
        let t6 = s.subrange(e5 + 1, s.len() as int);
        if is_dec255(t1) && is_dec255(t2) && is_dec255(t3) && is_dec255(t4) && is_dec255(t5)
            && is_dec255(t6) {
            Option::Some(
                HostPort {
                    h1: spec_dec_val(t1) as u8,
                    h2: spec_dec_val(t2) as u8,
                    h3: spec_dec_val(t3) as u8,
                    h4: spec_dec_val(t4) as u8,
                    port: (spec_dec_val(t5) * 256 + spec_dec_val(t6)) as u16,
                },
            )
        } else {
            Option::None
        }
    }
}

/// Append the decimal rendering of `n` to `r`.
fn push_dec(r: &mut Vec<u8>, n: u8)
    ensures
        final(r)@ == old(r)@ + spec_dec(n as int),
{
    if n < 10 {
        r.push(48 + n);
    } else if n < 100 {
        r.push(48 + n / 10);
        r.push(48 + n % 10);
    } else {
        r.push(48 + n / 100);
        r.push(48 + (n % 100) / 10);
        r.push(48 + (n % 100) % 10);
    }
    proof {
        assert(r@ =~= old(r)@ + spec_dec(n as int));
    }
}

/// Render the `PASV` reply body for the bound address `hp`.
pub fn encode_host_port(hp: &HostPort) -> (r: Vec<u8>)
    ensures
        r@ == spec_encode_host_port(*hp),
{
    let mut r: Vec<u8> = Vec::new();
    push_dec(&mut r, hp.h1);
    r.push(44);
    push_dec(&mut r, hp.h2);
    r.push(44);
    push_dec(&mut r, hp.h3);
    r.push(44);
    push_dec(&mut r, hp.h4);
    r.push(44);
    assert(hp.port / 256 < 256);
    push_dec(&mut r, (hp.port / 256) as u8);
    r.push(44);
    push_dec(&mut r, (hp.port % 256) as u8);
    proof {
        assert(r@ =~= spec_encode_host_port(*hp));
    }
    r
}

/// Find the first comma at or after `start`, as `find_byte` does.
fn find_comma(s: &[u8], start: usize) -> (j: usize)
    ensures
        j as int == find_byte(s@, 44, start as int),
        j <= s@.len(),
        start <= s@.len() ==> start <= j,
{
    if start >= s.len() {
        return s.len();
    }
    let mut j: usize = start;
    while j < s.len() && s[j] != 44
        invariant
            start <= j <= s@.len(),
            forall|k: int| start <= k < j ==> s@[k] != 44,
        decreases s@.len() - j,
    {
        j = j + 1;
    }
    proof {
        lemma_find_byte(s@, 44, start as int, j as int);
    }
    j
}

/// Find the first comma strictly after position `idx`, as `find_byte` from
/// `idx + 1` does.
fn find_comma_after(s: &[u8], idx: usize) -> (j: usize)
    ensures
        j as int == find_byte(s@, 44, idx as int + 1),
        j <= s@.len(),
        idx as int + 1 > s@.len() ==> j == s@.len(),
        idx as int + 1 <= s@.len() ==> idx < j,
{
    if idx >= s.len() {
        return s.len();
    }
    find_comma(s, idx + 1)
}

/// Parse one decimal component of a `PORT` argument.
fn parse_token(s: &[u8], from: usize, to: usize) -> (r: Option<u8>)
    requires
        from <= to <= s@.len(),
    ensures
        ({
            let t = s@.subrange(from as int, to as int);
            match r {
                Option::Some(v) => is_dec255(t) && v as int == spec_dec_val(t),
                Option::None => !is_dec255(t),
            }
        }),
{
    let ghost t = s@.subrange(from as int, to as int);
    let n = to - from;
    if n == 1 {
        let b0 = s[from];
        if 48 <= b0 && b0 <= 57 {
            Option::Some(b0 - 48)
        } else {
            Option::None
        }
    } else if n == 2 {
        let b0 = s[from];
        let b1 = s[from + 1];
        if 48 <= b0 && b0 <= 57 && 48 <= b1 && b1 <= 57 {
            Option::Some((b0 - 48) * 10 + (b1 - 48))
        } else {
            Option::None
        }
    } else if n == 3 {
        let b0 = s[from];
        let b1 = s[from + 1];
        let b2 = s[from + 2];
        if 48 <= b0 && b0 <= 57 && 48 <= b1 && b1 <= 57 && 48 <= b2 && b2 <= 57 {
            let v: u16 = (b0 - 48) as u16 * 100 + (b1 - 48) as u16 * 10 + (b2 - 48) as u16;
            if v <= 255 {
                Option::Some(v as u8)
            } else {
                Option::None
            }
        } else {
            Option::None
        }
    } else {
        Option::None
    }
}

/// Parse a `PORT` argument.
pub fn parse_host_port(s: &[u8]) -> (r: Option<HostPort>)
    ensures
        r == spec_parse_host_port(s@),
{
    let e1 = find_comma(s, 0);
    let e2 = find_comma_after(s, e1);
    let e3 = find_comma_after(s, e2);
    let e4 = find_comma_after(s, e3);
    let e5 = find_comma_after(s, e4);
    if e5 >= s.len() {
        return Option::None;
    }
    let e6 = find_comma_after(s, e5);
    if e6 < s.len() {
        return Option::None;
    }
    let t1 = parse_token(s, 0, e1);
    let t2 = parse_token(s, e1 + 1, e2);
    let t3 = parse_token(s, e2 + 1, e3);
    let t4 = parse_token(s, e3 + 1, e4);
    let t5 = parse_token(s, e4 + 1, e5);
    let t6 = parse_token(s, e5 + 1, s.len());
    match (t1, t2, t3, t4, t5, t6) {
        (
            Option::Some(h1),
            Option::Some(h2),
            Option::Some(h3),
            Option::Some(h4),
            Option::Some(p1),
            Option::Some(p2),
        ) => Option::Some(
            HostPort { h1, h2, h3, h4, port: p1 as u16 * 256 + p2 as u16 },
        ),
        _ => Option::None,
    }
}

/// The decimal rendering of a byte-sized value is a well-formed `PORT`
/// component: one to three digits, no comma among them, denoting the value
/// itself.
pub proof fn lemma_dec_well_formed(n: int)
    requires
        0 <= n <= 255,
    ensures
        is_dec255(spec_dec(n)),
        spec_dec_val(spec_dec(n)) == n,
        forall|k: int| 0 <= k < spec_dec(n).len() ==> spec_dec(n)[k] != 44,
{
    let t = spec_dec(n);
    if n < 10 {
        assert(t[0] == (48 + n) as u8);
    } else if n < 100 {
        assert(t[0] == (48 + n / 10) as u8);
        assert(t[1] == (48 + n % 10) as u8);
    } else {
        assert(t[0] == (48 + n / 100) as u8);
        assert(t[1] == (48 + (n % 100) / 10) as u8);
        assert(t[2] == (48 + (n % 100) % 10) as u8);
        assert(n == 100 * (n / 100) + n % 100);
        assert(n % 100 == 10 * ((n % 100) / 10) + (n % 100) % 10);
    }
}

/// The wire encoding is lossless: parsing an encoded address yields exactly
/// the address that was encoded.
pub proof fn lemma_encode_parse_round_trip(hp: HostPort)
    ensures
        spec_parse_host_port(spec_encode_host_port(hp)) == Option::Some(hp),
{
    let p1 = (hp.port / 256) as int;
    let p2 = (hp.port % 256) as int;
    let d1 = spec_dec(hp.h1 as int);
    let d2 = spec_dec(hp.h2 as int);
    let d3 = spec_dec(hp.h3 as int);
    let d4 = spec_dec(hp.h4 as int);
    let d5 = spec_dec(p1);
    let d6 = spec_dec(p2);
    lemma_dec_well_formed(hp.h1 as int);
    lemma_dec_well_formed(hp.h2 as int);
    lemma_dec_well_formed(hp.h3 as int);
    lemma_dec_well_formed(hp.h4 as int);
    lemma_dec_well_formed(p1);
    lemma_dec_well_formed(p2);
    let s = spec_encode_host_port(hp);
    let c1 = d1.len() as int;
    let c2 = c1 + 1 + d2.len();
    let c3 = c2 + 1 + d3.len();
    let c4 = c3 + 1 + d4.len();
    let c5 = c4 + 1 + d5.len();
    let n = c5 + 1 + d6.len();
    assert(s.len() == n);
    assert(forall|k: int| 0 <= k < c1 ==> s[k] == d1[k]);
    assert(s[c1] == 44);
    assert(forall|k: int| c1 + 1 <= k < c2 ==> s[k] == d2[k - (c1 + 1)]);
    assert(s[c2] == 44);
    assert(forall|k: int| c2 + 1 <= k < c3 ==> s[k] == d3[k - (c2 + 1)]);
    assert(s[c3] == 44);
    assert(forall|k: int| c3 + 1 <= k < c4 ==> s[k] == d4[k - (c3 + 1)]);
    assert(s[c4] == 44);
    assert(forall|k: int| c4 + 1 <= k < c5 ==> s[k] == d5[k - (c4 + 1)]);
    assert(s[c5] == 44);
    assert(forall|k: int| c5 + 1 <= k < n ==> s[k] == d6[k - (c5 + 1)]);
    lemma_find_byte(s, 44, 0, c1);
    lemma_find_byte(s, 44, c1 + 1, c2);
    lemma_find_byte(s, 44, c2 + 1, c3);
    lemma_find_byte(s, 44, c3 + 1, c4);
    lemma_find_byte(s, 44, c4 + 1, c5);
    lemma_find_byte(s, 44, c5 + 1, n);
    assert(s.subrange(0, c1) =~= d1);
    assert(s.subrange(c1 + 1, c2) =~= d2);
    assert(s.subrange(c2 + 1, c3) =~= d3);
    assert(s.subrange(c3 + 1, c4) =~= d4);
    assert(s.subrange(c4 + 1, c5) =~= d5);
    assert(s.subrange(c5 + 1, n) =~= d6);
    assert(hp.port == p1 * 256 + p2);
}

/// Lifecycle state of the listening socket a `PASV` command opened.
#[derive(Clone, Copy, PartialEq, Eq, Structural, Debug)]
pub enum ListenerStatus {
    Listening,
    Closed,
}

/// Model of one passive-mode listener.  The application must drive the real
/// socket exactly as this state machine allows: it is opened listening,
/// accepts at most one connection, and is closed by the first event that
/// reaches it — an accepted connection, the configured timeout, or the
/// session going away.
#[derive(Clone, Copy, PartialEq, Eq, Structural, Debug)]
pub struct PassiveListener {
    pub status: ListenerStatus,
    pub accepted: bool,
}

/// The state of a freshly opened listener.
pub open spec fn spec_open_listener() -> PassiveListener {
    PassiveListener { status: ListenerStatus::Listening, accepted: false }
}

/// The state after the one permitted connection was accepted.
pub open spec fn spec_accept(l: PassiveListener) -> PassiveListener {
    PassiveListener { status: ListenerStatus::Closed, accepted: true }
}

/// The state after the timeout elapsed or the session went away before any
/// connection arrived.
pub open spec fn spec_expire(l: PassiveListener) -> PassiveListener {
    PassiveListener { status: ListenerStatus::Closed, accepted: l.accepted }
}

impl PassiveListener {
    /// A listener still listening has not accepted anything yet.
    pub open spec fn wf(self) -> bool {
        self.status is Listening ==> !self.accepted
    }

    /// Record that `PASV` bound a listening socket.
    pub fn open_listener() -> (l: PassiveListener)
        ensures
            l == spec_open_listener(),
            l.wf(),
    {
        PassiveListener { status: ListenerStatus::Listening, accepted: false }
    }

    /// Record the one inbound connection; the socket stops listening with it.
    pub fn accept_connection(&mut self)
        requires
            old(self).status is Listening,
        ensures
            *final(self) == spec_accept(*old(self)),
            final(self).wf(),
    {
        self.status = ListenerStatus::Closed;
        self.accepted = true;
    }

    /// Record that the timeout elapsed, or the session ended, before any
    /// connection arrived; the socket is closed without accepting.
    pub fn expire(&mut self)
        requires
            old(self).status is Listening,
        ensures
            *final(self) == spec_expire(*old(self)),
            final(self).wf(),
    {
        self.status = ListenerStatus::Closed;
    }
}

/// A listener opened by `PASV` accepts at most one connection and is closed
/// by the first event that reaches it, whichever comes first: after any
/// single event on a fresh listener the socket is closed, only the accept
/// event marks a connection as accepted, and a closed listener admits no
/// further event.
pub proof fn lemma_listener_single_use()
    ensures
        spec_accept(spec_open_listener()).status is Closed,
        spec_accept(spec_open_listener()).accepted,
        spec_expire(spec_open_listener()).status is Closed,
        !spec_expire(spec_open_listener()).accepted,
{
}

} // verus!
