//! Command router: the dispatch table from verb to handler tag, the
//! case-insensitive lookup, and the split of a command line into verb and
//! argument.
//!
//! The table is built once at server start and read-only afterwards; a lookup
//! miss is a structured "not implemented" outcome, never a failure.

use vstd::prelude::*;

verus! {

/// Tag of the handler a command verb dispatches to.
#[derive(Clone, Copy, PartialEq, Eq, Structural, Debug)]
pub enum Verb {
    Site,
    Feat,
    Allo,
    Syst,
    Type,
    Cdup,
    User,
    Pass,
    Quit,
    Pwd,
    List,
    Cwd,
    Noop,
    Mkd,
    Rmd,
    Dele,
    Rnfr,
    Rnto,
    Retr,
    Stor,
    Port,
    Pasv,
}

/// The wire name of each verb, upper case, as a byte sequence.
pub open spec fn spec_verb_name(v: Verb) -> Seq<u8> {
    match v {
        Verb::Site => seq![83u8, 73u8, 84u8, 69u8],
        Verb::Feat => seq![70u8, 69u8, 65u8, 84u8],
        Verb::Allo => seq![65u8, 76u8, 76u8, 79u8],
        Verb::Syst => seq![83u8, 89u8, 83u8, 84u8],
        Verb::Type => seq![84u8, 89u8, 80u8, 69u8],
        Verb::Cdup => seq![67u8, 68u8, 85u8, 80u8],
        Verb::User => seq![85u8, 83u8, 69u8, 82u8],
        Verb::Pass => seq![80u8, 65u8, 83u8, 83u8],
        Verb::Quit => seq![81u8, 85u8, 73u8, 84u8],
        Verb::Pwd => seq![80u8, 87u8, 68u8],
        Verb::List => seq![76u8, 73u8, 83u8, 84u8],
        Verb::Cwd => seq![67u8, 87u8, 68u8],
        Verb::Noop => seq![78u8, 79u8, 79u8, 80u8],
        Verb::Mkd => seq![77u8, 75u8, 68u8],
        Verb::Rmd => seq![82u8, 77u8, 68u8],
        Verb::Dele => seq![68u8, 69u8, 76u8, 69u8],
        Verb::Rnfr => seq![82u8, 78u8, 70u8, 82u8],
        Verb::Rnto => seq![82u8, 78u8, 84u8, 79u8],
        Verb::Retr => seq![82u8, 69u8, 84u8, 82u8],
        Verb::Stor => seq![83u8, 84u8, 79u8, 82u8],
        Verb::Port => seq![80u8, 79u8, 82u8, 84u8],
        Verb::Pasv => seq![80u8, 65u8, 83u8, 86u8],
    }
}

/// The dispatch table's contents: every verb the server implements, paired
/// with its wire name.
pub open spec fn spec_table() -> Seq<(Seq<u8>, Verb)> {
    seq![
        (spec_verb_name(Verb::Site), Verb::Site),
        (spec_verb_name(Verb::Feat), Verb::Feat),
        (spec_verb_name(Verb::Allo), Verb::Allo),
        (spec_verb_name(Verb::Syst), Verb::Syst),
        (spec_verb_name(Verb::Type), Verb::Type),
        (spec_verb_name(Verb::Cdup), Verb::Cdup),
        (spec_verb_name(Verb::User), Verb::User),
        (spec_verb_name(Verb::Pass), Verb::Pass),
        (spec_verb_name(Verb::Quit), Verb::Quit),
        (spec_verb_name(Verb::Pwd), Verb::Pwd),
        (spec_verb_name(Verb::List), Verb::List),
        (spec_verb_name(Verb::Cwd), Verb::Cwd),
        (spec_verb_name(Verb::Noop), Verb::Noop),
        (spec_verb_name(Verb::Mkd), Verb::Mkd),
        (spec_verb_name(Verb::Rmd), Verb::Rmd),
        (spec_verb_name(Verb::Dele), Verb::Dele),
        (spec_verb_name(Verb::Rnfr), Verb::Rnfr),
        (spec_verb_name(Verb::Rnto), Verb::Rnto),
        (spec_verb_name(Verb::Retr), Verb::Retr),
        (spec_verb_name(Verb::Stor), Verb::Stor),
        (spec_verb_name(Verb::Port), Verb::Port),
        (spec_verb_name(Verb::Pasv), Verb::Pasv),
    ]
}

/// ASCII upper-casing of one byte.
pub open spec fn spec_to_upper(b: u8) -> u8 {
    if 97 <= b && b <= 122 {
        (b - 32) as u8
    } else {
        b
    }
}

/// ASCII upper-casing of a byte sequence.
pub open spec fn spec_upper(s: Seq<u8>) -> Seq<u8> {
    s.map_values(|b: u8| spec_to_upper(b))
}

/// First match of `name` in `table`, front to back.
pub open spec fn spec_lookup(table: Seq<(Seq<u8>, Verb)>, name: Seq<u8>) -> Option<Verb>
    decreases table.len(),
{
    if table.len() == 0 {
        Option::None
    } else if table[0].0 == name {
        Option::Some(table[0].1)
    } else {
        spec_lookup(table.drop_first(), name)
    }
}

/// The handler a received verb dispatches to: case-insensitive, exact match.
pub open spec fn verb_of(name: Seq<u8>) -> Option<Verb> {
    spec_lookup(spec_table(), spec_upper(name))
}

/// Every implemented verb is reachable: its upper-case wire name looks up to
/// exactly its own handler tag.
pub proof fn lemma_every_verb_reachable(v: Verb)
    ensures
        verb_of(spec_verb_name(v)) == Option::Some(v),
{
    reveal_with_fuel(spec_lookup, 25);
    assert(spec_upper(spec_verb_name(v)) =~= spec_verb_name(v));
}

/// One row of the dispatch table.
pub struct CommandEntry {
    pub name: Vec<u8>,
    pub tag: Verb,
}

/// The dispatch table: built once at startup, never mutated while serving.
pub struct CommandTable {
    pub entries: Vec<CommandEntry>,
}

impl View for CommandTable {
    type V = Seq<(Seq<u8>, Verb)>;

    open spec fn view(&self) -> Seq<(Seq<u8>, Verb)> {
        self.entries@.map_values(|e: CommandEntry| (e.name@, e.tag))
    }
}

impl CommandTable {
    /// The table holds exactly the implemented verbs, in registration order.
    pub open spec fn wf(self) -> bool {
        self@ == spec_table()
    }

    /// Case-insensitive, exact verb lookup.
    pub fn lookup(&self, verb: &[u8]) -> (r: Option<Verb>)
        requires
            self.wf(),
        ensures
            r == verb_of(verb@),
    {
        let upper = upper_bytes(verb);
        let n = self.entries.len();
        proof {
            assert(self@.len() == self.entries@.len());
            assert(self@.subrange(0, n as int) =~= self@);
        }
        let mut i: usize = 0;
        while i < n
            invariant
                i <= n,
                n == self.entries.len(),
                self.wf(),
                self@.len() == n,
                upper@ == spec_upper(verb@),
                spec_lookup(spec_table(), spec_upper(verb@)) == spec_lookup(
                    self@.subrange(i as int, n as int),
                    spec_upper(verb@),
                ),
            decreases n - i,
        {
            let ghost rest = self@.subrange(i as int, n as int);
            proof {
                assert(rest[0] == self@[i as int]);
            }
            if bytes_eq(upper.as_slice(), self.entries[i].name.as_slice()) {
                return Option::Some(self.entries[i].tag);
            }
            proof {
                assert(rest.drop_first() =~= self@.subrange(i + 1 as int, n as int));
            }
            i = i + 1;
        }
        proof {
            assert(self@.subrange(n as int, n as int) =~= Seq::<(Seq<u8>, Verb)>::empty());
        }
        Option::None
    }
}

/// Executable counterpart of `spec_verb_name`.
pub fn verb_name(v: Verb) -> (r: Vec<u8>)
    ensures
        r@ == spec_verb_name(v),
{
    let mut r: Vec<u8> = Vec::new();
    match v {
        Verb::Site => {
            r.push(83);
            r.push(73);
            r.push(84);
            r.push(69);
        }
        Verb::Feat => {
            r.push(70);
            r.push(69);
            r.push(65);
            r.push(84);
        }
        Verb::Allo => {
            r.push(65);
            r.push(76);
            r.push(76);
            r.push(79);
        }
        Verb::Syst => {
            r.push(83);
            r.push(89);
            r.push(83);
            r.push(84);
        }
        Verb::Type => {
            r.push(84);
            r.push(89);
            r.push(80);
            r.push(69);
        }
        Verb::Cdup => {
            r.push(67);
            r.push(68);
            r.push(85);
            r.push(80);
        }
        Verb::User => {
            r.push(85);
            r.push(83);
            r.push(69);
            r.push(82);
        }
        Verb::Pass => {
            r.push(80);
            r.push(65);
            r.push(83);
            r.push(83);
        }
        Verb::Quit => {
            r.push(81);
            r.push(85);
            r.push(73);
            r.push(84);
        }
        Verb::Pwd => {
            r.push(80);
            r.push(87);
            r.push(68);
        }
        Verb::List => {
            r.push(76);
            r.push(73);
            r.push(83);
            r.push(84);
        }
        Verb::Cwd => {
            r.push(67);
            r.push(87);
            r.push(68);
        }
        Verb::Noop => {
            r.push(78);
            r.push(79);
            r.push(79);
            r.push(80);
        }
        Verb::Mkd => {
            r.push(77);
            r.push(75);
            r.push(68);
        }
        Verb::Rmd => {
            r.push(82);
            r.push(77);
            r.push(68);
        }
        Verb::Dele => {
            r.push(68);
            r.push(69);
            r.push(76);
            r.push(69);
        }
        Verb::Rnfr => {
            r.push(82);
            r.push(78);
            r.push(70);
            r.push(82);
        }
        Verb::Rnto => {
            r.push(82);
            r.push(78);
            r.push(84);
            r.push(79);
        }
        Verb::Retr => {
            r.push(82);
            r.push(69);
            r.push(84);
            r.push(82);
        }
        Verb::Stor => {
            r.push(83);
            r.push(84);
            r.push(79);
            r.push(82);
        }
        Verb::Port => {
            r.push(80);
            r.push(79);
            r.push(82);
            r.push(84);
        }
        Verb::Pasv => {
            r.push(80);
            r.push(65);
            r.push(83);
            r.push(86);
        }
    }
    proof {
        assert(r@ =~= spec_verb_name(v));
    }
    r
}

/// Build the dispatch table.  Process-wide, read-only after initialization;
/// a lookup miss yields an "unrecognized command" outcome, not a failure.
pub fn initialize_command_handlers() -> (t: CommandTable)
    ensures
        t.wf(),
{
    let mut entries: Vec<CommandEntry> = Vec::new();
    entries.push(CommandEntry { name: verb_name(Verb::Site), tag: Verb::Site });
    entries.push(CommandEntry { name: verb_name(Verb::Feat), tag: Verb::Feat });
    entries.push(CommandEntry { name: verb_name(Verb::Allo), tag: Verb::Allo });
    entries.push(CommandEntry { name: verb_name(Verb::Syst), tag: Verb::Syst });
    entries.push(CommandEntry { name: verb_name(Verb::Type), tag: Verb::Type });
    entries.push(CommandEntry { name: verb_name(Verb::Cdup), tag: Verb::Cdup });
    entries.push(CommandEntry { name: verb_name(Verb::User), tag: Verb::User });
    entries.push(CommandEntry { name: verb_name(Verb::Pass), tag: Verb::Pass });
    entries.push(CommandEntry { name: verb_name(Verb::Quit), tag: Verb::Quit });
    entries.push(CommandEntry { name: verb_name(Verb::Pwd), tag: Verb::Pwd });
    entries.push(CommandEntry { name: verb_name(Verb::List), tag: Verb::List });
    entries.push(CommandEntry { name: verb_name(Verb::Cwd), tag: Verb::Cwd });
    entries.push(CommandEntry { name: verb_name(Verb::Noop), tag: Verb::Noop });
    entries.push(CommandEntry { name: verb_name(Verb::Mkd), tag: Verb::Mkd });
    entries.push(CommandEntry { name: verb_name(Verb::Rmd), tag: Verb::Rmd });
    entries.push(CommandEntry { name: verb_name(Verb::Dele), tag: Verb::Dele });
    entries.push(CommandEntry { name: verb_name(Verb::Rnfr), tag: Verb::Rnfr });
    entries.push(CommandEntry { name: verb_name(Verb::Rnto), tag: Verb::Rnto });
    entries.push(CommandEntry { name: verb_name(Verb::Retr), tag: Verb::Retr });
    entries.push(CommandEntry { name: verb_name(Verb::Stor), tag: Verb::Stor });
    entries.push(CommandEntry { name: verb_name(Verb::Port), tag: Verb::Port });
    entries.push(CommandEntry { name: verb_name(Verb::Pasv), tag: Verb::Pasv });
    let t = CommandTable { entries };
    proof {
        assert(t@ =~= spec_table());
    }
    t
}

/// ASCII upper-casing of a byte slice.
pub fn upper_bytes(s: &[u8]) -> (r: Vec<u8>)
    ensures
        r@ == spec_upper(s@),
{
    let mut r: Vec<u8> = Vec::new();
    let mut i: usize = 0;
    while i < s.len()
        invariant
            i <= s.len(),
            r@.len() == i,
            forall|k: int| 0 <= k < i ==> r@[k] == spec_to_upper(s@[k]),
        decreases s.len() - i,
    {
        let b = s[i];
        if 97 <= b && b <= 122 {
            r.push(b - 32);
        } else {
            r.push(b);
        }
        i = i + 1;
    }
    proof {
        assert(r@ =~= spec_upper(s@));
    }
    r
}

/// Byte-for-byte equality of two slices.
pub fn bytes_eq(a: &[u8], b: &[u8]) -> (r: bool)
    ensures
        r == (a@ == b@),
{
    if a.len() != b.len() {
        return false;
    }
    let mut i: usize = 0;
    while i < a.len()
        invariant
            i <= a.len(),
            a@.len() == b@.len(),
            forall|k: int| 0 <= k < i ==> a@[k] == b@[k],
        decreases a.len() - i,
    {
        if a[i] != b[i] {
            return false;
        }
        i = i + 1;
    }
    proof {
        assert(a@ =~= b@);
    }
    true
}

/// Index of the first occurrence of `b` in `s` at or after `i`, or `s.len()`
/// if there is none.
pub open spec fn find_byte(s: Seq<u8>, b: u8, i: int) -> int
    decreases s.len() - i,
{
    if i < 0 || i >= s.len() {
        s.len() as int
    } else if s[i] == b {
        i
    } else {
        find_byte(s, b, i + 1)
    }
}

/// `find_byte` returns the least matching index: a scan that saw no match in
/// `[i, j)` and stops at `j` has found the value of `find_byte` from `i`.
pub proof fn lemma_find_byte(s: Seq<u8>, b: u8, i: int, j: int)
    requires
        0 <= i <= j <= s.len(),
        forall|k: int| i <= k < j ==> s[k] != b,
        j == s.len() || s[j] == b,
    ensures
        find_byte(s, b, i) == if j == s.len() { s.len() as int } else { j },
    decreases j - i,
{
    if i < j {
        assert(s[i] != b);
        lemma_find_byte(s, b, i + 1, j);
    }
}

/// The verb of a received line: the bytes before the first space.
pub open spec fn spec_split_verb(line: Seq<u8>) -> Seq<u8> {
    line.subrange(0, find_byte(line, 32, 0))
}

/// The argument of a received line: the bytes after the first space, empty
/// when the line has no space.
pub open spec fn spec_split_arg(line: Seq<u8>) -> Seq<u8> {
    let j = find_byte(line, 32, 0);
    if j == line.len() {
        Seq::empty()
    } else {
        line.subrange(j + 1, line.len() as int)
    }
}

/// Copy `s[from..to]` into a fresh vector.
pub fn copy_range(s: &[u8], from: usize, to: usize) -> (r: Vec<u8>)
    requires
        from <= to <= s@.len(),
    ensures
        r@ == s@.subrange(from as int, to as int),
{
    let mut r: Vec<u8> = Vec::new();
    let mut i: usize = from;
    while i < to
        invariant
            from <= i <= to <= s@.len(),
            r@.len() == i - from,
            forall|k: int| 0 <= k < r@.len() ==> r@[k] == s@[from + k],
        decreases to - i,
    {
        r.push(s[i]);
        i = i + 1;
    }
    proof {
        assert(r@ =~= s@.subrange(from as int, to as int));
    }
    r
}

/// Split a received line (without its terminator) into verb and argument at
/// the first space.
pub fn split_line(line: &[u8]) -> (r: (Vec<u8>, Vec<u8>))
    ensures
        r.0@ == spec_split_verb(line@),
        r.1@ == spec_split_arg(line@),
{
    let n = line.len();
    let mut j: usize = 0;
    while j < n && line[j] != 32
        invariant
            j <= n,
            n == line@.len(),
            forall|k: int| 0 <= k < j ==> line@[k] != 32,
        decreases n - j,
    {
        j = j + 1;
    }
    proof {
        lemma_find_byte(line@, 32, 0, j as int);
    }
    let verb = copy_range(line, 0, j);
    let arg = if j < n {
        copy_range(line, j + 1, n)
    } else {
        Vec::new()
    };
    proof {
        if j >= n {
            assert(arg@ =~= spec_split_arg(line@));
        }
    }
    (verb, arg)
}

} // verus!
