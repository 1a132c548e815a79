//! The kinds of datastore that a connection may be declared to be, and how a
//! declared kind is read.

use vstd::prelude::*;
use vstd::string::is_ascii_spec_bytes;

verus! {

/// A supported storage engine.
#[derive(Clone, Copy, Debug, PartialEq, Eq, Hash, Structural)]
pub enum DatastoreKind {
    Postgres,
    MySql,
    Sqlite,
}

/// `c` with an ASCII capital replaced by its small letter.
pub open spec fn fold_case(c: char) -> char {
    if 'A' <= c && c <= 'Z' {
        ((c as int) + 32) as char
    } else {
        c
    }
}

/// Whether `a` and `b` are the same but for the case of ASCII letters.
pub open spec fn same_ignoring_case(a: Seq<char>, b: Seq<char>) -> bool {
    &&& a.len() == b.len()
    &&& forall|i: int| 0 <= i < a.len() ==> fold_case(#[trigger] a[i]) == fold_case(b[i])
}

fn fold_byte(b: u8) -> (folded: u8)
    requires
        b < 128,
    ensures
        folded < 128,
        folded as char == fold_case(b as char),
{
    if b >= 65 && b <= 90 {
        b + 32
    } else {
        b
    }
}

fn matches_keyword(declared: &str, keyword: &str) -> (same: bool)
    requires
        keyword.is_ascii(),
    ensures
        same == same_ignoring_case(declared@, keyword@),
{
    broadcast use is_ascii_spec_bytes;

    if !declared.is_ascii() {
        proof {
            if declared@.len() == keyword@.len() {
                let i = choose|i: int|
                    0 <= i < declared@.len() && !('\0' <= #[trigger] declared@[i] <= '\u{7f}');
                assert(fold_case(declared@[i]) == declared@[i]);
                assert(fold_case(keyword@[i]) <= '\u{7f}');
            }
        }
        return false;
    }
    let given = declared.as_bytes();
    let wanted = keyword.as_bytes();
    if given.len() != wanted.len() {
        return false;
    }
    let mut i: usize = 0;
    while i < given.len()
        invariant
            0 <= i <= given@.len(),
            given@.len() == wanted@.len(),
            given@.len() == declared@.len(),
            wanted@.len() == keyword@.len(),
            declared.is_ascii(),
            keyword.is_ascii(),
            forall|j: int| 0 <= j < given@.len() ==> given@[j] == declared@[j] as u8,
            forall|j: int| 0 <= j < wanted@.len() ==> wanted@[j] == keyword@[j] as u8,
            forall|j: int|
                0 <= j < i ==> fold_case(#[trigger] declared@[j]) == fold_case(keyword@[j]),
        decreases given@.len() - i,
    {
        assert(given@[i as int] == declared@[i as int] as u8);
        assert(wanted@[i as int] == keyword@[i as int] as u8);
        assert('\0' <= declared@[i as int] <= '\u{7f}');
        assert('\0' <= keyword@[i as int] <= '\u{7f}');
        if fold_byte(given[i]) != fold_byte(wanted[i]) {
            assert(fold_case(declared@[i as int]) != fold_case(keyword@[i as int]));
            return false;
        }
        i += 1;
    }
    true
}

impl DatastoreKind {
    /// The word by which the kind is declared.
    pub open spec fn spec_keyword(self) -> Seq<char> {
        match self {
            DatastoreKind::Postgres => "postgres"@,
            DatastoreKind::MySql => "mysql"@,
            DatastoreKind::Sqlite => "sqlite"@,
        }
    }

    /// The kind that `declared` names: the one whose keyword it is, in any
    /// mix of capitals and small letters.
    pub open spec fn spec_parse(declared: Seq<char>) -> Option<DatastoreKind> {
        if same_ignoring_case(declared, DatastoreKind::Postgres.spec_keyword()) {
            Some(DatastoreKind::Postgres)
        } else if same_ignoring_case(declared, DatastoreKind::MySql.spec_keyword()) {
            Some(DatastoreKind::MySql)
        } else if same_ignoring_case(declared, DatastoreKind::Sqlite.spec_keyword()) {
            Some(DatastoreKind::Sqlite)
        } else {
            None
        }
    }

    /// The engine's name as it is shown to an operator.
    pub open spec fn spec_name(self) -> Seq<char> {
        match self {
            DatastoreKind::Postgres => "Postgres"@,
            DatastoreKind::MySql => "MySql"@,
            DatastoreKind::Sqlite => "Sqlite"@,
        }
    }

    /// The word by which the kind is declared.
    pub fn keyword(self) -> (keyword: &'static str)
        ensures
            keyword@ == self.spec_keyword(),
            keyword.is_ascii(),
    {
        proof {
            reveal_strlit("postgres");
            reveal_strlit("mysql");
            reveal_strlit("sqlite");
        }
        match self {
            DatastoreKind::Postgres => "postgres",
            DatastoreKind::MySql => "mysql",
            DatastoreKind::Sqlite => "sqlite",
        }
    }

    /// The engine's name as it is shown to an operator.
    pub fn name(self) -> (name: &'static str)
        ensures
            name@ == self.spec_name(),
    {
        match self {
            DatastoreKind::Postgres => "Postgres",
            DatastoreKind::MySql => "MySql",
            DatastoreKind::Sqlite => "Sqlite",
        }
    }

    /// Reads a declared kind. `None` when it names no supported engine.
    pub fn parse(declared: &str) -> (kind: Option<DatastoreKind>)
        ensures
            kind == DatastoreKind::spec_parse(declared@),
    {
        if matches_keyword(declared, DatastoreKind::Postgres.keyword()) {
            Some(DatastoreKind::Postgres)
        } else if matches_keyword(declared, DatastoreKind::MySql.keyword()) {
            Some(DatastoreKind::MySql)
        } else if matches_keyword(declared, DatastoreKind::Sqlite.keyword()) {
            Some(DatastoreKind::Sqlite)
        } else {
            None
        }
    }
}

/// A declared kind is accepted exactly when it spells one of the three
/// keywords, and the kind it is read as is the one it spells.
pub proof fn parse_accepts_exactly_the_keywords(declared: Seq<char>)
    ensures
        DatastoreKind::spec_parse(declared) matches Some(kind) ==> same_ignoring_case(
            declared,
            kind.spec_keyword(),
        ),
        DatastoreKind::spec_parse(declared) is None <==> forall|kind: DatastoreKind|
            !same_ignoring_case(declared, #[trigger] kind.spec_keyword()),
{
    if DatastoreKind::spec_parse(declared) is Some {
        let kind = DatastoreKind::spec_parse(declared)->0;
        assert(same_ignoring_case(declared, kind.spec_keyword()));
    }
}

} // verus!
