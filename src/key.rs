//! Storage keys: the normalisation of a free-text processor name into the
//! name of its cache table, and the statements that address that table.
use vstd::prelude::*;
use crate::text::{chars_of, lower_of, lowercase, string_of};

verus! {

/// How one character of a lower-cased name appears in its key: a space, `+`
/// or `-` becomes `_`, anything else stays.
pub open spec fn key_char(c: char) -> char {
    if c == ' ' || c == '+' || c == '-' {
        '_'
    } else {
        c
    }
}

/// Each space, `+` and `-` of a text turned into `_`.
pub open spec fn separators(s: Seq<char>) -> Seq<char> {
    s.map_values(|c: char| key_char(c))
}

/// The normalised key of a name: lower-cased, then with each space, `+` and
/// `-` turned into `_`.
pub open spec fn normalize(s: Seq<char>) -> Seq<char> {
    separators(lower_of(s))
}

/// A key written as a quoted SQL identifier: wrapped in double quotes, with
/// every double quote inside doubled.
pub open spec fn quote_ident(s: Seq<char>) -> Seq<char> {
    seq!['"'] + escape_quotes(s) + seq!['"']
}

pub open spec fn escape_quotes(s: Seq<char>) -> Seq<char>
    decreases s.len(),
{
    if s.len() == 0 {
        seq![]
    } else {
        escape_quotes(s.drop_last()) + if s.last() == '"' {
            seq!['"', '"']
        } else {
            seq![s.last()]
        }
    }
}

/// The quoted table name under which a processor name is cached.
pub open spec fn table_ident(name: Seq<char>) -> Seq<char> {
    quote_ident(normalize(name))
}

pub open spec fn create_spec(name: Seq<char>) -> Seq<char> {
    CREATE_HEAD@ + table_ident(name) + CREATE_TAIL@
}

pub open spec fn insert_spec(name: Seq<char>) -> Seq<char> {
    INSERT_HEAD@ + table_ident(name) + INSERT_TAIL@
}

pub open spec fn select_spec(name: Seq<char>) -> Seq<char> {
    SELECT_HEAD@ + table_ident(name) + SELECT_TAIL@
}

/// Counts the cache tables named by the first parameter; the key is bound as
/// a parameter, never written into the text.
pub const EXISTS_QUERY: &'static str = "SELECT COUNT(name) FROM sqlite_master WHERE type='table' AND name=?1";

pub const CREATE_HEAD: &'static str = "CREATE TABLE IF NOT EXISTS ";

pub const CREATE_TAIL: &'static str = " (id INTEGER PRIMARY KEY AUTOINCREMENT, single_core_score INTEGER NOT NULL, multi_core_score INTEGER NOT NULL)";

pub const INSERT_HEAD: &'static str = "INSERT INTO ";

pub const INSERT_TAIL: &'static str = " (single_core_score, multi_core_score) VALUES (?1, ?2)";

pub const SELECT_HEAD: &'static str = "SELECT single_core_score, multi_core_score FROM ";

pub const SELECT_TAIL: &'static str = " ORDER BY id";

/// Replacing the separators of a key a second time changes nothing: a key
/// holds no space, `+` or `-`.
pub proof fn lemma_separators_idempotent(s: Seq<char>)
    ensures
        separators(separators(s)) == separators(s),
        forall|i: int| 0 <= i < separators(s).len() ==> {
            let c = #[trigger] separators(s)[i];
            c != ' ' && c != '+' && c != '-'
        },
{
    assert(separators(separators(s)) =~= separators(s));
}

fn key_char_of(c: char) -> (r: char)
    ensures
        r == key_char(c),
{
    if c == ' ' || c == '+' || c == '-' {
        '_'
    } else {
        c
    }
}

fn normalized_chars(name: &str) -> (r: Vec<char>)
    ensures
        r@ == normalize(name@),
{
    let lower = lowercase(name);
    let cs = chars_of(lower.as_str());
    let mut out: Vec<char> = Vec::new();
    let mut i: usize = 0;
    while i < cs.len()
        invariant
            i <= cs.len(),
            cs@ == lower_of(name@),
            out@ == separators(cs@.take(i as int)),
        decreases cs.len() - i,
    {
        out.push(key_char_of(cs[i]));
        i = i + 1;
        assert(out@ =~= separators(cs@.take(i as int)));
    }
    assert(cs@.take(i as int) =~= cs@);
    out
}

/// The cache key of a processor name: lower-case, with every space, `+` and
/// `-` turned into `_`.
pub fn prepare_table_name(name: &str) -> (r: String)
    ensures
        r@ == normalize(name@),
{
    string_of(&normalized_chars(name))
}

fn push_table_ident(name: &str, out: &mut Vec<char>)
    ensures
        final(out)@ == old(out)@ + table_ident(name@),
{
    let key = normalized_chars(name);
    out.push('"');
    let ghost start = out@;
    let mut i: usize = 0;
    while i < key.len()
        invariant
            i <= key.len(),
            key@ == normalize(name@),
            out@ == start + escape_quotes(key@.take(i as int)),
        decreases key.len() - i,
    {
        let c = key[i];
        proof {
            assert(key@.take(i + 1).drop_last() =~= key@.take(i as int));
        }
        if c == '"' {
            out.push('"');
            out.push('"');
        } else {
            out.push(c);
        }
        i = i + 1;
        assert(out@ =~= start + escape_quotes(key@.take(i as int)));
    }
    assert(key@.take(i as int) =~= key@);
    out.push('"');
    assert(final(out)@ =~= old(out)@ + table_ident(name@));
}

fn statement(head: &str, name: &str, tail: &str) -> (r: String)
    ensures
        r@ == head@ + table_ident(name@) + tail@,
{
    let mut out = chars_of(head);
    push_table_ident(name, &mut out);
    let mut rest = chars_of(tail);
    out.append(&mut rest);
    string_of(&out)
}

/// The statement that creates the cache table of a processor if it is absent.
pub fn create_statement(name: &str) -> (r: String)
    ensures
        r@ == create_spec(name@),
{
    statement(CREATE_HEAD, name, CREATE_TAIL)
}

/// The statement that appends one score pair, bound as the two parameters,
/// to the cache table of a processor.
pub fn insert_statement(name: &str) -> (r: String)
    ensures
        r@ == insert_spec(name@),
{
    statement(INSERT_HEAD, name, INSERT_TAIL)
}

/// The query that reads the cache table of a processor in storage order.
pub fn select_statement(name: &str) -> (r: String)
    ensures
        r@ == select_spec(name@),
{
    statement(SELECT_HEAD, name, SELECT_TAIL)
}

} // verus!
