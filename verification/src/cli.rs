//! Command-line `-d IDENT[=text]` macro definitions, seeded into the define
//! table before the first file, subject to the same last-write-wins rule as
//! every other entry. The text after `=` is unescaped before use.

use vstd::prelude::*;

use crate::defines::{Define, DefineTable, DefineView};
use crate::strutil::find_from;

verus! {

/// A command-line define whose text could not be unescaped.
#[derive(Debug, Clone, Copy, PartialEq, Eq)]
pub enum DefineError {
    BadEscape,
}

/// What unescaping a define's text yields: a function of the text alone.
pub uninterp spec fn unescaped_of(s: Seq<char>) -> Seq<char>;

/// Relies on enquote::unescape with no illegal character: it processes
/// backslash escape sequences, its result depends on the text alone, and
/// text holding no backslash comes back unchanged and never fails.
#[verifier::external_body]
fn unescape_text(s: &str) -> (r: Result<String, DefineError>)
    ensures
        match r {
            Ok(t) => t@ == unescaped_of(s@),
            Err(_) => true,
        },
        (forall|k: int| 0 <= k < s@.len() ==> s@[k] != '\\') ==> (match r {
            Ok(t) => t@ == s@,
            Err(_) => false,
        }),
{
    match enquote::unescape(s, None) {
        Ok(t) => Ok(t),
        Err(_) => Err(DefineError::BadEscape),
    }
}

/// The table entry a `-d` option describes: the identifier is everything
/// before the first `=`; text after it, unescaped, is the body; without `=`
/// the identifier is defined with no body.
pub open spec fn cli_define_entry(s: Seq<char>) -> (Seq<char>, Option<DefineView>) {
    let p = find_from(s, '=', 0);
    if p < s.len() {
        (
            s.subrange(0, p),
            Some(
                DefineView {
                    identifier: s.subrange(0, p),
                    text: Some(unescaped_of(s.subrange(p + 1, s.len() as int))),
                },
            ),
        )
    } else {
        (s, Some(DefineView { identifier: s, text: None }))
    }
}

/// Parses one `-d IDENT[=text]` option into its table entry.
pub fn parse_cli_define(s: &str) -> (r: Result<(String, Define), DefineError>)
    ensures
        match r {
            Ok((identifier, d)) => identifier@ == cli_define_entry(s@).0 && Some(d@)
                == cli_define_entry(s@).1,
            Err(_) => true,
        },
        (forall|k: int| 0 <= k < s@.len() ==> s@[k] != '\\') ==> r is Ok,
{
    let len = s.unicode_len();
    let p = crate::strutil::find_char(s, '=', 0);
    if p < len {
        let identifier = s.substring_char(0, p).to_owned();
        let raw = s.substring_char(p + 1, len);
        proof {
            assert(forall|k: int|
                0 <= k < raw@.len() ==> raw@[k] == s@[k + p + 1]);
        }
        let text = match unescape_text(raw) {
            Ok(t) => t,
            Err(e) => {
                return Err(e);
            },
        };
        let d = Define { identifier: identifier.clone(), text: Some(text) };
        Ok((identifier, d))
    } else {
        let identifier = s.substring_char(0, len).to_owned();
        proof {
            assert(identifier@ =~= s@);
        }
        let d = Define { identifier: identifier.clone(), text: None };
        Ok((identifier, d))
    }
}

/// The table after seeding the `-d` options, in order, into `m`.
pub open spec fn seed_spec(
    m: Map<Seq<char>, Option<DefineView>>,
    defs: Seq<String>,
) -> Map<Seq<char>, Option<DefineView>>
    decreases defs.len()
{
    if defs.len() == 0 {
        m
    } else {
        seed_spec(m.insert(cli_define_entry(defs[0]@).0, cli_define_entry(defs[0]@).1), defs.drop_first())
    }
}

/// Seeds every `-d` option into the table, in read order; a text that fails
/// to unescape aborts the run, dropping the table.
pub fn seed_defines(cli: &Vec<String>, table: DefineTable) -> (r: Result<DefineTable, DefineError>)
    ensures
        match r {
            Ok(t) => t@ == seed_spec(table@, cli@),
            Err(_) => true,
        },
        (forall|i: int, k: int|
            0 <= i < cli@.len() && 0 <= k < cli@[i]@.len() ==> cli@[i]@[k] != '\\') ==> r is Ok,
{
    let mut cur = table;
    proof {
        assert(cli@.skip(0) =~= cli@);
    }
    let mut i: usize = 0;
    while i < cli.len()
        invariant
            0 <= i <= cli@.len(),
            seed_spec(cur@, cli@.skip(i as int)) == seed_spec(table@, cli@),
        decreases cli@.len() - i,
    {
        proof {
            assert(cli@.skip(i as int)[0] == cli@[i as int]);
            assert(cli@.skip(i as int).drop_first() =~= cli@.skip(i as int + 1));
        }
        let (identifier, d) = match parse_cli_define(cli[i].as_str()) {
            Ok(pair) => pair,
            Err(e) => {
                return Err(e);
            },
        };
        cur.insert(identifier, Some(d));
        i += 1;
    }
    proof {
        assert(cli@.skip(cli@.len() as int) =~= Seq::<String>::empty());
    }
    Ok(cur)
}

} // verus!
