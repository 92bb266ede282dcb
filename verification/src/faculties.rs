//! Department configuration: the mapping from a short department code to the
//! site path of its schedule page and its subgroup row offset.

use vstd::prelude::*;
use vstd::string::StringExecFns;

use crate::errors::Error;

verus! {

/// Per-department configuration: the site path segment of its schedule page
/// and the subgroup row offset its grid is decoded with.
#[derive(Debug, Clone, PartialEq, Eq)]
pub struct Info {
    pub link: String,
    pub row: usize,
}

/// The departments this service knows without external configuration.
#[allow(non_camel_case_types)]
#[derive(Debug, Clone, PartialEq, Eq)]
pub enum Spec {
    ISiT,
}

impl Spec {
    /// The built-in configuration of the department.
    pub fn info(&self) -> (info: Info)
        ensures
            info.link@ == "isit"@,
            info.row == 0,
    {
        match self {
            Spec::ISiT => Info { link: String::from_str("isit"), row: 0 },
        }
    }
}

/// The first configured entry under the given code, if any.
pub open spec fn find_code(table: Seq<(String, Info)>, code: Seq<char>) -> Option<Info>
    decreases table.len(),
{
    if table.len() == 0 {
        None
    } else if table[0].0@ == code {
        Some(table[0].1)
    } else {
        find_code(table.subrange(1, table.len() as int), code)
    }
}

/// Every configured code, in table order.
pub open spec fn table_codes(table: Seq<(String, Info)>) -> Seq<Seq<char>> {
    table.map_values(|entry: (String, Info)| entry.0@)
}

proof fn lemma_find_code_none(table: Seq<(String, Info)>, code: Seq<char>)
    requires
        forall|j: int| 0 <= j < table.len() ==> (#[trigger] table[j]).0@ != code,
    ensures
        find_code(table, code) is None,
    decreases table.len(),
{
    if table.len() > 0 {
        lemma_find_code_none(table.subrange(1, table.len() as int), code);
    }
}

proof fn lemma_find_code_first(table: Seq<(String, Info)>, code: Seq<char>, i: int)
    requires
        0 <= i < table.len(),
        table[i].0@ == code,
        forall|j: int| 0 <= j < i ==> (#[trigger] table[j]).0@ != code,
    ensures
        find_code(table, code) == Some(table[i].1),
    decreases i,
{
    if i > 0 {
        lemma_find_code_first(table.subrange(1, table.len() as int), code, i - 1);
    }
}

/// Looks the requested department code up in the configuration table.
///
/// Returns the first entry configured under the code; fails with
/// [`Error::UnknownDepartment`], listing every configured code in table
/// order, exactly when no entry matches.
pub fn lookup_department(table: &Vec<(String, Info)>, code: &str) -> (r: Result<Info, Error>)
    ensures
        r is Ok <==> find_code(table@, code@) is Some,
        r matches Ok(info) ==> find_code(table@, code@) == Some(info),
        r matches Err(e) ==> e matches Error::UnknownDepartment(codes) && codes.deep_view()
            == table_codes(table@),
{
    let code_string = String::from_str(code);
    let mut i: usize = 0;
    while i < table.len()
        invariant
            i <= table@.len(),
            code_string@ == code@,
            forall|j: int| 0 <= j < i as int ==> (#[trigger] table@[j]).0@ != code@,
        decreases table@.len() - i,
    {
        if table[i].0 == code_string {
            let entry = &table[i].1;
            let info = Info { link: entry.link.clone(), row: entry.row };
            proof {
                lemma_find_code_first(table@, code@, i as int);
            }
            return Ok(info);
        }
        i += 1;
    }
    let mut codes: Vec<String> = Vec::new();
    let mut j: usize = 0;
    while j < table.len()
        invariant
            j <= table@.len(),
            codes@.len() == j as int,
            forall|k: int| 0 <= k < j as int ==> (#[trigger] codes@[k])@ == table@[k].0@,
        decreases table@.len() - j,
    {
        codes.push(table[j].0.clone());
        j += 1;
    }
    proof {
        lemma_find_code_none(table@, code@);
        assert(codes.deep_view() =~= table_codes(table@));
    }
    Err(Error::UnknownDepartment(codes))
}

} // verus!
