//! The catalog listing: which signals each alias offers.
use vstd::prelude::*;

use crate::text::str_equals;

verus! {

/// Why a listing could not be read.
#[derive(Clone, Debug, PartialEq, Eq)]
pub enum ParseError {
    /// The text is not a JSON object from alias to a list of signal names;
    /// holds the parser's description of where and why.
    Syntax(String),
    /// An alias occurs more than once; holds that alias.
    DuplicateAlias(String),
}

/// The aliases of `entries` are pairwise distinct.
pub open spec fn aliases_distinct(entries: Seq<(Seq<char>, Seq<Seq<char>>)>) -> bool {
    forall|i: int, j: int|
        0 <= i < entries.len() && 0 <= j < entries.len() && i != j ==> entries[i].0 != entries[j].0
}

/// The alias-to-names entries that a JSON text describes, or `None` where
/// it describes no such object.
pub uninterp spec fn listing_of_json(text: Seq<char>) -> Option<Seq<(Seq<char>, Seq<Seq<char>>)>>;

/// Relies on `serde_json::from_str` into a `BTreeMap<String, Vec<String>>`:
/// the outcome depends on the text alone, and the keys of a map are
/// distinct. On failure it hands back the parser's message.
#[verifier::external_body]
fn parse_alias_map(text: &str) -> (r: Result<Vec<(String, Vec<String>)>, String>)
    ensures
        r is Ok <==> listing_of_json(text@) is Some,
        r matches Ok(v) ==> listing_of_json(text@) == Some(v.deep_view()),
        r matches Ok(v) ==> aliases_distinct(v.deep_view()),
{
    match serde_json::from_str::<std::collections::BTreeMap<String, Vec<String>>>(text) {
        Ok(m) => Ok(m.into_iter().collect()),
        Err(e) => Err(e.to_string()),
    }
}

/// The signals that a remote source offers, grouped by alias. Each alias
/// occurs once; an alias may offer no signal.
#[derive(Clone, Debug)]
pub struct Catalog {
    entries: Vec<(String, Vec<String>)>,
}

impl View for Catalog {
    type V = Seq<(Seq<char>, Seq<Seq<char>>)>;

    closed spec fn view(&self) -> Seq<(Seq<char>, Seq<Seq<char>>)> {
        self.entries.deep_view()
    }
}

impl Catalog {
    pub open spec fn wf(&self) -> bool {
        aliases_distinct(self@)
    }

    /// Builds a catalog from alias entries, kept in their order; fails on
    /// the first alias that repeats an earlier one.
    pub fn from_entries(entries: Vec<(String, Vec<String>)>) -> (r: Result<Catalog, ParseError>)
        ensures
            r is Ok <==> aliases_distinct(entries.deep_view()),
            r matches Ok(c) ==> c@ == entries.deep_view() && c.wf(),
            r matches Err(e) ==> (e matches ParseError::DuplicateAlias(a) && exists|i: int|
                0 <= i < entries@.len() && entries.deep_view()[i].0 == a@),
    {
        let n = entries.len();
        let mut i: usize = 0;
        while i < n
            invariant
                n == entries@.len(),
                i <= n,
                forall|p: int, q: int|
                    0 <= p < i && 0 <= q < i && p != q ==> entries.deep_view()[p].0
                        != entries.deep_view()[q].0,
            decreases n - i,
        {
            let mut j: usize = 0;
            while j < i
                invariant
                    n == entries@.len(),
                    i < n,
                    j <= i,
                    forall|q: int| 0 <= q < j ==> entries.deep_view()[q].0 != entries.deep_view()[i as int].0,
                decreases i - j,
            {
                assert(entries.deep_view()[j as int].0 == entries@[j as int].0@);
                assert(entries.deep_view()[i as int].0 == entries@[i as int].0@);
                if entries[j].0 == entries[i].0 {
                    return Err(ParseError::DuplicateAlias(entries[i].0.clone()));
                }
                j += 1;
            }
            i += 1;
        }
        Ok(Catalog { entries })
    }

    /// Reads a listing: a JSON object whose keys are aliases and whose
    /// values are lists of signal names.
    pub fn parse(text: &str) -> (r: Result<Catalog, ParseError>)
        ensures
            r is Ok <==> listing_of_json(text@) is Some,
            r matches Ok(c) ==> listing_of_json(text@) == Some(c@) && c.wf(),
            r matches Err(e) ==> e is Syntax,
    {
        match parse_alias_map(text) {
            Ok(entries) => Catalog::from_entries(entries),
            Err(message) => Err(ParseError::Syntax(message)),
        }
    }

    /// The number of aliases.
    pub fn len(&self) -> (r: usize)
        ensures
            r == self@.len(),
    {
        self.entries.len()
    }

    /// The alias at position `i`.
    pub fn alias(&self, i: usize) -> (r: &String)
        requires
            i < self@.len(),
        ensures
            r@ == self@[i as int].0,
    {
        &self.entries[i].0
    }

    /// The signal names offered by the alias at position `i`.
    pub fn signals(&self, i: usize) -> (r: &Vec<String>)
        requires
            i < self@.len(),
        ensures
            r.deep_view() == self@[i as int].1,
    {
        &self.entries[i].1
    }

    /// The signal names offered by `alias`, or `None` where the catalog does
    /// not hold that alias.
    pub fn signals_of(&self, alias: &str) -> (r: Option<&Vec<String>>)
        requires
            self.wf(),
        ensures
            r is Some <==> exists|i: int| 0 <= i < self@.len() && self@[i].0 == alias@,
            r matches Some(v) ==> exists|i: int|
                0 <= i < self@.len() && self@[i].0 == alias@ && v.deep_view() == self@[i].1,
    {
        let n = self.entries.len();
        let mut i: usize = 0;
        while i < n
            invariant
                n == self@.len(),
                i <= n,
                forall|k: int| 0 <= k < i ==> self@[k].0 != alias@,
            decreases n - i,
        {
            assert(self@[i as int] == self.entries@[i as int].deep_view());
            if str_equals(self.entries[i].0.as_str(), alias) {
                return Some(&self.entries[i].1);
            }
            i += 1;
        }
        None
    }
}

/// The name under which the remote source serves one signal of an alias:
/// the alias, an underscore, then the signal name.
pub fn signal_resource_name(alias: &str, name: &str) -> (r: String)
    ensures
        r@ == alias@ + "_"@ + name@,
{
    let mut s = alias.to_owned();
    s.append("_");
    s.append(name);
    s
}

} // verus!
