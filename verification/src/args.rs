//! The argument mapping handed to a generator: argument names bound to
//! loosely-typed values parsed from the placeholder call site.

use vstd::prelude::*;
use crate::strutil::str_eq;

verus! {

/// One loosely-typed argument value: an integer, a string, or a value of
/// some other shape (which every generator treats as ill-typed).
#[derive(Clone, Debug)]
pub enum ArgValue {
    Int(i64),
    Str(String),
    Other,
}

/// The mathematical value of an [`ArgValue`].
pub enum ArgSpec {
    Int(int),
    Str(Seq<char>),
    Other,
}

impl View for ArgValue {
    type V = ArgSpec;

    open spec fn view(&self) -> ArgSpec {
        match self {
            ArgValue::Int(n) => ArgSpec::Int(*n as int),
            ArgValue::Str(s) => ArgSpec::Str(s@),
            ArgValue::Other => ArgSpec::Other,
        }
    }
}

/// The mapping that a sequence of name/value bindings denotes: later
/// bindings for the same name win.
pub open spec fn map_of(entries: Seq<(String, ArgValue)>) -> Map<Seq<char>, ArgSpec>
    decreases entries.len(),
{
    if entries.len() == 0 {
        Map::empty()
    } else {
        map_of(entries.drop_last()).insert(entries.last().0@, entries.last().1@)
    }
}

/// Arguments of one generator call: a mapping from argument name to value.
/// Supplied per invocation by the templating engine; not persisted.
#[derive(Clone, Debug)]
pub struct Args {
    entries: Vec<(String, ArgValue)>,
}

impl View for Args {
    type V = Map<Seq<char>, ArgSpec>;

    closed spec fn view(&self) -> Map<Seq<char>, ArgSpec> {
        map_of(self.entries@)
    }
}

proof fn lemma_map_of_found(entries: Seq<(String, ArgValue)>, k: Seq<char>, i: int)
    requires
        0 <= i < entries.len(),
        entries[i].0@ == k,
        forall|j: int| i < j < entries.len() ==> entries[j].0@ != k,
    ensures
        map_of(entries).contains_key(k),
        map_of(entries)[k] == entries[i].1@,
    decreases entries.len(),
{
    if i == entries.len() - 1 {
    } else {
        lemma_map_of_found(entries.drop_last(), k, i);
    }
}

proof fn lemma_map_of_none(entries: Seq<(String, ArgValue)>, k: Seq<char>)
    requires
        forall|j: int| 0 <= j < entries.len() ==> entries[j].0@ != k,
    ensures
        !map_of(entries).contains_key(k),
    decreases entries.len(),
{
    if entries.len() > 0 {
        lemma_map_of_none(entries.drop_last(), k);
    }
}

impl Args {
    /// An empty argument mapping.
    pub fn new() -> (r: Args)
        ensures
            r@ == Map::<Seq<char>, ArgSpec>::empty(),
    {
        Args { entries: Vec::new() }
    }

    /// Binds `name` to `value`; a later binding overrides an earlier one.
    pub fn insert(&mut self, name: String, value: ArgValue)
        ensures
            final(self)@ == old(self)@.insert(name@, value@),
    {
        let ghost before = self.entries@;
        self.entries.push((name, value));
        proof {
            assert(self.entries@.drop_last() =~= before);
        }
    }

    /// Looks the binding of `name` up; `None` when `name` is unbound.
    pub fn get(&self, name: &str) -> (r: Option<&ArgValue>)
        ensures
            match r {
                Some(v) => self@.contains_key(name@) && v@ == self@[name@],
                None => !self@.contains_key(name@),
            },
    {
        let n = self.entries.len();
        let mut i: usize = n;
        while i > 0
            invariant
                i <= n,
                n == self.entries@.len(),
                forall|j: int| i <= j < n ==> self.entries@[j].0@ != name@,
            decreases i,
    {
            i = i - 1;
            if str_eq(self.entries[i].0.as_str(), name) {
                proof {
                    lemma_map_of_found(self.entries@, name@, i as int);
                }
                return Some(&self.entries[i].1);
            }
        }
        proof {
            lemma_map_of_none(self.entries@, name@);
        }
        None
    }
}

} // verus!
