//! Raw and canonical match records.
//!
//! A `ResultNode` is one raw hit reported by the query engine for a pattern
//! search: the file it was found in, the line it is attributed to, the exact
//! span of text it covers, and the variable bindings the engine captured.
//! The deduplicator collapses several raw hits at the same `(file, line)`
//! key into one canonical record.

use vstd::prelude::*;

verus! {

/// A line/character coordinate inside a source file.
#[derive(Clone, Copy, PartialEq, Eq, Structural, Debug)]
pub struct Position {
    pub line: usize,
    pub character: usize,
}

/// The span of text a match covers, from `start_position` to `end_position`.
#[derive(Clone, Copy, PartialEq, Eq, Structural, Debug)]
pub struct Location {
    pub start_position: Position,
    pub end_position: Position,
}

/// One raw hit reported by the query engine.
#[derive(Debug)]
pub struct ResultNode {
    pub file_uri: String,
    pub line_number: usize,
    pub variables: Vec<(String, String)>,
    pub code_location: Location,
}

/// The mathematical value of a `ResultNode`: strings as character sequences,
/// bindings as a sequence of key/value pairs.
#[verifier::ext_equal]
pub struct MatchView {
    pub file: Seq<char>,
    pub line: int,
    pub vars: Seq<(Seq<char>, Seq<char>)>,
    pub loc: Location,
}

impl View for ResultNode {
    type V = MatchView;

    open spec fn view(&self) -> MatchView {
        MatchView {
            file: self.file_uri@,
            line: self.line_number as int,
            vars: self.variables@.map_values(|p: (String, String)| (p.0@, p.1@)),
            loc: self.code_location,
        }
    }
}

impl ResultNode {
    /// A span never ends on an earlier line than it starts.
    pub open spec fn wf(self) -> bool {
        self.code_location.start_position.line <= self.code_location.end_position.line
    }

    /// An exact copy; unlike a derived `Clone`, its contract says the value
    /// is preserved.
    pub fn duplicate(&self) -> (r: ResultNode)
        ensures
            r@ == self@,
            r.wf() == self.wf(),
    {
        let mut vars: Vec<(String, String)> = Vec::new();
        let mut i: usize = 0;
        while i < self.variables.len()
            invariant
                i <= self.variables.len(),
                vars@.len() == i as int,
                forall|j: int|
                    0 <= j < i ==> (#[trigger] vars@[j]).0@ == self.variables@[j].0@
                        && vars@[j].1@ == self.variables@[j].1@,
            decreases self.variables.len() - i,
        {
            let pair = &self.variables[i];
            vars.push((pair.0.clone(), pair.1.clone()));
            i = i + 1;
        }
        let r = ResultNode {
            file_uri: self.file_uri.clone(),
            line_number: self.line_number,
            variables: vars,
            code_location: self.code_location,
        };
        proof {
            assert(r@.vars =~= self@.vars);
            assert(r@ =~= self@);
        }
        r
    }
}

/// The views of a sequence of records.
pub open spec fn views_of(s: Seq<ResultNode>) -> Seq<MatchView> {
    s.map_values(|r: ResultNode| r@)
}

} // verus!
