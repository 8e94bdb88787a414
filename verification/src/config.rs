//! The configuration tree the run works from: connection settings, the
//! named stages in declared (sorted) order, and the whole-run alias table.

use vstd::prelude::*;
use crate::stage::Stage;
use crate::text;

verus! {

/// Connection settings, each optional: absent entries fall back to the
/// command line or its defaults.
pub struct Ssh {
    pub remote_host: Option<String>,
    pub remote_user: Option<String>,
    pub remote_port: Option<u16>,
    pub remote_password: Option<String>,
    pub remote_key_file: Option<String>,
}

/// The parsed configuration document: stages under their names, and the
/// optional whole-run alias table, both as ordered name/value pairs.
pub struct Config {
    pub ssh: Option<Ssh>,
    pub stages: Vec<(String, Stage)>,
    pub aliases: Option<Vec<(String, String)>>,
}

/// The declared stage names, in declared order.
pub open spec fn stage_names(stages: Seq<(String, Stage)>) -> Seq<Seq<char>> {
    stages.map_values(|p: (String, Stage)| p.0@)
}

/// The declared alias names, in declared order.
pub open spec fn alias_names(items: Seq<(String, String)>) -> Seq<Seq<char>> {
    items.map_values(|p: (String, String)| p.0@)
}

/// The names stand in strictly ascending lexicographic order — the shape
/// a sorted map hands its entries over in.
pub open spec fn names_ascending(names: Seq<Seq<char>>) -> bool {
    forall|i: int| 0 <= i < names.len() - 1 ==> #[trigger] text::lex_lt(names[i], names[i + 1])
}

impl Config {
    /// Well-formedness: stage names and alias names are strictly
    /// ascending, hence each unique.  The parsed configuration document
    /// establishes this (its stages and aliases come from sorted maps),
    /// and `stage_named` then finds the only entry under a name.
    pub open spec fn wf(self) -> bool {
        names_ascending(stage_names(self.stages@)) && match self.aliases {
            Some(items) => names_ascending(alias_names(items@)),
            None => true,
        }
    }
}

proof fn lemma_ascending_pairwise(names: Seq<Seq<char>>, i: int, j: int)
    requires
        names_ascending(names),
        0 <= i < j < names.len(),
    ensures
        text::lex_lt(names[i], names[j]),
    decreases j - i,
{
    assert(text::lex_lt(names[j - 1], names[j - 1 + 1]));
    if i + 1 < j {
        lemma_ascending_pairwise(names, i, j - 1);
        text::lemma_lex_lt_transitive(names[i], names[j - 1], names[j]);
    }
}

/// In a well-formed configuration no stage name repeats: the entry
/// `stage_named` finds is the only one under its name.
pub proof fn lemma_wf_stage_names_unique(c: Config, i: int, j: int)
    requires
        c.wf(),
        0 <= i < c.stages@.len(),
        0 <= j < c.stages@.len(),
        i != j,
    ensures
        c.stages@[i].0@ != c.stages@[j].0@,
{
    let names = stage_names(c.stages@);
    assert(names[i] == c.stages@[i].0@);
    assert(names[j] == c.stages@[j].0@);
    if i < j {
        lemma_ascending_pairwise(names, i, j);
    } else {
        lemma_ascending_pairwise(names, j, i);
    }
    if c.stages@[i].0@ == c.stages@[j].0@ {
        text::lemma_lex_lt_irreflexive(names[i]);
    }
}

/// Index of the first stage under `name`, or -1 if there is none.
pub open spec fn stage_index(stages: Seq<(String, Stage)>, name: Seq<char>) -> int
    decreases stages.len(),
{
    if stages.len() == 0 {
        -1
    } else if stages[0].0@ == name {
        0
    } else if stage_index(stages.drop_first(), name) == -1 {
        -1
    } else {
        1 + stage_index(stages.drop_first(), name)
    }
}

pub proof fn lemma_stage_index(stages: Seq<(String, Stage)>, name: Seq<char>)
    ensures
        stage_index(stages, name) == -1 ==> forall|j: int|
            0 <= j < stages.len() ==> stages[j].0@ != name,
        stage_index(stages, name) != -1 ==> 0 <= stage_index(stages, name) < stages.len()
            && stages[stage_index(stages, name)].0@ == name,
    decreases stages.len(),
{
    if stages.len() > 0 && stages[0].0@ != name {
        lemma_stage_index(stages.drop_first(), name);
        assert(forall|j: int| 1 <= j < stages.len() ==> stages[j] == stages.drop_first()[j - 1]);
    }
}

proof fn lemma_stage_index_is(stages: Seq<(String, Stage)>, name: Seq<char>, i: int)
    requires
        0 <= i < stages.len(),
        stages[i].0@ == name,
        forall|j: int| 0 <= j < i ==> stages[j].0@ != name,
    ensures
        stage_index(stages, name) == i,
    decreases stages.len(),
{
    if i > 0 {
        assert(forall|j: int| 0 <= j < i - 1 ==> stages.drop_first()[j] == stages[j + 1]);
        lemma_stage_index_is(stages.drop_first(), name, i - 1);
    }
}

impl Config {
    /// The stage declared under `name`, first match in declared order.
    pub fn stage_named<'a>(&'a self, name: &str) -> (r: Option<&'a Stage>)
        ensures
            (r is None) <==> stage_index(self.stages@, name@) == -1,
            r matches Some(s) ==> *s == self.stages@[stage_index(self.stages@, name@)].1,
    {
        let n = self.stages.len();
        let mut i: usize = 0;
        while i < n
            invariant
                i <= n,
                n == self.stages@.len(),
                forall|j: int| 0 <= j < i ==> self.stages@[j].0@ != name@,
            decreases n - i,
        {
            if crate::text::str_eq(self.stages[i].0.as_str(), name) {
                proof {
                    lemma_stage_index_is(self.stages@, name@, i as int);
                }
                return Some(&self.stages[i].1);
            }
            i = i + 1;
        }
        proof {
            lemma_stage_index(self.stages@, name@);
        }
        None
    }
}

} // verus!
