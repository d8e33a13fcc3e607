//! Named constants: the dataset that lists them and the resolver that looks
//! a name up.
//!
//! A name matches an entry whose name is the same text, character for
//! character. Where several entries bear the name, the first one counts. The
//! empty name matches nothing.

use crate::text::{pieces, split};
use vstd::prelude::*;

verus! {

/// The names that one request asks for, in the order in which the answers
/// are wanted.
#[derive(Debug, Clone, PartialEq, Eq)]
pub struct ConstantRequestPayload {
    pub names: Vec<String>,
}

/// The answer for one name. `value` is the bit pattern of a 64-bit IEEE 754
/// number. Where `found` is false, `value` is zero and `unit` is empty.
#[derive(Debug, Clone, PartialEq, Eq)]
pub struct ConstantProcessResult {
    pub name: String,
    pub value: u64,
    pub unit: String,
    pub found: bool,
}

/// One entry of the dataset. `value` is the bit pattern of a 64-bit IEEE 754
/// number.
#[derive(Debug, Clone, PartialEq, Eq)]
pub struct Constant {
    pub name: String,
    pub value: u64,
    pub unit: String,
}

/// One line of the dataset, cut into its three fields. The numeral is the
/// value as it is written.
#[derive(Debug, Clone, PartialEq, Eq)]
pub struct Row {
    pub name: String,
    pub numeral: String,
    pub unit: String,
}

/// The constants that the service knows, in the order of the dataset.
#[derive(Debug, Clone, PartialEq, Eq)]
pub struct Dataset {
    pub constants: Vec<Constant>,
}

/// An entry as plain values.
pub struct ConstantView {
    pub name: Seq<char>,
    pub value: u64,
    pub unit: Seq<char>,
}

/// An answer as plain values.
pub struct ResultView {
    pub name: Seq<char>,
    pub value: u64,
    pub unit: Seq<char>,
    pub found: bool,
}

impl View for Constant {
    type V = ConstantView;

    open spec fn view(&self) -> ConstantView {
        ConstantView { name: self.name@, value: self.value, unit: self.unit@ }
    }
}

impl View for ConstantProcessResult {
    type V = ResultView;

    open spec fn view(&self) -> ResultView {
        ResultView { name: self.name@, value: self.value, unit: self.unit@, found: self.found }
    }
}

impl View for Dataset {
    type V = Seq<ConstantView>;

    open spec fn view(&self) -> Seq<ConstantView> {
        self.constants@.map_values(|c: Constant| c@)
    }
}

impl View for ConstantRequestPayload {
    type V = Seq<Seq<char>>;

    open spec fn view(&self) -> Seq<Seq<char>> {
        self.names@.map_values(|n: String| n@)
    }
}

/// The answers as plain values.
pub open spec fn results_view(results: Seq<ConstantProcessResult>) -> Seq<ResultView> {
    results.map_values(|r: ConstantProcessResult| r@)
}

/// The fields of a line of the dataset: a name, a numeral and a unit, two
/// commas between them. A line with more or fewer commas is no entry.
pub open spec fn row_fields(line: Seq<char>) -> Option<(Seq<char>, Seq<char>, Seq<char>)> {
    let fields = pieces(line, ',');
    if fields.len() == 3 {
        Some((fields[0], fields[1], fields[2]))
    } else {
        None
    }
}

/// Whether entry `i` is the one that counts for `name`: it bears the name
/// and no entry before it does.
pub open spec fn is_listing(table: Seq<ConstantView>, name: Seq<char>, i: int) -> bool {
    &&& 0 <= i < table.len()
    &&& table[i].name == name
    &&& forall|j: int| 0 <= j < i ==> table[j].name != name
}

/// The entry that counts for `name`, if any entry bears it.
pub open spec fn listed(table: Seq<ConstantView>, name: Seq<char>) -> Option<ConstantView>
    decreases table.len(),
{
    if table.len() == 0 {
        None
    } else if table.first().name == name {
        Some(table.first())
    } else {
        listed(table.drop_first(), name)
    }
}

/// The answer for a name that is not known.
pub open spec fn unknown(name: Seq<char>) -> ResultView {
    ResultView { name, value: 0, unit: Seq::<char>::empty(), found: false }
}

/// The answer that the dataset gives for `name`.
pub open spec fn resolution(table: Seq<ConstantView>, name: Seq<char>) -> ResultView {
    if name.len() == 0 {
        unknown(name)
    } else {
        match listed(table, name) {
            Some(entry) => ResultView { name, value: entry.value, unit: entry.unit, found: true },
            None => unknown(name),
        }
    }
}

/// The answers for the names of one request: one for each name, in the
/// order of the names.
pub open spec fn batch(table: Seq<ConstantView>, names: Seq<Seq<char>>) -> Seq<ResultView> {
    names.map_values(|name: Seq<char>| resolution(table, name))
}

/// What `listed` finds: the first entry that bears the name, and nothing
/// exactly when no entry bears it.
pub proof fn lemma_listed(table: Seq<ConstantView>, name: Seq<char>)
    ensures
        match listed(table, name) {
            Some(entry) => exists|i: int| is_listing(table, name, i) && table[i] == entry,
            None => forall|i: int| 0 <= i < table.len() ==> (#[trigger] table[i]).name != name,
        },
    decreases table.len(),
{
    if table.len() == 0 {
    } else if table.first().name == name {
        assert(is_listing(table, name, 0));
    } else {
        let rest = table.drop_first();
        lemma_listed(rest, name);
        match listed(rest, name) {
            Some(entry) => {
                let i = choose|i: int| is_listing(rest, name, i) && rest[i] == entry;
                assert forall|j: int| 0 <= j < i + 1 implies table[j].name != name by {
                    if j > 0 {
                        assert(table[j] == rest[j - 1]);
                    }
                }
                assert(is_listing(table, name, i + 1));
            },
            None => {
                assert forall|i: int| 0 <= i < table.len() implies (#[trigger] table[i]).name
                    != name by {
                    if i > 0 {
                        assert(table[i] == rest[i - 1]);
                    }
                }
            },
        }
    }
}

/// The entry at `i` is the one that `listed` finds, where it is the first
/// that bears the name.
pub proof fn lemma_listing_is_listed(table: Seq<ConstantView>, name: Seq<char>, i: int)
    requires
        is_listing(table, name, i),
    ensures
        listed(table, name) == Some(table[i]),
    decreases i,
{
    if i > 0 {
        let rest = table.drop_first();
        assert(table[0].name != name);
        assert forall|j: int| 0 <= j < i - 1 implies rest[j].name != name by {
            assert(rest[j] == table[j + 1]);
        }
        lemma_listing_is_listed(rest, name, i - 1);
    }
}

/// A name is found exactly when it is not empty and an entry bears it; the
/// answer carries the name as it was asked, whatever the outcome.
pub proof fn lemma_resolution(table: Seq<ConstantView>, name: Seq<char>)
    ensures
        resolution(table, name).name == name,
        resolution(table, name).found <==> name.len() > 0 && exists|i: int|
            0 <= i < table.len() && (#[trigger] table[i]).name == name,
        !resolution(table, name).found ==> resolution(table, name) == unknown(name),
{
    lemma_listed(table, name);
    if listed(table, name) is Some {
        let i = choose|i: int| is_listing(table, name, i) && table[i] == listed(table, name)->0;
        assert(table[i].name == name);
    }
}

/// A batch has one answer for each name, in the order of the names, and
/// each answer bears its name; no names give no answers.
pub proof fn lemma_batch_follows_names(table: Seq<ConstantView>, names: Seq<Seq<char>>)
    ensures
        batch(table, names).len() == names.len(),
        forall|i: int| 0 <= i < names.len() ==> (#[trigger] batch(table, names)[i]).name == names[i],
        names.len() == 0 ==> batch(table, names) == Seq::<ResultView>::empty(),
{
}

/// Cuts one line of the dataset into its fields.
pub fn parse_row(line: &str) -> (r: Option<Row>)
    ensures
        match r {
            Some(row) => row_fields(line@) == Some((row.name@, row.numeral@, row.unit@)),
            None => row_fields(line@) is None,
        },
{
    let mut fields = split(line, ',');
    if fields.len() != 3 {
        return None;
    }
    let ghost cut = fields.deep_view();
    assert(cut[0] == fields[0]@ && cut[1] == fields[1]@ && cut[2] == fields[2]@);
    let unit = fields.pop().unwrap();
    let numeral = fields.pop().unwrap();
    let name = fields.pop().unwrap();
    Some(Row { name, numeral, unit })
}

impl Dataset {
    /// A dataset without entries: it knows no name.
    pub fn new() -> (r: Dataset)
        ensures
            r@ == Seq::<ConstantView>::empty(),
    {
        Dataset { constants: Vec::new() }
    }

    /// Adds an entry behind those that are there.
    pub fn add(&mut self, name: String, value: u64, unit: String)
        ensures
            final(self)@ == old(self)@.push(ConstantView { name: name@, value, unit: unit@ }),
    {
        self.constants.push(Constant { name, value, unit });
    }

    /// The entry that counts for `name`, if any entry bears it.
    pub fn find(&self, name: &str) -> (r: Option<&Constant>)
        ensures
            match r {
                Some(entry) => listed(self@, name@) == Some(entry@),
                None => listed(self@, name@) is None,
            },
    {
        let wanted = String::from_str(name);
        let mut i: usize = 0;
        while i < self.constants.len()
            invariant
                i <= self.constants.len(),
                wanted@ == name@,
                forall|j: int| 0 <= j < i ==> self@[j].name != name@,
            decreases self.constants.len() - i,
        {
            if self.constants[i].name == wanted {
                proof {
                    lemma_listing_is_listed(self@, name@, i as int);
                }
                return Some(&self.constants[i]);
            }
            i = i + 1;
        }
        proof {
            lemma_listed(self@, name@);
        }
        None
    }
}

/// Resolves one name. The answer bears the name as it was asked; it is
/// found exactly when the name is not empty and the dataset lists it.
pub fn process_constant(dataset: &Dataset, name: &str) -> (r: ConstantProcessResult)
    ensures
        r@ == resolution(dataset@, name@),
        r.name@ == name@,
        r.found <==> name@.len() > 0 && exists|i: int|
            0 <= i < dataset@.len() && (#[trigger] dataset@[i]).name == name@,
{
    proof {
        lemma_resolution(dataset@, name@);
    }
    let hit = if name.is_empty() {
        None
    } else {
        dataset.find(name)
    };
    match hit {
        Some(entry) => ConstantProcessResult {
            name: String::from_str(name),
            value: entry.value,
            unit: entry.unit.clone(),
            found: true,
        },
        None => ConstantProcessResult {
            name: String::from_str(name),
            value: 0,
            unit: String::new(),
            found: false,
        },
    }
}

} // verus!
