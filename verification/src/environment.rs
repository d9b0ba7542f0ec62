//! The process environment as a value: the variables the engine reads its
//! settings from and the ones it leaves behind for the entrypoint.

use vstd::prelude::*;
use crate::table::{bind, lemma_bind_resolves, lemma_row_of_is, resolve, row_of};
use crate::text::str_equal;

verus! {

/// The view of an optional borrowed text.
pub open spec fn borrowed_text(value: Option<&str>) -> Option<Seq<char>> {
    match value {
        Some(text) => Some(text@),
        None => None,
    }
}

/// One environment variable.
pub struct Variable {
    pub name: String,
    pub value: String,
}

/// A set of environment variables. A name is looked up in its first row.
pub struct Environment {
    pub variables: Vec<Variable>,
}

impl View for Environment {
    type V = Seq<(Seq<char>, Seq<char>)>;

    open spec fn view(&self) -> Seq<(Seq<char>, Seq<char>)> {
        Seq::new(
            self.variables@.len(),
            |i: int| (self.variables@[i].name@, self.variables@[i].value@),
        )
    }
}

impl Environment {
    /// An environment without variables.
    pub fn new() -> (environment: Environment)
        ensures
            environment@ == Seq::<(Seq<char>, Seq<char>)>::empty(),
    {
        let environment = Environment { variables: Vec::new() };
        assert(environment@ =~= Seq::<(Seq<char>, Seq<char>)>::empty());
        environment
    }

    /// The first row of the variable `name`, if it is set.
    fn position(&self, name: &str) -> (found: Option<usize>)
        ensures
            match found {
                Some(row) => row == row_of(self@, name@) && row < self@.len(),
                None => row_of(self@, name@) == self@.len(),
            },
    {
        let mut row: usize = 0;
        while row < self.variables.len()
            invariant
                row <= self@.len(),
                self@.len() == self.variables@.len(),
                forall|j: int| 0 <= j < row ==> (#[trigger] self@[j]).0 != name@,
            decreases self.variables.len() - row,
        {
            if str_equal(self.variables[row].name.as_str(), name) {
                proof {
                    lemma_row_of_is(self@, name@, row as int);
                }
                return Some(row);
            }
            row = row + 1;
        }
        proof {
            lemma_row_of_is(self@, name@, row as int);
        }
        None
    }

    /// The value of the variable `name`, if it is set.
    pub fn get(&self, name: &str) -> (value: Option<&str>)
        ensures
            borrowed_text(value) == resolve(self@, name@),
    {
        match self.position(name) {
            Some(row) => Some(self.variables[row].value.as_str()),
            None => None,
        }
    }

    /// Whether the variable `name` is set.
    pub fn is_set(&self, name: &str) -> (set: bool)
        ensures
            set == resolve(self@, name@).is_some(),
    {
        self.position(name).is_some()
    }

    /// Sets the variable `name` to `value`, in place of an earlier value.
    /// Every other variable keeps its value.
    pub fn set(&mut self, name: &str, value: &str)
        ensures
            final(self)@ == bind(old(self)@, name@, value@),
            resolve(final(self)@, name@) == Some(value@),
            forall|other: Seq<char>|
                other != name@ ==> resolve(final(self)@, other) == resolve(old(self)@, other),
    {
        proof {
            let before = self@;
            let after = bind(before, name@, value@);
            assert forall|other: Seq<char>| other != name@ implies #[trigger] resolve(
                after,
                other,
            ) == resolve(before, other) by {
                lemma_bind_resolves(before, name@, value@, other);
            }
            lemma_bind_resolves(before, name@, value@, name@);
        }
        let variable = Variable { name: String::from_str(name), value: String::from_str(value) };
        match self.position(name) {
            Some(row) => {
                self.variables.set(row, variable);
            },
            None => {
                self.variables.push(variable);
            },
        }
        assert(self@ =~= bind(old(self)@, name@, value@));
    }
}

} // verus!
