//! The symbol hook engine: a loaded module's resolution table, and the
//! redirection of one of its symbols with capture of the original address.

use vstd::prelude::*;
use crate::table::{bind, lemma_redirect_resolves, lemma_row_of_is, redirect, resolve, row_of};
use crate::text::str_equal;

verus! {

/// A resolution table as a sequence of rows, each a symbol name and the
/// address calls to it currently reach.
pub type Rows = Seq<(Seq<char>, usize)>;

/// One row of a resolution table.
pub struct SymbolEntry {
    pub name: String,
    pub address: usize,
}

/// An ordered table from symbol names to addresses. Where a name has several
/// rows the first one counts.
pub struct SymbolTable {
    pub entries: Vec<SymbolEntry>,
}

impl View for SymbolTable {
    type V = Rows;

    open spec fn view(&self) -> Rows {
        Seq::new(self.entries@.len(), |i: int| (self.entries@[i].name@, self.entries@[i].address))
    }
}

impl SymbolTable {
    /// An empty table.
    pub fn new() -> (table: SymbolTable)
        ensures
            table@ == Seq::<(Seq<char>, usize)>::empty(),
    {
        let table = SymbolTable { entries: Vec::new() };
        assert(table@ =~= Seq::<(Seq<char>, usize)>::empty());
        table
    }

    /// Appends a row for `name`.
    pub fn define(&mut self, name: &str, address: usize)
        ensures
            final(self)@ == old(self)@.push((name@, address)),
    {
        self.entries.push(SymbolEntry { name: String::from_str(name), address });
        assert(self@ =~= old(self)@.push((name@, address)));
    }

    /// Binds `name` to `address`: in its first row where it has one, in a
    /// new last row where it has none.
    pub fn bind(&mut self, name: &str, address: usize)
        ensures
            final(self)@ == bind(old(self)@, name@, address),
    {
        let entry = SymbolEntry { name: String::from_str(name), address };
        match self.position(name) {
            Some(row) => {
                self.entries.set(row, entry);
            },
            None => {
                self.entries.push(entry);
            },
        }
        assert(self@ =~= bind(old(self)@, name@, address));
    }

    /// The number of rows.
    pub fn len(&self) -> (n: usize)
        ensures
            n == self@.len(),
    {
        self.entries.len()
    }

    /// The name of row `row`.
    pub fn name_at(&self, row: usize) -> (name: &str)
        requires
            row < self@.len(),
        ensures
            name@ == self@[row as int].0,
    {
        self.entries[row].name.as_str()
    }

    /// The address of row `row`.
    pub fn address_at(&self, row: usize) -> (address: usize)
        requires
            row < self@.len(),
        ensures
            address == self@[row as int].1,
    {
        self.entries[row].address
    }

    /// The first row named `name`, if there is one.
    pub fn position(&self, name: &str) -> (found: Option<usize>)
        ensures
            match found {
                Some(row) => row == row_of(self@, name@) && row < self@.len(),
                None => row_of(self@, name@) == self@.len(),
            },
    {
        let mut row: usize = 0;
        while row < self.entries.len()
            invariant
                row <= self@.len(),
                self@.len() == self.entries@.len(),
                forall|j: int| 0 <= j < row ==> (#[trigger] self@[j]).0 != name@,
            decreases self.entries.len() - row,
        {
            if str_equal(self.entries[row].name.as_str(), name) {
                proof {
                    lemma_row_of_is(self@, name@, row as int);
                }
                return Some(row);
            }
            row = row + 1;
        }
        proof {
            lemma_row_of_is(self@, name@, row as int);
        }
        None
    }

    /// The address `name` resolves to, if the table has a row for it.
    pub fn lookup(&self, name: &str) -> (found: Option<usize>)
        ensures
            found == resolve(self@, name@),
    {
        match self.position(name) {
            Some(row) => Some(self.entries[row].address),
            None => None,
        }
    }

    /// Whether the table has a row for `name`.
    pub fn contains(&self, name: &str) -> (present: bool)
        ensures
            present == resolve(self@, name@).is_some(),
    {
        self.position(name).is_some()
    }
}

/// What is seen of a loaded module: the table through which its calls to
/// outside functions are resolved, and the functions it offers to others.
pub struct ModuleView {
    pub imports: SymbolTable,
    pub exports: SymbolTable,
}

impl ModuleView {
    /// A module with no imports and no exports.
    pub fn new() -> (module: ModuleView)
        ensures
            module.imports@ == Seq::<(Seq<char>, usize)>::empty(),
            module.exports@ == Seq::<(Seq<char>, usize)>::empty(),
    {
        ModuleView { imports: SymbolTable::new(), exports: SymbolTable::new() }
    }

    /// The names in the module's resolution table, in table order.
    pub fn symbols(&self) -> (names: Vec<String>)
        ensures
            names@.len() == self.imports@.len(),
            forall|i: int| 0 <= i < names@.len() ==> (#[trigger] names@[i])@ == self.imports@[i].0,
    {
        let mut names: Vec<String> = Vec::new();
        let mut row: usize = 0;
        while row < self.imports.len()
            invariant
                row <= self.imports@.len(),
                names@.len() == row,
                forall|i: int| 0 <= i < row ==> (#[trigger] names@[i])@ == self.imports@[i].0,
            decreases self.imports@.len() - row,
        {
            names.push(String::from_str(self.imports.name_at(row)));
            row = row + 1;
        }
        names
    }
}

/// How the module's resolution table was bound when the hook is installed.
#[derive(Clone, Copy, PartialEq, Eq, Structural, Debug)]
pub enum BindingModel {
    /// Every row already holds the address of the real function.
    Eager,
    /// A row may still hold the loader's resolution stub, so the table
    /// cannot be trusted for the original address.
    Lazy,
}

/// Why a hook could not be installed.
#[derive(Clone, Copy, PartialEq, Eq, Structural, Debug)]
pub enum HookError {
    /// The module's resolution table has no row for the symbol.
    NotFound,
}

/// The record of one installed hook. It is made when the hook is installed
/// and cannot be changed afterwards.
pub struct HookInstallation {
    symbol: String,
    replacement: usize,
    original: usize,
}

impl HookInstallation {
    /// The symbol that was redirected.
    pub closed spec fn spec_symbol(&self) -> Seq<char> {
        self.symbol@
    }

    /// The address that calls to the symbol reach now.
    pub closed spec fn spec_replacement(&self) -> usize {
        self.replacement
    }

    /// The address that calls to the symbol reached before.
    pub closed spec fn spec_original(&self) -> usize {
        self.original
    }

    /// The symbol that was redirected.
    pub fn symbol(&self) -> (symbol: &str)
        ensures
            symbol@ == self.spec_symbol(),
    {
        self.symbol.as_str()
    }

    /// The address that calls to the symbol reach now.
    #[verifier::when_used_as_spec(spec_replacement)]
    pub fn replacement(&self) -> (address: usize)
        ensures
            address == self.spec_replacement(),
    {
        self.replacement
    }

    /// The address that calls to the symbol reached before. A call of it is
    /// a call of the function that was hooked.
    #[verifier::when_used_as_spec(spec_original)]
    pub fn original_address(&self) -> (address: usize)
        ensures
            address == self.spec_original(),
    {
        self.original
    }
}

/// The address kept as the original of `name`.
///
/// Under eager binding it is what the table held before the hook. Under lazy
/// binding it is what `name` resolves to in `search`, the symbols of the
/// modules that follow in load order, and the null address when none of them
/// defines it.
pub open spec fn captured_original(
    binding: BindingModel,
    imports: Rows,
    search: Rows,
    name: Seq<char>,
) -> usize {
    match binding {
        BindingModel::Eager => match resolve(imports, name) {
            Some(address) => address,
            None => 0,
        },
        BindingModel::Lazy => match resolve(search, name) {
            Some(address) => address,
            None => 0,
        },
    }
}

/// What `install` returns for a resolution table, without the owned name.
pub open spec fn install_outcome(
    imports: Rows,
    name: Seq<char>,
    binding: BindingModel,
    search: Rows,
) -> Result<usize, HookError> {
    if resolve(imports, name) is Some {
        Ok(captured_original(binding, imports, search, name))
    } else {
        Err(HookError::NotFound)
    }
}

/// Redirects `symbol_name` in the module's resolution table to `replacement`
/// and returns the record holding the original address.
///
/// A symbol the table does not have gives `NotFound` and leaves the module as
/// it was. `search` holds the symbols of the modules that follow this one in
/// load order; it is consulted under lazy binding only.
pub fn install(
    module: &mut ModuleView,
    symbol_name: &str,
    replacement: usize,
    binding: BindingModel,
    search: &SymbolTable,
) -> (result: Result<HookInstallation, HookError>)
    ensures
        final(module).exports@ == old(module).exports@,
        final(module).imports@ == (if result is Ok {
            redirect(old(module).imports@, symbol_name@, replacement)
        } else {
            old(module).imports@
        }),
        match result {
            Ok(hook) => {
                &&& install_outcome(old(module).imports@, symbol_name@, binding, search@) == Ok::<
                    usize,
                    HookError,
                >(hook.spec_original())
                &&& hook.spec_symbol() == symbol_name@
                &&& hook.spec_replacement() == replacement
            },
            Err(error) => install_outcome(old(module).imports@, symbol_name@, binding, search@)
                == Err::<usize, HookError>(error),
        },
        result is Ok ==> resolve(final(module).imports@, symbol_name@) == Some(replacement),
        forall|other: Seq<char>|
            other != symbol_name@ ==> resolve(final(module).imports@, other) == resolve(
                old(module).imports@,
                other,
            ),
{
    match module.imports.position(symbol_name) {
        None => Err(HookError::NotFound),
        Some(row) => {
            proof {
                let before = old(module).imports@;
                let after = redirect(before, symbol_name@, replacement);
                assert forall|other: Seq<char>| other != symbol_name@ implies #[trigger] resolve(
                    after,
                    other,
                ) == resolve(before, other) by {
                    lemma_redirect_resolves(before, symbol_name@, replacement, other);
                }
                lemma_redirect_resolves(before, symbol_name@, replacement, symbol_name@);
            }
            let table_address = module.imports.entries[row].address;
            let original = match binding {
                BindingModel::Eager => table_address,
                BindingModel::Lazy => match search.lookup(symbol_name) {
                    Some(address) => address,
                    None => 0,
                },
            };
            module.imports.entries.set(
                row,
                SymbolEntry { name: String::from_str(symbol_name), address: replacement },
            );
            assert(module.imports@ =~= redirect(old(module).imports@, symbol_name@, replacement));
            Ok(HookInstallation { symbol: String::from_str(symbol_name), replacement, original })
        },
    }
}

/// A symbol that the table does not resolve cannot be redirected: the table
/// stays the same, row for row.
pub proof fn lemma_redirect_absent(table: Rows, name: Seq<char>, address: usize)
    requires
        resolve(table, name) is None,
    ensures
        redirect(table, name, address) == table,
{
}

/// Under eager binding the address kept as the original is the one that the
/// symbol resolved to before the hook was installed. So whatever the
/// functions at the addresses do, described by `behaviour`, a call through
/// the original does what a call of the symbol did before.
pub proof fn lemma_original_is_previous_target<T>(
    table: Rows,
    search: Rows,
    name: Seq<char>,
    behaviour: spec_fn(usize) -> T,
)
    requires
        resolve(table, name) is Some,
    ensures
        install_outcome(table, name, BindingModel::Eager, search) matches Ok(original)
            && original == resolve(table, name).unwrap() && behaviour(original) == behaviour(
            resolve(table, name).unwrap(),
        ),
{
}

} // verus!
