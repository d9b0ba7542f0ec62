//! Runtime binding tables: the addresses of the well-known functions of one
//! runtime family, looked up once in the runtime's module.

use vstd::prelude::*;
use crate::hook::{Rows, SymbolTable};
use crate::table::resolve;

verus! {

/// A function that a binding table is asked to hold.
pub struct Wanted {
    pub name: &'static str,
    /// Whether the table cannot be built without the function.
    pub required: bool,
}

/// The addresses found for a list of wanted functions, slot by slot. A slot
/// is empty where the module does not export the function.
pub struct BindingTable {
    pub addresses: Vec<Option<usize>>,
}

/// A required function that the module does not export.
pub struct BindingError {
    pub symbol: String,
}

/// The wanted functions as names and whether each is required.
pub open spec fn wanted_view(wanted: Seq<Wanted>) -> Seq<(Seq<char>, bool)> {
    Seq::new(wanted.len(), |i: int| (wanted[i].name@, wanted[i].required))
}

/// Slot `slot` asks for a required function that `exports` does not have.
pub open spec fn missing_at(exports: Rows, wanted: Seq<(Seq<char>, bool)>, slot: int) -> bool {
    &&& 0 <= slot < wanted.len()
    &&& wanted[slot].1
    &&& resolve(exports, wanted[slot].0) is None
}

/// Every required function of `wanted` is exported.
pub open spec fn complete(exports: Rows, wanted: Seq<(Seq<char>, bool)>) -> bool {
    forall|slot: int| !missing_at(exports, wanted, slot)
}

/// Slot `slot` is the first that asks for a required function that is not
/// exported.
pub open spec fn first_missing(exports: Rows, wanted: Seq<(Seq<char>, bool)>, slot: int) -> bool {
    &&& missing_at(exports, wanted, slot)
    &&& forall|earlier: int| 0 <= earlier < slot ==> !missing_at(exports, wanted, earlier)
}

impl BindingTable {
    /// The table holds what `exports` resolves each wanted function to.
    pub open spec fn holds(&self, exports: Rows, wanted: Seq<(Seq<char>, bool)>) -> bool {
        &&& self.addresses@.len() == wanted.len()
        &&& forall|slot: int|
            0 <= slot < wanted.len() ==> #[trigger] self.addresses@[slot] == resolve(
                exports,
                wanted[slot].0,
            )
    }

    /// Looks every wanted function up in the exports of a module.
    ///
    /// The table is built when every required function is there. Otherwise
    /// the error names the first required function that is not.
    pub fn load(exports: &SymbolTable, wanted: &Vec<Wanted>) -> (result: Result<
        BindingTable,
        BindingError,
    >)
        ensures
            match result {
                Ok(table) => complete(exports@, wanted_view(wanted@)) && table.holds(
                    exports@,
                    wanted_view(wanted@),
                ),
                Err(error) => exists|slot: int|
                    first_missing(exports@, wanted_view(wanted@), slot) && error.symbol@
                        == wanted@[slot].name@,
            },
    {
        let mut addresses: Vec<Option<usize>> = Vec::new();
        let mut slot: usize = 0;
        while slot < wanted.len()
            invariant
                slot <= wanted@.len(),
                addresses@.len() == slot,
                forall|s: int|
                    0 <= s < slot ==> #[trigger] addresses@[s] == resolve(
                        exports@,
                        wanted_view(wanted@)[s].0,
                    ),
                forall|s: int| 0 <= s < slot ==> !missing_at(exports@, wanted_view(wanted@), s),
            decreases wanted.len() - slot,
        {
            let found = exports.lookup(wanted[slot].name);
            if found.is_none() && wanted[slot].required {
                assert(first_missing(exports@, wanted_view(wanted@), slot as int));
                return Err(BindingError { symbol: String::from_str(wanted[slot].name) });
            }
            addresses.push(found);
            slot = slot + 1;
        }
        Ok(BindingTable { addresses })
    }

    /// The address in slot `slot`.
    pub fn address(&self, slot: usize) -> (address: Option<usize>)
        requires
            slot < self.addresses@.len(),
        ensures
            address == self.addresses@[slot as int],
    {
        self.addresses[slot]
    }
}

} // verus!
