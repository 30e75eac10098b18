//! The resolved export table of the host engine's runtime library.
//!
//! The process-wide runtime handle is, at this level, a name-to-address table:
//! the loader fills it once from the loaded library's exports, and everything
//! downstream (detection, symbol patching, the init hook) only looks names up
//! in it. Keeping it a plain table also lets every rule be exercised against a
//! fabricated set of exports.

use vstd::prelude::*;
use crate::strutil::str_eq;

verus! {

/// One exported symbol: its name and the address it resolves to.
pub struct SymbolEntry {
    pub name: String,
    pub addr: usize,
}

/// The export-lookup table of the attached runtime library.
pub struct SymbolTable {
    pub entries: Vec<SymbolEntry>,
}

/// The address of the first entry named `name`, if any.
pub open spec fn spec_lookup(entries: Seq<SymbolEntry>, name: Seq<char>) -> Option<usize>
    decreases entries.len()
{
    if entries.len() == 0 {
        None
    } else if entries[0].name@ == name {
        Some(entries[0].addr)
    } else {
        spec_lookup(entries.drop_first(), name)
    }
}

impl SymbolTable {
    /// What the table maps `name` to.
    pub open spec fn spec_get(self, name: Seq<char>) -> Option<usize> {
        spec_lookup(self.entries@, name)
    }

    /// Whether an export of this name is present.
    pub open spec fn has_export(self, name: Seq<char>) -> bool {
        self.spec_get(name) is Some
    }

    pub fn new() -> (r: SymbolTable)
        ensures
            r.entries@.len() == 0,
    {
        SymbolTable { entries: Vec::new() }
    }

    /// Records one resolved export.
    pub fn insert(&mut self, name: String, addr: usize)
        ensures
            final(self).entries@ == old(self).entries@.push(SymbolEntry { name, addr }),
    {
        self.entries.push(SymbolEntry { name, addr });
    }

    /// Resolves an export by name, as the runtime handle's lookup does:
    /// the address of the first entry carrying the name, or nothing.
    pub fn get_export_ptr(&self, name: &str) -> (r: Option<usize>)
        ensures
            r == self.spec_get(name@),
    {
        let n = self.entries.len();
        let mut i: usize = 0;
        proof {
            assert(self.entries@.skip(0) =~= self.entries@);
        }
        while i < n
            invariant
                n == self.entries@.len(),
                i <= n,
                spec_lookup(self.entries@, name@) == spec_lookup(self.entries@.skip(i as int), name@),
            decreases n - i,
        {
            if str_eq(self.entries[i].name.as_str(), name) {
                proof {
                    assert(self.entries@.skip(i as int)[0] == self.entries@[i as int]);
                }
                return Some(self.entries[i].addr);
            }
            proof {
                assert(self.entries@.skip(i as int).drop_first() =~= self.entries@.skip(i as int + 1));
            }
            i += 1;
        }
        proof {
            assert(self.entries@.skip(n as int).len() == 0);
        }
        None
    }
}

} // verus!
