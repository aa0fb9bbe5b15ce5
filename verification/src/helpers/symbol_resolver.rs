//! Result of resolving a code address to a module and symbol. The resolution itself queries
//! the system's debugging library and is done outside the library.
use vstd::prelude::*;

verus! {

/// An address resolved to the module that maps it and, when known, the symbol.
#[derive(Debug, Clone, PartialEq, Eq)]
pub struct ResolvedSymbol {
    /// Name of the module, e.g. `ntdll.dll`.
    pub module_name: String,
    /// Name of the symbol, when known.
    pub symbol_name: Option<String>,
}

impl ResolvedSymbol {
    /// The resolution from the debugging library's answers: the module name when it knew the
    /// module (`UnknownModule` otherwise), and the symbol name when it knew the symbol.
    pub fn from_lookups(module_name: Option<String>, symbol_name: Option<String>) -> (r: Self)
        ensures
            r.module_name@ == (match module_name {
                Some(m) => m@,
                None => "UnknownModule"@,
            }),
            r.symbol_name == symbol_name,
    {
        let module_name = match module_name {
            Some(m) => m,
            None => "UnknownModule".to_owned(),
        };
        ResolvedSymbol { module_name, symbol_name }
    }
}

} // verus!
