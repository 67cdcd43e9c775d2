//! The interface cache: one resolved host function per generated field, built
//! once, all or nothing, and read-only afterwards.
use crate::codegen::{format_load_error, load_error_message, CacheField};
use crate::config::BuildConfig;
use crate::names::{str_concat, str_eq};
use vstd::prelude::*;

verus! {

/// What the host answered for field `i`: nothing where no answer was given.
pub open spec fn answer(resolved: Seq<Option<usize>>, i: int) -> Option<usize> {
    if 0 <= i < resolved.len() {
        resolved[i]
    } else {
        None
    }
}

/// Whether the host resolved each of the first `n` fields.
pub open spec fn all_resolved(resolved: Seq<Option<usize>>, n: int) -> bool {
    forall|i: int| 0 <= i < n ==> #[trigger] answer(resolved, i) is Some
}

/// Resolving a field failed: the cache cannot be built.
pub struct LoadError {
    /// The name of the first field that the host did not resolve.
    pub ident: String,
}

impl LoadError {
    /// The diagnostic naming the missing function.
    pub fn message(&self) -> (r: String)
        ensures
            r@ == load_error_message(self.ident@),
    {
        format_load_error(self.ident.as_str())
    }
}

/// The resolved host functions, each under the name of its generated field, for
/// one build configuration.
pub struct InterfaceCache {
    config: BuildConfig,
    idents: Vec<String>,
    handles: Vec<usize>,
}

impl InterfaceCache {
    pub closed spec fn spec_config(&self) -> BuildConfig {
        self.config
    }

    /// The number of fields.
    pub closed spec fn spec_len(&self) -> nat {
        self.idents@.len()
    }

    /// The name of field `i`.
    pub closed spec fn spec_ident(&self, i: int) -> Seq<char> {
        self.idents@[i]@
    }

    /// The resolved function of field `i`.
    pub closed spec fn spec_handle(&self, i: int) -> usize {
        self.handles@[i]
    }

    pub closed spec fn wf(&self) -> bool {
        self.idents@.len() == self.handles@.len()
    }

    /// Builds the cache from the generated fields and the host's answer for each
    /// (`resolved[i]` for `fields[i]`; a missing answer counts as unresolved). It
    /// succeeds exactly when every field was resolved; otherwise it names the
    /// first field that was not.
    pub fn new(config: BuildConfig, fields: &Vec<CacheField>, resolved: &Vec<Option<usize>>) -> (r: Result<InterfaceCache, LoadError>)
        ensures
            r is Ok <==> all_resolved(resolved@, fields@.len() as int),
            r matches Ok(c) ==> {
                &&& c.wf()
                &&& c.spec_config() == config
                &&& c.spec_len() == fields@.len()
                &&& forall|i: int| 0 <= i < fields@.len() ==> {
                    &&& #[trigger] c.spec_ident(i) == fields@[i].ident@
                    &&& answer(resolved@, i) == Some(c.spec_handle(i))
                }
            },
            r matches Err(e) ==> exists|i: int| {
                &&& 0 <= i < fields@.len()
                &&& #[trigger] answer(resolved@, i) is None
                &&& all_resolved(resolved@, i)
                &&& e.ident@ == fields@[i].ident@
            },
    {
        let mut idents: Vec<String> = Vec::new();
        let mut handles: Vec<usize> = Vec::new();
        let mut i: usize = 0;
        while i < fields.len()
            invariant
                i <= fields@.len(),
                idents@.len() == i,
                handles@.len() == i,
                all_resolved(resolved@, i as int),
                forall|j: int| 0 <= j < i ==> {
                    &&& #[trigger] idents@[j]@ == fields@[j].ident@
                    &&& answer(resolved@, j) == Some(handles@[j])
                },
            decreases fields@.len() - i,
        {
            let found = if i < resolved.len() {
                resolved[i]
            } else {
                None
            };
            match found {
                Some(h) => {
                    let ghost old_idents = idents@;
                    let ghost old_handles = handles@;
                    idents.push(fields[i].ident.clone());
                    handles.push(h);
                    assert forall|j: int| 0 <= j < i + 1 implies {
                        &&& #[trigger] idents@[j]@ == fields@[j].ident@
                        &&& answer(resolved@, j) == Some(handles@[j])
                    } by {
                        if j < i {
                            assert(idents@[j] == old_idents[j]);
                            assert(handles@[j] == old_handles[j]);
                        }
                    }
                },
                None => {
                    assert(answer(resolved@, i as int) is None);
                    return Err(LoadError { ident: fields[i].ident.clone() });
                },
            }
            i = i + 1;
        }
        Ok(InterfaceCache { config, idents, handles })
    }

    /// The build configuration the cache was built for.
    pub fn config(&self) -> (r: BuildConfig)
        ensures
            r == self.spec_config(),
    {
        self.config
    }

    /// The resolved function of the field `kind` + `suffix`, if the cache has one.
    fn kind_function(&self, kind: &str, suffix: &str) -> (r: Option<usize>)
        requires
            self.wf(),
        ensures
            self.names_function(kind@ + suffix@, r),
    {
        let ident = str_concat(kind, suffix);
        self.get(ident.as_str())
    }

    /// Whether `r` is what the cache holds under the name `ident`: the function of
    /// the first field of that name, or none where no field has it.
    pub open spec fn names_function(&self, ident: Seq<char>, r: Option<usize>) -> bool {
        &&& r matches Some(h) ==> exists|i: int| {
            &&& 0 <= i < self.spec_len()
            &&& #[trigger] self.spec_ident(i) == ident
            &&& h == self.spec_handle(i)
            &&& forall|j: int| 0 <= j < i ==> self.spec_ident(j) != ident
        }
        &&& r is None ==> forall|i: int| 0 <= i < self.spec_len() ==> #[trigger] self.spec_ident(i) != ident
    }

    /// The default constructor of value kind `kind` (snake case).
    pub fn default_constructor(&self, kind: &str) -> (r: Option<usize>)
        requires
            self.wf(),
        ensures
            self.names_function(kind@ + "_construct_default"@, r),
    {
        self.kind_function(kind, "_construct_default")
    }

    /// The copy constructor of value kind `kind` (snake case).
    pub fn copy_constructor(&self, kind: &str) -> (r: Option<usize>)
        requires
            self.wf(),
        ensures
            self.names_function(kind@ + "_construct_copy"@, r),
    {
        self.kind_function(kind, "_construct_copy")
    }

    /// The destructor of value kind `kind` (snake case); none for a kind whose
    /// values need no destruction.
    pub fn destructor(&self, kind: &str) -> (r: Option<usize>)
        requires
            self.wf(),
        ensures
            self.names_function(kind@ + "_destroy"@, r),
    {
        self.kind_function(kind, "_destroy")
    }

    /// The resolved function of the first field named `ident`, if any.
    pub fn get(&self, ident: &str) -> (r: Option<usize>)
        requires
            self.wf(),
        ensures
            self.names_function(ident@, r),
    {
        let mut i: usize = 0;
        while i < self.idents.len()
            invariant
                self.wf(),
                i <= self.idents@.len(),
                forall|j: int| 0 <= j < i ==> #[trigger] self.spec_ident(j) != ident@,
            decreases self.idents@.len() - i,
        {
            if str_eq(self.idents[i].as_str(), ident) {
                assert(self.spec_ident(i as int) == ident@);
                return Some(self.handles[i]);
            }
            i = i + 1;
        }
        None
    }
}

} // verus!
