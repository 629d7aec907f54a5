//! The interface that an artifact declares: what it imports and what it exports.

use vstd::prelude::*;
use crate::value::{types_model, same_types, TypeModel, ValueType};

verus! {

/// The declared types of a function's arguments and results. An async
/// function delivers its results later instead of at once.
#[derive(Debug, PartialEq, Eq)]
pub struct Signature {
    pub params: Vec<ValueType>,
    pub results: Vec<ValueType>,
    pub is_async: bool,
}

/// What a `Signature` stands for.
pub struct SignatureModel {
    pub params: Seq<TypeModel>,
    pub results: Seq<TypeModel>,
    pub is_async: bool,
}

impl Signature {
    /// What the signature stands for.
    pub open spec fn model(&self) -> SignatureModel {
        SignatureModel {
            params: types_model(self.params@),
            results: types_model(self.results@),
            is_async: self.is_async,
        }
    }

    /// Whether two signatures stand for the same thing.
    pub fn same(&self, other: &Signature) -> (r: bool)
        ensures
            r == (self.model() == other.model()),
    {
        self.is_async == other.is_async && same_types(&self.params, &other.params) && same_types(
            &self.results,
            &other.results,
        )
    }
}

/// A capability that the guest expects from the host.
#[derive(Debug, PartialEq, Eq)]
pub struct Import {
    pub namespace: String,
    pub name: String,
    pub sig: Signature,
}

/// A function that the guest offers to the host.
#[derive(Debug, PartialEq, Eq)]
pub struct Export {
    pub name: String,
    pub sig: Signature,
}

/// The imports and exports of one artifact.
#[derive(Debug, PartialEq, Eq)]
pub struct Interface {
    pub imports: Vec<Import>,
    pub exports: Vec<Export>,
}

/// Whether some export has the name `name`.
pub open spec fn exported(exports: Seq<Export>, name: Seq<char>) -> bool {
    exists|i: int| 0 <= i < exports.len() && (#[trigger] exports[i]).name@ == name
}

/// Whether `i` is the place of the first export named `name`.
pub open spec fn first_named(exports: Seq<Export>, name: Seq<char>, i: int) -> bool {
    &&& 0 <= i < exports.len()
    &&& exports[i].name@ == name
    &&& forall|j: int| 0 <= j < i ==> (#[trigger] exports[j]).name@ != name
}

/// The place of the first export named `name`, if there is one.
pub open spec fn export_index(exports: Seq<Export>, name: Seq<char>) -> Option<int> {
    if exported(exports, name) {
        Some(choose|i: int| first_named(exports, name, i))
    } else {
        None
    }
}

/// An export that has the name at `k` has a first place.
proof fn lemma_has_first(exports: Seq<Export>, name: Seq<char>, k: int)
    requires
        0 <= k < exports.len(),
        exports[k].name@ == name,
    ensures
        exists|i: int| first_named(exports, name, i),
    decreases k,
{
    if exists|j: int| 0 <= j < k && (#[trigger] exports[j]).name@ == name {
        let j = choose|j: int| 0 <= j < k && (#[trigger] exports[j]).name@ == name;
        lemma_has_first(exports, name, j);
    } else {
        assert(first_named(exports, name, k));
    }
}

/// Where a name is exported, `export_index` gives the place of its first
/// export.
pub proof fn lemma_export_index_is_first(exports: Seq<Export>, name: Seq<char>)
    requires
        exported(exports, name),
    ensures
        export_index(exports, name) matches Some(i) && first_named(exports, name, i),
{
    let k = choose|k: int| 0 <= k < exports.len() && (#[trigger] exports[k]).name@ == name;
    lemma_has_first(exports, name, k);
}

/// The first export of a name is found at one place only.
pub proof fn lemma_first_named_unique(exports: Seq<Export>, name: Seq<char>, i: int, j: int)
    requires
        first_named(exports, name, i),
        first_named(exports, name, j),
    ensures
        i == j,
{
    if i < j {
        assert(exports[i].name@ != name);
    } else if j < i {
        assert(exports[j].name@ != name);
    }
}

/// Whether `i` is the place of the first import of that namespace and name.
pub open spec fn first_imported(
    imports: Seq<Import>,
    namespace: Seq<char>,
    name: Seq<char>,
    i: int,
) -> bool {
    &&& 0 <= i < imports.len()
    &&& imports[i].namespace@ == namespace && imports[i].name@ == name
    &&& forall|j: int|
        0 <= j < i ==> !((#[trigger] imports[j]).namespace@ == namespace && imports[j].name@
            == name)
}

/// The place of the first import of that namespace and name, if there is one.
pub open spec fn import_index(imports: Seq<Import>, namespace: Seq<char>, name: Seq<char>) -> Option<
    int,
> {
    if exists|i: int| first_imported(imports, namespace, name, i) {
        Some(choose|i: int| first_imported(imports, namespace, name, i))
    } else {
        None
    }
}

/// The first import of a namespace and name is found at one place only.
pub proof fn lemma_first_imported_unique(
    imports: Seq<Import>,
    namespace: Seq<char>,
    name: Seq<char>,
    i: int,
    j: int,
)
    requires
        first_imported(imports, namespace, name, i),
        first_imported(imports, namespace, name, j),
    ensures
        i == j,
{
    if i < j {
        assert(!(imports[i].namespace@ == namespace && imports[i].name@ == name));
    } else if j < i {
        assert(!(imports[j].namespace@ == namespace && imports[j].name@ == name));
    }
}

impl Interface {
    /// Looks an import up by namespace and name.
    pub fn find_import(&self, namespace: &str, name: &str) -> (r: Option<usize>)
        ensures
            match r {
                Some(i) => import_index(self.imports@, namespace@, name@) == Some(i as int),
                None => import_index(self.imports@, namespace@, name@) is None,
            },
            r is Some ==> first_imported(self.imports@, namespace@, name@, r.unwrap() as int),
    {
        let wanted_namespace = namespace.to_owned();
        let wanted_name = name.to_owned();
        let mut i: usize = 0;
        while i < self.imports.len()
            invariant
                i <= self.imports.len(),
                wanted_namespace@ == namespace@,
                wanted_name@ == name@,
                forall|j: int|
                    0 <= j < i ==> !((#[trigger] self.imports@[j]).namespace@ == namespace@
                        && self.imports@[j].name@ == name@),
            decreases self.imports.len() - i,
        {
            if self.imports[i].namespace == wanted_namespace && self.imports[i].name
                == wanted_name {
                proof {
                    assert(first_imported(self.imports@, namespace@, name@, i as int));
                    let k = choose|k: int| first_imported(self.imports@, namespace@, name@, k);
                    lemma_first_imported_unique(self.imports@, namespace@, name@, i as int, k);
                }
                return Some(i);
            }
            i += 1;
        }
        proof {
            assert forall|k: int| !first_imported(self.imports@, namespace@, name@, k) by {
                if first_imported(self.imports@, namespace@, name@, k) {
                    assert(!(self.imports@[k].namespace@ == namespace@ && self.imports@[k].name@
                        == name@));
                }
            }
        }
        None
    }

    /// Looks an export up by name.
    pub fn find_export(&self, name: &str) -> (r: Option<usize>)
        ensures
            match r {
                Some(i) => export_index(self.exports@, name@) == Some(i as int),
                None => export_index(self.exports@, name@) is None,
            },
            r is Some ==> first_named(self.exports@, name@, r.unwrap() as int),
    {
        let wanted = name.to_owned();
        let mut i: usize = 0;
        while i < self.exports.len()
            invariant
                i <= self.exports.len(),
                wanted@ == name@,
                forall|j: int| 0 <= j < i ==> (#[trigger] self.exports@[j]).name@ != name@,
            decreases self.exports.len() - i,
        {
            if self.exports[i].name == wanted {
                proof {
                    assert(first_named(self.exports@, name@, i as int));
                    let k = choose|k: int| first_named(self.exports@, name@, k);
                    lemma_first_named_unique(self.exports@, name@, i as int, k);
                }
                return Some(i);
            }
            i += 1;
        }
        None
    }
}

} // verus!
