//! Resource collections returned by the bridge.
//!
//! Every bridge fetch answers with a collection wrapper: a list of error
//! strings and a list of same-kind resources. The error list does not
//! prevent consumption of the data list. `Id` names resources that carry
//! their own identifier, and `GetById` is the lookup-by-identifier used by
//! the join engine: the first resource whose identifier matches wins.

use vstd::prelude::*;

verus! {

/// The collection wrapper of every bridge resource response.
#[derive(Debug, PartialEq)]
pub struct GenericResponse<T> {
    /// Error strings reported by the bridge for this fetch.
    pub errors: Vec<String>,
    /// The resources themselves.
    pub data: Vec<T>,
}

/// A resource that carries its own unique identifier.
pub trait Id {
    /// The identifier in specification form.
    spec fn spec_id(&self) -> Seq<char>;

    /// The identifier of this resource.
    fn id(&self) -> (r: &String)
        ensures
            r@ == self.spec_id(),
    ;
}

/// The first item of `items` whose identifier equals `id`, if any.
pub open spec fn find_by_id<T: Id>(items: Seq<T>, id: Seq<char>) -> Option<T>
    decreases items.len(),
{
    if items.len() == 0 {
        None::<T>
    } else if items.first().spec_id() == id {
        Some(items.first())
    } else {
        find_by_id(items.drop_first(), id)
    }
}

/// What the lookup finds is an item of the collection, and it carries
/// the identifier looked up.
pub proof fn lemma_find_by_id_present<T: Id>(items: Seq<T>, id: Seq<char>)
    requires
        find_by_id(items, id) is Some,
    ensures
        items.contains(find_by_id(items, id)->Some_0),
        find_by_id(items, id)->Some_0.spec_id() == id,
    decreases items.len(),
{
    if items.first().spec_id() == id {
        assert(items[0] == items.first());
    } else {
        lemma_find_by_id_present(items.drop_first(), id);
        let found = find_by_id(items, id)->Some_0;
        let j = choose|j: int| 0 <= j < items.drop_first().len() && items.drop_first()[j] == found;
        assert(items[j + 1] == found);
    }
}

/// Lookup of one resource by identifier within a collection.
pub trait GetById<T: Id> {
    /// The items the lookup searches, in order.
    spec fn spec_items(&self) -> Seq<T>;

    /// The first item whose identifier equals `id`, or `None` where no
    /// item matches.
    fn get_by_id(&self, id: &String) -> (r: Option<&T>)
        ensures
            (match r {
                Some(t) => find_by_id(self.spec_items(), id@) == Some(*t),
                None => find_by_id(self.spec_items(), id@) is None,
            }),
    ;
}

/// Skipping a prefix without a matching identifier leaves the lookup
/// result unchanged.
proof fn lemma_find_by_id_skip<T: Id>(items: Seq<T>, id: Seq<char>, i: int)
    requires
        0 <= i <= items.len(),
        forall|j: int| 0 <= j < i ==> items[j].spec_id() != id,
    ensures
        find_by_id(items, id) == find_by_id(items.subrange(i, items.len() as int), id),
    decreases i,
{
    if i > 0 {
        assert(items.first().spec_id() != id);
        lemma_find_by_id_skip(items.drop_first(), id, i - 1);
        assert(items.drop_first().subrange(i - 1, items.drop_first().len() as int)
            =~= items.subrange(i, items.len() as int));
    } else {
        assert(items.subrange(0, items.len() as int) =~= items);
    }
}

impl<T: Id> GetById<T> for GenericResponse<T> {
    open spec fn spec_items(&self) -> Seq<T> {
        self.data@
    }

    fn get_by_id(&self, id: &String) -> (r: Option<&T>) {
        let n: usize = self.data.len();
        let mut i: usize = 0;
        while i < n
            invariant
                n == self.data@.len(),
                0 <= i <= n,
                forall|j: int| 0 <= j < i ==> self.data@[j].spec_id() != id@,
            decreases n - i,
        {
            if *self.data[i].id() == *id {
                proof {
                    lemma_find_by_id_skip(self.data@, id@, i as int);
                    assert(self.data@.subrange(i as int, n as int).first() == self.data@[i as int]);
                }
                return Some(&self.data[i]);
            }
            i += 1;
        }
        proof {
            lemma_find_by_id_skip(self.data@, id@, n as int);
        }
        None
    }
}

} // verus!
