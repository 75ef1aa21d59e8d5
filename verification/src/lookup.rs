//! Finding items by their name in a list.

use vstd::prelude::*;
use crate::text::same;

verus! {

/// Whether `i` is the first index at which `names` holds `name`.
pub open spec fn is_first(names: Seq<Seq<char>>, name: Seq<char>, i: int) -> bool {
    &&& 0 <= i < names.len()
    &&& names[i] == name
    &&& forall|j: int| 0 <= j < i ==> #[trigger] names[j] != name
}

/// The first index at which `names` holds `name`.
pub open spec fn first_position(names: Seq<Seq<char>>, name: Seq<char>) -> Option<int> {
    if names.contains(name) {
        Some(choose|i: int| is_first(names, name, i))
    } else {
        None
    }
}

/// A first index is the only one.
pub proof fn lemma_first_position(names: Seq<Seq<char>>, name: Seq<char>, i: int)
    requires
        is_first(names, name, i),
    ensures
        first_position(names, name) == Some(i),
{
    let k = choose|k: int| is_first(names, name, k);
    assert(is_first(names, name, k));
    assert(names.contains(name));
    if k < i {
        assert(names[k] != name);
    } else if i < k {
        assert(names[i] != name);
    }
}

/// A name that occurs has a first index.
pub proof fn lemma_position_exists(names: Seq<Seq<char>>, name: Seq<char>)
    requires
        names.contains(name),
    ensures
        first_position(names, name) is Some,
        is_first(names, name, first_position(names, name)->0),
{
    let i = choose|i: int| 0 <= i < names.len() && names[i] == name;
    lemma_first_below(names, name, i);
    let k = choose|k: int| is_first(names, name, k);
    assert(is_first(names, name, k));
}

proof fn lemma_first_below(names: Seq<Seq<char>>, name: Seq<char>, i: int)
    requires
        0 <= i < names.len(),
        names[i] == name,
    ensures
        exists|k: int| is_first(names, name, k),
    decreases i,
{
    if forall|j: int| 0 <= j < i ==> #[trigger] names[j] != name {
        assert(is_first(names, name, i));
    } else {
        let j = choose|j: int| 0 <= j < i && #[trigger] names[j] == name;
        lemma_first_below(names, name, j);
    }
}

/// A model with a name.
pub trait NamedModel: Sized {
    spec fn name_of(self) -> Seq<char>;
}

/// The names of a list of models.
pub open spec fn names_of<M: NamedModel>(items: Seq<M>) -> Seq<Seq<char>> {
    Seq::new(items.len(), |i: int| items[i].name_of())
}

/// The index of the first model named `name`.
pub open spec fn position<M: NamedModel>(items: Seq<M>, name: Seq<char>) -> Option<int> {
    first_position(names_of(items), name)
}

/// What [`position`] means, item by item.
pub proof fn lemma_position<M: NamedModel>(items: Seq<M>, name: Seq<char>)
    ensures
        match position(items, name) {
            Some(i) => 0 <= i < items.len() && items[i].name_of() == name && forall|j: int|
                0 <= j < i ==> (#[trigger] items[j]).name_of() != name,
            None => forall|j: int| 0 <= j < items.len() ==> (#[trigger] items[j]).name_of() != name,
        },
{
    let names = names_of(items);
    if names.contains(name) {
        lemma_position_exists(names, name);
        let i = position(items, name)->0;
        assert forall|j: int| 0 <= j < i implies (#[trigger] items[j]).name_of() != name by {
            assert(names[j] != name);
        }
    } else {
        assert forall|j: int| 0 <= j < items.len() implies (#[trigger] items[j]).name_of()
            != name by {
            assert(names[j] == items[j].name_of());
            assert(names.contains(names[j]));
        }
    }
}

/// An index with the name and none before it is the position of the name.
pub proof fn lemma_is_position<M: NamedModel>(items: Seq<M>, name: Seq<char>, i: int)
    requires
        0 <= i < items.len(),
        items[i].name_of() == name,
        forall|j: int| 0 <= j < i ==> (#[trigger] items[j]).name_of() != name,
    ensures
        position(items, name) == Some(i),
{
    lemma_position(items, name);
    let k = position(items, name);
    assert(items[i].name_of() == name);
    if k->0 < i {
        assert(items[k->0].name_of() != name);
    }
}

/// Replacing an item by one of the same name moves no name.
pub proof fn lemma_same_names<M: NamedModel>(items: Seq<M>, i: int, item: M, name: Seq<char>)
    requires
        0 <= i < items.len(),
        item.name_of() == items[i].name_of(),
    ensures
        position(items.update(i, item), name) == position(items, name),
{
    assert(names_of(items.update(i, item)) =~= names_of(items));
}

/// Something with a name, such as the id that it is stored under.
pub trait Named: DeepView where Self::V: NamedModel {
    fn name_text(&self) -> (r: &str)
        ensures
            r@ == self.deep_view().name_of(),
    ;
}

/// The index of the first item named `name`.
pub fn find<T: Named>(items: &Vec<T>, name: &str) -> (r: Option<usize>) where T::V: NamedModel
    ensures
        match r {
            Some(i) => i < items.len() && position(items.deep_view(), name@) == Some(i as int),
            None => position(items.deep_view(), name@) is None,
        },
{
    let ghost names = names_of(items.deep_view());
    let mut i: usize = 0;
    while i < items.len()
        invariant
            names == names_of(items.deep_view()),
            i <= items.len(),
            forall|j: int| 0 <= j < i ==> #[trigger] names[j] != name@,
        decreases items.len() - i,
    {
        assert(names[i as int] == items@[i as int].deep_view().name_of());
        if same(items[i].name_text(), name) {
            proof {
                lemma_first_position(names, name@, i as int);
            }
            return Some(i);
        }
        i = i + 1;
    }
    assert(!names.contains(name@));
    None
}

} // verus!
