//! Operations on an instance's reactive property cells.
//!
//! A reactive instance owns its property cells as a list with unique
//! property names; each cell is exclusively owned by its instance.  The
//! list's meaning as a mapping is `cells_map`: the `Map` from property name
//! to the cell's cached value.  These operations carry both views through
//! every change: the mapping, and the per-cell identities and propagation
//! logs that the mapping abstracts away.

use vstd::prelude::*;

use crate::ids;
use crate::property::ReactivePropertyInstance;
use crate::property_map;
use crate::property_map::NamedProperty;
use crate::strings;

verus! {

/// The named values a list of cells holds, in order.
pub open spec fn cells_entries(cells: Seq<ReactivePropertyInstance>) -> Seq<NamedProperty> {
    cells.map(|i: int, c: ReactivePropertyInstance| NamedProperty { name: c.name, value: c.value })
}

/// No two cells carry the same property name.
pub open spec fn cell_names_unique(cells: Seq<ReactivePropertyInstance>) -> bool {
    property_map::names_unique(cells_entries(cells))
}

/// The mapping from property name to cached value that a list of cells
/// stands for.
pub open spec fn cells_map(cells: Seq<ReactivePropertyInstance>) -> Map<
    Seq<char>,
    serde_json::Value,
> {
    property_map::entries_map(cells_entries(cells))
}

/// The entry at an index reads the cell at that index.
pub proof fn lemma_cells_entry_at(cells: Seq<ReactivePropertyInstance>, i: int)
    requires
        0 <= i < cells.len(),
    ensures
        cells_entries(cells)[i] == (NamedProperty { name: cells[i].name, value: cells[i].value }),
{
}

/// Under unique names, two cells carrying the same name are the same cell.
pub proof fn lemma_cells_unique_at(cells: Seq<ReactivePropertyInstance>, i: int, k: int)
    requires
        cell_names_unique(cells),
        0 <= i < cells.len(),
        0 <= k < cells.len(),
        cells[i].name@ == cells[k].name@,
    ensures
        i == k,
{
    lemma_cells_entry_at(cells, i);
    lemma_cells_entry_at(cells, k);
    if i < k {
        assert(cells_entries(cells)[i].name@ != cells_entries(cells)[k].name@);
    } else if k < i {
        assert(cells_entries(cells)[k].name@ != cells_entries(cells)[i].name@);
    }
}

/// The index of the cell carrying a name, if one does.
pub fn cells_find(cells: &Vec<ReactivePropertyInstance>, name: &str) -> (r: Option<usize>)
    requires
        cell_names_unique(cells@),
    ensures
        match r {
            Some(i) => i < cells@.len() && cells@[i as int].name@ == name@ && cells_map(
                cells@,
            ).contains_key(name@) && cells_map(cells@)[name@] == cells@[i as int].value,
            None => !cells_map(cells@).contains_key(name@),
        },
{
    let mut i: usize = 0;
    while i < cells.len()
        invariant
            cell_names_unique(cells@),
            i <= cells@.len(),
            forall|j: int| 0 <= j < i ==> (#[trigger] cells@[j].name@) != name@,
        decreases cells@.len() - i,
    {
        if strings::str_eq(cells[i].name.as_str(), name) {
            proof {
                lemma_cells_entry_at(cells@, i as int);
                property_map::lemma_entries_map_at(cells_entries(cells@), i as int);
            }
            return Some(i);
        }
        proof {
            lemma_cells_entry_at(cells@, i as int);
        }
        i += 1;
    }
    proof {
        property_map::lemma_entries_map_dom(cells_entries(cells@), name@);
        assert forall|j: int| 0 <= j < cells_entries(cells@).len() implies (#[trigger] cells_entries(cells@)[j].name@) != name@ by {
            lemma_cells_entry_at(cells@, j);
        }
    }
    None
}

/// The cached value of the named cell, if one exists.
pub fn cells_get(cells: &Vec<ReactivePropertyInstance>, name: &str) -> (r: Option<
    serde_json::Value,
>)
    requires
        cell_names_unique(cells@),
    ensures
        match r {
            Some(v) => cells_map(cells@).contains_key(name@) && v == cells_map(cells@)[name@],
            None => !cells_map(cells@).contains_key(name@),
        },
{
    match cells_find(cells, name) {
        Some(i) => {
            proof {
                lemma_cells_entry_at(cells@, i as int);
                property_map::lemma_entries_map_at(cells_entries(cells@), i as int);
            }
            Some(cells[i].get())
        },
        None => None,
    }
}

/// Wraps every named value in a fresh cell, keyed by its name: each cell
/// gets a newly generated identity, caches the given value, and has
/// propagated nothing yet.
pub fn cells_from_entries(entries: Vec<NamedProperty>) -> (cells: Vec<ReactivePropertyInstance>)
    requires
        property_map::names_unique(entries@),
    ensures
        cell_names_unique(cells@),
        cells_entries(cells@) == entries@,
        cells_map(cells@) == property_map::entries_map(entries@),
        forall|i: int|
            0 <= i < cells@.len() ==> (#[trigger] cells@[i].propagated@) == Seq::<
                serde_json::Value,
            >::empty(),
{
    let mut cells: Vec<ReactivePropertyInstance> = Vec::new();
    let mut rest = entries;
    let ghost all = rest@;
    while rest.len() > 0
        invariant
            all == cells_entries(cells@) + rest@,
            forall|i: int|
                0 <= i < cells@.len() ==> (#[trigger] cells@[i].propagated@) == Seq::<
                    serde_json::Value,
                >::empty(),
        decreases rest@.len(),
    {
        let p = rest.remove(0);
        let cell = ReactivePropertyInstance::new(ids::fresh_id(), p.name, p.value);
        cells.push(cell);
        proof {
            assert(all =~= cells_entries(cells@) + rest@);
        }
    }
    proof {
        assert(cells_entries(cells@) =~= all);
    }
    cells
}

/// Reads every cell's name and cached value back out as named values, in
/// order.
pub fn cells_to_entries(cells: &Vec<ReactivePropertyInstance>) -> (entries: Vec<NamedProperty>)
    ensures
        entries@ == cells_entries(cells@),
{
    let mut entries: Vec<NamedProperty> = Vec::new();
    let mut i: usize = 0;
    while i < cells.len()
        invariant
            i <= cells@.len(),
            entries@ == cells_entries(cells@.subrange(0, i as int)),
        decreases cells@.len() - i,
    {
        let name = cells[i].name.clone();
        let value = cells[i].value.clone();
        entries.push(NamedProperty { name, value });
        proof {
            assert(entries@ =~= cells_entries(cells@.subrange(0, i + 1 as int)));
        }
        i += 1;
    }
    proof {
        assert(cells@.subrange(0, cells@.len() as int) =~= cells@);
        assert(entries@ =~= cells_entries(cells@));
    }
    entries
}

/// Writes the named cell and propagates the value, if the cell exists;
/// reports whether it did.  Every other cell is untouched, and nothing is
/// propagated anywhere on a miss.
pub fn cells_set(
    cells: &mut Vec<ReactivePropertyInstance>,
    name: &str,
    value: serde_json::Value,
) -> (r: bool)
    requires
        cell_names_unique(old(cells)@),
    ensures
        cell_names_unique(final(cells)@),
        r == cells_map(old(cells)@).contains_key(name@),
        r ==> cells_map(final(cells)@) == cells_map(old(cells)@).insert(name@, value),
        !r ==> final(cells)@ == old(cells)@,
        final(cells)@.len() == old(cells)@.len(),
        forall|i: int|
            0 <= i < old(cells)@.len() && old(cells)@[i].name@ != name@ ==> (#[trigger] final(cells)@[i]) == old(cells)@[i],
        forall|i: int|
            0 <= i < old(cells)@.len() && old(cells)@[i].name@ == name@ ==> (#[trigger] final(cells)@[i]).value == value && final(cells)@[i].propagated@ == old(cells)@[i].propagated@.push(value) && final(cells)@[i].name@ == old(cells)@[i].name@
                && final(cells)@[i].id == old(cells)@[i].id,
{
    match cells_find(cells, name) {
        Some(i) => {
            let mut cell = cells.remove(i);
            cell.set(value);
            cells.insert(i, cell);
            proof {
                assert(cells@ =~= old(cells)@.update(i as int, cell));
                property_map::lemma_entries_map_update(
                    cells_entries(old(cells)@),
                    i as int,
                    NamedProperty { name: cell.name, value: cell.value },
                );
                lemma_cells_entry_at(old(cells)@, i as int);
                assert forall|j: int| 0 <= j < cells@.len() implies (#[trigger] cells_entries(cells@)[j]) == cells_entries(old(cells)@).update(
                    i as int,
                    NamedProperty { name: cell.name, value: cell.value },
                )[j] by {
                    lemma_cells_entry_at(cells@, j);
                    lemma_cells_entry_at(old(cells)@, j);
                }
                assert(cells_entries(cells@) =~= cells_entries(old(cells)@).update(
                    i as int,
                    NamedProperty { name: cell.name, value: cell.value },
                ));
                assert forall|k: int|
                    0 <= k < old(cells)@.len() && old(cells)@[k].name@ == name@ implies k
                    == i as int by {
                    lemma_cells_unique_at(old(cells)@, k, i as int);
                }
            }
            true
        },
        None => {
            proof {
                property_map::lemma_entries_map_dom(cells_entries(cells@), name@);
                assert forall|k: int| 0 <= k < cells@.len() implies (#[trigger] cells@[k].name@)
                    != name@ by {
                    lemma_cells_entry_at(cells@, k);
                    if cells@[k].name@ == name@ {
                        assert(cells_entries(cells@)[k].name@ == name@);
                    }
                }
            }
            false
        },
    }
}

/// Writes the named cell without propagating, if the cell exists; reports
/// whether it did.  No cell propagates anything, and every other cell is
/// untouched.
pub fn cells_set_no_propagate(
    cells: &mut Vec<ReactivePropertyInstance>,
    name: &str,
    value: serde_json::Value,
) -> (r: bool)
    requires
        cell_names_unique(old(cells)@),
    ensures
        cell_names_unique(final(cells)@),
        r == cells_map(old(cells)@).contains_key(name@),
        r ==> cells_map(final(cells)@) == cells_map(old(cells)@).insert(name@, value),
        !r ==> final(cells)@ == old(cells)@,
        final(cells)@.len() == old(cells)@.len(),
        forall|i: int|
            0 <= i < old(cells)@.len() ==> (#[trigger] final(cells)@[i]).propagated@ == old(cells)@[i].propagated@,
        forall|i: int|
            0 <= i < old(cells)@.len() && old(cells)@[i].name@ != name@ ==> (#[trigger] final(cells)@[i]) == old(cells)@[i],
        forall|i: int|
            0 <= i < old(cells)@.len() && old(cells)@[i].name@ == name@ ==> (#[trigger] final(cells)@[i]).value == value && final(cells)@[i].name@ == old(cells)@[i].name@ && final(cells)@[i].id == old(cells)@[i].id,
{
    match cells_find(cells, name) {
        Some(i) => {
            let mut cell = cells.remove(i);
            cell.set_no_propagate(value);
            cells.insert(i, cell);
            proof {
                assert(cells@ =~= old(cells)@.update(i as int, cell));
                property_map::lemma_entries_map_update(
                    cells_entries(old(cells)@),
                    i as int,
                    NamedProperty { name: cell.name, value: cell.value },
                );
                lemma_cells_entry_at(old(cells)@, i as int);
                assert forall|j: int| 0 <= j < cells@.len() implies (#[trigger] cells_entries(cells@)[j]) == cells_entries(old(cells)@).update(
                    i as int,
                    NamedProperty { name: cell.name, value: cell.value },
                )[j] by {
                    lemma_cells_entry_at(cells@, j);
                    lemma_cells_entry_at(old(cells)@, j);
                }
                assert(cells_entries(cells@) =~= cells_entries(old(cells)@).update(
                    i as int,
                    NamedProperty { name: cell.name, value: cell.value },
                ));
                assert forall|k: int|
                    0 <= k < old(cells)@.len() && old(cells)@[k].name@ == name@ implies k
                    == i as int by {
                    lemma_cells_unique_at(old(cells)@, k, i as int);
                }
            }
            true
        },
        None => {
            proof {
                property_map::lemma_entries_map_dom(cells_entries(cells@), name@);
                assert forall|k: int| 0 <= k < cells@.len() implies (#[trigger] cells@[k].name@)
                    != name@ by {
                    lemma_cells_entry_at(cells@, k);
                    if cells@[k].name@ == name@ {
                        assert(cells_entries(cells@)[k].name@ == name@);
                    }
                }
            }
            false
        },
    }
}

/// Re-evaluates every cell once: each cell propagates its cached value; no
/// cached value changes.
pub fn cells_tick(cells: &mut Vec<ReactivePropertyInstance>)
    requires
        cell_names_unique(old(cells)@),
    ensures
        cell_names_unique(final(cells)@),
        final(cells)@.len() == old(cells)@.len(),
        cells_map(final(cells)@) == cells_map(old(cells)@),
        forall|i: int|
            0 <= i < old(cells)@.len() ==> (#[trigger] final(cells)@[i]).name@ == old(cells)@[i].name@ && final(cells)@[i].id == old(cells)@[i].id && final(cells)@[i].value
                == old(cells)@[i].value && final(cells)@[i].propagated@ == old(cells)@[i].propagated@.push(old(cells)@[i].value),
{
    let mut i: usize = 0;
    while i < cells.len()
        invariant
            cells@.len() == old(cells)@.len(),
            i <= cells@.len(),
            forall|j: int| i <= j < cells@.len() ==> (#[trigger] cells@[j]) == old(cells)@[j],
            forall|j: int|
                0 <= j < i ==> (#[trigger] cells@[j]).name@ == old(cells)@[j].name@ && cells@[j].id
                    == old(cells)@[j].id && cells@[j].value == old(cells)@[j].value
                    && cells@[j].propagated@ == old(cells)@[j].propagated@.push(
                    old(cells)@[j].value,
                ),
        decreases cells@.len() - i,
    {
        let ghost start = cells@;
        let mut cell = cells.remove(i);
        cell.tick();
        cells.insert(i, cell);
        proof {
            assert(cells@ =~= start.update(i as int, cell));
        }
        i += 1;
    }
    proof {
        assert forall|j: int| 0 <= j < cells@.len() implies (#[trigger] cells_entries(cells@)[j])
            .name@ == cells_entries(old(cells)@)[j].name@ && cells_entries(cells@)[j].value
            == cells_entries(old(cells)@)[j].value by {
            lemma_cells_entry_at(cells@, j);
            lemma_cells_entry_at(old(cells)@, j);
        }
        property_map::lemma_entries_map_congruence(
            cells_entries(cells@),
            cells_entries(old(cells)@),
        );
        property_map::lemma_names_unique_congruence(
            cells_entries(cells@),
            cells_entries(old(cells)@),
        );
    }
}

/// Adds a property cell under a fresh identity, unless a cell of that name
/// already exists: the first writer wins and a re-add changes nothing.
pub fn cells_add(cells: &mut Vec<ReactivePropertyInstance>, name: String, value: serde_json::Value)
    requires
        cell_names_unique(old(cells)@),
    ensures
        cell_names_unique(final(cells)@),
        cells_map(old(cells)@).contains_key(name@) ==> final(cells)@ == old(cells)@,
        !cells_map(old(cells)@).contains_key(name@) ==> cells_map(final(cells)@) == cells_map(
            old(cells)@,
        ).insert(name@, value) && final(cells)@.len() == old(cells)@.len() + 1,
{
    match cells_find(cells, name.as_str()) {
        Some(_) => {},
        None => {
            let cell = ReactivePropertyInstance::new(ids::fresh_id(), name, value);
            proof {
                property_map::lemma_entries_map_push(
                    cells_entries(old(cells)@),
                    NamedProperty { name: cell.name, value: cell.value },
                );
            }
            cells.push(cell);
            proof {
                assert(cells_entries(cells@) =~= cells_entries(old(cells)@).push(
                    NamedProperty { name: cell.name, value: cell.value },
                ));
            }
        },
    }
}

} // verus!
