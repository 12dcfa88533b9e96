//! The shopping list: the quantities that several recipes ask of each
//! ingredient, gathered under the ingredient's name.
use crate::models::ShoppingListItem;
use crate::text::{
    lemma_name_less_irreflexive, lemma_name_less_total, lemma_name_less_transitive, name_less,
    name_precedes, push_text,
};
use vstd::pervasive::VecAdditionalExecFns;
use vstd::prelude::*;
use vstd::string::StringExecFns;

verus! {

/// A row read for the shopping list: an ingredient's name and one quantity of
/// it.
pub type QuantityRow = (String, String);

/// The quantities that the rows give for `name`, in row order.
pub open spec fn quantities_for(rows: Seq<QuantityRow>, name: Seq<char>) -> Seq<Seq<char>>
    decreases rows.len(),
{
    if rows.len() == 0 {
        Seq::empty()
    } else {
        let before = quantities_for(rows.drop_last(), name);
        if rows.last().0@ == name {
            before.push(rows.last().1@)
        } else {
            before
        }
    }
}

/// Quantities joined by `" + "`.
pub open spec fn joined_quantities(qs: Seq<Seq<char>>) -> Seq<char>
    decreases qs.len(),
{
    if qs.len() == 0 {
        Seq::empty()
    } else if qs.len() == 1 {
        qs[0]
    } else {
        joined_quantities(qs.drop_last()) + " + "@ + qs.last()
    }
}

/// The items are sorted by name, without repeats.
pub open spec fn sorted_by_name(items: Seq<ShoppingListItem>) -> bool {
    forall|i: int, j: int|
        0 <= i < j < items.len() ==> name_less(
            #[trigger] items[i].ingredient_name@,
            #[trigger] items[j].ingredient_name@,
        )
}

/// Every item's name is the name of some row.
pub open spec fn items_from_rows(rows: Seq<QuantityRow>, items: Seq<ShoppingListItem>) -> bool {
    forall|i: int|
        0 <= i < items.len() ==> exists|k: int|
            0 <= k < rows.len() && #[trigger] rows[k].0@ == (#[trigger] items[i]).ingredient_name@
}

/// Every row's name is the name of some item.
pub open spec fn rows_in_items(rows: Seq<QuantityRow>, items: Seq<ShoppingListItem>) -> bool {
    forall|k: int|
        0 <= k < rows.len() ==> exists|i: int|
            0 <= i < items.len() && (#[trigger] items[i]).ingredient_name@ == (#[trigger] rows[k]).0@
}

/// Every item's quantity joins the quantities that the rows give for its name.
pub open spec fn quantities_joined(rows: Seq<QuantityRow>, items: Seq<ShoppingListItem>) -> bool {
    forall|i: int|
        0 <= i < items.len() ==> (#[trigger] items[i]).combined_quantity@ == joined_quantities(
            quantities_for(rows, items[i].ingredient_name@),
        )
}

/// `items` is the shopping list of `rows`: one item per ingredient name of the
/// rows, sorted by name, each with that name's quantities joined in row order.
pub open spec fn is_shopping_list(rows: Seq<QuantityRow>, items: Seq<ShoppingListItem>) -> bool {
    &&& sorted_by_name(items)
    &&& items_from_rows(rows, items)
    &&& rows_in_items(rows, items)
    &&& quantities_joined(rows, items)
}

proof fn lemma_quantities_step(rows: Seq<QuantityRow>, k: int, name: Seq<char>)
    requires
        0 <= k < rows.len(),
    ensures
        quantities_for(rows.take(k + 1), name) == if rows[k].0@ == name {
            quantities_for(rows.take(k), name).push(rows[k].1@)
        } else {
            quantities_for(rows.take(k), name)
        },
{
    assert(rows.take(k + 1).drop_last() =~= rows.take(k));
}

proof fn lemma_quantities_absent(rows: Seq<QuantityRow>, name: Seq<char>)
    requires
        forall|k: int| 0 <= k < rows.len() ==> (#[trigger] rows[k]).0@ != name,
    ensures
        quantities_for(rows, name).len() == 0,
    decreases rows.len(),
{
    if rows.len() > 0 {
        lemma_quantities_absent(rows.drop_last(), name);
    }
}

proof fn lemma_quantities_present(rows: Seq<QuantityRow>, name: Seq<char>, k: int)
    requires
        0 <= k < rows.len(),
        rows[k].0@ == name,
    ensures
        quantities_for(rows, name).len() > 0,
    decreases rows.len(),
{
    if k < rows.len() - 1 {
        lemma_quantities_present(rows.drop_last(), name, k);
    }
}

proof fn lemma_joined_push(qs: Seq<Seq<char>>, q: Seq<char>)
    ensures
        joined_quantities(qs.push(q)) == if qs.len() == 0 {
            q
        } else {
            joined_quantities(qs) + " + "@ + q
        },
{
    assert(qs.push(q).drop_last() =~= qs);
}

/// The rows up to `k + 1` are the rows up to `k` and the row at `k`.
proof fn lemma_take_next(rows: Seq<QuantityRow>, k: int)
    requires
        0 <= k < rows.len(),
    ensures
        rows.take(k + 1).len() == k + 1,
        forall|j: int| 0 <= j < k ==> rows.take(k + 1)[j] == #[trigger] rows.take(k)[j],
        rows.take(k + 1)[k] == rows[k],
{
}

/// Adding the row at `k` to the item of its name, at `p`, keeps the list a
/// shopping list of the rows up to `k`.
proof fn lemma_merge_step(rows: Seq<QuantityRow>, k: int, old_items: Seq<ShoppingListItem>, items: Seq<ShoppingListItem>, p: int)
    requires
        0 <= k < rows.len(),
        is_shopping_list(rows.take(k), old_items),
        0 <= p < old_items.len(),
        old_items[p].ingredient_name@ == rows[k].0@,
        items.len() == old_items.len(),
        forall|i: int| 0 <= i < items.len() && i != p ==> items[i] == old_items[i],
        items[p].ingredient_name@ == old_items[p].ingredient_name@,
        items[p].combined_quantity@ == old_items[p].combined_quantity@ + " + "@ + rows[k].1@,
    ensures
        is_shopping_list(rows.take(k + 1), items),
{
    let rk = rows.take(k);
    let rk1 = rows.take(k + 1);
    lemma_take_next(rows, k);
    assert forall|i: int| 0 <= i < items.len() implies #[trigger] items[i].ingredient_name@ == old_items[i].ingredient_name@ by {
    }
    assert(sorted_by_name(items)) by {
        assert forall|i: int, j: int| 0 <= i < j < items.len() implies name_less(
            #[trigger] items[i].ingredient_name@, #[trigger] items[j].ingredient_name@) by {
            assert(items[i].ingredient_name@ == old_items[i].ingredient_name@);
            assert(items[j].ingredient_name@ == old_items[j].ingredient_name@);
        }
    }
    lemma_merge_quantities(rows, k, old_items, items, p);
    assert(items_from_rows(rk1, items)) by {
        assert forall|i: int| 0 <= i < items.len() implies exists|kk: int|
            0 <= kk < rk1.len() && #[trigger] rk1[kk].0@ == (#[trigger] items[i]).ingredient_name@ by {
            let kk = choose|kk: int| 0 <= kk < rk.len() && #[trigger] rk[kk].0@ == old_items[i].ingredient_name@;
            assert(rk1[kk] == rk[kk]);
        }
    }
    assert(rows_in_items(rk1, items)) by {
        assert forall|kk: int| 0 <= kk < rk1.len() implies exists|i: int|
            0 <= i < items.len() && (#[trigger] items[i]).ingredient_name@ == (#[trigger] rk1[kk]).0@ by {
            if kk < k {
                assert(rk1[kk] == rk[kk]);
                let i = choose|i: int| 0 <= i < old_items.len() && (#[trigger] old_items[i]).ingredient_name@ == rk[kk].0@;
                assert(items[i].ingredient_name@ == old_items[i].ingredient_name@);
            } else {
                assert(items[p].ingredient_name@ == rk1[kk].0@);
            }
        }
    }
}

proof fn lemma_merge_quantities(rows: Seq<QuantityRow>, k: int, old_items: Seq<ShoppingListItem>, items: Seq<ShoppingListItem>, p: int)
    requires
        0 <= k < rows.len(),
        sorted_by_name(old_items),
        items_from_rows(rows.take(k), old_items),
        quantities_joined(rows.take(k), old_items),
        0 <= p < old_items.len(),
        old_items[p].ingredient_name@ == rows[k].0@,
        items.len() == old_items.len(),
        forall|i: int| 0 <= i < items.len() && i != p ==> items[i] == old_items[i],
        items[p].ingredient_name@ == old_items[p].ingredient_name@,
        items[p].combined_quantity@ == old_items[p].combined_quantity@ + " + "@ + rows[k].1@,
    ensures
        quantities_joined(rows.take(k + 1), items),
{
    let rk = rows.take(k);
    let rk1 = rows.take(k + 1);
    let name = rows[k].0@;
    let w = choose|w: int| 0 <= w < rk.len() && #[trigger] rk[w].0@ == old_items[p].ingredient_name@;
    lemma_quantities_present(rk, name, w);
    assert forall|i: int| 0 <= i < items.len() implies (#[trigger] items[i]).combined_quantity@
        == joined_quantities(quantities_for(rk1, items[i].ingredient_name@)) by {
        lemma_quantities_step(rows, k, items[i].ingredient_name@);
        lemma_name_less_irreflexive(name);
        if i < p {
            assert(name_less(old_items[i].ingredient_name@, old_items[p].ingredient_name@));
        } else if i > p {
            assert(name_less(old_items[p].ingredient_name@, old_items[i].ingredient_name@));
        } else {
            lemma_joined_push(quantities_for(rk, name), rows[k].1@);
        }
    }
}

/// A name that the list does not hold, put at the first position whose name
/// does not come before it, keeps the list sorted and free of repeats.
proof fn lemma_insert_sorted(old_items: Seq<ShoppingListItem>, items: Seq<ShoppingListItem>, p: int, item: ShoppingListItem)
    requires
        sorted_by_name(old_items),
        0 <= p <= old_items.len(),
        forall|j: int| 0 <= j < p ==> name_less(#[trigger] old_items[j].ingredient_name@, item.ingredient_name@),
        p < old_items.len() ==> !name_less(old_items[p].ingredient_name@, item.ingredient_name@)
            && old_items[p].ingredient_name@ != item.ingredient_name@,
        items == old_items.insert(p, item),
    ensures
        sorted_by_name(items),
        forall|j: int| 0 <= j < old_items.len() ==> #[trigger] old_items[j].ingredient_name@ != item.ingredient_name@,
{
    let name = item.ingredient_name@;
    old_items.insert_ensures(p, item);
    assert forall|j: int| p <= j < old_items.len() implies name_less(name, #[trigger] old_items[j].ingredient_name@) by {
        let np = old_items[p].ingredient_name@;
        lemma_name_less_total(np, name);
        if j > p {
            lemma_name_less_transitive(name, np, old_items[j].ingredient_name@);
        }
    }
    assert forall|j: int| 0 <= j < old_items.len() implies #[trigger] old_items[j].ingredient_name@ != name by {
        lemma_name_less_irreflexive(name);
    }
    assert forall|i: int, j: int| 0 <= i < j < items.len() implies name_less(
        #[trigger] items[i].ingredient_name@, #[trigger] items[j].ingredient_name@) by {
        if j < p {
            assert(items[i] == old_items[i]);
            assert(items[j] == old_items[j]);
        } else if j == p {
            assert(items[i] == old_items[i]);
        } else if i < p {
            assert(items[i] == old_items[i]);
            assert(items[j] == old_items[j - 1]);
            if j - 1 != p {
                assert(name_less(old_items[i].ingredient_name@, old_items[j - 1].ingredient_name@));
            }
        } else if i == p {
            assert(items[j] == old_items[j - 1]);
        } else {
            assert(items[i] == old_items[i - 1]);
            assert(items[j] == old_items[j - 1]);
        }
    }
}

/// Inserting an item for the row at `k`, whose name the list does not hold,
/// keeps the list a shopping list of the rows up to `k`.
proof fn lemma_insert_step(rows: Seq<QuantityRow>, k: int, old_items: Seq<ShoppingListItem>, items: Seq<ShoppingListItem>, p: int, item: ShoppingListItem)
    requires
        0 <= k < rows.len(),
        is_shopping_list(rows.take(k), old_items),
        0 <= p <= old_items.len(),
        forall|j: int| 0 <= j < p ==> name_less(#[trigger] old_items[j].ingredient_name@, rows[k].0@),
        p < old_items.len() ==> !name_less(old_items[p].ingredient_name@, rows[k].0@)
            && old_items[p].ingredient_name@ != rows[k].0@,
        item.ingredient_name@ == rows[k].0@,
        item.combined_quantity@ == rows[k].1@,
        items == old_items.insert(p, item),
    ensures
        is_shopping_list(rows.take(k + 1), items),
{
    let rk = rows.take(k);
    let rk1 = rows.take(k + 1);
    lemma_take_next(rows, k);
    lemma_insert_sorted(old_items, items, p, item);
    old_items.insert_ensures(p, item);
    lemma_insert_quantities(rows, k, old_items, items, p, item);
    lemma_insert_cover(rows, k, old_items, items, p, item);
}

proof fn lemma_insert_cover(rows: Seq<QuantityRow>, k: int, old_items: Seq<ShoppingListItem>, items: Seq<ShoppingListItem>, p: int, item: ShoppingListItem)
    requires
        0 <= k < rows.len(),
        items_from_rows(rows.take(k), old_items),
        rows_in_items(rows.take(k), old_items),
        0 <= p <= old_items.len(),
        item.ingredient_name@ == rows[k].0@,
        items == old_items.insert(p, item),
    ensures
        items_from_rows(rows.take(k + 1), items),
        rows_in_items(rows.take(k + 1), items),
{
    let rk = rows.take(k);
    let rk1 = rows.take(k + 1);
    lemma_take_next(rows, k);
    old_items.insert_ensures(p, item);
    assert(items_from_rows(rk1, items)) by {
        assert forall|i: int| 0 <= i < items.len() implies exists|kk: int|
            0 <= kk < rk1.len() && #[trigger] rk1[kk].0@ == (#[trigger] items[i]).ingredient_name@ by {
            if i == p {
                assert(rk1[k].0@ == items[i].ingredient_name@);
            } else {
                let oi = if i < p { i } else { i - 1 };
                assert(items[i] == old_items[oi]);
                let kk = choose|kk: int| 0 <= kk < rk.len() && #[trigger] rk[kk].0@ == old_items[oi].ingredient_name@;
                assert(rk1[kk] == rk[kk]);
            }
        }
    }
    assert(rows_in_items(rk1, items)) by {
        assert forall|kk: int| 0 <= kk < rk1.len() implies exists|i: int|
            0 <= i < items.len() && (#[trigger] items[i]).ingredient_name@ == (#[trigger] rk1[kk]).0@ by {
            if kk < k {
                assert(rk1[kk] == rk[kk]);
                let oi = choose|oi: int| 0 <= oi < old_items.len() && (#[trigger] old_items[oi]).ingredient_name@ == rk[kk].0@;
                if oi < p {
                    assert(items[oi] == old_items[oi]);
                } else {
                    assert(items[oi + 1] == old_items[oi]);
                }
            } else {
                assert(items[p].ingredient_name@ == rk1[kk].0@);
            }
        }
    }
}

proof fn lemma_insert_quantities(rows: Seq<QuantityRow>, k: int, old_items: Seq<ShoppingListItem>, items: Seq<ShoppingListItem>, p: int, item: ShoppingListItem)
    requires
        0 <= k < rows.len(),
        rows_in_items(rows.take(k), old_items),
        quantities_joined(rows.take(k), old_items),
        0 <= p <= old_items.len(),
        forall|j: int| 0 <= j < old_items.len() ==> #[trigger] old_items[j].ingredient_name@ != item.ingredient_name@,
        item.ingredient_name@ == rows[k].0@,
        item.combined_quantity@ == rows[k].1@,
        items == old_items.insert(p, item),
    ensures
        quantities_joined(rows.take(k + 1), items),
{
    let rk = rows.take(k);
    let rk1 = rows.take(k + 1);
    let name = rows[k].0@;
    old_items.insert_ensures(p, item);
    assert forall|kk: int| 0 <= kk < rk.len() implies (#[trigger] rk[kk]).0@ != name by {
        if rk[kk].0@ == name {
            let i = choose|i: int| 0 <= i < old_items.len() && (#[trigger] old_items[i]).ingredient_name@ == rk[kk].0@;
            assert(old_items[i].ingredient_name@ != name);
        }
    }
    lemma_quantities_absent(rk, name);
    assert forall|i: int| 0 <= i < items.len() implies (#[trigger] items[i]).combined_quantity@
        == joined_quantities(quantities_for(rk1, items[i].ingredient_name@)) by {
        lemma_quantities_step(rows, k, items[i].ingredient_name@);
        if i == p {
            lemma_joined_push(quantities_for(rk, name), rows[k].1@);
        } else if i < p {
            assert(items[i] == old_items[i]);
        } else {
            assert(items[i] == old_items[i - 1]);
        }
    }
}

proof fn lemma_quantities_witness(rows: Seq<QuantityRow>, name: Seq<char>)
    requires
        quantities_for(rows, name).len() > 0,
    ensures
        exists|k: int| 0 <= k < rows.len() && #[trigger] rows[k].0@ == name,
{
    if !exists|k: int| 0 <= k < rows.len() && #[trigger] rows[k].0@ == name {
        lemma_quantities_absent(rows, name);
    }
}

/// Names in strictly increasing order.
pub open spec fn strictly_sorted(x: Seq<Seq<char>>) -> bool {
    forall|i: int, j: int| 0 <= i < j < x.len() ==> name_less(#[trigger] x[i], #[trigger] x[j])
}

/// Two strictly sorted sequences of the same names agree below `d`.
proof fn lemma_sorted_prefix(x: Seq<Seq<char>>, y: Seq<Seq<char>>, d: int)
    requires
        strictly_sorted(x),
        strictly_sorted(y),
        forall|i: int| 0 <= i < x.len() ==> y.contains(#[trigger] x[i]),
        forall|j: int| 0 <= j < y.len() ==> x.contains(#[trigger] y[j]),
        0 <= d <= x.len(),
        d <= y.len(),
    ensures
        forall|i: int| 0 <= i < d ==> #[trigger] x[i] == y[i],
    decreases d,
{
    if d > 0 {
        let k = d - 1;
        lemma_sorted_prefix(x, y, k);
        assert(y.contains(x[k]));
        assert(x.contains(y[k]));
        let j = choose|j: int| 0 <= j < y.len() && y[j] == x[k];
        let i = choose|i: int| 0 <= i < x.len() && x[i] == y[k];
        if x[k] != y[k] {
            lemma_name_less_irreflexive(x[k]);
            lemma_name_less_irreflexive(y[k]);
            lemma_name_less_total(x[k], y[k]);
            if j < k {
                assert(x[j] == y[j]);
                assert(name_less(x[j], x[k]));
            } else if i < k {
                assert(x[i] == y[i]);
                assert(name_less(y[i], y[k]));
            } else {
                assert(name_less(y[k], y[j]));
                assert(name_less(x[k], x[i]));
            }
        }
    }
}

/// Names sorted strictly, with the same names, are the same sequence.
proof fn lemma_sorted_names_equal(x: Seq<Seq<char>>, y: Seq<Seq<char>>)
    requires
        strictly_sorted(x),
        strictly_sorted(y),
        forall|i: int| 0 <= i < x.len() ==> y.contains(#[trigger] x[i]),
        forall|j: int| 0 <= j < y.len() ==> x.contains(#[trigger] y[j]),
    ensures
        x == y,
{
    if x.len() > y.len() {
        let m = y.len() as int;
        lemma_sorted_prefix(x, y, m);
        assert(y.contains(x[m]));
        let j = choose|j: int| 0 <= j < y.len() && y[j] == x[m];
        assert(x[j] == y[j]);
        assert(name_less(x[j], x[m]));
        lemma_name_less_irreflexive(x[m]);
    } else if y.len() > x.len() {
        let m = x.len() as int;
        lemma_sorted_prefix(x, y, m);
        assert(x.contains(y[m]));
        let i = choose|i: int| 0 <= i < x.len() && x[i] == y[m];
        assert(x[i] == y[i]);
        assert(name_less(y[i], y[m]));
        lemma_name_less_irreflexive(y[m]);
    } else {
        lemma_sorted_prefix(x, y, x.len() as int);
        assert(x =~= y);
    }
}

/// The names of the items, in order.
pub open spec fn item_names(items: Seq<ShoppingListItem>) -> Seq<Seq<char>> {
    items.map_values(|t: ShoppingListItem| t.ingredient_name@)
}

/// Every name of `a`'s items is the name of an item of `b`, when both are
/// shopping lists of rows that give the same quantities for every name.
proof fn lemma_names_covered(rows1: Seq<QuantityRow>, rows2: Seq<QuantityRow>, a: Seq<ShoppingListItem>, b: Seq<ShoppingListItem>)
    requires
        items_from_rows(rows1, a),
        rows_in_items(rows2, b),
        forall|name: Seq<char>| #[trigger] quantities_for(rows1, name) == quantities_for(rows2, name),
    ensures
        forall|i: int| 0 <= i < a.len() ==> item_names(b).contains(#[trigger] item_names(a)[i]),
{
    assert forall|i: int| 0 <= i < a.len() implies item_names(b).contains(#[trigger] item_names(a)[i]) by {
        let name = a[i].ingredient_name@;
        let k = choose|k: int| 0 <= k < rows1.len() && #[trigger] rows1[k].0@ == (#[trigger] a[i]).ingredient_name@;
        lemma_quantities_present(rows1, name, k);
        assert(quantities_for(rows2, name) == quantities_for(rows1, name));
        lemma_quantities_witness(rows2, name);
        let k2 = choose|k2: int| 0 <= k2 < rows2.len() && #[trigger] rows2[k2].0@ == name;
        let j = choose|j: int| 0 <= j < b.len() && (#[trigger] b[j]).ingredient_name@ == (#[trigger] rows2[k2]).0@;
        assert(item_names(b)[j] == name);
    }
}

/// The shopping list depends only on the quantities that the rows give for
/// each name: rows that agree on those, however rows of different names are
/// interleaved, have the same list, name by name and quantity by quantity.
pub proof fn lemma_shopping_list_determined(rows1: Seq<QuantityRow>, rows2: Seq<QuantityRow>, a: Seq<ShoppingListItem>, b: Seq<ShoppingListItem>)
    requires
        is_shopping_list(rows1, a),
        is_shopping_list(rows2, b),
        forall|name: Seq<char>| #[trigger] quantities_for(rows1, name) == quantities_for(rows2, name),
    ensures
        a.len() == b.len(),
        forall|i: int| 0 <= i < a.len() ==> (#[trigger] a[i]).ingredient_name@ == b[i].ingredient_name@
            && a[i].combined_quantity@ == b[i].combined_quantity@,
{
    let x = item_names(a);
    let y = item_names(b);
    lemma_names_covered(rows1, rows2, a, b);
    lemma_names_covered(rows2, rows1, b, a);
    assert(strictly_sorted(x)) by {
        assert forall|i: int, j: int| 0 <= i < j < x.len() implies name_less(#[trigger] x[i], #[trigger] x[j]) by {
            assert(name_less(a[i].ingredient_name@, a[j].ingredient_name@));
        }
    }
    assert(strictly_sorted(y)) by {
        assert forall|i: int, j: int| 0 <= i < j < y.len() implies name_less(#[trigger] y[i], #[trigger] y[j]) by {
            assert(name_less(b[i].ingredient_name@, b[j].ingredient_name@));
        }
    }
    lemma_sorted_names_equal(x, y);
    assert forall|i: int| 0 <= i < a.len() implies (#[trigger] a[i]).ingredient_name@ == b[i].ingredient_name@
        && a[i].combined_quantity@ == b[i].combined_quantity@ by {
        assert(x[i] == y[i]);
        assert(quantities_for(rows1, x[i]) == quantities_for(rows2, x[i]));
    }
}

/// The first position whose name does not come before `name`.
fn first_not_before(items: &Vec<ShoppingListItem>, name: &String) -> (p: usize)
    ensures
        p <= items@.len(),
        forall|j: int| 0 <= j < p ==> name_less(#[trigger] items@[j].ingredient_name@, name@),
        p < items@.len() ==> !name_less(items@[p as int].ingredient_name@, name@),
{
    let mut p: usize = 0;
    let mut done = false;
    while !done && p < items.len()
        invariant
            p <= items@.len(),
            forall|j: int| 0 <= j < p ==> name_less(#[trigger] items@[j].ingredient_name@, name@),
            done ==> p < items@.len() && !name_less(items@[p as int].ingredient_name@, name@),
        decreases (items@.len() - p) * 2 + (if done {
            0int
        } else {
            1int
        }),
    {
        if name_precedes(&items[p].ingredient_name, name) {
            p = p + 1;
        } else {
            done = true;
        }
    }
    p
}

/// Gathers the rows into a shopping list: one item per ingredient name,
/// sorted by name, whose quantity joins that name's quantities with `" + "` in
/// the order of the rows.
pub fn combine_shopping_list(rows: &Vec<QuantityRow>) -> (r: Vec<ShoppingListItem>)
    ensures
        is_shopping_list(rows@, r@),
{
    let mut items: Vec<ShoppingListItem> = Vec::new();
    let mut k: usize = 0;
    while k < rows.len()
        invariant
            k <= rows@.len(),
            is_shopping_list(rows@.take(k as int), items@),
        decreases rows.len() - k,
    {
        let name = &rows[k].0;
        let quantity = &rows[k].1;
        let ghost old_items = items@;
        let p = first_not_before(&items, name);
        if p < items.len() && items[p].ingredient_name == *name {
            let mut combined = items[p].combined_quantity.clone();
            push_text(&mut combined, " + ");
            combined.append(quantity.as_str());
            let item_name = items[p].ingredient_name.clone();
            items.set(p, ShoppingListItem { ingredient_name: item_name, combined_quantity: combined });
            proof {
                lemma_merge_step(rows@, k as int, old_items, items@, p as int);
            }
        } else {
            let item = ShoppingListItem { ingredient_name: name.clone(), combined_quantity: quantity.clone() };
            items.insert(p, item);
            proof {
                lemma_insert_step(rows@, k as int, old_items, items@, p as int, item);
            }
        }
        k = k + 1;
    }
    assert(rows@.take(rows@.len() as int) =~= rows@);
    items
}

} // verus!
