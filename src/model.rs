//! A model of the store that recipes are written to, and what a writer does to
//! it. Tables grow only, and a row's id is its position plus one. Over this
//! model, writing a recipe and reading it back gives the recipe, and a catalog
//! name is never stored twice.
use crate::draft::RecipeContext;
use crate::persist::{NewRecipe, stores_draft};
use crate::screen::opt_view;
use crate::writer::{
    StoreCommand, StoreReply, WritePhase, WriteStep, next_ingredient, ref_ids, writer_next,
    writer_next_id,
};
use vstd::prelude::*;

verus! {

/// A link row: recipe, catalog row, quantity and notes.
pub struct LinkRow {
    pub recipe_id: int,
    pub ingredient_id: int,
    pub quantity_unit: Seq<char>,
    pub notes: Option<Seq<char>>,
}

/// The three tables: catalog names, recipe rows (name and instructions) and
/// link rows.
pub struct StoreModel {
    pub ingredients: Seq<Seq<char>>,
    pub recipes: Seq<(Seq<char>, Option<Seq<char>>)>,
    pub links: Seq<LinkRow>,
}

/// The position of a catalog row of this name, if there is one.
pub open spec fn name_index(names: Seq<Seq<char>>, name: Seq<char>) -> Option<int> {
    if exists|j: int| 0 <= j < names.len() && names[j] == name {
        Some(choose|j: int| 0 <= j < names.len() && names[j] == name)
    } else {
        None
    }
}

/// No catalog name appears twice.
pub open spec fn unique_names(names: Seq<Seq<char>>) -> bool {
    forall|i: int, j: int| 0 <= i < names.len() && 0 <= j < names.len() && i != j ==> names[i] != names[j]
}

/// The number of catalog rows of this name.
pub open spec fn name_count(names: Seq<Seq<char>>, name: Seq<char>) -> nat
    decreases names.len(),
{
    if names.len() == 0 {
        0
    } else {
        name_count(names.drop_last(), name) + if names.last() == name {
            1nat
        } else {
            0nat
        }
    }
}

/// Every link names an existing recipe and an existing catalog row.
pub open spec fn store_valid(s: StoreModel) -> bool {
    forall|k: int|
        0 <= k < s.links.len() ==> 1 <= (#[trigger] s.links[k]).ingredient_id <= s.ingredients.len()
            && 1 <= s.links[k].recipe_id <= s.recipes.len()
}

/// Every id that the recipe carries names a catalog row of the ingredient's
/// name.
pub open spec fn ids_consistent(s: StoreModel, r: NewRecipe) -> bool {
    forall|k: int|
        0 <= k < r.ingredients@.len() ==> match (#[trigger] r.ingredients@[k]).ingredient_id {
            Some(x) => 1 <= x <= s.ingredients.len() && s.ingredients[x - 1] == r.ingredients@[k].ingredient_name@,
            None => true,
        }
}

/// The ids that writing the recipe hands out stay within `i64`.
pub open spec fn ids_fit(s: StoreModel, r: NewRecipe) -> bool {
    &&& s.recipes.len() + 1 < i64::MAX
    &&& s.ingredients.len() + r.ingredients@.len() < i64::MAX
}

/// What the store does on a command of a writer of `r`, and its reply.
pub open spec fn store_apply(s: StoreModel, r: NewRecipe, cmd: StoreCommand) -> (StoreModel, StoreReply) {
    match cmd {
        StoreCommand::InsertRecipe => (
            StoreModel {
                ingredients: s.ingredients,
                recipes: s.recipes.push((r.name@, opt_view(r.instructions))),
                links: s.links,
            },
            StoreReply::Inserted((s.recipes.len() + 1) as i64),
        ),
        StoreCommand::FindIngredient(i) => (
            s,
            StoreReply::Found(
                match name_index(s.ingredients, r.ingredients@[i as int].ingredient_name@) {
                    Some(j) => Some((j + 1) as i64),
                    None => None,
                },
            ),
        ),
        StoreCommand::CreateIngredient(i) => if name_index(
            s.ingredients,
            r.ingredients@[i as int].ingredient_name@,
        ) is Some {
            (s, StoreReply::Failed)
        } else {
            (
                StoreModel {
                    ingredients: s.ingredients.push(r.ingredients@[i as int].ingredient_name@),
                    recipes: s.recipes,
                    links: s.links,
                },
                StoreReply::Inserted((s.ingredients.len() + 1) as i64),
            )
        },
        StoreCommand::InsertLink { recipe_id, ingredient_id, position } => (
            StoreModel {
                ingredients: s.ingredients,
                recipes: s.recipes,
                links: s.links.push(
                    LinkRow {
                        recipe_id: recipe_id as int,
                        ingredient_id: ingredient_id as int,
                        quantity_unit: r.ingredients@[position as int].quantity_unit@,
                        notes: opt_view(r.ingredients@[position as int].notes),
                    },
                ),
            },
            StoreReply::Done,
        ),
        _ => (s, StoreReply::Done),
    }
}

/// Runs a writer of `r` against the store for at most `fuel` commands, from
/// `phase` with the pending `step`; the store and the last step.
pub open spec fn run_writer(s: StoreModel, r: NewRecipe, phase: WritePhase, recipe_id: i64, step: WriteStep, fuel: nat) -> (StoreModel, WriteStep)
    decreases fuel,
{
    match step {
        WriteStep::Run(cmd) => if fuel == 0 {
            (s, step)
        } else {
            let (s2, reply) = store_apply(s, r, cmd);
            let (phase2, step2) = writer_next(ref_ids(r), phase, recipe_id, reply);
            run_writer(s2, r, phase2, writer_next_id(phase, recipe_id, reply), step2, (fuel - 1) as nat)
        },
        _ => (s, step),
    }
}

/// Writing `r` from a new writer, with enough commands for every ingredient.
pub open spec fn write_recipe(s: StoreModel, r: NewRecipe) -> (StoreModel, WriteStep) {
    run_writer(
        s,
        r,
        WritePhase::Beginning,
        0,
        WriteStep::Run(StoreCommand::BeginTransaction),
        3 * r.ingredients@.len() + 3,
    )
}

/// The links of one recipe, in link order.
pub open spec fn links_of(links: Seq<LinkRow>, recipe_id: int) -> Seq<LinkRow>
    decreases links.len(),
{
    if links.len() == 0 {
        Seq::empty()
    } else {
        let before = links_of(links.drop_last(), recipe_id);
        if links.last().recipe_id == recipe_id {
            before.push(links.last())
        } else {
            before
        }
    }
}

/// The `k`-th link that reading the recipe `recipe_id` back gives is the
/// `k`-th ingredient of `r`: same catalog name, quantity and notes, and the
/// same catalog row where `r` gave one.
pub open spec fn link_matches(s: StoreModel, recipe_id: int, r: NewRecipe, k: int) -> bool {
    let l = links_of(s.links, recipe_id)[k];
    let x = r.ingredients@[k];
    &&& 1 <= l.ingredient_id <= s.ingredients.len()
    &&& s.ingredients[l.ingredient_id - 1] == x.ingredient_name@
    &&& l.quantity_unit == x.quantity_unit@
    &&& l.notes == opt_view(x.notes)
    &&& x.ingredient_id matches Some(id) ==> l.ingredient_id == id
}

proof fn lemma_links_of_absent(links: Seq<LinkRow>, recipe_id: int)
    requires
        forall|k: int| 0 <= k < links.len() ==> (#[trigger] links[k]).recipe_id != recipe_id,
    ensures
        links_of(links, recipe_id).len() == 0,
    decreases links.len(),
{
    if links.len() > 0 {
        lemma_links_of_absent(links.drop_last(), recipe_id);
    }
}

proof fn lemma_links_of_push(links: Seq<LinkRow>, l: LinkRow, recipe_id: int)
    ensures
        links_of(links.push(l), recipe_id) == if l.recipe_id == recipe_id {
            links_of(links, recipe_id).push(l)
        } else {
            links_of(links, recipe_id)
        },
{
    assert(links.push(l).drop_last() =~= links);
}

/// The facts that hold while a writer of `r` links its ingredients from
/// position `i` on, over the store `s`.
pub open spec fn linking_from(s0: StoreModel, s: StoreModel, r: NewRecipe, recipe_id: i64, i: int) -> bool {
    &&& 0 <= i <= r.ingredients@.len()
    &&& store_valid(s)
    &&& unique_names(s.ingredients)
    &&& recipe_id == s.recipes.len()
    &&& s.recipes == s0.recipes.push(s.recipes.last())
    &&& s.ingredients.len() >= s0.ingredients.len()
    &&& forall|j: int| 0 <= j < s0.ingredients.len() ==> s.ingredients[j] == s0.ingredients[j]
    &&& ids_consistent(s0, r)
    &&& s0.ingredients.len() + r.ingredients@.len() < i64::MAX
    &&& s.ingredients.len() <= s0.ingredients.len() + i
    &&& links_of(s.links, recipe_id as int).len() == i
    &&& forall|k: int| 0 <= k < i ==> link_matches(s, recipe_id as int, r, k)
}

/// From position `i`, the writer links the remaining ingredients and commits.
proof fn lemma_linking(s0: StoreModel, s: StoreModel, r: NewRecipe, recipe_id: i64, i: int, fuel: nat)
    requires
        linking_from(s0, s, r, recipe_id, i),
        fuel >= 3 * (r.ingredients@.len() - i) + 1,
    ensures
        ({
            let (ph, st) = next_ingredient(ref_ids(r), recipe_id, i);
            let (s2, out) = run_writer(s, r, ph, recipe_id, st, fuel);
            &&& out == WriteStep::Committed(recipe_id)
            &&& linking_from(s0, s2, r, recipe_id, r.ingredients@.len() as int)
            &&& s2.recipes == s.recipes
        }),
    decreases r.ingredients@.len() - i,
{
    let n = r.ingredients@.len() as int;
    let ids = ref_ids(r);
    let (ph, st) = next_ingredient(ids, recipe_id, i);
    if i >= n {
        let (s1, reply) = store_apply(s, r, StoreCommand::Commit);
        assert(s1 == s && reply == StoreReply::Done);
        assert(run_writer(s, r, ph, recipe_id, st, fuel) == run_writer(
            s,
            r,
            WritePhase::Committed(recipe_id),
            recipe_id,
            WriteStep::Committed(recipe_id),
            (fuel - 1) as nat,
        ));
        return;
    }
    let x = r.ingredients@[i];
    let name = x.ingredient_name@;
    // the catalog row that the link will name, and the store just before the link
    let (pre, row) = match x.ingredient_id {
        Some(id) => (s, id as int),
        None => match name_index(s.ingredients, name) {
            Some(j) => (s, j + 1),
            None => (
                StoreModel { ingredients: s.ingredients.push(name), recipes: s.recipes, links: s.links },
                s.ingredients.len() + 1 as int,
            ),
        },
    };
    let l = LinkRow {
        recipe_id: recipe_id as int,
        ingredient_id: row,
        quantity_unit: x.quantity_unit@,
        notes: opt_view(x.notes),
    };
    let post = StoreModel { ingredients: pre.ingredients, recipes: pre.recipes, links: pre.links.push(l) };
    let link_cmd = StoreCommand::InsertLink { recipe_id, ingredient_id: row as i64, position: i as usize };
    let (ph2, st2) = next_ingredient(ids, recipe_id, i + 1);
    // how many commands the ingredient takes
    let used: nat = match x.ingredient_id {
        Some(_) => 1,
        None => if name_index(s.ingredients, name) is Some {
            2
        } else {
            3
        },
    };
    assert(ids[i] == x.ingredient_id);
    assert(r.ingredients@.len() == r.ingredients.len() as int);
    assert(1 <= row <= pre.ingredients.len()) by {
        if let Some(id) = x.ingredient_id {
            assert(ids_consistent(s0, r));
            assert(r.ingredients@[i] == x);
        }
    }
    assert(pre.ingredients[row - 1] == name) by {
        if let Some(id) = x.ingredient_id {
            assert(ids_consistent(s0, r));
            assert(r.ingredients@[i] == x);
            assert(s.ingredients[row - 1] == s0.ingredients[row - 1]);
        }
    }
    assert((row as i64) as int == row);
    assert((i as usize) as int == i);
    assert(store_apply(pre, r, link_cmd) == (post, StoreReply::Done));
    assert(writer_next(ids, WritePhase::Linking(i as usize), recipe_id, StoreReply::Done) == (ph2, st2));
    assert(writer_next_id(WritePhase::Linking(i as usize), recipe_id, StoreReply::Done) == recipe_id);
    assert(run_writer(pre, r, WritePhase::Linking(i as usize), recipe_id, WriteStep::Run(link_cmd), (fuel - used + 1) as nat)
        == run_writer(post, r, ph2, recipe_id, st2, (fuel - used) as nat));
    match x.ingredient_id {
        Some(id) => {
            assert(row == id);
            assert(st == WriteStep::Run(link_cmd));
            assert(ph == WritePhase::Linking(i as usize));
        },
        None => {
            let find = StoreCommand::FindIngredient(i as usize);
            assert(st == WriteStep::Run(find));
            match name_index(s.ingredients, name) {
                Some(j) => {
                    assert(store_apply(s, r, find) == (s, StoreReply::Found(Some((j + 1) as i64))));
                    assert(writer_next(ids, WritePhase::Finding(i as usize), recipe_id, StoreReply::Found(Some((j + 1) as i64)))
                        == (WritePhase::Linking(i as usize), WriteStep::Run(link_cmd)));
                    assert(run_writer(s, r, ph, recipe_id, st, fuel) == run_writer(
                        pre, r, WritePhase::Linking(i as usize), recipe_id, WriteStep::Run(link_cmd), (fuel - 1) as nat));
                },
                None => {
                    let create = StoreCommand::CreateIngredient(i as usize);
                    assert(store_apply(s, r, find) == (s, StoreReply::Found(None)));
                    assert(run_writer(s, r, ph, recipe_id, st, fuel) == run_writer(
                        s, r, WritePhase::Creating(i as usize), recipe_id, WriteStep::Run(create), (fuel - 1) as nat));
                    assert(store_apply(s, r, create) == (pre, StoreReply::Inserted(row as i64)));
                    assert(run_writer(s, r, WritePhase::Creating(i as usize), recipe_id, WriteStep::Run(create), (fuel - 2) as nat)
                        == run_writer(pre, r, WritePhase::Linking(i as usize), recipe_id, WriteStep::Run(link_cmd), (fuel - 3) as nat));
                    assert forall|a: int, b: int| 0 <= a < pre.ingredients.len() && 0 <= b < pre.ingredients.len() && a != b
                        implies pre.ingredients[a] != pre.ingredients[b] by {
                        if a == s.ingredients.len() as int && pre.ingredients[a] == pre.ingredients[b] {
                            assert(s.ingredients[b] == name);
                        }
                        if b == s.ingredients.len() as int && pre.ingredients[a] == pre.ingredients[b] {
                            assert(s.ingredients[a] == name);
                        }
                    }
                },
            }
        },
    }
    assert(run_writer(s, r, ph, recipe_id, st, fuel) == run_writer(post, r, ph2, recipe_id, st2, (fuel - used) as nat));
    // the link facts carry over to the grown store
    lemma_links_of_push(pre.links, l, recipe_id as int);
    assert(links_of(post.links, recipe_id as int) == links_of(s.links, recipe_id as int).push(l));
    assert(store_valid(post));
    assert forall|k: int| 0 <= k < i + 1 implies link_matches(post, recipe_id as int, r, k) by {
        if k < i {
            assert(link_matches(s, recipe_id as int, r, k));
            assert(links_of(post.links, recipe_id as int)[k] == links_of(s.links, recipe_id as int)[k]);
        }
    }
    assert(linking_from(s0, post, r, recipe_id, i + 1));
    lemma_linking(s0, post, r, recipe_id, i + 1, (fuel - used) as nat);
}

/// Writing a recipe into a valid store commits it under the next recipe id,
/// and reading that recipe back gives its name, its instructions, and its
/// ingredients in order with their names, quantities and notes (and their
/// catalog rows where the recipe named them). The store stays valid and free
/// of repeated catalog names, and every ingredient's name is in the catalog.
pub proof fn lemma_write_then_read(s: StoreModel, r: NewRecipe)
    requires
        store_valid(s),
        unique_names(s.ingredients),
        ids_consistent(s, r),
        ids_fit(s, r),
    ensures
        ({
            let (s2, out) = write_recipe(s, r);
            let id = s.recipes.len() + 1 as int;
            &&& out == WriteStep::Committed(id as i64)
            &&& s2.recipes.len() == id
            &&& s2.recipes[id - 1] == (r.name@, opt_view(r.instructions))
            &&& links_of(s2.links, id).len() == r.ingredients@.len()
            &&& forall|k: int| 0 <= k < r.ingredients@.len() ==> link_matches(s2, id, r, k)
            &&& store_valid(s2)
            &&& unique_names(s2.ingredients)
            &&& forall|j: int| 0 <= j < s.ingredients.len() ==> s2.ingredients[j] == s.ingredients[j]
            &&& s.ingredients.len() <= s2.ingredients.len() <= s.ingredients.len() + r.ingredients@.len()
        }),
{
    let id = (s.recipes.len() + 1) as i64;
    let ids = ref_ids(r);
    let fuel = 3 * r.ingredients@.len() + 3;
    let s1 = StoreModel {
        ingredients: s.ingredients,
        recipes: s.recipes.push((r.name@, opt_view(r.instructions))),
        links: s.links,
    };
    let (ph, st) = next_ingredient(ids, id, 0);
    assert(store_apply(s, r, StoreCommand::BeginTransaction) == (s, StoreReply::Done));
    assert(write_recipe(s, r) == run_writer(
        s, r, WritePhase::InsertingRecipe, 0, WriteStep::Run(StoreCommand::InsertRecipe), (fuel - 1) as nat));
    assert(store_apply(s, r, StoreCommand::InsertRecipe) == (s1, StoreReply::Inserted(id)));
    assert(writer_next_id(WritePhase::InsertingRecipe, 0, StoreReply::Inserted(id)) == id);
    assert(write_recipe(s, r) == run_writer(s1, r, ph, id, st, (fuel - 2) as nat));
    assert forall|k: int| 0 <= k < s1.links.len() implies (#[trigger] s1.links[k]).recipe_id != id by {
        assert(store_valid(s));
    }
    lemma_links_of_absent(s1.links, id as int);
    assert(s1.recipes == s.recipes.push(s1.recipes.last()));
    assert(linking_from(s, s1, r, id, 0));
    lemma_linking(s, s1, r, id, 0, (fuel - 2) as nat);
}

/// Storing a finished draft keeps an ingredient's notes absent exactly when
/// they were entered empty, and the instructions absent exactly when no step
/// was entered.
pub proof fn lemma_draft_absent_texts(s: StoreModel, ctx: RecipeContext, r: NewRecipe)
    requires
        stores_draft(ctx, r),
        store_valid(s),
        unique_names(s.ingredients),
        ids_consistent(s, r),
        ids_fit(s, r),
    ensures
        ({
            let s2 = write_recipe(s, r).0;
            let id = s.recipes.len() + 1 as int;
            &&& links_of(s2.links, id).len() == ctx.entries().len()
            &&& forall|k: int| 0 <= k < ctx.entries().len() ==> ((#[trigger] links_of(s2.links, id)[k]).notes is None
                <==> ctx.entries()[k].3.len() == 0)
            &&& (s2.recipes[id - 1].1 is None <==> ctx.instructions@.len() == 0)
        }),
{
    lemma_write_then_read(s, r);
    let s2 = write_recipe(s, r).0;
    let id = s.recipes.len() + 1 as int;
    assert forall|k: int| 0 <= k < ctx.entries().len() implies ((#[trigger] links_of(s2.links, id)[k]).notes is None
        <==> ctx.entries()[k].3.len() == 0) by {
        assert(link_matches(s2, id, r, k));
        assert(crate::persist::ref_of_entry(r.ingredients@[k], ctx.entries()[k]));
    }
}

proof fn lemma_count_absent(names: Seq<Seq<char>>, name: Seq<char>)
    requires
        forall|j: int| 0 <= j < names.len() ==> names[j] != name,
    ensures
        name_count(names, name) == 0,
    decreases names.len(),
{
    if names.len() > 0 {
        lemma_count_absent(names.drop_last(), name);
    }
}

/// In a catalog without repeated names, a name that is present is counted
/// once.
proof fn lemma_count_unique(names: Seq<Seq<char>>, name: Seq<char>, j: int)
    requires
        unique_names(names),
        0 <= j < names.len(),
        names[j] == name,
    ensures
        name_count(names, name) == 1,
    decreases names.len(),
{
    let d = names.drop_last();
    if j == names.len() - 1 {
        assert forall|k: int| 0 <= k < d.len() implies d[k] != name by {
            assert(names[k] != names[j]);
        }
        lemma_count_absent(d, name);
    } else {
        assert(names.last() != name) by {
            assert(names[names.len() - 1] != names[j]);
        }
        lemma_count_unique(d, name, j);
    }
}

/// Writing, one after the other, two recipes that share an ingredient name
/// leaves exactly one catalog row of that name.
pub proof fn lemma_shared_ingredient_stored_once(s: StoreModel, r1: NewRecipe, r2: NewRecipe, k1: int, k2: int)
    requires
        store_valid(s),
        unique_names(s.ingredients),
        ids_consistent(s, r1),
        ids_consistent(s, r2),
        s.recipes.len() + 2 < i64::MAX,
        s.ingredients.len() + r1.ingredients@.len() + r2.ingredients@.len() < i64::MAX,
        0 <= k1 < r1.ingredients@.len(),
        0 <= k2 < r2.ingredients@.len(),
        r1.ingredients@[k1].ingredient_name@ == r2.ingredients@[k2].ingredient_name@,
    ensures
        ({
            let s1 = write_recipe(s, r1).0;
            let s2 = write_recipe(s1, r2).0;
            name_count(s2.ingredients, r2.ingredients@[k2].ingredient_name@) == 1
        }),
{
    lemma_write_then_read(s, r1);
    let s1 = write_recipe(s, r1).0;
    assert(ids_consistent(s1, r2)) by {
        assert forall|k: int| 0 <= k < r2.ingredients@.len() implies match (#[trigger] r2.ingredients@[k]).ingredient_id {
            Some(x) => 1 <= x <= s1.ingredients.len() && s1.ingredients[x - 1] == r2.ingredients@[k].ingredient_name@,
            None => true,
        } by {
            if let Some(x) = r2.ingredients@[k].ingredient_id {
                assert(s1.ingredients[x - 1] == s.ingredients[x - 1]);
            }
        }
    }
    lemma_write_then_read(s1, r2);
    let s2 = write_recipe(s1, r2).0;
    let id2 = s1.recipes.len() + 1 as int;
    assert(link_matches(s2, id2, r2, k2));
    let l = links_of(s2.links, id2)[k2];
    lemma_count_unique(s2.ingredients, r2.ingredients@[k2].ingredient_name@, l.ingredient_id - 1);
}

} // verus!
