//! Picklist rows: one row of nine text fields per (recipe, item) pair, in
//! the order the recipes and their items arrive from the planning service.

use vstd::prelude::*;

verus! {

use crate::decimal::decimal_digits;
use crate::recipe::Recipe;
use crate::recipe::Sku;

/// The nine fields of the row for one item of a recipe titled `title`: the
/// title, the item's code and name, then its pick counts for serving tiers
/// 1 through 6, in base ten.
pub open spec fn sku_row(title: Seq<char>, sku: Sku) -> Seq<Seq<char>> {
    seq![
        title,
        sku.code@,
        sku.name@,
        decimal_digits(sku.pick_spec(1) as nat),
        decimal_digits(sku.pick_spec(2) as nat),
        decimal_digits(sku.pick_spec(3) as nat),
        decimal_digits(sku.pick_spec(4) as nat),
        decimal_digits(sku.pick_spec(5) as nat),
        decimal_digits(sku.pick_spec(6) as nat),
    ]
}

/// The rows of one recipe: one per item, in item order.
pub open spec fn recipe_rows(r: Recipe) -> Seq<Seq<Seq<char>>> {
    r.skus@.map(|i: int, s: Sku| sku_row(r.title@, s))
}

/// The rows of a whole recipe collection, recipe by recipe, in the order
/// the recipes arrived.
pub open spec fn picklist_rows(rs: Seq<Recipe>) -> Seq<Seq<Seq<char>>>
    decreases rs.len(),
{
    if rs.len() == 0 {
        Seq::empty()
    } else {
        recipe_rows(rs[0]) + picklist_rows(rs.drop_first())
    }
}

/// The nine header fields of every picklist file.
pub open spec fn header_fields() -> Seq<Seq<char>> {
    seq![
        "name"@,
        "skus.mapping.value"@,
        "skus.mapping.name"@,
        "skus.mapping.picks.1"@,
        "skus.mapping.picks.2"@,
        "skus.mapping.picks.3"@,
        "skus.mapping.picks.4"@,
        "skus.mapping.picks.5"@,
        "skus.mapping.picks.6"@,
    ]
}

/// The fixed header row of the output file.
pub fn header() -> (r: Vec<String>)
    ensures
        r.deep_view() == header_fields(),
{
    let mut h: Vec<String> = Vec::new();
    h.push("name".to_owned());
    h.push("skus.mapping.value".to_owned());
    h.push("skus.mapping.name".to_owned());
    h.push("skus.mapping.picks.1".to_owned());
    h.push("skus.mapping.picks.2".to_owned());
    h.push("skus.mapping.picks.3".to_owned());
    h.push("skus.mapping.picks.4".to_owned());
    h.push("skus.mapping.picks.5".to_owned());
    h.push("skus.mapping.picks.6".to_owned());
    proof {
        assert(h.deep_view() =~= header_fields());
    }
    h
}

/// Builds the output row for one item of a recipe titled `title`.
pub fn row_for_sku(title: &String, sku: &Sku) -> (r: Vec<String>)
    requires
        sku.wf(),
    ensures
        r.deep_view() == sku_row(title@, *sku),
{
    let mut row: Vec<String> = Vec::new();
    row.push(title.clone());
    row.push(sku.code.clone());
    row.push(sku.name.clone());
    row.push(sku.picklist(1));
    row.push(sku.picklist(2));
    row.push(sku.picklist(3));
    row.push(sku.picklist(4));
    row.push(sku.picklist(5));
    row.push(sku.picklist(6));
    proof {
        assert(row.deep_view() =~= sku_row(title@, *sku));
    }
    row
}

/// Taking one more recipe appends exactly that recipe's rows.
proof fn lemma_picklist_rows_take_step(rs: Seq<Recipe>, i: int)
    requires
        0 <= i < rs.len(),
    ensures
        picklist_rows(rs.take(i + 1)) == picklist_rows(rs.take(i)) + recipe_rows(rs[i]),
    decreases i,
{
    if i == 0 {
        assert(rs.take(0) =~= Seq::<Recipe>::empty());
        assert(rs.take(1).drop_first() =~= Seq::<Recipe>::empty());
        assert(picklist_rows(rs.take(1)) =~= picklist_rows(rs.take(0)) + recipe_rows(rs[0]));
    } else {
        lemma_picklist_rows_take_step(rs.drop_first(), i - 1);
        assert(rs.take(i + 1).drop_first() =~= rs.drop_first().take(i));
        assert(rs.take(i).drop_first() =~= rs.drop_first().take(i - 1));
        assert(picklist_rows(rs.take(i + 1)) =~= picklist_rows(rs.take(i)) + recipe_rows(rs[i]));
    }
}

/// Expands every recipe into its rows. The row order mirrors the order the
/// recipes arrived, and within a recipe the order of its items.
pub fn build_rows(recipes: &Vec<Recipe>) -> (rows: Vec<Vec<String>>)
    requires
        forall|i: int| 0 <= i < recipes@.len() ==> (#[trigger] recipes@[i]).wf(),
    ensures
        rows.deep_view() == picklist_rows(recipes@),
{
    let mut rows: Vec<Vec<String>> = Vec::new();
    let mut i: usize = 0;
    while i < recipes.len()
        invariant
            i <= recipes@.len(),
            forall|k: int| 0 <= k < recipes@.len() ==> (#[trigger] recipes@[k]).wf(),
            rows.deep_view() == picklist_rows(recipes@.take(i as int)),
        decreases recipes@.len() - i,
    {
        let rec = &recipes[i];
        let mut j: usize = 0;
        while j < rec.skus.len()
            invariant
                i < recipes@.len(),
                j <= rec.skus@.len(),
                *rec == recipes@[i as int],
                forall|k: int| 0 <= k < recipes@.len() ==> (#[trigger] recipes@[k]).wf(),
                rows.deep_view() == picklist_rows(recipes@.take(i as int)) + recipe_rows(
                    recipes@[i as int],
                ).take(j as int),
            decreases rec.skus@.len() - j,
        {
            assert(rec.skus@[j as int].wf());
            let row = row_for_sku(&rec.title, &rec.skus[j]);
            let ghost prev = rows.deep_view();
            let ghost this_row = row.deep_view();
            rows.push(row);
            proof {
                let rec_rows = recipe_rows(recipes@[i as int]);
                assert(rows.deep_view() =~= prev.push(this_row));
                assert(rec_rows[j as int] == sku_row(
                    recipes@[i as int].title@,
                    recipes@[i as int].skus@[j as int],
                ));
                assert(rec_rows.take(j as int + 1) =~= rec_rows.take(j as int).push(
                    rec_rows[j as int],
                ));
                assert(rows.deep_view() =~= picklist_rows(recipes@.take(i as int)) + rec_rows.take(
                    j as int + 1,
                ));
            }
            j += 1;
        }
        proof {
            assert(recipe_rows(recipes@[i as int]).take(rec.skus@.len() as int) =~= recipe_rows(
                recipes@[i as int],
            ));
            lemma_picklist_rows_take_step(recipes@, i as int);
            assert(rows.deep_view() =~= picklist_rows(recipes@.take(i as int + 1)));
        }
        i += 1;
    }
    proof {
        assert(recipes@.take(recipes@.len() as int) =~= recipes@);
    }
    rows
}

/// Row building is a pure function of the recipe collection: the same
/// collection always yields the same row sequence, however often it is
/// built.
pub proof fn lemma_rows_deterministic(a: Seq<Recipe>, b: Seq<Recipe>)
    requires
        a == b,
    ensures
        picklist_rows(a) == picklist_rows(b),
{
}

/// The number of items over a whole recipe collection.
pub open spec fn item_count(rs: Seq<Recipe>) -> int
    decreases rs.len(),
{
    if rs.len() == 0 {
        0
    } else {
        rs[0].skus@.len() + item_count(rs.drop_first())
    }
}

/// A picklist has exactly one row per (recipe, item) pair.
pub proof fn lemma_one_row_per_item(rs: Seq<Recipe>)
    ensures
        picklist_rows(rs).len() == item_count(rs),
    decreases rs.len(),
{
    if rs.len() > 0 {
        lemma_one_row_per_item(rs.drop_first());
    }
}

/// Every row of every picklist has exactly nine fields, matching the
/// nine-column header.
pub proof fn lemma_rows_have_nine_fields(rs: Seq<Recipe>, k: int)
    requires
        0 <= k < picklist_rows(rs).len(),
    ensures
        picklist_rows(rs)[k].len() == 9,
        header_fields().len() == 9,
    decreases rs.len(),
{
    if rs.len() > 0 {
        if k < recipe_rows(rs[0]).len() {
            assert(recipe_rows(rs[0])[k] == sku_row(rs[0].title@, rs[0].skus@[k]));
        } else {
            lemma_rows_have_nine_fields(rs.drop_first(), k - recipe_rows(rs[0]).len());
        }
    }
}

} // verus!
