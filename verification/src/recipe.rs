//! The recipe snapshot, its parts, and the payloads for creating and
//! partially updating a recipe.
//!
//! A partial update carries only the fields to change; `apply_update`
//! states the server's merge rule: fields present in the payload replace
//! the stored ones, omitted fields stay untouched.

use crate::fraction::Fraction;
use vstd::prelude::*;

verus! {

/// One ingredient line of a recipe.
#[derive(Debug, Clone, PartialEq)]
pub struct Ingredient {
    pub name: String,
    pub amount: Fraction,
    pub unit_type: String,
    pub description: Option<String>,
}

/// Mathematical model of an [`Ingredient`].
#[verifier::ext_equal]
pub struct IngredientView {
    pub name: Seq<char>,
    pub amount: Fraction,
    pub unit_type: Seq<char>,
    pub description: Option<Seq<char>>,
}

impl View for Ingredient {
    type V = IngredientView;

    open spec fn view(&self) -> IngredientView {
        IngredientView {
            name: self.name@,
            amount: self.amount,
            unit_type: self.unit_type@,
            description: match self.description {
                Some(ref d) => Some(d@),
                None => None,
            },
        }
    }
}

/// One preparation step; order is significant and is the position in the
/// step list.
#[derive(Debug, Clone, PartialEq)]
pub struct Step {
    pub title: Option<String>,
    pub description: String,
}

/// Mathematical model of a [`Step`].
#[verifier::ext_equal]
pub struct StepView {
    pub title: Option<Seq<char>>,
    pub description: Seq<char>,
}

impl View for Step {
    type V = StepView;

    open spec fn view(&self) -> StepView {
        StepView {
            title: match self.title {
                Some(ref t) => Some(t@),
                None => None,
            },
            description: self.description@,
        }
    }
}

/// How much a recipe yields, in a unit of the user's choosing.
#[derive(Debug, Clone, PartialEq)]
pub struct InfoYields {
    pub value: usize,
    pub unit_type: String,
}

/// Mathematical model of an [`InfoYields`].
#[verifier::ext_equal]
pub struct InfoYieldsView {
    pub value: usize,
    pub unit_type: Seq<char>,
}

impl View for InfoYields {
    type V = InfoYieldsView;

    open spec fn view(&self) -> InfoYieldsView {
        InfoYieldsView { value: self.value, unit_type: self.unit_type@ }
    }
}

/// Serving information of a recipe.
#[derive(Debug, Clone, PartialEq)]
pub struct Info {
    pub yields: Option<InfoYields>,
}

/// Mathematical model of an [`Info`].
#[verifier::ext_equal]
pub struct InfoView {
    pub yields: Option<InfoYieldsView>,
}

impl View for Info {
    type V = InfoView;

    open spec fn view(&self) -> InfoView {
        InfoView {
            yields: match self.yields {
                Some(ref y) => Some(y@),
                None => None,
            },
        }
    }
}

/// The local working snapshot of a recipe, as fetched from the server
/// and mutated field by field after each server write succeeds.
#[derive(Debug, Clone, PartialEq)]
pub struct Recipe {
    pub id: String,
    pub owner_id: String,
    pub title: String,
    pub short_description: Option<String>,
    pub long_description: Option<String>,
    pub tags: Vec<String>,
    pub ingredients: Vec<Ingredient>,
    pub steps: Vec<Step>,
    pub info: Info,
    pub image_id: Option<String>,
}

/// Mathematical model of a [`Recipe`].
#[verifier::ext_equal]
pub struct RecipeView {
    pub id: Seq<char>,
    pub owner_id: Seq<char>,
    pub title: Seq<char>,
    pub short_description: Option<Seq<char>>,
    pub long_description: Option<Seq<char>>,
    pub tags: Seq<Seq<char>>,
    pub ingredients: Seq<IngredientView>,
    pub steps: Seq<StepView>,
    pub info: InfoView,
    pub image_id: Option<Seq<char>>,
}

/// The views of a sequence of strings.
pub open spec fn string_views(v: Seq<String>) -> Seq<Seq<char>> {
    v.map_values(|s: String| s@)
}

/// The views of a sequence of ingredients.
pub open spec fn ingredient_views(v: Seq<Ingredient>) -> Seq<IngredientView> {
    v.map_values(|i: Ingredient| i@)
}

/// The views of a sequence of steps.
pub open spec fn step_views(v: Seq<Step>) -> Seq<StepView> {
    v.map_values(|s: Step| s@)
}

impl View for Recipe {
    type V = RecipeView;

    open spec fn view(&self) -> RecipeView {
        RecipeView {
            id: self.id@,
            owner_id: self.owner_id@,
            title: self.title@,
            short_description: match self.short_description {
                Some(ref d) => Some(d@),
                None => None,
            },
            long_description: match self.long_description {
                Some(ref d) => Some(d@),
                None => None,
            },
            tags: string_views(self.tags@),
            ingredients: ingredient_views(self.ingredients@),
            steps: step_views(self.steps@),
            info: self.info@,
            image_id: match self.image_id {
                Some(ref i) => Some(i@),
                None => None,
            },
        }
    }
}

/// An ingredient line of a recipe-creation payload.
#[derive(Debug, Clone, PartialEq)]
pub struct CreateIngredient {
    pub name: String,
    pub amount: Fraction,
    pub unit_type: String,
    pub description: Option<String>,
}

/// A step of a recipe-creation payload.
#[derive(Debug, Clone, PartialEq)]
pub struct CreateStep {
    pub title: Option<String>,
    pub description: String,
}

/// The payload for creating a recipe.
#[derive(Debug, Clone, PartialEq)]
pub struct CreateRecipe {
    pub title: String,
    pub short_description: Option<String>,
    pub long_description: Option<String>,
    pub tags: Vec<String>,
    pub ingredients: Vec<CreateIngredient>,
    pub steps: Vec<CreateStep>,
}

/// An ingredient line of a partial-update payload.
#[derive(Debug, Clone, PartialEq)]
pub struct UpdateIngredient {
    pub name: Option<String>,
    pub amount: Option<Fraction>,
    pub unit_type: Option<String>,
    pub description: Option<String>,
}

/// Mathematical model of an [`UpdateIngredient`].
#[verifier::ext_equal]
pub struct UpdateIngredientView {
    pub name: Option<Seq<char>>,
    pub amount: Option<Fraction>,
    pub unit_type: Option<Seq<char>>,
    pub description: Option<Seq<char>>,
}

impl View for UpdateIngredient {
    type V = UpdateIngredientView;

    open spec fn view(&self) -> UpdateIngredientView {
        UpdateIngredientView {
            name: match self.name {
                Some(ref n) => Some(n@),
                None => None,
            },
            amount: self.amount,
            unit_type: match self.unit_type {
                Some(ref u) => Some(u@),
                None => None,
            },
            description: match self.description {
                Some(ref d) => Some(d@),
                None => None,
            },
        }
    }
}

/// A step of a partial-update payload.
#[derive(Debug, Clone, PartialEq)]
pub struct UpdateStep {
    pub title: Option<String>,
    pub description: Option<String>,
}

/// Mathematical model of an [`UpdateStep`].
#[verifier::ext_equal]
pub struct UpdateStepView {
    pub title: Option<Seq<char>>,
    pub description: Option<Seq<char>>,
}

impl View for UpdateStep {
    type V = UpdateStepView;

    open spec fn view(&self) -> UpdateStepView {
        UpdateStepView {
            title: match self.title {
                Some(ref t) => Some(t@),
                None => None,
            },
            description: match self.description {
                Some(ref d) => Some(d@),
                None => None,
            },
        }
    }
}

/// A partial update of a recipe: only the fields present are changed
/// server-side, omitted fields are left untouched.
#[derive(Debug, Clone, PartialEq)]
pub struct UpdateRecipe {
    pub title: Option<String>,
    pub short_description: Option<String>,
    pub long_description: Option<String>,
    pub tags: Option<Vec<String>>,
    pub ingredients: Option<Vec<UpdateIngredient>>,
    pub steps: Option<Vec<UpdateStep>>,
    pub info: Option<Info>,
}

/// Mathematical model of an [`UpdateRecipe`].
#[verifier::ext_equal]
pub struct UpdateRecipeView {
    pub title: Option<Seq<char>>,
    pub short_description: Option<Seq<char>>,
    pub long_description: Option<Seq<char>>,
    pub tags: Option<Seq<Seq<char>>>,
    pub ingredients: Option<Seq<UpdateIngredientView>>,
    pub steps: Option<Seq<UpdateStepView>>,
    pub info: Option<InfoView>,
}

/// The views of a sequence of ingredient updates.
pub open spec fn update_ingredient_views(v: Seq<UpdateIngredient>) -> Seq<UpdateIngredientView> {
    v.map_values(|i: UpdateIngredient| i@)
}

/// The views of a sequence of step updates.
pub open spec fn update_step_views(v: Seq<UpdateStep>) -> Seq<UpdateStepView> {
    v.map_values(|s: UpdateStep| s@)
}

impl View for UpdateRecipe {
    type V = UpdateRecipeView;

    open spec fn view(&self) -> UpdateRecipeView {
        UpdateRecipeView {
            title: match self.title {
                Some(ref t) => Some(t@),
                None => None,
            },
            short_description: match self.short_description {
                Some(ref d) => Some(d@),
                None => None,
            },
            long_description: match self.long_description {
                Some(ref d) => Some(d@),
                None => None,
            },
            tags: match self.tags {
                Some(ref t) => Some(string_views(t@)),
                None => None,
            },
            ingredients: match self.ingredients {
                Some(ref i) => Some(update_ingredient_views(i@)),
                None => None,
            },
            steps: match self.steps {
                Some(ref s) => Some(update_step_views(s@)),
                None => None,
            },
            info: match self.info {
                Some(ref i) => Some(i@),
                None => None,
            },
        }
    }
}

impl UpdateRecipe {
    /// A payload that changes nothing.
    pub fn empty() -> (r: UpdateRecipe)
        ensures
            r@ == spec_empty_update(),
    {
        UpdateRecipe {
            title: None,
            short_description: None,
            long_description: None,
            tags: None,
            ingredients: None,
            steps: None,
            info: None,
        }
    }
}

/// The model of a payload that changes nothing.
pub open spec fn spec_empty_update() -> UpdateRecipeView {
    UpdateRecipeView {
        title: None,
        short_description: None,
        long_description: None,
        tags: None,
        ingredients: None,
        steps: None,
        info: None,
    }
}

/// The ingredient an update line denotes on its own: absent parts fall
/// back to an empty name or unit and a zero amount.
pub open spec fn spec_ingredient_from_update(u: UpdateIngredientView) -> IngredientView {
    IngredientView {
        name: match u.name {
            Some(n) => n,
            None => Seq::empty(),
        },
        amount: match u.amount {
            Some(a) => a,
            None => Fraction { num: 0, den: 1 },
        },
        unit_type: match u.unit_type {
            Some(t) => t,
            None => Seq::empty(),
        },
        description: u.description,
    }
}

/// The step an update line denotes on its own.
pub open spec fn spec_step_from_update(u: UpdateStepView) -> StepView {
    StepView {
        title: u.title,
        description: match u.description {
            Some(d) => d,
            None => Seq::empty(),
        },
    }
}

/// The update line carrying every part of an ingredient.
pub open spec fn spec_ingredient_to_update(i: IngredientView) -> UpdateIngredientView {
    UpdateIngredientView {
        name: Some(i.name),
        amount: Some(i.amount),
        unit_type: Some(i.unit_type),
        description: i.description,
    }
}

/// The update line carrying every part of a step.
pub open spec fn spec_step_to_update(s: StepView) -> UpdateStepView {
    UpdateStepView { title: s.title, description: Some(s.description) }
}

/// The recipe after the server merges a partial update into it: each
/// field present in the payload replaces the stored one, every omitted
/// field keeps its stored value, and the image is untouched (image
/// changes go through their own endpoints).
pub open spec fn spec_apply_update(r: RecipeView, u: UpdateRecipeView) -> RecipeView {
    RecipeView {
        id: r.id,
        owner_id: r.owner_id,
        title: match u.title {
            Some(t) => t,
            None => r.title,
        },
        short_description: match u.short_description {
            Some(d) => Some(d),
            None => r.short_description,
        },
        long_description: match u.long_description {
            Some(d) => Some(d),
            None => r.long_description,
        },
        tags: match u.tags {
            Some(t) => t,
            None => r.tags,
        },
        ingredients: match u.ingredients {
            Some(us) => us.map_values(|x: UpdateIngredientView| spec_ingredient_from_update(x)),
            None => r.ingredients,
        },
        steps: match u.steps {
            Some(us) => us.map_values(|x: UpdateStepView| spec_step_from_update(x)),
            None => r.steps,
        },
        info: match u.info {
            Some(i) => i,
            None => r.info,
        },
        image_id: r.image_id,
    }
}

/// The ingredient an update line denotes on its own.
pub fn ingredient_from_update(u: UpdateIngredient) -> (r: Ingredient)
    ensures
        r@ == spec_ingredient_from_update(u@),
{
    Ingredient {
        name: match u.name {
            Some(n) => n,
            None => String::new(),
        },
        amount: match u.amount {
            Some(a) => a,
            None => Fraction { num: 0, den: 1 },
        },
        unit_type: match u.unit_type {
            Some(t) => t,
            None => String::new(),
        },
        description: u.description,
    }
}

/// The step an update line denotes on its own.
pub fn step_from_update(u: UpdateStep) -> (r: Step)
    ensures
        r@ == spec_step_from_update(u@),
{
    Step {
        title: u.title,
        description: match u.description {
            Some(d) => d,
            None => String::new(),
        },
    }
}

/// The update line carrying every part of an ingredient.
pub fn ingredient_to_update(i: &Ingredient) -> (u: UpdateIngredient)
    ensures
        u@ == spec_ingredient_to_update(i@),
{
    UpdateIngredient {
        name: Some(i.name.clone()),
        amount: Some(i.amount),
        unit_type: Some(i.unit_type.clone()),
        description: match &i.description {
            Some(d) => Some(d.clone()),
            None => None,
        },
    }
}

/// The update line carrying every part of a step.
pub fn step_to_update(s: &Step) -> (u: UpdateStep)
    ensures
        u@ == spec_step_to_update(s@),
{
    UpdateStep {
        title: match &s.title {
            Some(t) => Some(t.clone()),
            None => None,
        },
        description: Some(s.description.clone()),
    }
}

/// The ingredients denoted by a list of update lines.
pub fn ingredients_from_updates(us: Vec<UpdateIngredient>) -> (r: Vec<Ingredient>)
    ensures
        ingredient_views(r@) == update_ingredient_views(us@).map_values(
            |x: UpdateIngredientView| spec_ingredient_from_update(x),
        ),
{
    let ghost orig = us@;
    let mut us = us;
    let mut r: Vec<Ingredient> = Vec::new();
    while us.len() > 0
        invariant
            us@.len() <= orig.len(),
            us@ =~= orig.subrange(orig.len() - us@.len(), orig.len() as int),
            ingredient_views(r@) =~= update_ingredient_views(
                orig.subrange(0, orig.len() - us@.len()),
            ).map_values(|x: UpdateIngredientView| spec_ingredient_from_update(x)),
        decreases us@.len(),
    {
        let ghost k = orig.len() - us@.len();
        proof {
            assert(us@.len() >= 1);
            assert(us@ == orig.subrange(k, orig.len() as int));
            assert(us@[0] == orig.subrange(k, orig.len() as int)[0]);
            assert(us@[0] == orig[k]);
        }
        let u = us.remove(0);
        assert(u == orig[k]);
        let ghost r0 = r@;
        let e = ingredient_from_update(u);
        r.push(e);
        proof {
            assert(ingredient_views(r@) =~= ingredient_views(r0).push(e@));
            assert(update_ingredient_views(orig.subrange(0, k + 1)) =~= update_ingredient_views(
                orig.subrange(0, k),
            ).push(orig[k]@));
            assert(update_ingredient_views(orig.subrange(0, k + 1)).map_values(
                |x: UpdateIngredientView| spec_ingredient_from_update(x),
            ) =~= update_ingredient_views(orig.subrange(0, k)).map_values(
                |x: UpdateIngredientView| spec_ingredient_from_update(x),
            ).push(spec_ingredient_from_update(orig[k]@)));
            assert(ingredient_views(r@) =~= update_ingredient_views(
                orig.subrange(0, k + 1),
            ).map_values(|x: UpdateIngredientView| spec_ingredient_from_update(x)));
        }
    }
    assert(orig.subrange(0, orig.len() as int) =~= orig);
    r
}

/// The steps denoted by a list of update lines.
pub fn steps_from_updates(us: Vec<UpdateStep>) -> (r: Vec<Step>)
    ensures
        step_views(r@) == update_step_views(us@).map_values(
            |x: UpdateStepView| spec_step_from_update(x),
        ),
{
    let ghost orig = us@;
    let mut us = us;
    let mut r: Vec<Step> = Vec::new();
    while us.len() > 0
        invariant
            us@.len() <= orig.len(),
            us@ =~= orig.subrange(orig.len() - us@.len(), orig.len() as int),
            step_views(r@) =~= update_step_views(orig.subrange(0, orig.len() - us@.len())).map_values(
                |x: UpdateStepView| spec_step_from_update(x),
            ),
        decreases us@.len(),
    {
        let ghost k = orig.len() - us@.len();
        proof {
            assert(us@.len() >= 1);
            assert(us@ == orig.subrange(k, orig.len() as int));
            assert(us@[0] == orig.subrange(k, orig.len() as int)[0]);
            assert(us@[0] == orig[k]);
        }
        let u = us.remove(0);
        assert(u == orig[k]);
        let ghost r0 = r@;
        let e = step_from_update(u);
        r.push(e);
        proof {
            assert(step_views(r@) =~= step_views(r0).push(e@));
            assert(update_step_views(orig.subrange(0, k + 1)) =~= update_step_views(
                orig.subrange(0, k),
            ).push(orig[k]@));
            assert(update_step_views(orig.subrange(0, k + 1)).map_values(
                |x: UpdateStepView| spec_step_from_update(x),
            ) =~= update_step_views(orig.subrange(0, k)).map_values(
                |x: UpdateStepView| spec_step_from_update(x),
            ).push(spec_step_from_update(orig[k]@)));
            assert(step_views(r@) =~= update_step_views(orig.subrange(0, k + 1)).map_values(
                |x: UpdateStepView| spec_step_from_update(x),
            ));
        }
    }
    assert(orig.subrange(0, orig.len() as int) =~= orig);
    r
}

/// The heading shown for a step without a title of its own: the word
/// `Step` and the step's one-based position.
pub fn default_step_title(index: usize) -> (r: String)
    requires
        index < usize::MAX,
    ensures
        r@ == "Step "@ + crate::numtext::spec_dec_str((index + 1) as nat),
{
    String::from_str("Step ").concat(crate::numtext::usize_to_string(index + 1).as_str())
}

/// Append a freshly loaded page to the accumulated recipe listing.
pub fn append_page(all: &mut Vec<Recipe>, page: Vec<Recipe>)
    ensures
        final(all)@ == old(all)@ + page@,
{
    let mut page = page;
    all.append(&mut page);
}

/// Merge a partial update into a recipe, as the server does: only the
/// fields present in the payload change.
pub fn apply_update(recipe: &mut Recipe, update: UpdateRecipe)
    ensures
        final(recipe)@ == spec_apply_update(old(recipe)@, update@),
{
    let ghost r0 = recipe@;
    let ghost u0 = update@;
    let UpdateRecipe { title, short_description, long_description, tags, ingredients, steps, info } =
        update;
    match title {
        Some(t) => {
            recipe.title = t;
        },
        None => {},
    }
    match short_description {
        Some(d) => {
            recipe.short_description = Some(d);
        },
        None => {},
    }
    match long_description {
        Some(d) => {
            recipe.long_description = Some(d);
        },
        None => {},
    }
    match tags {
        Some(t) => {
            recipe.tags = t;
        },
        None => {},
    }
    match ingredients {
        Some(us) => {
            recipe.ingredients = ingredients_from_updates(us);
        },
        None => {},
    }
    match steps {
        Some(us) => {
            recipe.steps = steps_from_updates(us);
        },
        None => {},
    }
    match info {
        Some(i) => {
            recipe.info = i;
        },
        None => {},
    }
    assert(recipe@ =~= spec_apply_update(r0, u0));
}

} // verus!
