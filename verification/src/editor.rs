//! The per-field edit protocol: one editor at a time opens on a snapshot
//! of a recipe field, works on a local draft, and either commits the
//! draft through a partial update or abandons it.
//!
//! The state machine is pure: each event maps the current state to the
//! next one plus an effect the shell carries out (send the update, or
//! close the editor with its outcome).  The local snapshot changes only
//! when a committed value is merged with [`apply_committed`], so a cancel
//! or a failed save can never touch it.

use crate::api::ApiError;
use crate::recipe::{
    ingredient_to_update, spec_apply_update, spec_ingredient_to_update, spec_step_to_update,
    step_to_update, Info, InfoView, Ingredient, IngredientView, Recipe, RecipeView, Step, StepView,
    UpdateIngredient, UpdateRecipe, UpdateRecipeView, UpdateStep,
};
use vstd::prelude::*;

verus! {

/// One editable field of a recipe, with the value a draft of it holds.
#[derive(Debug, Clone, PartialEq)]
pub enum RecipeField {
    Title(String),
    ShortDescription(String),
    LongDescription(String),
    ServingInfo(Info),
    Ingredients(Vec<Ingredient>),
    Steps(Vec<Step>),
}

/// Mathematical model of a [`RecipeField`].
#[verifier::ext_equal]
pub enum RecipeFieldView {
    Title(Seq<char>),
    ShortDescription(Seq<char>),
    LongDescription(Seq<char>),
    ServingInfo(InfoView),
    Ingredients(Seq<IngredientView>),
    Steps(Seq<StepView>),
}

impl View for RecipeField {
    type V = RecipeFieldView;

    open spec fn view(&self) -> RecipeFieldView {
        match self {
            RecipeField::Title(t) => RecipeFieldView::Title(t@),
            RecipeField::ShortDescription(d) => RecipeFieldView::ShortDescription(d@),
            RecipeField::LongDescription(d) => RecipeFieldView::LongDescription(d@),
            RecipeField::ServingInfo(i) => RecipeFieldView::ServingInfo(i@),
            RecipeField::Ingredients(v) => RecipeFieldView::Ingredients(
                crate::recipe::ingredient_views(v@),
            ),
            RecipeField::Steps(v) => RecipeFieldView::Steps(crate::recipe::step_views(v@)),
        }
    }
}

/// The client-side validation a draft must pass before it is sent:
/// non-empty where required.  A title must not be empty; descriptions are
/// free; serving info, when present, needs a positive value and a unit;
/// each ingredient needs a name, a positive amount and a unit; each step
/// needs a description.
pub open spec fn spec_field_valid(f: RecipeFieldView) -> bool {
    match f {
        RecipeFieldView::Title(t) => t.len() > 0,
        RecipeFieldView::ShortDescription(_) => true,
        RecipeFieldView::LongDescription(_) => true,
        RecipeFieldView::ServingInfo(i) => match i.yields {
            Some(y) => y.value >= 1 && y.unit_type.len() > 0,
            None => true,
        },
        RecipeFieldView::Ingredients(v) => forall|i: int|
            0 <= i < v.len() ==> spec_ingredient_entry_valid(#[trigger] v[i]),
        RecipeFieldView::Steps(v) => forall|i: int|
            0 <= i < v.len() ==> spec_step_entry_valid(#[trigger] v[i]),
    }
}

/// One ingredient line passes validation with a name, a positive amount,
/// and a unit.
pub open spec fn spec_ingredient_entry_valid(i: IngredientView) -> bool {
    &&& i.name.len() > 0
    &&& i.unit_type.len() > 0
    &&& i.amount.num >= 1
    &&& i.amount.den >= 1
}

/// One step passes validation with a description.
pub open spec fn spec_step_entry_valid(s: StepView) -> bool {
    s.description.len() > 0
}

/// Whether every ingredient line passes validation.
fn ingredients_all_valid(v: &Vec<Ingredient>) -> (r: bool)
    ensures
        r == forall|j: int| 0 <= j < v@.len() ==> spec_ingredient_entry_valid((#[trigger] v@[j])@),
{
    let n = v.len();
    let mut i: usize = 0;
    while i < n
        invariant
            0 <= i <= n,
            n == v@.len(),
            forall|j: int| 0 <= j < i ==> spec_ingredient_entry_valid((#[trigger] v@[j])@),
        decreases n - i,
    {
        let item = &v[i];
        if item.name.as_str().is_empty() || item.unit_type.as_str().is_empty() || item.amount.num
            < 1 || item.amount.den < 1 {
            assert(!spec_ingredient_entry_valid(v@[i as int]@));
            return false;
        }
        i += 1;
    }
    true
}

/// Whether every step passes validation.
fn steps_all_valid(v: &Vec<Step>) -> (r: bool)
    ensures
        r == forall|j: int| 0 <= j < v@.len() ==> spec_step_entry_valid((#[trigger] v@[j])@),
{
    let n = v.len();
    let mut i: usize = 0;
    while i < n
        invariant
            0 <= i <= n,
            n == v@.len(),
            forall|j: int| 0 <= j < i ==> spec_step_entry_valid((#[trigger] v@[j])@),
        decreases n - i,
    {
        if v[i].description.as_str().is_empty() {
            assert(!spec_step_entry_valid(v@[i as int]@));
            return false;
        }
        i += 1;
    }
    true
}

/// Whether a draft passes the client-side validation.
pub fn field_valid(f: &RecipeField) -> (r: bool)
    ensures
        r == spec_field_valid(f@),
{
    match f {
        RecipeField::Title(t) => !t.as_str().is_empty(),
        RecipeField::ShortDescription(_) => true,
        RecipeField::LongDescription(_) => true,
        RecipeField::ServingInfo(i) => match &i.yields {
            Some(y) => y.value >= 1 && !y.unit_type.as_str().is_empty(),
            None => true,
        },
        RecipeField::Ingredients(v) => {
            let r = ingredients_all_valid(v);
            proof {
                let views = crate::recipe::ingredient_views(v@);
                assert forall|j: int| 0 <= j < views.len() implies (#[trigger] views[j]) == v@[j]@
                    by {}
                if r {
                    assert forall|j: int|
                        0 <= j < views.len() implies spec_ingredient_entry_valid(
                        #[trigger] views[j],
                    ) by {
                        assert(spec_ingredient_entry_valid(v@[j]@));
                    }
                    assert(spec_field_valid(f@));
                } else {
                    let j = choose|j: int|
                        0 <= j < v@.len() && !spec_ingredient_entry_valid(v@[j]@);
                    assert(!spec_ingredient_entry_valid(views[j]));
                    assert(f@ matches RecipeFieldView::Ingredients(vv) && 0 <= j < vv.len()
                        && !spec_ingredient_entry_valid(vv[j]));
                    assert(!spec_field_valid(f@));
                }
            }
            r
        },
        RecipeField::Steps(v) => {
            let r = steps_all_valid(v);
            proof {
                let views = crate::recipe::step_views(v@);
                assert forall|j: int| 0 <= j < views.len() implies (#[trigger] views[j]) == v@[j]@
                    by {}
                if r {
                    assert forall|j: int|
                        0 <= j < views.len() implies spec_step_entry_valid(#[trigger] views[j]) by {
                        assert(spec_step_entry_valid(v@[j]@));
                    }
                    assert(spec_field_valid(f@));
                } else {
                    let j = choose|j: int| 0 <= j < v@.len() && !spec_step_entry_valid(v@[j]@);
                    assert(!spec_step_entry_valid(views[j]));
                    assert(f@ matches RecipeFieldView::Steps(vv) && 0 <= j < vv.len()
                        && !spec_step_entry_valid(vv[j]));
                    assert(!spec_field_valid(f@));
                }
            }
            r
        },
    }
}

/// The partial update that commits a draft: exactly the draft's field is
/// present, every other field is omitted.
pub open spec fn spec_update_for(f: RecipeFieldView) -> UpdateRecipeView {
    match f {
        RecipeFieldView::Title(t) => UpdateRecipeView {
            title: Some(t),
            ..crate::recipe::spec_empty_update()
        },
        RecipeFieldView::ShortDescription(d) => UpdateRecipeView {
            short_description: Some(d),
            ..crate::recipe::spec_empty_update()
        },
        RecipeFieldView::LongDescription(d) => UpdateRecipeView {
            long_description: Some(d),
            ..crate::recipe::spec_empty_update()
        },
        RecipeFieldView::ServingInfo(i) => UpdateRecipeView {
            info: Some(i),
            ..crate::recipe::spec_empty_update()
        },
        RecipeFieldView::Ingredients(v) => UpdateRecipeView {
            ingredients: Some(v.map_values(|x: IngredientView| spec_ingredient_to_update(x))),
            ..crate::recipe::spec_empty_update()
        },
        RecipeFieldView::Steps(v) => UpdateRecipeView {
            steps: Some(v.map_values(|x: StepView| spec_step_to_update(x))),
            ..crate::recipe::spec_empty_update()
        },
    }
}

/// Build the partial update that commits a draft.
pub fn update_for_field(field: &RecipeField) -> (u: UpdateRecipe)
    ensures
        u@ == spec_update_for(field@),
{
    let mut u = UpdateRecipe::empty();
    match field {
        RecipeField::Title(t) => {
            u.title = Some(t.clone());
        },
        RecipeField::ShortDescription(d) => {
            u.short_description = Some(d.clone());
        },
        RecipeField::LongDescription(d) => {
            u.long_description = Some(d.clone());
        },
        RecipeField::ServingInfo(i) => {
            u.info = Some(duplicate_info(i));
        },
        RecipeField::Ingredients(v) => {
            let mut out: Vec<UpdateIngredient> = Vec::new();
            let mut i: usize = 0;
            let n = v.len();
            while i < n
                invariant
                    0 <= i <= n,
                    n == v@.len(),
                    crate::recipe::update_ingredient_views(out@) =~= crate::recipe::ingredient_views(
                        v@.subrange(0, i as int),
                    ).map_values(|x: IngredientView| spec_ingredient_to_update(x)),
                decreases n - i,
            {
                let ghost out0 = out@;
                let entry = ingredient_to_update(&v[i]);
                out.push(entry);
                proof {
                    assert(crate::recipe::update_ingredient_views(out@)
                        =~= crate::recipe::update_ingredient_views(out0).push(entry@));
                    assert(crate::recipe::ingredient_views(v@.subrange(0, i + 1)) =~= crate::recipe::ingredient_views(
                        v@.subrange(0, i as int),
                    ).push(v@[i as int]@));
                    assert(crate::recipe::ingredient_views(v@.subrange(0, i + 1)).map_values(
                        |x: IngredientView| spec_ingredient_to_update(x),
                    ) =~= crate::recipe::ingredient_views(v@.subrange(0, i as int)).map_values(
                        |x: IngredientView| spec_ingredient_to_update(x),
                    ).push(spec_ingredient_to_update(v@[i as int]@)));
                    assert(crate::recipe::update_ingredient_views(out@)
                        =~= crate::recipe::ingredient_views(v@.subrange(0, i + 1)).map_values(
                        |x: IngredientView| spec_ingredient_to_update(x),
                    ));
                }
                i += 1;
            }
            assert(v@.subrange(0, n as int) =~= v@);
            u.ingredients = Some(out);
            assert(u@ =~= spec_update_for(field@));
        },
        RecipeField::Steps(v) => {
            let mut out: Vec<UpdateStep> = Vec::new();
            let mut i: usize = 0;
            let n = v.len();
            while i < n
                invariant
                    0 <= i <= n,
                    n == v@.len(),
                    crate::recipe::update_step_views(out@) =~= crate::recipe::step_views(
                        v@.subrange(0, i as int),
                    ).map_values(|x: StepView| spec_step_to_update(x)),
                decreases n - i,
            {
                let ghost out0 = out@;
                let entry = step_to_update(&v[i]);
                out.push(entry);
                proof {
                    assert(crate::recipe::update_step_views(out@) =~= crate::recipe::update_step_views(
                        out0,
                    ).push(entry@));
                    assert(crate::recipe::step_views(v@.subrange(0, i + 1)) =~= crate::recipe::step_views(
                        v@.subrange(0, i as int),
                    ).push(v@[i as int]@));
                    assert(crate::recipe::step_views(v@.subrange(0, i + 1)).map_values(
                        |x: StepView| spec_step_to_update(x),
                    ) =~= crate::recipe::step_views(v@.subrange(0, i as int)).map_values(
                        |x: StepView| spec_step_to_update(x),
                    ).push(spec_step_to_update(v@[i as int]@)));
                    assert(crate::recipe::update_step_views(out@) =~= crate::recipe::step_views(
                        v@.subrange(0, i + 1),
                    ).map_values(|x: StepView| spec_step_to_update(x)));
                }
                i += 1;
            }
            assert(v@.subrange(0, n as int) =~= v@);
            u.steps = Some(out);
            assert(u@ =~= spec_update_for(field@));
        },
    }
    assert(u@ =~= spec_update_for(field@));
    u
}

/// Copy serving information, equal under the view.
fn duplicate_info(i: &Info) -> (r: Info)
    ensures
        r@ == i@,
{
    Info {
        yields: match &i.yields {
            Some(y) => Some(
                crate::recipe::InfoYields { value: y.value, unit_type: y.unit_type.clone() },
            ),
            None => None,
        },
    }
}

/// The recipe with exactly one field overwritten by a committed draft.
pub open spec fn spec_apply_field(r: RecipeView, f: RecipeFieldView) -> RecipeView {
    match f {
        RecipeFieldView::Title(t) => RecipeView { title: t, ..r },
        RecipeFieldView::ShortDescription(d) => RecipeView { short_description: Some(d), ..r },
        RecipeFieldView::LongDescription(d) => RecipeView { long_description: Some(d), ..r },
        RecipeFieldView::ServingInfo(i) => RecipeView { info: i, ..r },
        RecipeFieldView::Ingredients(v) => RecipeView { ingredients: v, ..r },
        RecipeFieldView::Steps(v) => RecipeView { steps: v, ..r },
    }
}

/// Merge a committed draft into the local snapshot: exactly the draft's
/// field is overwritten, every other field keeps its value.
pub fn apply_committed(recipe: &mut Recipe, field: RecipeField)
    ensures
        final(recipe)@ == spec_apply_field(old(recipe)@, field@),
{
    let ghost r0 = recipe@;
    let ghost f0 = field@;
    match field {
        RecipeField::Title(t) => {
            recipe.title = t;
        },
        RecipeField::ShortDescription(d) => {
            recipe.short_description = Some(d);
        },
        RecipeField::LongDescription(d) => {
            recipe.long_description = Some(d);
        },
        RecipeField::ServingInfo(i) => {
            recipe.info = i;
        },
        RecipeField::Ingredients(v) => {
            recipe.ingredients = v;
        },
        RecipeField::Steps(v) => {
            recipe.steps = v;
        },
    }
    assert(recipe@ =~= spec_apply_field(r0, f0));
}

/// A partial update built from one draft changes exactly that draft's
/// field when the server merges it: the recipe after the merge is the
/// recipe with that one field overwritten, so every other field of the
/// stored recipe is untouched.
pub proof fn patch_update_isolation(r: RecipeView, f: RecipeFieldView)
    ensures
        spec_apply_update(r, spec_update_for(f)) == spec_apply_field(r, f),
{
    let u = spec_update_for(f);
    let merged = spec_apply_update(r, u);
    match f {
        RecipeFieldView::Ingredients(v) => {
            assert(merged.ingredients =~= v);
            assert(merged =~= spec_apply_field(r, f));
        },
        RecipeFieldView::Steps(v) => {
            assert(merged.steps =~= v);
            assert(merged =~= spec_apply_field(r, f));
        },
        _ => {
            assert(merged =~= spec_apply_field(r, f));
        },
    }
}

/// The editor slot for one recipe field: at most one editor exists at a
/// time, and this single value is it.  `Idle` is the empty slot; an open
/// or saving editor holds the one draft being worked on.
#[derive(Debug, Clone, PartialEq)]
pub enum EditorState {
    Idle,
    Open { draft: RecipeField },
    Saving { draft: RecipeField },
}

/// Mathematical model of an [`EditorState`].
#[verifier::ext_equal]
pub enum EditorStateView {
    Idle,
    Open { draft: RecipeFieldView },
    Saving { draft: RecipeFieldView },
}

impl View for EditorState {
    type V = EditorStateView;

    open spec fn view(&self) -> EditorStateView {
        match self {
            EditorState::Idle => EditorStateView::Idle,
            EditorState::Open { draft } => EditorStateView::Open { draft: draft@ },
            EditorState::Saving { draft } => EditorStateView::Saving { draft: draft@ },
        }
    }
}

/// What can happen to an editor: the user opens it on a snapshot of the
/// field, edits the draft, cancels or confirms; and the pending save
/// comes back as success or failure.
#[derive(Debug, Clone, PartialEq)]
pub enum EditorEvent {
    OpenRequest { initial: RecipeField },
    DraftChange { value: RecipeField },
    CancelRequest,
    ConfirmRequest,
    SaveSucceeded,
    SaveFailed { error: ApiError },
}

/// Mathematical model of an [`EditorEvent`].
#[verifier::ext_equal]
pub enum EditorEventView {
    OpenRequest { initial: RecipeFieldView },
    DraftChange { value: RecipeFieldView },
    CancelRequest,
    ConfirmRequest,
    SaveSucceeded,
    SaveFailed { error: ApiError },
}

impl View for EditorEvent {
    type V = EditorEventView;

    open spec fn view(&self) -> EditorEventView {
        match self {
            EditorEvent::OpenRequest { initial } => EditorEventView::OpenRequest {
                initial: initial@,
            },
            EditorEvent::DraftChange { value } => EditorEventView::DraftChange { value: value@ },
            EditorEvent::CancelRequest => EditorEventView::CancelRequest,
            EditorEvent::ConfirmRequest => EditorEventView::ConfirmRequest,
            EditorEvent::SaveSucceeded => EditorEventView::SaveSucceeded,
            EditorEvent::SaveFailed { error } => EditorEventView::SaveFailed { error: *error },
        }
    }
}

/// What the shell must do after a step: nothing, send the draft as a
/// partial update, or close the editor with its outcome.  Only a
/// committed close carries a value to merge into the snapshot.
#[derive(Debug, Clone, PartialEq)]
pub enum EditorEffect {
    NoEffect,
    BeginSave,
    CloseCancelled,
    CloseCommitted { value: RecipeField },
    CloseFailed { error: ApiError },
}

/// Mathematical model of an [`EditorEffect`].
#[verifier::ext_equal]
pub enum EditorEffectView {
    NoEffect,
    BeginSave,
    CloseCancelled,
    CloseCommitted { value: RecipeFieldView },
    CloseFailed { error: ApiError },
}

impl View for EditorEffect {
    type V = EditorEffectView;

    open spec fn view(&self) -> EditorEffectView {
        match self {
            EditorEffect::NoEffect => EditorEffectView::NoEffect,
            EditorEffect::BeginSave => EditorEffectView::BeginSave,
            EditorEffect::CloseCancelled => EditorEffectView::CloseCancelled,
            EditorEffect::CloseCommitted { value } => EditorEffectView::CloseCommitted {
                value: value@,
            },
            EditorEffect::CloseFailed { error } => EditorEffectView::CloseFailed { error: *error },
        }
    }
}

/// The editor protocol, one step at a time.  Opening seeds the draft
/// with the field's current value; confirming sends a valid draft and
/// refuses an invalid one; the save's outcome closes the editor, with
/// the draft to merge only on success; cancelling closes it with the
/// draft discarded and nothing sent.  An event that does not apply to
/// the current state changes nothing.
pub open spec fn spec_editor_step(s: EditorStateView, e: EditorEventView) -> (
    EditorStateView,
    EditorEffectView,
) {
    match (s, e) {
        (EditorStateView::Idle, EditorEventView::OpenRequest { initial }) => (
            EditorStateView::Open { draft: initial },
            EditorEffectView::NoEffect,
        ),
        (EditorStateView::Open { draft: _ }, EditorEventView::DraftChange { value }) => (
            EditorStateView::Open { draft: value },
            EditorEffectView::NoEffect,
        ),
        (EditorStateView::Open { draft: _ }, EditorEventView::CancelRequest) => (
            EditorStateView::Idle,
            EditorEffectView::CloseCancelled,
        ),
        (EditorStateView::Open { draft }, EditorEventView::ConfirmRequest) => if spec_field_valid(
            draft,
        ) {
            (EditorStateView::Saving { draft }, EditorEffectView::BeginSave)
        } else {
            (EditorStateView::Open { draft }, EditorEffectView::NoEffect)
        },
        (EditorStateView::Saving { draft }, EditorEventView::SaveSucceeded) => (
            EditorStateView::Idle,
            EditorEffectView::CloseCommitted { value: draft },
        ),
        (EditorStateView::Saving { draft: _ }, EditorEventView::SaveFailed { error }) => (
            EditorStateView::Idle,
            EditorEffectView::CloseFailed { error },
        ),
        (other, _) => (other, EditorEffectView::NoEffect),
    }
}

/// Run one step of the editor protocol.
pub fn editor_step(state: EditorState, event: EditorEvent) -> (r: (EditorState, EditorEffect))
    ensures
        (r.0@, r.1@) == spec_editor_step(state@, event@),
{
    match (state, event) {
        (EditorState::Idle, EditorEvent::OpenRequest { initial }) => (
            EditorState::Open { draft: initial },
            EditorEffect::NoEffect,
        ),
        (EditorState::Open { draft: _ }, EditorEvent::DraftChange { value }) => (
            EditorState::Open { draft: value },
            EditorEffect::NoEffect,
        ),
        (EditorState::Open { draft: _ }, EditorEvent::CancelRequest) => (
            EditorState::Idle,
            EditorEffect::CloseCancelled,
        ),
        (EditorState::Open { draft }, EditorEvent::ConfirmRequest) => {
            if field_valid(&draft) {
                (EditorState::Saving { draft }, EditorEffect::BeginSave)
            } else {
                (EditorState::Open { draft }, EditorEffect::NoEffect)
            }
        },
        (EditorState::Saving { draft }, EditorEvent::SaveSucceeded) => (
            EditorState::Idle,
            EditorEffect::CloseCommitted { value: draft },
        ),
        (EditorState::Saving { draft: _ }, EditorEvent::SaveFailed { error }) => (
            EditorState::Idle,
            EditorEffect::CloseFailed { error },
        ),
        (other, _) => (other, EditorEffect::NoEffect),
    }
}

/// Cancelling is inert: in every state, a cancel neither begins a save
/// (so nothing reaches the network) nor closes with a committed value
/// (so the local snapshot, which only a committed value can change, is
/// untouched).
pub proof fn cancel_is_inert(s: EditorStateView)
    ensures
        !(spec_editor_step(s, EditorEventView::CancelRequest).1 is BeginSave),
        !(spec_editor_step(s, EditorEventView::CancelRequest).1 is CloseCommitted),
{
}

/// A failed save commits nothing: in every state, the failure event
/// neither begins a save nor closes with a committed value, so the local
/// snapshot keeps its last committed state.
pub proof fn failed_save_commits_nothing(s: EditorStateView, error: ApiError)
    ensures
        !(spec_editor_step(s, EditorEventView::SaveFailed { error }).1 is BeginSave),
        !(spec_editor_step(s, EditorEventView::SaveFailed { error }).1 is CloseCommitted),
{
}

/// A confirmed save sends exactly the draft that stays in the saving
/// state, and a successful save closes with exactly that draft: what the
/// server was asked to write and what is merged locally are the same
/// value.
pub proof fn committed_value_is_the_confirmed_draft(d: RecipeFieldView)
    requires
        spec_field_valid(d),
    ensures
        spec_editor_step(EditorStateView::Open { draft: d }, EditorEventView::ConfirmRequest)
            == (EditorStateView::Saving { draft: d }, EditorEffectView::BeginSave),
        spec_editor_step(EditorStateView::Saving { draft: d }, EditorEventView::SaveSucceeded)
            == (EditorStateView::Idle, EditorEffectView::CloseCommitted { value: d }),
{
}

/// Move the element at `index` one place towards the front; moving the
/// first element is a no-op.  Every other element keeps its position.
pub fn draft_move_up<T>(items: &mut Vec<T>, index: usize)
    requires
        index < old(items)@.len(),
    ensures
        index == 0 ==> final(items)@ == old(items)@,
        index > 0 ==> final(items)@ == old(items)@.update(
            index - 1,
            old(items)@[index as int],
        ).update(index as int, old(items)@[index - 1]),
{
    let ghost before = items@;
    if index != 0 {
        let moved = items.remove(index - 1);
        items.insert(index, moved);
        assert(items@ =~= before.update(index - 1, before[index as int]).update(
            index as int,
            before[index - 1],
        ));
    }
}

/// Move the element at `index` one place towards the back; moving the
/// last element is a no-op.  Every other element keeps its position.
pub fn draft_move_down<T>(items: &mut Vec<T>, index: usize)
    requires
        index < old(items)@.len(),
    ensures
        index + 1 == old(items)@.len() ==> final(items)@ == old(items)@,
        index + 1 < old(items)@.len() ==> final(items)@ == old(items)@.update(
            index as int,
            old(items)@[index + 1],
        ).update(index + 1, old(items)@[index as int]),
{
    let ghost before = items@;
    if index < items.len() - 1 {
        let moved = items.remove(index);
        items.insert(index + 1, moved);
        assert(items@ =~= before.update(index as int, before[index + 1]).update(
            index + 1,
            before[index as int],
        ));
    }
}

/// Append an element to a draft list.
pub fn draft_append<T>(items: &mut Vec<T>, value: T)
    ensures
        final(items)@ == old(items)@.push(value),
{
    items.push(value);
}

/// Delete the element at `index` from a draft list.
pub fn draft_remove_at<T>(items: &mut Vec<T>, index: usize) -> (r: T)
    requires
        index < old(items)@.len(),
    ensures
        r == old(items)@[index as int],
        final(items)@ == old(items)@.remove(index as int),
{
    items.remove(index)
}

/// Replace the element at `index` of a draft list.
pub fn draft_set_at<T>(items: &mut Vec<T>, index: usize, value: T)
    requires
        index < old(items)@.len(),
    ensures
        final(items)@ == old(items)@.update(index as int, value),
{
    let ghost before = items@;
    let _ = items.remove(index);
    items.insert(index, value);
    assert(items@ =~= before.update(index as int, value));
}

/// The image editor, a variant of the protocol: its commit is either an
/// upload, which needs a chosen file and yields a new image identity, or
/// an explicit deletion, which clears it.  `Idle` is the empty slot.
#[derive(Debug, Clone, Copy, PartialEq, Eq, Structural)]
pub enum ImageEditorState {
    Idle,
    Browsing { file_selected: bool },
    SavingUpload,
    SavingDelete,
}

/// What can happen to the image editor.
#[derive(Debug, Clone, PartialEq)]
pub enum ImageEvent {
    OpenRequest,
    FileChosen,
    SaveRequested,
    DeleteRequested,
    CancelRequested,
    UploadFinished { image_id: String },
    DeleteFinished,
    OpFailed { error: ApiError },
}

/// Mathematical model of an [`ImageEvent`].
#[verifier::ext_equal]
pub enum ImageEventView {
    OpenRequest,
    FileChosen,
    SaveRequested,
    DeleteRequested,
    CancelRequested,
    UploadFinished { image_id: Seq<char> },
    DeleteFinished,
    OpFailed { error: ApiError },
}

impl View for ImageEvent {
    type V = ImageEventView;

    open spec fn view(&self) -> ImageEventView {
        match self {
            ImageEvent::OpenRequest => ImageEventView::OpenRequest,
            ImageEvent::FileChosen => ImageEventView::FileChosen,
            ImageEvent::SaveRequested => ImageEventView::SaveRequested,
            ImageEvent::DeleteRequested => ImageEventView::DeleteRequested,
            ImageEvent::CancelRequested => ImageEventView::CancelRequested,
            ImageEvent::UploadFinished { image_id } => ImageEventView::UploadFinished {
                image_id: image_id@,
            },
            ImageEvent::DeleteFinished => ImageEventView::DeleteFinished,
            ImageEvent::OpFailed { error } => ImageEventView::OpFailed { error: *error },
        }
    }
}

/// What the shell must do after an image-editor step.  A committed close
/// carries the new image identity: a fresh one after an upload, none
/// after a deletion.
#[derive(Debug, Clone, PartialEq)]
pub enum ImageEffect {
    NoEffect,
    StartUpload,
    StartDelete,
    CloseCancelled,
    CloseCommitted { image_id: Option<String> },
    CloseFailed { error: ApiError },
}

/// Mathematical model of an [`ImageEffect`].
#[verifier::ext_equal]
pub enum ImageEffectView {
    NoEffect,
    StartUpload,
    StartDelete,
    CloseCancelled,
    CloseCommitted { image_id: Option<Seq<char>> },
    CloseFailed { error: ApiError },
}

impl View for ImageEffect {
    type V = ImageEffectView;

    open spec fn view(&self) -> ImageEffectView {
        match self {
            ImageEffect::NoEffect => ImageEffectView::NoEffect,
            ImageEffect::StartUpload => ImageEffectView::StartUpload,
            ImageEffect::StartDelete => ImageEffectView::StartDelete,
            ImageEffect::CloseCancelled => ImageEffectView::CloseCancelled,
            ImageEffect::CloseCommitted { image_id } => ImageEffectView::CloseCommitted {
                image_id: match image_id {
                    Some(i) => Some(i@),
                    None => None,
                },
            },
            ImageEffect::CloseFailed { error } => ImageEffectView::CloseFailed { error: *error },
        }
    }
}

/// The image-editor protocol, one step at a time.  An upload can only
/// start once a file is chosen; a deletion needs none; the pending
/// operation's outcome closes the editor, carrying the new image
/// identity only on success.  An event that does not apply to the
/// current state changes nothing.
pub open spec fn spec_image_step(s: ImageEditorState, e: ImageEventView) -> (
    ImageEditorState,
    ImageEffectView,
) {
    match (s, e) {
        (ImageEditorState::Idle, ImageEventView::OpenRequest) => (
            ImageEditorState::Browsing { file_selected: false },
            ImageEffectView::NoEffect,
        ),
        (ImageEditorState::Browsing { file_selected: _ }, ImageEventView::FileChosen) => (
            ImageEditorState::Browsing { file_selected: true },
            ImageEffectView::NoEffect,
        ),
        (ImageEditorState::Browsing { file_selected }, ImageEventView::SaveRequested) => if file_selected {
            (ImageEditorState::SavingUpload, ImageEffectView::StartUpload)
        } else {
            (ImageEditorState::Browsing { file_selected }, ImageEffectView::NoEffect)
        },
        (ImageEditorState::Browsing { file_selected: _ }, ImageEventView::DeleteRequested) => (
            ImageEditorState::SavingDelete,
            ImageEffectView::StartDelete,
        ),
        (ImageEditorState::Browsing { file_selected: _ }, ImageEventView::CancelRequested) => (
            ImageEditorState::Idle,
            ImageEffectView::CloseCancelled,
        ),
        (ImageEditorState::SavingUpload, ImageEventView::UploadFinished { image_id }) => (
            ImageEditorState::Idle,
            ImageEffectView::CloseCommitted { image_id: Some(image_id) },
        ),
        (ImageEditorState::SavingDelete, ImageEventView::DeleteFinished) => (
            ImageEditorState::Idle,
            ImageEffectView::CloseCommitted { image_id: None },
        ),
        (ImageEditorState::SavingUpload, ImageEventView::OpFailed { error }) => (
            ImageEditorState::Idle,
            ImageEffectView::CloseFailed { error },
        ),
        (ImageEditorState::SavingDelete, ImageEventView::OpFailed { error }) => (
            ImageEditorState::Idle,
            ImageEffectView::CloseFailed { error },
        ),
        (other, _) => (other, ImageEffectView::NoEffect),
    }
}

/// Run one step of the image-editor protocol.
pub fn image_step(state: ImageEditorState, event: ImageEvent) -> (r: (
    ImageEditorState,
    ImageEffect,
))
    ensures
        (r.0, r.1@) == spec_image_step(state, event@),
{
    match (state, event) {
        (ImageEditorState::Idle, ImageEvent::OpenRequest) => (
            ImageEditorState::Browsing { file_selected: false },
            ImageEffect::NoEffect,
        ),
        (ImageEditorState::Browsing { file_selected: _ }, ImageEvent::FileChosen) => (
            ImageEditorState::Browsing { file_selected: true },
            ImageEffect::NoEffect,
        ),
        (ImageEditorState::Browsing { file_selected }, ImageEvent::SaveRequested) => {
            if file_selected {
                (ImageEditorState::SavingUpload, ImageEffect::StartUpload)
            } else {
                (ImageEditorState::Browsing { file_selected }, ImageEffect::NoEffect)
            }
        },
        (ImageEditorState::Browsing { file_selected: _ }, ImageEvent::DeleteRequested) => (
            ImageEditorState::SavingDelete,
            ImageEffect::StartDelete,
        ),
        (ImageEditorState::Browsing { file_selected: _ }, ImageEvent::CancelRequested) => (
            ImageEditorState::Idle,
            ImageEffect::CloseCancelled,
        ),
        (ImageEditorState::SavingUpload, ImageEvent::UploadFinished { image_id }) => (
            ImageEditorState::Idle,
            ImageEffect::CloseCommitted { image_id: Some(image_id) },
        ),
        (ImageEditorState::SavingDelete, ImageEvent::DeleteFinished) => (
            ImageEditorState::Idle,
            ImageEffect::CloseCommitted { image_id: None },
        ),
        (ImageEditorState::SavingUpload, ImageEvent::OpFailed { error }) => (
            ImageEditorState::Idle,
            ImageEffect::CloseFailed { error },
        ),
        (ImageEditorState::SavingDelete, ImageEvent::OpFailed { error }) => (
            ImageEditorState::Idle,
            ImageEffect::CloseFailed { error },
        ),
        (other, _) => (other, ImageEffect::NoEffect),
    }
}

/// An upload can never start without a chosen file, and cancelling or a
/// failed operation never closes the image editor with a committed
/// value.
pub proof fn image_editor_guards(s: ImageEditorState, error: ApiError)
    ensures
        !(spec_image_step(
            ImageEditorState::Browsing { file_selected: false },
            ImageEventView::SaveRequested,
        ).1 is StartUpload),
        !(spec_image_step(s, ImageEventView::CancelRequested).1 is CloseCommitted),
        !(spec_image_step(s, ImageEventView::OpFailed { error }).1 is CloseCommitted),
{
}

/// Merge a committed image change into the local snapshot: exactly the
/// image identity is overwritten, every other field keeps its value.
pub fn apply_image_commit(recipe: &mut Recipe, image_id: Option<String>)
    ensures
        final(recipe)@ == (RecipeView {
            image_id: match image_id {
                Some(i) => Some(i@),
                None => None,
            },
            ..old(recipe)@
        }),
{
    let ghost r0 = recipe@;
    recipe.image_id = image_id;
    assert(recipe@ =~= (RecipeView {
        image_id: recipe@.image_id,
        ..r0
    }));
}

} // verus!
