use recipe_client::api::{ApiError, ApiResponseError};
use recipe_client::editor::{
    apply_committed, apply_image_commit, draft_append, draft_move_down, draft_move_up,
    draft_remove_at, draft_set_at, editor_step, field_valid, image_step, update_for_field,
    EditorEffect, EditorEvent, EditorState, ImageEditorState, ImageEffect, ImageEvent, RecipeField,
};
use recipe_client::fraction::{parse_amount, Fraction};
use recipe_client::recipe::{apply_update, Info, Ingredient, Recipe, Step, UpdateRecipe};

fn ingredient(name: &str, amount: Fraction, unit: &str) -> Ingredient {
    Ingredient {
        name: String::from(name),
        amount,
        unit_type: String::from(unit),
        description: None,
    }
}

fn step(title: Option<&str>, description: &str) -> Step {
    Step { title: title.map(String::from), description: String::from(description) }
}

fn sample_recipe() -> Recipe {
    Recipe {
        id: String::from("r1"),
        owner_id: String::from("u1"),
        title: String::from("Pancakes"),
        short_description: Some(String::from("Fluffy")),
        long_description: None,
        tags: vec![String::from("breakfast")],
        ingredients: vec![
            ingredient("Butter", Fraction { num: 1, den: 2 }, "cup"),
            ingredient("Sugar", Fraction { num: 1, den: 1 }, "tbsp"),
        ],
        steps: vec![step(None, "Mix"), step(Some("Cook"), "Fry until golden")],
        info: Info { yields: None },
        image_id: None,
    }
}

#[test]
fn patch_with_only_a_title_changes_nothing_else() {
    let mut stored = sample_recipe();
    let before = stored.clone();
    let mut update = UpdateRecipe::empty();
    update.title = Some(String::from("X"));
    apply_update(&mut stored, update);
    assert_eq!(stored.title, "X");
    assert_eq!(stored.id, before.id);
    assert_eq!(stored.owner_id, before.owner_id);
    assert_eq!(stored.short_description, before.short_description);
    assert_eq!(stored.long_description, before.long_description);
    assert_eq!(stored.tags, before.tags);
    assert_eq!(stored.ingredients, before.ingredients);
    assert_eq!(stored.steps, before.steps);
    assert_eq!(stored.info, before.info);
    assert_eq!(stored.image_id, before.image_id);
}

#[test]
fn empty_patch_changes_nothing() {
    let mut stored = sample_recipe();
    let before = stored.clone();
    apply_update(&mut stored, UpdateRecipe::empty());
    assert_eq!(stored, before);
}

#[test]
fn cancel_sends_nothing_and_keeps_the_snapshot() {
    let snapshot = sample_recipe();
    let opened = editor_step(
        EditorState::Idle,
        EditorEvent::OpenRequest { initial: RecipeField::Title(snapshot.title.clone()) },
    );
    assert!(matches!(opened.1, EditorEffect::NoEffect));
    let edited = editor_step(
        opened.0,
        EditorEvent::DraftChange { value: RecipeField::Title(String::from("Waffles")) },
    );
    let cancelled = editor_step(edited.0, EditorEvent::CancelRequest);
    assert!(matches!(cancelled.0, EditorState::Idle));
    assert!(matches!(cancelled.1, EditorEffect::CloseCancelled));
    // No committed value came out, so the snapshot is left as it was.
    assert_eq!(snapshot, sample_recipe());
}

#[test]
fn a_failed_save_loses_the_draft() {
    let mut snapshot = sample_recipe();
    let state = EditorState::Open { draft: RecipeField::Title(String::from("Waffles")) };
    let confirmed = editor_step(state, EditorEvent::ConfirmRequest);
    assert!(matches!(confirmed.1, EditorEffect::BeginSave));
    let failed = editor_step(
        confirmed.0,
        EditorEvent::SaveFailed {
            error: ApiError::Response(ApiResponseError { status_code: 500 }),
        },
    );
    assert!(matches!(failed.0, EditorState::Idle));
    match failed.1 {
        EditorEffect::CloseFailed { error } => {
            assert_eq!(error, ApiError::Response(ApiResponseError { status_code: 500 }));
        },
        other => panic!("expected a failure close, got {other:?}"),
    }
    // Nothing was committed, so nothing reaches the snapshot.
    assert_eq!(snapshot, sample_recipe());
    // A successful save, by contrast, hands out the draft to merge.
    let state = EditorState::Saving { draft: RecipeField::Title(String::from("Waffles")) };
    let done = editor_step(state, EditorEvent::SaveSucceeded);
    match done.1 {
        EditorEffect::CloseCommitted { value } => apply_committed(&mut snapshot, value),
        other => panic!("expected a committed close, got {other:?}"),
    }
    assert_eq!(snapshot.title, "Waffles");
    assert_eq!(snapshot.ingredients, sample_recipe().ingredients);
}

#[test]
fn confirming_an_invalid_draft_stays_open() {
    let state = EditorState::Open { draft: RecipeField::Title(String::new()) };
    let r = editor_step(state, EditorEvent::ConfirmRequest);
    assert!(matches!(r.0, EditorState::Open { .. }));
    assert!(matches!(r.1, EditorEffect::NoEffect));
}

#[test]
fn validation_requires_the_required_parts() {
    assert!(field_valid(&RecipeField::Title(String::from("Pancakes"))));
    assert!(!field_valid(&RecipeField::Title(String::new())));
    assert!(field_valid(&RecipeField::ShortDescription(String::new())));
    assert!(!field_valid(&RecipeField::Steps(vec![step(Some("t"), "")])));
    assert!(field_valid(&RecipeField::Steps(vec![step(None, "Mix")])));
    assert!(!field_valid(&RecipeField::Ingredients(vec![ingredient(
        "",
        Fraction { num: 1, den: 1 },
        "g"
    )])));
    assert!(!field_valid(&RecipeField::Ingredients(vec![ingredient(
        "Salt",
        Fraction { num: 0, den: 1 },
        "g"
    )])));
    assert!(field_valid(&RecipeField::Ingredients(vec![ingredient(
        "Salt",
        Fraction { num: 1, den: 2 },
        "tsp"
    )])));
}

#[test]
fn committed_ingredient_draft_lands_exactly_at_its_index() {
    // The scenario: a draft ingredient of one and a half cups of flour,
    // committed through a partial update the server echoes back.
    let mut stored = sample_recipe();
    let mut local = sample_recipe();
    let mut draft = stored.ingredients.clone();
    let flour = ingredient("Flour", parse_amount("1.5").unwrap(), "cup");
    draft_set_at(&mut draft, 1, flour.clone());

    let update = update_for_field(&RecipeField::Ingredients(draft.clone()));
    apply_update(&mut stored, update);
    apply_committed(&mut local, RecipeField::Ingredients(draft));

    // The server's merged recipe and the local snapshot agree.
    assert_eq!(stored, local);
    assert_eq!(local.ingredients.len(), 2);
    assert_eq!(local.ingredients[1], flour);
    assert_eq!(local.ingredients[1].amount, Fraction { num: 15, den: 10 });
    assert_eq!(local.ingredients[0], sample_recipe().ingredients[0]);
    assert_eq!(local.title, sample_recipe().title);
}

#[test]
fn step_reordering_swaps_neighbours_and_respects_the_ends() {
    let mut steps = vec![step(None, "a"), step(None, "b"), step(None, "c")];
    let before = steps.clone();

    // Moving the first entry up changes nothing.
    draft_move_up(&mut steps, 0);
    assert_eq!(steps, before);
    // Moving the last entry down changes nothing.
    draft_move_down(&mut steps, 2);
    assert_eq!(steps, before);

    // Any other move swaps with the neighbour and keeps the rest.
    draft_move_up(&mut steps, 2);
    assert_eq!(steps, vec![step(None, "a"), step(None, "c"), step(None, "b")]);
    draft_move_down(&mut steps, 0);
    assert_eq!(steps, vec![step(None, "c"), step(None, "a"), step(None, "b")]);
}

#[test]
fn draft_list_edits_stay_local() {
    let mut items = vec![step(None, "a")];
    draft_append(&mut items, step(None, "b"));
    assert_eq!(items.len(), 2);
    let removed = draft_remove_at(&mut items, 0);
    assert_eq!(removed, step(None, "a"));
    assert_eq!(items, vec![step(None, "b")]);
    draft_set_at(&mut items, 0, step(Some("T"), "z"));
    assert_eq!(items, vec![step(Some("T"), "z")]);
}

#[test]
fn untitled_steps_are_numbered_from_one() {
    assert_eq!(recipe_client::recipe::default_step_title(0), "Step 1");
    assert_eq!(recipe_client::recipe::default_step_title(11), "Step 12");
}

#[test]
fn image_upload_needs_a_chosen_file() {
    let opened = image_step(ImageEditorState::Idle, ImageEvent::OpenRequest);
    assert_eq!(opened.0, ImageEditorState::Browsing { file_selected: false });
    // Saving without a file does nothing.
    let refused = image_step(opened.0, ImageEvent::SaveRequested);
    assert_eq!(refused.0, ImageEditorState::Browsing { file_selected: false });
    assert!(matches!(refused.1, ImageEffect::NoEffect));
    // With a file chosen, saving starts the upload.
    let chosen = image_step(refused.0, ImageEvent::FileChosen);
    let saving = image_step(chosen.0, ImageEvent::SaveRequested);
    assert_eq!(saving.0, ImageEditorState::SavingUpload);
    assert!(matches!(saving.1, ImageEffect::StartUpload));
    // The finished upload closes with the new image identity.
    let done = image_step(
        saving.0,
        ImageEvent::UploadFinished { image_id: String::from("img9") },
    );
    assert_eq!(done.0, ImageEditorState::Idle);
    match done.1 {
        ImageEffect::CloseCommitted { image_id } => {
            assert_eq!(image_id, Some(String::from("img9")));
        },
        other => panic!("expected a committed close, got {other:?}"),
    }
}

#[test]
fn image_delete_clears_the_identity() {
    let browsing = ImageEditorState::Browsing { file_selected: false };
    let deleting = image_step(browsing, ImageEvent::DeleteRequested);
    assert_eq!(deleting.0, ImageEditorState::SavingDelete);
    assert!(matches!(deleting.1, ImageEffect::StartDelete));
    let done = image_step(deleting.0, ImageEvent::DeleteFinished);
    match done.1 {
        ImageEffect::CloseCommitted { image_id } => assert_eq!(image_id, None),
        other => panic!("expected a committed close, got {other:?}"),
    }

    let mut snapshot = sample_recipe();
    apply_image_commit(&mut snapshot, Some(String::from("img9")));
    assert_eq!(snapshot.image_id, Some(String::from("img9")));
    apply_image_commit(&mut snapshot, None);
    assert_eq!(snapshot.image_id, None);
    assert_eq!(snapshot.title, sample_recipe().title);
}

#[test]
fn image_failure_closes_without_committing() {
    let failing = image_step(
        ImageEditorState::SavingUpload,
        ImageEvent::OpFailed {
            error: ApiError::Response(ApiResponseError { status_code: 401 }),
        },
    );
    assert_eq!(failing.0, ImageEditorState::Idle);
    assert!(matches!(failing.1, ImageEffect::CloseFailed { .. }));
}
