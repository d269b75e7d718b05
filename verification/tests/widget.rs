use vitesse::assets::{Assets, str_has_prefix};
use vitesse::cursor::CursorShape;
use vitesse::icons::{Icon, IconName};
use vitesse::input::{Input, InputEvent};
use vitesse::input_state::InputError;
use vitesse::interaction::{
    Hoverable, InteractionState, Pressable, Selectable, Selected,
};
use vitesse::keymap::{EditAction, default_key_bindings};

#[test]
fn fresh_widget_is_empty_and_unfocused() {
    let input = Input::new();
    assert_eq!(input.state.value(), "");
    assert!(!input.focused);
    assert_eq!(input.placeholder, None);
    assert_eq!(input.cursor_shape, CursorShape::Bar);
}

#[test]
fn focus_and_blur_emit_their_events_and_flip_the_flag() {
    let mut input = Input::new();
    assert_eq!(input.handle_focus(), InputEvent::Focus);
    assert!(input.focused);
    assert_eq!(input.handle_blur(), InputEvent::Blur);
    assert!(!input.focused);
}

#[test]
fn widget_set_value_delegates_to_the_state() {
    let mut input = Input::new();
    assert_eq!(input.set_value("abc"), Ok(()));
    assert_eq!(input.state.value(), "abc");
    assert_eq!(input.state.cursor, 3);
    assert_eq!(input.set_value("a\nb"), Err(InputError::InvalidInput));
    assert_eq!(input.state.value(), "abc");
}

#[test]
fn placeholder_builder_keeps_the_rest_of_the_widget() {
    let mut input = Input::new();
    input.set_value("kept").unwrap();
    let input = input.set_placeholder("type here");
    assert_eq!(input.placeholder.as_deref(), Some("type here"));
    assert_eq!(input.state.value(), "kept");
}

#[test]
fn cursor_blinks_only_while_focused() {
    let mut input = Input::new();
    assert!(!input.cursor_visible(true));
    assert!(!input.cursor_visible(false));
    input.handle_focus();
    assert!(input.cursor_visible(true));
    assert!(!input.cursor_visible(false));
}

#[test]
fn render_builds_the_frame_element_from_the_widget() {
    let mut input = Input::new();
    input.handle_focus();
    let element = input.render(true);
    assert!(element.focused);
    assert!(element.cursor_visible);
    assert_eq!(element.cursor_shape, CursorShape::Bar);
    assert_eq!(element.last_cursor_bounds, None);

    let dimmed = input.render(false);
    assert!(!dimmed.cursor_visible);
}

#[test]
fn icon_paths_name_the_embedded_assets() {
    assert_eq!(IconName::Check.path(), "icons/lucide/check.svg");
    assert_eq!(IconName::QuestionMark.path(), "icons/lucide/help-circle.svg");
}

#[test]
fn icon_description_uses_the_standard_size() {
    let icon = Icon::new(IconName::Check);
    assert_eq!(icon.name, IconName::Check);
    assert_eq!(icon.size, 16);
}

#[test]
fn prefix_test_compares_by_character() {
    assert!(str_has_prefix("icons/lucide/check.svg", "icons/"));
    assert!(str_has_prefix("icons", "icons"));
    assert!(str_has_prefix("anything", ""));
    assert!(!str_has_prefix("ic", "icons"));
    assert!(!str_has_prefix("images/x.svg", "icons/"));
}

#[test]
fn asset_index_lists_by_prefix_in_order() {
    let index = Assets::new(vec![
        "icons/lucide/check.svg".to_string(),
        "fonts/mono.ttf".to_string(),
        "icons/lucide/help-circle.svg".to_string(),
    ]);
    assert_eq!(
        index.list("icons/"),
        vec!["icons/lucide/check.svg".to_string(), "icons/lucide/help-circle.svg".to_string()]
    );
    assert_eq!(index.list("fonts/"), vec!["fonts/mono.ttf".to_string()]);
    assert_eq!(index.list("sounds/"), Vec::<String>::new());
}

#[test]
fn keymap_binds_every_editing_action_once() {
    let bindings = default_key_bindings();
    assert_eq!(bindings.len(), 11);
    assert_eq!(bindings[0].keystroke, "left");
    assert_eq!(bindings[0].action, EditAction::MoveLeft);
    assert_eq!(bindings[5].keystroke, "cmd-a");
    assert_eq!(bindings[5].action, EditAction::SelectAll);
    assert_eq!(bindings[10].keystroke, "cmd-shift-z");
    assert_eq!(bindings[10].action, EditAction::Redo);
    for binding in &bindings {
        assert_eq!(binding.context, "input");
    }
}

#[test]
fn interaction_flags_flip_independently() {
    let mut control = InteractionState::new();
    assert!(!control.hovered());
    assert!(!control.pressed());
    assert_eq!(control.selected(), Selected::Unselected);

    control.set_hovered(true);
    control.set_pressed(true);
    control.set_selected(Selected::Indeterminate);
    assert!(control.hovered());
    assert!(control.pressed());
    assert_eq!(control.selected(), Selected::Indeterminate);

    control.set_hovered(false);
    assert!(!control.hovered());
    assert!(control.pressed());
}
