use gallery_app::gallery::{Color, Enum, GalleryEvent, WidgetDecl, WidgetGallery, SCALAR_MAX};

fn gallery() -> WidgetGallery {
    WidgetGallery::default()
}

#[test]
fn default_state() {
    let g = gallery();
    assert!(!g.boolean);
    assert_eq!(g.radio, Enum::First);
    assert_eq!(g.scalar, 42);
    assert_eq!(g.string, String::new());
    assert_eq!(g.color, Color { r: 126, g: 158, b: 169, a: 128 });
    assert!(!g.animate_progress_bar);
    assert!(g.open);
}

#[test]
fn initial_color_is_the_ui_library_half_opacity_light_blue() {
    let expected = egui::Color32::LIGHT_BLUE.linear_multiply(0.5).to_array();
    let g = gallery();
    assert_eq!([g.color.r, g.color.g, g.color.b, g.color.a], expected);
}

#[test]
fn button_toggles_boolean() {
    let mut g = gallery();
    g.apply_event(&GalleryEvent::ButtonClicked);
    assert!(g.boolean);
    g.apply_event(&GalleryEvent::ButtonClicked);
    assert!(!g.boolean);
}

#[test]
fn link_and_checkbox_toggle_same_boolean() {
    let mut g = gallery();
    g.apply_event(&GalleryEvent::LinkClicked);
    assert!(g.boolean);
    g.apply_event(&GalleryEvent::CheckboxToggled);
    assert!(!g.boolean);
}

#[test]
fn radio_selection_mutually_exclusive_for_all_transition_pairs() {
    let options = [Enum::First, Enum::Second, Enum::Third];
    for start in options {
        for choice in options {
            let mut g = gallery();
            g.apply_event(&GalleryEvent::RadioSelected(start));
            assert_eq!(g.radio, start);
            g.apply_event(&GalleryEvent::RadioSelected(choice));
            assert_eq!(g.radio == Enum::First, choice == Enum::First);
            assert_eq!(g.radio == Enum::Second, choice == Enum::Second);
            assert_eq!(g.radio == Enum::Third, choice == Enum::Third);
            let selected = [
                g.radio == Enum::First,
                g.radio == Enum::Second,
                g.radio == Enum::Third,
            ];
            assert_eq!(selected.iter().filter(|s| **s).count(), 1);
        }
    }
}

#[test]
fn selectable_and_combo_share_the_selection() {
    let mut g = gallery();
    g.apply_event(&GalleryEvent::SelectableSelected(Enum::Second));
    assert_eq!(g.radio, Enum::Second);
    g.apply_event(&GalleryEvent::ComboSelected(Enum::Third));
    assert_eq!(g.radio, Enum::Third);
}

#[test]
fn progress_fraction_at_boundaries() {
    let mut g = gallery();
    g.apply_event(&GalleryEvent::ScalarSet(0));
    assert_eq!(g.progress_fraction(), (0, 360));
    g.apply_event(&GalleryEvent::ScalarSet(360));
    assert_eq!(g.progress_fraction(), (360, 360));
}

#[test]
fn progress_fraction_tracks_slider() {
    let mut g = gallery();
    g.apply_event(&GalleryEvent::ScalarSet(90));
    assert_eq!(g.progress_fraction(), (90, SCALAR_MAX));
}

#[test]
fn scalar_clamped_to_declared_range() {
    let mut g = gallery();
    g.apply_event(&GalleryEvent::ScalarSet(1000));
    assert_eq!(g.scalar, SCALAR_MAX);
}

#[test]
fn slider_sweep_raises_fraction_monotonically() {
    let mut g = gallery();
    let mut last = 0u32;
    for v in 0..=360u32 {
        g.apply_event(&GalleryEvent::ScalarSet(v));
        let (num, den) = g.progress_fraction();
        assert_eq!(den, 360);
        assert!(num >= last);
        last = num;
    }
    assert_eq!(last, 360);
}

#[test]
fn string_edit_replaces_text() {
    let mut g = gallery();
    g.apply_event(&GalleryEvent::StringEdited(String::from("hello")));
    assert_eq!(g.string, String::from("hello"));
}

#[test]
fn color_picked_replaces_color() {
    let mut g = gallery();
    let picked = Color { r: 1, g: 2, b: 3, a: 4 };
    g.apply_event(&GalleryEvent::ColorPicked(picked));
    assert_eq!(g.color, picked);
}

#[test]
fn animation_follows_pointer_hover() {
    let mut g = gallery();
    g.apply_event(&GalleryEvent::ProgressHovered(true));
    assert!(g.animate_progress_bar);
    g.apply_event(&GalleryEvent::ProgressHovered(false));
    assert!(!g.animate_progress_bar);
}

#[test]
fn ui_declares_one_row_per_widget_kind() {
    let mut g = gallery();
    let events = vec![
        GalleryEvent::ScalarSet(180),
        GalleryEvent::CheckboxToggled,
        GalleryEvent::RadioSelected(Enum::Second),
    ];
    let decls = g.ui(&events);
    assert_eq!(decls.len(), 15);
    assert!(matches!(decls[5], WidgetDecl::Checkbox { checked: true }));
    assert!(matches!(decls[6], WidgetDecl::RadioGroup { selected: Enum::Second }));
    assert!(matches!(decls[9], WidgetDecl::Slider { value: 180 }));
    assert!(matches!(decls[10], WidgetDecl::DragValue { value: 180 }));
    assert!(matches!(
        decls[11],
        WidgetDecl::ProgressBar { numerator: 180, denominator: 360, animate: false }
    ));
}

#[test]
fn closed_window_shows_nothing_and_changes_nothing() {
    let mut g = gallery();
    g.open = false;
    let before_scalar = g.scalar;
    let decls = g.show(false, &vec![GalleryEvent::ScalarSet(7)]);
    assert!(decls.is_none());
    assert_eq!(g.scalar, before_scalar);
}

#[test]
fn close_control_closes_for_following_frames() {
    let mut g = gallery();
    let decls = g.show(true, &vec![]);
    assert!(decls.is_some());
    assert!(!g.open);
    let decls = g.show(false, &vec![]);
    assert!(decls.is_none());
}

#[test]
fn show_applies_events_while_open() {
    let mut g = gallery();
    let decls = g.show(false, &vec![GalleryEvent::ScalarSet(360)]);
    assert!(g.open);
    assert_eq!(g.scalar, 360);
    let decls = decls.unwrap();
    assert!(matches!(
        decls[11],
        WidgetDecl::ProgressBar { numerator: 360, denominator: 360, animate: false }
    ));
}
