use popwin::event::AppEvent;
use popwin::toolbar::Toolbar;

#[test]
fn detection_shows_the_toolbar() {
    let mut t = Toolbar::new();
    assert!(!t.visible);
    t.apply(AppEvent::SelectionDetected { text: "hello".to_string(), position: (140, 100) });
    assert!(t.visible);
    assert_eq!(t.position, (140, 100));
    assert_eq!(t.selected_text, "hello");
    assert_eq!(t.translation, None);
}

#[test]
fn clear_hides_the_toolbar_and_drops_the_translation() {
    let mut t = Toolbar::new();
    t.apply(AppEvent::SelectionDetected { text: "hello".to_string(), position: (1, 2) });
    t.show_sample_translation();
    assert_eq!(t.translation.as_deref(), Some("こんにちは (挨拶)"));
    assert!(t.visible);
    t.apply(AppEvent::SelectionCleared);
    assert!(!t.visible);
    assert_eq!(t.translation, None);
    assert_eq!(t.selected_text, "hello");
}

#[test]
fn translation_arrives_and_new_detection_resets_it() {
    let mut t = Toolbar::new();
    t.apply(AppEvent::SelectionDetected { text: "a".to_string(), position: (1, 2) });
    t.apply(AppEvent::TranslationReceived("あ".to_string()));
    assert_eq!(t.translation.as_deref(), Some("あ"));
    t.apply(AppEvent::SelectionDetected { text: "b".to_string(), position: (3, 4) });
    assert_eq!(t.translation, None);
    assert_eq!(t.selected_text, "b");
    t.dismiss();
    assert!(!t.visible);
    assert_eq!(t.position, (3, 4));
}
