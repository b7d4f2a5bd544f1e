use fractal::appop::topic_label;
use fractal::effects::TopicLabel;

#[test]
fn topic_labels() {
    assert!(matches!(topic_label(None), TopicLabel::Hidden));
    assert!(matches!(topic_label(Some(String::new())), TopicLabel::Hidden));
    match topic_label(Some("one line".to_string())) {
        TopicLabel::Shown { tooltip, first_line } => {
            assert_eq!(tooltip, "one line");
            assert_eq!(first_line.iter().collect::<String>(), "one line");
        },
        _ => panic!("expected a shown topic"),
    }
    match topic_label(Some("\nsecond".to_string())) {
        TopicLabel::Shown { first_line, .. } => assert!(first_line.is_empty()),
        _ => panic!("expected a shown topic"),
    }
}
