use hnreader::display::{DisplayListItem, Status};
use hnreader::story::HnStory;

#[test]
fn display_item_new_keeps_fields() {
    let item = DisplayListItem::new(Status::Read, "A title", "Some details");
    assert_eq!(item.status, Status::Read);
    assert_eq!(item.title, "A title");
    assert_eq!(item.details, "Some details");
}

#[test]
fn display_item_from_story_starts_unread() {
    let story = HnStory::new(
        "9".to_string(),
        "dave".to_string(),
        "Delivered".to_string(),
        None,
        "story".to_string(),
    );
    let item = DisplayListItem::from_hnstory(story);
    assert_eq!(item.status, Status::Unread);
    assert_eq!(item.title, "Delivered");
    assert_eq!(item.details, "Tobe filled in later");
}
