use hnreader::list::{HnError, HnStoryList};
use hnreader::source::{FetchError, Story};
use hnreader::story::HnStoryType;

fn record(id: u64, title: Option<&str>, url: Option<&str>) -> Story {
    Story {
        id,
        by: None,
        title: title.map(|t| t.to_string()),
        url: url.map(|u| u.to_string()),
        score: None,
        time: None,
        descendants: None,
    }
}

#[test]
fn new_truncates_to_limit() {
    let ids: Vec<u64> = (1..=20).collect();
    let list = HnStoryList::new(ids.clone(), 11);
    assert_eq!(list.story_maxlen, 11);
    assert_eq!(list.storyidlist, ids);
    assert_eq!(list.story_writer, 0);
    assert!(list.storylist.is_empty());
}

#[test]
fn new_limit_beyond_identifier_count() {
    let list = HnStoryList::new(vec![1, 2, 3], 5);
    assert_eq!(list.story_maxlen, 3);
}

#[test]
fn empty_list_is_immediately_filled() {
    let list = HnStoryList::new(Vec::new(), 0);
    assert!(list.is_filled());
}

#[test]
fn add_story_out_of_range_changes_nothing() {
    let mut list = HnStoryList::new(vec![7, 8], 2);
    let story = hnreader::story::HnStory::new(
        "0".to_string(),
        "Unknown".to_string(),
        "T".to_string(),
        None,
        "story".to_string(),
    );
    let r = list.add_story_at_index(1, story);
    assert_eq!(r, Err(HnError::IndexOutOfRange));
    assert_eq!(list.story_writer, 0);
    assert!(list.storylist.is_empty());
}

#[test]
fn add_story_at_end_appends() {
    let mut list = HnStoryList::new(vec![7, 8], 2);
    let story = hnreader::story::HnStory::new(
        "0".to_string(),
        "Unknown".to_string(),
        "T".to_string(),
        None,
        "story".to_string(),
    );
    let r = list.add_story_at_index(0, story.clone());
    assert_eq!(r, Ok(()));
    assert_eq!(list.storylist.len(), 1);
    assert_eq!(list.storylist[0], story);
}

#[test]
fn advance_on_filled_list_is_exhausted() {
    let mut list = HnStoryList::new(Vec::new(), 0);
    let r = list.update_story_details(Ok(record(1, Some("x"), None)));
    assert_eq!(r.unwrap_err(), HnError::Exhausted);
    assert_eq!(list.story_writer, 0);
    assert!(list.storylist.is_empty());
}

#[test]
fn next_story_id_follows_cursor() {
    let mut list = HnStoryList::new(vec![7, 8, 9], 3);
    assert_eq!(list.next_story_id(), Ok(7));
    list.update_story_details(Ok(record(7, Some("a"), None))).unwrap();
    assert_eq!(list.next_story_id(), Ok(8));
}

#[test]
fn next_story_id_exhausted_when_filled() {
    let list = HnStoryList::new(Vec::new(), 0);
    assert_eq!(list.next_story_id(), Err(HnError::Exhausted));
}

#[test]
fn failed_fetch_changes_nothing_and_retry_lands_at_same_position() {
    let mut list = HnStoryList::new(vec![5, 6], 2);
    let r = list.update_story_details(Err(FetchError::Transport));
    assert_eq!(r.unwrap_err(), HnError::Fetch(FetchError::Transport));
    assert_eq!(list.story_writer, 0);
    assert!(list.storylist.is_empty());

    let r = list.update_story_details(Ok(record(5, Some("second try"), None)));
    let story = r.unwrap();
    assert_eq!(story.id, 0);
    assert_eq!(story.title(), "second try");
    assert_eq!(list.story_writer, 1);
}

#[test]
fn decode_failure_is_propagated() {
    let mut list = HnStoryList::new(vec![5], 1);
    let r = list.update_story_details(Err(FetchError::Decode));
    assert_eq!(r.unwrap_err(), HnError::Fetch(FetchError::Decode));
}

#[test]
fn fallbacks_fill_absent_fields() {
    let mut list = HnStoryList::new(vec![5], 1);
    let story = list.update_story_details(Ok(record(5, None, None))).unwrap();
    assert_eq!(story.title(), "Untitled");
    assert_eq!(story.url, Some("http://example.com".to_string()));
    assert_eq!(story.author(), "Unknown");
    assert_eq!(story.hntype, HnStoryType::Story);
}

#[test]
fn fetched_text_is_kept() {
    let mut list = HnStoryList::new(vec![5], 1);
    let story = list
        .update_story_details(Ok(record(5, Some("kept"), Some("http://example.com/kept"))))
        .unwrap();
    assert_eq!(story.title(), "kept");
    assert_eq!(story.url, Some("http://example.com/kept".to_string()));
}

#[test]
fn invariant_holds_after_every_operation() {
    let mut list = HnStoryList::new(vec![3, 4, 5], 3);
    assert_eq!(list.storylist.len(), list.story_writer);
    assert!(list.story_writer <= list.story_maxlen);
    for step in 0..3u64 {
        if step == 1 {
            let _ = list.update_story_details(Err(FetchError::Transport));
            assert_eq!(list.storylist.len(), list.story_writer);
        }
        list.update_story_details(Ok(record(3 + step, Some("t"), None))).unwrap();
        assert_eq!(list.storylist.len(), list.story_writer);
        assert!(list.story_writer <= list.story_maxlen);
        for (i, story) in list.storylist.iter().enumerate() {
            assert_eq!(story.id, i);
        }
    }
    assert!(list.is_filled());
}

#[test]
fn iterator_yields_snapshot_in_order() {
    let mut list = HnStoryList::new(vec![7, 8], 2);
    list.update_story_details(Ok(record(7, Some("first"), None))).unwrap();
    list.update_story_details(Ok(record(8, Some("second"), None))).unwrap();
    let mut iter = list.iter();
    let a = iter.next().unwrap();
    let b = iter.next().unwrap();
    assert_eq!(a.title(), "first");
    assert_eq!(a.id, 0);
    assert_eq!(b.title(), "second");
    assert_eq!(b.id, 1);
    assert!(iter.next().is_none());
    assert!(iter.next().is_none());
}

#[test]
fn iterator_is_a_snapshot_not_a_live_view() {
    let mut list = HnStoryList::new(vec![7, 8], 2);
    list.update_story_details(Ok(record(7, Some("first"), None))).unwrap();
    let mut iter = list.iter();
    list.update_story_details(Ok(record(8, Some("second"), None))).unwrap();
    assert_eq!(iter.next().unwrap().title(), "first");
    assert!(iter.next().is_none());
    let mut fresh = list.iter();
    fresh.next().unwrap();
    assert_eq!(fresh.next().unwrap().title(), "second");
}
