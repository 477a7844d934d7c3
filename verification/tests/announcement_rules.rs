use key_store::announcements::{
    announcement_publish_plan, announcement_update_plan, edited_announcement, new_announcement,
    normalize_announcement_body, normalize_announcement_display, normalize_announcement_mutation,
    normalize_announcement_text, Announcement, AnnouncementMutation, AnnouncementPublishPlan,
    AnnouncementUpdatePlan,
};
use key_store::error::ProxyError;

fn message(r: Result<String, ProxyError>) -> String {
    match r {
        Err(ProxyError::Other(m)) => m,
        _ => panic!("expected an error"),
    }
}

#[test]
fn text_fields_are_trimmed_and_bounded() {
    assert_eq!(normalize_announcement_text("  hi  ", "title", 5).ok(), Some("hi".to_string()));
    assert_eq!(message(normalize_announcement_text("   ", "title", 5)), "title is required");
    assert_eq!(message(normalize_announcement_text("abcdef", "title", 5)), "title is too long");
    assert_eq!(normalize_announcement_text("ééééé", "title", 5).ok(), Some("ééééé".to_string()));
}

#[test]
fn tickers_may_have_no_body() {
    assert_eq!(normalize_announcement_body("  ", "ticker").ok(), Some(String::new()));
    assert_eq!(message(normalize_announcement_body("  ", "modal")), "body is required");
    assert_eq!(normalize_announcement_body(" text ", "modal").ok(), Some("text".to_string()));
}

#[test]
fn display_kinds_are_lower_cased() {
    assert_eq!(normalize_announcement_display(" Modal ").ok(), Some("modal".to_string()));
    assert_eq!(normalize_announcement_display("TICKER").ok(), Some("ticker".to_string()));
    assert_eq!(message(normalize_announcement_display("banner")), "unsupported announcement display kind");
}

#[test]
fn mutations_check_display_then_title_then_body() {
    let ok = normalize_announcement_mutation(AnnouncementMutation {
        title: " News ".to_string(),
        body: "".to_string(),
        display_kind: "Ticker".to_string(),
    });
    match ok {
        Ok(m) => {
            assert_eq!(m.title, "News");
            assert_eq!(m.body, "");
            assert_eq!(m.display_kind, "ticker");
        }
        Err(_) => panic!("expected a valid mutation"),
    }
    let bad = normalize_announcement_mutation(AnnouncementMutation {
        title: "".to_string(),
        body: "".to_string(),
        display_kind: "nope".to_string(),
    });
    assert!(matches!(bad, Err(ProxyError::Other(m)) if m == "unsupported announcement display kind"));
    let bad = normalize_announcement_mutation(AnnouncementMutation {
        title: "".to_string(),
        body: "".to_string(),
        display_kind: "modal".to_string(),
    });
    assert!(matches!(bad, Err(ProxyError::Other(m)) if m == "title is required"));
}

fn stored(status: &str, published_at: Option<i64>) -> Announcement {
    Announcement {
        id: "abc".to_string(),
        title: "t".to_string(),
        body: "b".to_string(),
        display_kind: "modal".to_string(),
        status: status.to_string(),
        created_at: 1,
        updated_at: 2,
        published_at,
        archived_at: None,
    }
}

#[test]
fn edits_and_publications_follow_the_status() {
    assert_eq!(announcement_update_plan("published"), AnnouncementUpdatePlan::ArchiveAndRepublish);
    assert_eq!(announcement_update_plan("archived"), AnnouncementUpdatePlan::RecreateAsDraft);
    assert_eq!(announcement_update_plan("draft"), AnnouncementUpdatePlan::EditInPlace);
    assert_eq!(announcement_publish_plan(&stored("published", Some(5)), 10), AnnouncementPublishPlan::AlreadyPublished);
    assert_eq!(announcement_publish_plan(&stored("draft", Some(5)), 10), AnnouncementPublishPlan::PublishDraft { published_at: 5 });
    assert_eq!(announcement_publish_plan(&stored("draft", None), 10), AnnouncementPublishPlan::PublishDraft { published_at: 10 });
    assert_eq!(announcement_publish_plan(&stored("archived", None), 10), AnnouncementPublishPlan::RepublishCopy);
}

#[test]
fn new_and_edited_announcements() {
    let input = AnnouncementMutation { title: "T".to_string(), body: "B".to_string(), display_kind: "modal".to_string() };
    let a = new_announcement("id1".to_string(), input, "published", 50);
    assert_eq!(a.published_at, Some(50));
    assert_eq!(a.status, "published");
    let input = AnnouncementMutation { title: "T2".to_string(), body: "B2".to_string(), display_kind: "ticker".to_string() };
    let e = edited_announcement(stored("draft", None), input, 60);
    assert_eq!(e.title, "T2");
    assert_eq!(e.created_at, 1);
    assert_eq!(e.updated_at, 60);
    assert_eq!(e.status, "draft");
}
