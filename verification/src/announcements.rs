//! Announcements: validating what an administrator writes, and deciding how
//! an edit or a publication changes the stored announcements.

use vstd::prelude::*;
use vstd::string::*;
use crate::error::ProxyError;
use crate::sqlite::{ascii_lowercase, ascii_lowercase_exec};
use crate::text::{cat, concat_all, str_eq, trim, trim_string};

verus! {

pub const ANNOUNCEMENT_STATUS_DRAFT: &'static str = "draft";
pub const ANNOUNCEMENT_STATUS_PUBLISHED: &'static str = "published";
pub const ANNOUNCEMENT_STATUS_ARCHIVED: &'static str = "archived";
pub const ANNOUNCEMENT_DISPLAY_MODAL: &'static str = "modal";
pub const ANNOUNCEMENT_DISPLAY_TICKER: &'static str = "ticker";

/// What an administrator submits for an announcement.
pub struct AnnouncementMutation {
    pub title: String,
    pub body: String,
    pub display_kind: String,
}

/// A stored announcement.
pub struct Announcement {
    pub id: String,
    pub title: String,
    pub body: String,
    pub display_kind: String,
    pub status: String,
    pub created_at: i64,
    pub updated_at: i64,
    pub published_at: Option<i64>,
    pub archived_at: Option<i64>,
}

/// The outcome of validating one text field: the trimmed text, or the
/// message of the error it gets.
pub open spec fn normalized_text_spec(value: Seq<char>, field: Seq<char>, max_len: int) -> Result<Seq<char>, Seq<char>> {
    let t = trim(value);
    if t.len() == 0 {
        Err(field + " is required"@)
    } else if t.len() > max_len {
        Err(field + " is too long"@)
    } else {
        Ok(t)
    }
}

/// Whether a result is the given text, or an `Other` error with the given
/// message.
pub open spec fn text_result_is(r: Result<String, ProxyError>, want: Result<Seq<char>, Seq<char>>) -> bool {
    match want {
        Ok(t) => r matches Ok(s) && s@ == t,
        Err(m) => r matches Err(ProxyError::Other(e)) && e@ == m,
    }
}

/// A required text field, trimmed, at most `max_len` characters.
pub fn normalize_announcement_text(value: &str, field: &str, max_len: usize) -> (r: Result<String, ProxyError>)
    ensures
        text_result_is(r, normalized_text_spec(value@, field@, max_len as int)),
{
    let trimmed = trim_string(value);
    if trimmed.unicode_len() == 0 {
        let m = cat(&vec![field, " is required"]);
        proof { reveal_with_fuel(concat_all, 3); }
        return Err(ProxyError::Other(m));
    }
    if trimmed.unicode_len() > max_len {
        let m = cat(&vec![field, " is too long"]);
        proof { reveal_with_fuel(concat_all, 3); }
        return Err(ProxyError::Other(m));
    }
    Ok(trimmed)
}

/// The body of an announcement: a ticker may have none; otherwise it is a
/// required text of at most 4000 characters.
pub open spec fn normalized_body_spec(value: Seq<char>, display_kind: Seq<char>) -> Result<Seq<char>, Seq<char>> {
    if trim(value).len() == 0 && display_kind == ANNOUNCEMENT_DISPLAY_TICKER@ {
        Ok(Seq::empty())
    } else {
        normalized_text_spec(value, "body"@, 4000)
    }
}

/// The body of an announcement of the given display kind.
pub fn normalize_announcement_body(value: &str, display_kind: &str) -> (r: Result<String, ProxyError>)
    ensures
        text_result_is(r, normalized_body_spec(value@, display_kind@)),
{
    let trimmed = trim_string(value);
    if trimmed.unicode_len() == 0 && str_eq(display_kind, ANNOUNCEMENT_DISPLAY_TICKER) {
        return Ok(String::new());
    }
    normalize_announcement_text(value, "body", 4000)
}

/// Whether a display kind is one announcements support.
pub open spec fn is_supported_display(kind: Seq<char>) -> bool {
    kind == ANNOUNCEMENT_DISPLAY_MODAL@ || kind == ANNOUNCEMENT_DISPLAY_TICKER@
}

/// The display kind, trimmed and lower-cased, if supported.
pub open spec fn normalized_display_spec(value: Seq<char>) -> Result<Seq<char>, Seq<char>> {
    let k = ascii_lowercase(trim(value));
    if is_supported_display(k) { Ok(k) } else { Err("unsupported announcement display kind"@) }
}

/// The display kind of an announcement, trimmed and lower-cased.
pub fn normalize_announcement_display(value: &str) -> (r: Result<String, ProxyError>)
    ensures
        text_result_is(r, normalized_display_spec(value@)),
{
    let trimmed = trim_string(value);
    let normalized = ascii_lowercase_exec(trimmed.as_str());
    if !(str_eq(normalized.as_str(), ANNOUNCEMENT_DISPLAY_MODAL) || str_eq(normalized.as_str(), ANNOUNCEMENT_DISPLAY_TICKER)) {
        return Err(ProxyError::Other(String::from_str("unsupported announcement display kind")));
    }
    Ok(normalized)
}

/// A submission as stored: the display kind checked first, then the title
/// (at most 120 characters), then the body; the first failure is the error.
pub open spec fn normalized_mutation_spec(title: Seq<char>, body: Seq<char>, display: Seq<char>)
    -> Result<(Seq<char>, Seq<char>, Seq<char>), Seq<char>>
{
    match normalized_display_spec(display) {
        Err(m) => Err(m),
        Ok(d) => match normalized_text_spec(title, "title"@, 120) {
            Err(m) => Err(m),
            Ok(t) => match normalized_body_spec(body, d) {
                Err(m) => Err(m),
                Ok(b) => Ok((t, b, d)),
            },
        },
    }
}

/// Validates and normalises a submission.
pub fn normalize_announcement_mutation(input: AnnouncementMutation) -> (r: Result<AnnouncementMutation, ProxyError>)
    ensures
        match normalized_mutation_spec(input.title@, input.body@, input.display_kind@) {
            Ok(v) => r matches Ok(m) && m.title@ == v.0 && m.body@ == v.1 && m.display_kind@ == v.2,
            Err(msg) => r matches Err(ProxyError::Other(e)) && e@ == msg,
        },
{
    let display_kind = match normalize_announcement_display(input.display_kind.as_str()) {
        Ok(d) => d,
        Err(e) => return Err(e),
    };
    let title = match normalize_announcement_text(input.title.as_str(), "title", 120) {
        Ok(t) => t,
        Err(e) => return Err(e),
    };
    let body = match normalize_announcement_body(input.body.as_str(), display_kind.as_str()) {
        Ok(b) => b,
        Err(e) => return Err(e),
    };
    Ok(AnnouncementMutation { title, body, display_kind })
}

/// A normalised submission is left as it is by normalising it again.
pub proof fn lemma_normalize_mutation_idempotent(title: Seq<char>, body: Seq<char>, display: Seq<char>)
    requires
        normalized_mutation_spec(title, body, display) is Ok,
    ensures
        ({
            let v = normalized_mutation_spec(title, body, display)->Ok_0;
            normalized_mutation_spec(v.0, v.1, v.2) == Ok::<(Seq<char>, Seq<char>, Seq<char>), Seq<char>>(v)
        }),
{
    let v = normalized_mutation_spec(title, body, display)->Ok_0;
    crate::text::lemma_trim_idempotent(title);
    crate::text::lemma_trim_idempotent(body);
    crate::text::lemma_trim_idempotent(display);
    lemma_supported_display_fixed(v.2);
}

proof fn lemma_supported_display_fixed(k: Seq<char>)
    requires
        is_supported_display(k),
    ensures
        trim(k) == k,
        ascii_lowercase(k) == k,
{
    reveal_strlit("modal");
    reveal_strlit("ticker");
    assert(ascii_lowercase(k) =~= k);
    crate::text::lemma_trim_ends(k);
}

/// How an edit changes a stored announcement: a published one is archived
/// and a published copy with the new text takes its place; an archived one
/// stays and a draft copy with the new text is created; a draft is edited in
/// place.
#[derive(PartialEq, Eq, Structural, Clone, Copy, Debug)]
pub enum AnnouncementUpdatePlan {
    ArchiveAndRepublish,
    RecreateAsDraft,
    EditInPlace,
}

/// How an edit changes an announcement with the given status.
pub open spec fn update_plan_spec(status: Seq<char>) -> AnnouncementUpdatePlan {
    if status == ANNOUNCEMENT_STATUS_PUBLISHED@ {
        AnnouncementUpdatePlan::ArchiveAndRepublish
    } else if status == ANNOUNCEMENT_STATUS_ARCHIVED@ {
        AnnouncementUpdatePlan::RecreateAsDraft
    } else {
        AnnouncementUpdatePlan::EditInPlace
    }
}

/// How an edit changes an announcement with the given status.
pub fn announcement_update_plan(existing_status: &str) -> (r: AnnouncementUpdatePlan)
    ensures
        r == update_plan_spec(existing_status@),
{
    if str_eq(existing_status, ANNOUNCEMENT_STATUS_PUBLISHED) {
        AnnouncementUpdatePlan::ArchiveAndRepublish
    } else if str_eq(existing_status, ANNOUNCEMENT_STATUS_ARCHIVED) {
        AnnouncementUpdatePlan::RecreateAsDraft
    } else {
        AnnouncementUpdatePlan::EditInPlace
    }
}

/// A new announcement with the given id, text and status, created at `now`;
/// published at `now` when its status is published.
pub fn new_announcement(id: String, input: AnnouncementMutation, status: &str, now: i64) -> (r: Announcement)
    ensures
        r.id == id,
        r.title == input.title,
        r.body == input.body,
        r.display_kind == input.display_kind,
        r.status@ == status@,
        r.created_at == now,
        r.updated_at == now,
        r.published_at == if status@ == ANNOUNCEMENT_STATUS_PUBLISHED@ { Some(now) } else { None },
        r.archived_at is None,
{
    let published_at = if str_eq(status, ANNOUNCEMENT_STATUS_PUBLISHED) { Some(now) } else { None };
    Announcement {
        id,
        title: input.title,
        body: input.body,
        display_kind: input.display_kind,
        status: String::from_str(status),
        created_at: now,
        updated_at: now,
        published_at,
        archived_at: None,
    }
}

/// An announcement edited in place at `now`: new text, the rest kept.
pub fn edited_announcement(existing: Announcement, input: AnnouncementMutation, now: i64) -> (r: Announcement)
    ensures
        r.id == existing.id,
        r.title == input.title,
        r.body == input.body,
        r.display_kind == input.display_kind,
        r.status == existing.status,
        r.created_at == existing.created_at,
        r.updated_at == now,
        r.published_at == existing.published_at,
        r.archived_at == existing.archived_at,
{
    Announcement {
        id: existing.id,
        title: input.title,
        body: input.body,
        display_kind: input.display_kind,
        status: existing.status,
        created_at: existing.created_at,
        updated_at: now,
        published_at: existing.published_at,
        archived_at: existing.archived_at,
    }
}

/// How publishing changes a stored announcement: a published one stays as
/// it is; a draft becomes published, keeping an earlier publication time or
/// taking `now`; an archived one stays archived and a published copy is
/// created.
#[derive(PartialEq, Eq, Structural, Clone, Copy, Debug)]
pub enum AnnouncementPublishPlan {
    AlreadyPublished,
    PublishDraft { published_at: i64 },
    RepublishCopy,
}

/// How publishing at `now` changes an announcement.
pub open spec fn publish_plan_spec(status: Seq<char>, published_at: Option<i64>, now: i64) -> AnnouncementPublishPlan {
    if status == ANNOUNCEMENT_STATUS_PUBLISHED@ {
        AnnouncementPublishPlan::AlreadyPublished
    } else if status == ANNOUNCEMENT_STATUS_DRAFT@ {
        AnnouncementPublishPlan::PublishDraft { published_at: match published_at { Some(t) => t, None => now } }
    } else {
        AnnouncementPublishPlan::RepublishCopy
    }
}

/// How publishing at `now` changes an announcement.
pub fn announcement_publish_plan(existing: &Announcement, now: i64) -> (r: AnnouncementPublishPlan)
    ensures
        r == publish_plan_spec(existing.status@, existing.published_at, now),
{
    if str_eq(existing.status.as_str(), ANNOUNCEMENT_STATUS_PUBLISHED) {
        AnnouncementPublishPlan::AlreadyPublished
    } else if str_eq(existing.status.as_str(), ANNOUNCEMENT_STATUS_DRAFT) {
        AnnouncementPublishPlan::PublishDraft {
            published_at: match existing.published_at { Some(t) => t, None => now },
        }
    } else {
        AnnouncementPublishPlan::RepublishCopy
    }
}

/// A published announcement is never rewritten: an edit archives it and
/// publishing it again leaves it as it is.
pub proof fn lemma_published_announcements_are_immutable(published_at: Option<i64>, now: i64)
    ensures
        update_plan_spec(ANNOUNCEMENT_STATUS_PUBLISHED@) == AnnouncementUpdatePlan::ArchiveAndRepublish,
        publish_plan_spec(ANNOUNCEMENT_STATUS_PUBLISHED@, published_at, now) == AnnouncementPublishPlan::AlreadyPublished,
{
}

/// Every status gets its own treatment: editing a draft changes it in place,
/// editing an archived announcement leaves it archived and starts a new
/// draft; publishing a draft publishes it, keeping the time it was first
/// published if it has one and taking `now` otherwise, and publishing an
/// archived announcement publishes a copy.
pub proof fn lemma_plans_follow_status(published_at: Option<i64>, now: i64)
    ensures
        update_plan_spec(ANNOUNCEMENT_STATUS_DRAFT@) == AnnouncementUpdatePlan::EditInPlace,
        update_plan_spec(ANNOUNCEMENT_STATUS_ARCHIVED@) == AnnouncementUpdatePlan::RecreateAsDraft,
        publish_plan_spec(ANNOUNCEMENT_STATUS_DRAFT@, published_at, now) == (AnnouncementPublishPlan::PublishDraft {
            published_at: match published_at { Some(t) => t, None => now },
        }),
        publish_plan_spec(ANNOUNCEMENT_STATUS_ARCHIVED@, published_at, now) == AnnouncementPublishPlan::RepublishCopy,
{
    reveal_strlit("draft");
    reveal_strlit("published");
    reveal_strlit("archived");
    assert(ANNOUNCEMENT_STATUS_DRAFT@.len() != ANNOUNCEMENT_STATUS_PUBLISHED@.len());
    assert(ANNOUNCEMENT_STATUS_ARCHIVED@.len() != ANNOUNCEMENT_STATUS_PUBLISHED@.len());
    assert(ANNOUNCEMENT_STATUS_ARCHIVED@.len() != ANNOUNCEMENT_STATUS_DRAFT@.len());
}

} // verus!
