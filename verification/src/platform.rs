//! Platform events: system status and announcements.
use crate::exchange::ExchangeId;
use crate::json::JsonValue;
use crate::text::{opt_view, IntoText};
use vstd::prelude::*;

verus! {

/// A system-status entry or an announcement.
#[derive(Debug, Clone, PartialEq)]
pub struct PlatformEvent {
    pub exchange: ExchangeId,
    pub event_type: String,
    pub event_id: Option<String>,
    pub title: Option<String>,
    pub status: Option<String>,
    pub url: Option<String>,
    pub start_time: Option<u64>,
    pub end_time: Option<u64>,
    pub published_at: Option<u64>,
    pub raw: JsonValue,
}

/// Filters for reading platform events.
#[derive(Debug, Clone, Default, PartialEq, Eq)]
pub struct PlatformEventQuery {
    pub locale: Option<String>,
    pub event_type: Option<String>,
    pub tag: Option<String>,
    pub page: Option<u32>,
    pub limit: Option<u32>,
    pub id: Option<String>,
    pub state: Option<String>,
}

impl PlatformEventQuery {
    /// A query without filters.
    pub fn new() -> (r: Self)
        ensures
            r.locale is None,
            r.event_type is None,
            r.tag is None,
            r.page is None,
            r.limit is None,
            r.id is None,
            r.state is None,
    {
        Self {
            locale: None,
            event_type: None,
            tag: None,
            page: None,
            limit: None,
            id: None,
            state: None,
        }
    }

    pub fn with_locale<T: IntoText>(self, value: T) -> (r: Self)
        ensures
            opt_view(r.locale) == Some(value.text_view()),
            r == (Self { locale: r.locale, ..self }),
    {
        Self { locale: Some(value.into_text()), ..self }
    }

    pub fn with_event_type<T: IntoText>(self, value: T) -> (r: Self)
        ensures
            opt_view(r.event_type) == Some(value.text_view()),
            r == (Self { event_type: r.event_type, ..self }),
    {
        Self { event_type: Some(value.into_text()), ..self }
    }

    pub fn with_tag<T: IntoText>(self, value: T) -> (r: Self)
        ensures
            opt_view(r.tag) == Some(value.text_view()),
            r == (Self { tag: r.tag, ..self }),
    {
        Self { tag: Some(value.into_text()), ..self }
    }

    pub fn with_page(self, value: u32) -> (r: Self)
        ensures
            r == (Self { page: Some(value), ..self }),
    {
        Self { page: Some(value), ..self }
    }

    pub fn with_limit(self, value: u32) -> (r: Self)
        ensures
            r == (Self { limit: Some(value), ..self }),
    {
        Self { limit: Some(value), ..self }
    }

    pub fn with_id<T: IntoText>(self, value: T) -> (r: Self)
        ensures
            opt_view(r.id) == Some(value.text_view()),
            r == (Self { id: r.id, ..self }),
    {
        Self { id: Some(value.into_text()), ..self }
    }

    pub fn with_state<T: IntoText>(self, value: T) -> (r: Self)
        ensures
            opt_view(r.state) == Some(value.text_view()),
            r == (Self { state: r.state, ..self }),
    {
        Self { state: Some(value.into_text()), ..self }
    }
}

} // verus!
