//! What is known of a track and of the member who queued it.

use crate::error::LibError;
use vstd::prelude::*;

verus! {

/// What a source reports of a track; each part may be missing.
#[derive(Debug)]
pub struct Metadata {
    pub title: Option<String>,
    /// Playing time in whole seconds.
    pub duration: Option<u64>,
    pub source_url: Option<String>,
    pub channels: Option<u8>,
    pub sample_rate: Option<u32>,
}

/// The mathematical value of a [`Metadata`].
pub struct MetadataView {
    pub title: Option<Seq<char>>,
    pub duration: Option<u64>,
    pub source_url: Option<Seq<char>>,
    pub channels: Option<u8>,
    pub sample_rate: Option<u32>,
}

impl View for Metadata {
    type V = MetadataView;

    open spec fn view(&self) -> MetadataView {
        MetadataView {
            title: self.title.deep_view(),
            duration: self.duration,
            source_url: self.source_url.deep_view(),
            channels: self.channels,
            sample_rate: self.sample_rate,
        }
    }
}

impl DeepView for Metadata {
    type V = MetadataView;

    open spec fn deep_view(&self) -> MetadataView {
        self@
    }
}

impl Clone for Metadata {
    fn clone(&self) -> (copy: Metadata)
        ensures
            copy@ == self@,
    {
        let title = match &self.title {
            Some(t) => Some(t.clone()),
            None => None,
        };
        let source_url = match &self.source_url {
            Some(u) => Some(u.clone()),
            None => None,
        };
        Metadata {
            title,
            duration: self.duration,
            source_url,
            channels: self.channels,
            sample_rate: self.sample_rate,
        }
    }
}

impl Metadata {
    /// Metadata of which nothing is known.
    pub fn unknown() -> (m: Metadata)
        ensures
            m@ == (MetadataView {
                title: None,
                duration: None,
                source_url: None,
                channels: None,
                sample_rate: None,
            }),
    {
        Metadata { title: None, duration: None, source_url: None, channels: None, sample_rate: None }
    }
}

/// Title, playing time and source locator of a track, all of them known.
#[derive(Debug)]
pub struct MiniMetadata {
    pub title: String,
    /// Playing time in whole seconds.
    pub duration: u64,
    pub source_url: String,
}

/// The mathematical value of a [`MiniMetadata`].
pub struct MiniMetadataView {
    pub title: Seq<char>,
    pub duration: u64,
    pub source_url: Seq<char>,
}

impl View for MiniMetadata {
    type V = MiniMetadataView;

    open spec fn view(&self) -> MiniMetadataView {
        MiniMetadataView { title: self.title@, duration: self.duration, source_url: self.source_url@ }
    }
}

impl DeepView for MiniMetadata {
    type V = MiniMetadataView;

    open spec fn deep_view(&self) -> MiniMetadataView {
        self@
    }
}

impl Clone for MiniMetadata {
    fn clone(&self) -> (copy: MiniMetadata)
        ensures
            copy@ == self@,
    {
        MiniMetadata {
            title: self.title.clone(),
            duration: self.duration,
            source_url: self.source_url.clone(),
        }
    }
}

/// The metadata with an empty title, no playing time and an empty locator.
pub open spec fn empty_metadata() -> MiniMetadataView {
    MiniMetadataView { title: Seq::empty(), duration: 0, source_url: Seq::empty() }
}

/// What is known of `value`, with the empty text and a playing time of zero
/// in place of what is missing.
pub open spec fn lossy(value: MetadataView) -> MiniMetadataView {
    MiniMetadataView {
        title: match value.title {
            Some(t) => t,
            None => Seq::empty(),
        },
        duration: match value.duration {
            Some(d) => d,
            None => 0,
        },
        source_url: match value.source_url {
            Some(u) => u,
            None => Seq::empty(),
        },
    }
}

/// The name of the first part that `value` lacks, in the order title,
/// duration, source_url.
pub open spec fn first_missing(value: MetadataView) -> Option<Seq<char>> {
    if value.title is None {
        Some("title"@)
    } else if value.duration is None {
        Some("duration"@)
    } else if value.source_url is None {
        Some("source_url"@)
    } else {
        None
    }
}

impl MiniMetadata {
    /// Metadata that stands for "nothing known".
    pub fn empty() -> (m: MiniMetadata)
        ensures
            m@ == empty_metadata(),
    {
        MiniMetadata { title: String::new(), duration: 0, source_url: String::new() }
    }

    /// Takes what `value` holds and fills in the rest with empty values.
    pub fn lossy_from_metadata(value: Metadata) -> (m: MiniMetadata)
        ensures
            m@ == lossy(value@),
    {
        let title = match value.title {
            Some(t) => t,
            None => String::new(),
        };
        let duration = match value.duration {
            Some(d) => d,
            None => 0,
        };
        let source_url = match value.source_url {
            Some(u) => u,
            None => String::new(),
        };
        MiniMetadata { title, duration, source_url }
    }

    /// Takes `value` if it is complete, and names the first missing part
    /// otherwise.
    pub fn try_from_metadata(value: Metadata) -> (r: Result<MiniMetadata, LibError>)
        ensures
            match r {
                Ok(m) => first_missing(value@) is None && m@ == lossy(value@),
                Err(e) => e is MissingValue && first_missing(value@) == Some(e.detail()),
            },
    {
        let title = match value.title {
            Some(t) => t,
            None => {
                return Err(LibError::missing_value("title"));
            },
        };
        let duration = match value.duration {
            Some(d) => d,
            None => {
                return Err(LibError::missing_value("duration"));
            },
        };
        let source_url = match value.source_url {
            Some(u) => u,
            None => {
                return Err(LibError::missing_value("source_url"));
            },
        };
        Ok(MiniMetadata { title, duration, source_url })
    }
}

/// The member who put a track into the queue.
#[derive(Debug)]
pub struct MiniUser {
    pub id: u64,
    pub name: String,
    pub avatar_url: Option<String>,
}

/// The mathematical value of a [`MiniUser`].
pub struct MiniUserView {
    pub id: u64,
    pub name: Seq<char>,
    pub avatar_url: Option<Seq<char>>,
}

impl View for MiniUser {
    type V = MiniUserView;

    open spec fn view(&self) -> MiniUserView {
        MiniUserView { id: self.id, name: self.name@, avatar_url: self.avatar_url.deep_view() }
    }
}

impl DeepView for MiniUser {
    type V = MiniUserView;

    open spec fn deep_view(&self) -> MiniUserView {
        self@
    }
}

impl Clone for MiniUser {
    fn clone(&self) -> (copy: MiniUser)
        ensures
            copy@ == self@,
    {
        let avatar_url = match &self.avatar_url {
            Some(u) => Some(u.clone()),
            None => None,
        };
        MiniUser { id: self.id, name: self.name.clone(), avatar_url }
    }
}

} // verus!
