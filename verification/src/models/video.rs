//! What a catalog search returns.

use vstd::prelude::*;

verus! {

/// The body of a search response: the items found, in the catalog's order.
#[derive(Debug, PartialEq, Eq)]
pub struct SearchResponse {
    pub items: Vec<Video>,
}

/// One search result.
#[derive(Debug, PartialEq, Eq)]
pub struct Video {
    pub id: VideoId,
    pub snippet: Snippet,
}

/// The identifier of a result. A result without one cannot be downloaded.
#[derive(Debug, PartialEq, Eq)]
pub struct VideoId {
    pub video_id: Option<String>,
}

/// The descriptive texts of a result.
#[derive(Debug, PartialEq, Eq)]
pub struct Snippet {
    pub title: String,
    pub description: String,
    pub channel_title: String,
}

/// What a [`Snippet`] holds, as mathematical values.
pub struct SnippetView {
    pub title: Seq<char>,
    pub description: Seq<char>,
    pub channel_title: Seq<char>,
}

/// What a [`Video`] holds, as mathematical values.
pub struct VideoView {
    pub id: Option<Seq<char>>,
    pub snippet: SnippetView,
}

impl View for VideoId {
    type V = Option<Seq<char>>;

    open spec fn view(&self) -> Option<Seq<char>> {
        match self.video_id {
            Some(id) => Some(id@),
            None => None,
        }
    }
}

impl View for Snippet {
    type V = SnippetView;

    open spec fn view(&self) -> SnippetView {
        SnippetView {
            title: self.title@,
            description: self.description@,
            channel_title: self.channel_title@,
        }
    }
}

impl View for Video {
    type V = VideoView;

    open spec fn view(&self) -> VideoView {
        VideoView { id: self.id@, snippet: self.snippet@ }
    }
}

impl View for SearchResponse {
    type V = Seq<VideoView>;

    open spec fn view(&self) -> Seq<VideoView> {
        self.items.deep_view()
    }
}

impl DeepView for Video {
    type V = VideoView;

    open spec fn deep_view(&self) -> VideoView {
        self@
    }
}

impl Clone for VideoId {
    fn clone(&self) -> (copy: Self)
        ensures
            copy == *self,
    {
        match &self.video_id {
            Some(id) => VideoId { video_id: Some(id.clone()) },
            None => VideoId { video_id: None },
        }
    }
}

impl Clone for Snippet {
    fn clone(&self) -> (copy: Self)
        ensures
            copy == *self,
    {
        Snippet {
            title: self.title.clone(),
            description: self.description.clone(),
            channel_title: self.channel_title.clone(),
        }
    }
}

impl Clone for Video {
    fn clone(&self) -> (copy: Self)
        ensures
            copy == *self,
    {
        Video { id: self.id.clone(), snippet: self.snippet.clone() }
    }
}

} // verus!
