//! Video-channel feeds: what the video service answers and how its answers
//! become posts.

use vstd::prelude::*;
use crate::feed::FetchError;
use crate::post::{Post, PostText};
use crate::selection::{newest_first, sort_newest_first, texts};
use crate::text::{decimal, join, same_text, to_decimal};
use crate::time::{instant, parse_rfc3339, rfc3339_instant, Timestamp};

verus! {

/// Where the videos of one feed come from.
#[derive(Debug, Clone)]
pub struct YouTubeConfig {
    pub api_key: String,
    pub channel_id: Option<String>,
    pub playlist_id: Option<String>,
    pub username: Option<String>,
    pub max_results: Option<u64>,
}

/// One page of a playlist.
#[derive(Debug, Clone)]
pub struct YouTubeResponse {
    pub items: Vec<YouTubeVideo>,
    pub next_page_token: Option<String>,
}

/// One video of a playlist page.
#[derive(Debug, Clone)]
pub struct YouTubeVideo {
    pub id: VideoId,
    pub snippet: VideoSnippet,
}

/// The two shapes in which the service writes a video's id.
#[derive(Debug, Clone)]
pub enum VideoId {
    Simple(String),
    Complex { video_id: String },
}

/// What the service says about a video.
#[derive(Debug, Clone)]
pub struct VideoSnippet {
    /// RFC 3339 date of publication.
    pub published_at: String,
    pub title: String,
    pub description: String,
    /// Thumbnails by size name.
    pub thumbnails: Vec<(String, Thumbnail)>,
    pub channel_title: String,
    pub resource_id: Option<ResourceId>,
}

/// The video that a playlist entry points to.
#[derive(Debug, Clone)]
pub struct ResourceId {
    pub video_id: String,
}

#[derive(Debug, Clone)]
pub struct Thumbnail {
    pub url: String,
    pub width: Option<u32>,
    pub height: Option<u32>,
}

/// Answer to the lookup of a user name: the channels of that user.
#[derive(Debug, Clone)]
pub struct ChannelIdResponse {
    pub items: Vec<ChannelIdItem>,
}

#[derive(Debug, Clone)]
pub struct ChannelIdItem {
    /// The channel's id.
    pub id: String,
}

/// What the video service answered to a lookup.
#[derive(Debug, Clone)]
pub enum LookupAnswer {
    /// The channels of a user.
    Channels(ChannelIdResponse),
    /// A channel with its playlists.
    Uploads(ChannelResponse),
}

/// Answer to a channel lookup.
#[derive(Debug, Clone)]
pub struct ChannelResponse {
    pub items: Vec<ChannelItem>,
}

#[derive(Debug, Clone)]
pub struct ChannelItem {
    pub content_details: ChannelContentDetails,
}

#[derive(Debug, Clone)]
pub struct ChannelContentDetails {
    pub related_playlists: RelatedPlaylists,
}

#[derive(Debug, Clone)]
pub struct RelatedPlaylists {
    /// The playlist that holds the channel's uploads.
    pub uploads: String,
}

/// How many videos are asked for at least, so that the most recent ones are
/// among them.
pub const MIN_FETCH_COUNT: u64 = 50;

/// How many videos are asked for where no number is configured.
pub const DEFAULT_MAX_RESULTS: u64 = 10;

impl VideoId {
    /// The id, whichever shape it was written in.
    pub open spec fn text(&self) -> Seq<char> {
        match self {
            VideoId::Simple(id) => id@,
            VideoId::Complex { video_id } => video_id@,
        }
    }

    /// The id, whichever shape it was written in.
    pub fn get_id(&self) -> (id: &str)
        ensures
            id@ == self.text(),
    {
        match self {
            VideoId::Simple(id) => id.as_str(),
            VideoId::Complex { video_id } => video_id.as_str(),
        }
    }
}

impl YouTubeVideo {
    /// The id of the video itself: that of the playlist entry's target where
    /// it names one, else the entry's own.
    pub open spec fn video_id(&self) -> Seq<char> {
        match self.snippet.resource_id {
            Some(target) => target.video_id@,
            None => self.id.text(),
        }
    }

    /// The video is private, deleted, or has no title or no id.
    pub open spec fn unavailable(&self) -> bool {
        ||| self.snippet.title@ == "Private video"@
        ||| self.snippet.title@ == "Deleted video"@
        ||| self.snippet.title@.len() == 0
        ||| self.video_id().len() == 0
    }

    /// The instant that the video's publication date names, if it is a
    /// readable RFC 3339 date.
    pub open spec fn published(&self) -> Option<Timestamp> {
        instant(rfc3339_instant(self.snippet.published_at@))
    }

    /// The post that the video becomes in feed `feed_id`, given a readable
    /// date.
    pub open spec fn as_post(&self, feed_id: Seq<char>) -> PostText {
        PostText {
            guid: self.video_id(),
            title: self.snippet.title@,
            description: Some(self.snippet.description@),
            link: "https://www.youtube.com/watch?v="@ + self.video_id(),
            published: self.published()->0,
            feed_id,
        }
    }

    /// The id of the video itself.
    pub fn get_video_id(&self) -> (id: &str)
        ensures
            id@ == self.video_id(),
    {
        match &self.snippet.resource_id {
            Some(target) => target.video_id.as_str(),
            None => self.id.get_id(),
        }
    }

    /// Whether the video is private, deleted, or has no title or no id.
    pub fn is_unavailable(&self) -> (skip: bool)
        ensures
            skip == self.unavailable(),
    {
        let title = self.snippet.title.as_str();
        same_text(title, "Private video") || same_text(title, "Deleted video") || title.is_empty()
            || self.get_video_id().is_empty()
    }

    /// The post that the video becomes in feed `feed_id` when it is dated
    /// `published`.
    pub open spec fn as_post_dated(&self, feed_id: Seq<char>, published: Timestamp) -> PostText {
        PostText {
            guid: self.video_id(),
            title: self.snippet.title@,
            description: Some(self.snippet.description@),
            link: "https://www.youtube.com/watch?v="@ + self.video_id(),
            published,
            feed_id,
        }
    }

    /// The post for an available video; the video's date where it cannot be
    /// read.
    pub fn to_post(&self, feed_id: &str) -> (post: Result<Post, FetchError>)
        ensures
            self.published() is Some ==> post is Ok && post->Ok_0@ == self.as_post(feed_id@),
            self.published() is None ==> post == Err::<Post, FetchError>(
                FetchError::BadPublicationDate(self.snippet.published_at),
            ),
    {
        self.to_post_dated(feed_id, parse_rfc3339(self.snippet.published_at.as_str()))
    }

    /// The post for an available video, given the instant that was read
    /// out of its date; the video's date where none could be read.
    pub fn to_post_dated(&self, feed_id: &str, published: Option<Timestamp>) -> (post: Result<Post, FetchError>)
        ensures
            published matches Some(at) ==> post is Ok && post->Ok_0@ == self.as_post_dated(feed_id@, at),
            published is None ==> post == Err::<Post, FetchError>(
                FetchError::BadPublicationDate(self.snippet.published_at),
            ),
    {
        let video_id = self.get_video_id();
        match published {
            Some(published) => Ok(
                Post::new(
                    video_id.to_owned(),
                    self.snippet.title.clone(),
                    Some(self.snippet.description.clone()),
                    join("https://www.youtube.com/watch?v=", video_id),
                    published,
                    feed_id.to_owned(),
                ),
            ),
            None => Err(FetchError::BadPublicationDate(self.snippet.published_at.clone())),
        }
    }
}

/// The videos of a page that are available, in page order.
pub open spec fn available(items: Seq<YouTubeVideo>) -> Seq<YouTubeVideo> {
    items.filter(|v: YouTubeVideo| !v.unavailable())
}

/// The posts of a page's available videos, in page order, given that their
/// dates are readable.
pub open spec fn video_posts(items: Seq<YouTubeVideo>, feed_id: Seq<char>) -> Seq<PostText> {
    available(items).map_values(|v: YouTubeVideo| v.as_post(feed_id))
}

/// Position of the first available video of the page whose date cannot be
/// read.
pub open spec fn first_unreadable_date(items: Seq<YouTubeVideo>, at: int) -> bool {
    &&& 0 <= at < items.len()
    &&& !items[at].unavailable()
    &&& items[at].published() is None
    &&& forall|i: int| 0 <= i < at && !(#[trigger] items[i]).unavailable() ==> items[i].published() is Some
}

/// Every available video of the page has a readable date.
pub open spec fn dates_readable(items: Seq<YouTubeVideo>) -> bool {
    forall|i: int| 0 <= i < items.len() && !(#[trigger] items[i]).unavailable() ==> items[i].published() is Some
}

/// Where a video feed's playlist is found.
#[derive(Debug, Clone)]
pub enum PlaylistSource {
    /// The playlist is named outright.
    Playlist(String),
    /// The playlist is the uploads playlist of this channel.
    Channel(String),
    /// The channel is that of this user name.
    Username(String),
}

/// What to ask of the video service.
#[derive(Debug, Clone)]
pub enum VideoRequest {
    /// The channel of a user name, at this address.
    LookupUsername { username: String, url: String },
    /// The uploads playlist of a channel, at this address.
    LookupChannel { channel_id: String, url: String },
    /// The videos of a playlist, at this address.
    ListPlaylist { playlist_id: String, url: String },
}

/// Talks to the video service on behalf of one API key.
#[derive(Debug, Clone)]
pub struct YouTubeClient {
    pub api_key: String,
}

impl YouTubeClient {
    pub fn new(api_key: String) -> (client: YouTubeClient)
        ensures
            client.api_key == api_key,
    {
        YouTubeClient { api_key }
    }

    /// How many videos the configuration asks for; ten where it names no
    /// number, and fifty at least.
    pub open spec fn wanted(config: &YouTubeConfig) -> u64 {
        let asked = match config.max_results {
            Some(n) => n,
            None => DEFAULT_MAX_RESULTS,
        };
        if asked > MIN_FETCH_COUNT {
            asked
        } else {
            MIN_FETCH_COUNT
        }
    }

    /// The request for the videos of a playlist.
    pub fn list_playlist(&self, config: &YouTubeConfig, playlist_id: String) -> (request: VideoRequest)
        ensures
            request matches VideoRequest::ListPlaylist { playlist_id: id, url } && id == playlist_id && url@
                == "https://www.googleapis.com/youtube/v3/playlistItems?part=snippet&playlistId="@
                + playlist_id@ + "&maxResults="@ + decimal(YouTubeClient::wanted(config) as nat)
                + "&key="@ + self.api_key@,
    {
        let asked: u64 = match config.max_results {
            Some(n) => n,
            None => DEFAULT_MAX_RESULTS,
        };
        let url = self.playlist_url(playlist_id.as_str(), YouTubeClient::fetch_count(asked));
        VideoRequest::ListPlaylist { playlist_id, url }
    }

    /// The request that the listing of a channel's videos starts with: for
    /// the playlist where one is configured, else for the channel's uploads
    /// playlist, else for the user's channel.  A configuration that names
    /// none of them is refused.
    pub fn fetch_channel_videos(&self, config: &YouTubeConfig) -> (request: Result<VideoRequest, FetchError>)
        ensures
            match (config.playlist_id, config.channel_id, config.username) {
                (Some(id), _, _) => request matches Ok(VideoRequest::ListPlaylist { playlist_id, .. })
                    && playlist_id == id,
                (None, Some(id), _) => request matches Ok(VideoRequest::LookupChannel { channel_id, url })
                    && channel_id == id && url@
                    == "https://www.googleapis.com/youtube/v3/channels?part=contentDetails&id="@ + id@
                    + "&key="@ + self.api_key@,
                (None, None, Some(name)) => request matches Ok(
                    VideoRequest::LookupUsername { username, url },
                ) && username == name && url@
                    == "https://www.googleapis.com/youtube/v3/channels?part=id&forUsername="@ + name@
                    + "&key="@ + self.api_key@,
                (None, None, None) => request matches Err(FetchError::MissingVideoSource),
            },
    {
        match YouTubeClient::playlist_source(config) {
            Ok(PlaylistSource::Playlist(id)) => Ok(self.list_playlist(config, id)),
            Ok(PlaylistSource::Channel(id)) => {
                let url = self.channel_lookup_url(id.as_str());
                Ok(VideoRequest::LookupChannel { channel_id: id, url })
            },
            Ok(PlaylistSource::Username(name)) => {
                let url = self.username_lookup_url(name.as_str());
                Ok(VideoRequest::LookupUsername { username: name, url })
            },
            Err(error) => Err(error),
        }
    }

    /// The request that follows the answer to a lookup: after the lookup
    /// of a user name that of the first channel found, after the lookup of
    /// a channel the listing of its uploads playlist.  An answer that names
    /// no channel ends the listing as a failure, and so does an answer that
    /// does not fit the request.
    pub fn after_lookup(&self, config: &YouTubeConfig, asked: &VideoRequest, answer: &LookupAnswer) -> (request: Result<
        VideoRequest,
        FetchError,
    >)
        ensures
            match (*asked, *answer) {
                (VideoRequest::LookupUsername { username, .. }, LookupAnswer::Channels(found)) => if found.items@.len()
                    > 0 {
                    request matches Ok(VideoRequest::LookupChannel { channel_id, url }) && channel_id
                        == found.items@[0].id && url@
                        == "https://www.googleapis.com/youtube/v3/channels?part=contentDetails&id="@
                        + channel_id@ + "&key="@ + self.api_key@
                } else {
                    request matches Err(FetchError::UserNotFound(name)) && name@ == username@
                },
                (VideoRequest::LookupChannel { channel_id, .. }, LookupAnswer::Uploads(found)) => if found.items@.len()
                    > 0 {
                    request matches Ok(VideoRequest::ListPlaylist { playlist_id, .. }) && playlist_id
                        == found.items@[0].content_details.related_playlists.uploads
                } else {
                    request matches Err(FetchError::ChannelNotFound(id)) && id@ == channel_id@
                },
                _ => request matches Err(FetchError::MissingVideoSource),
            },
    {
        match (asked, answer) {
            (VideoRequest::LookupUsername { username, .. }, LookupAnswer::Channels(found)) => {
                match YouTubeClient::accept_username(username.as_str(), found) {
                    Ok(channel_id) => {
                        let url = self.channel_lookup_url(channel_id.as_str());
                        Ok(VideoRequest::LookupChannel { channel_id, url })
                    },
                    Err(error) => Err(error),
                }
            },
            (VideoRequest::LookupChannel { channel_id, .. }, LookupAnswer::Uploads(found)) => {
                match YouTubeClient::accept_channel(channel_id.as_str(), found) {
                    Ok(playlist_id) => Ok(self.list_playlist(config, playlist_id)),
                    Err(error) => Err(error),
                }
            },
            _ => Err(FetchError::MissingVideoSource),
        }
    }

    /// Where to look for the playlist: the playlist id where one is
    /// configured, else the channel id, else the user name.  A feed that
    /// names none of them is refused.
    pub fn playlist_source(config: &YouTubeConfig) -> (source: Result<PlaylistSource, FetchError>)
        ensures
            source == match (config.playlist_id, config.channel_id, config.username) {
                (Some(id), _, _) => Ok::<PlaylistSource, FetchError>(PlaylistSource::Playlist(id)),
                (None, Some(id), _) => Ok(PlaylistSource::Channel(id)),
                (None, None, Some(name)) => Ok(PlaylistSource::Username(name)),
                (None, None, None) => Err(FetchError::MissingVideoSource),
            },
    {
        if let Some(id) = &config.playlist_id {
            Ok(PlaylistSource::Playlist(id.clone()))
        } else if let Some(id) = &config.channel_id {
            Ok(PlaylistSource::Channel(id.clone()))
        } else if let Some(name) = &config.username {
            Ok(PlaylistSource::Username(name.clone()))
        } else {
            Err(FetchError::MissingVideoSource)
        }
    }

    /// The uploads playlist of the first channel of a lookup's answer.
    pub fn uploads_playlist(response: &ChannelResponse) -> (playlist: Option<String>)
        ensures
            response.items@.len() == 0 ==> playlist is None,
            response.items@.len() > 0 ==> playlist == Some(
                response.items@[0].content_details.related_playlists.uploads,
            ),
    {
        if response.items.len() == 0 {
            None
        } else {
            Some(response.items[0].content_details.related_playlists.uploads.clone())
        }
    }

    /// The playlist found by looking a channel up; the channel id is
    /// reported where the answer names no channel.
    pub fn accept_channel(channel_id: &str, response: &ChannelResponse) -> (playlist: Result<
        String,
        FetchError,
    >)
        ensures
            response.items@.len() > 0 ==> playlist == Ok::<String, FetchError>(
                response.items@[0].content_details.related_playlists.uploads,
            ),
            response.items@.len() == 0 ==> (playlist matches Err(FetchError::ChannelNotFound(id)) && id@
                == channel_id@),
    {
        match YouTubeClient::uploads_playlist(response) {
            Some(playlist) => Ok(playlist),
            None => Err(FetchError::ChannelNotFound(channel_id.to_owned())),
        }
    }

    /// The channel found by looking a user name up: the first of the
    /// user's channels.  The name is reported where the answer names no
    /// channel.
    pub fn accept_username(username: &str, response: &ChannelIdResponse) -> (channel: Result<
        String,
        FetchError,
    >)
        ensures
            response.items@.len() > 0 ==> channel == Ok::<String, FetchError>(response.items@[0].id),
            response.items@.len() == 0 ==> (channel matches Err(FetchError::UserNotFound(name)) && name@
                == username@),
    {
        if response.items.len() == 0 {
            Err(FetchError::UserNotFound(username.to_owned()))
        } else {
            Ok(response.items[0].id.clone())
        }
    }

    /// Where a channel's uploads playlist is asked for.
    pub fn channel_lookup_url(&self, channel_id: &str) -> (url: String)
        ensures
            url@ == "https://www.googleapis.com/youtube/v3/channels?part=contentDetails&id="@
                + channel_id@ + "&key="@ + self.api_key@,
    {
        let a = join("https://www.googleapis.com/youtube/v3/channels?part=contentDetails&id=", channel_id);
        let b = join(a.as_str(), "&key=");
        join(b.as_str(), self.api_key.as_str())
    }

    /// Where the channel of a user name is asked for.
    pub fn username_lookup_url(&self, username: &str) -> (url: String)
        ensures
            url@ == "https://www.googleapis.com/youtube/v3/channels?part=id&forUsername="@ + username@
                + "&key="@ + self.api_key@,
    {
        let a = join("https://www.googleapis.com/youtube/v3/channels?part=id&forUsername=", username);
        let b = join(a.as_str(), "&key=");
        join(b.as_str(), self.api_key.as_str())
    }

    /// Where the videos of a playlist are asked for, `count` of them.
    pub fn playlist_url(&self, playlist_id: &str, count: u64) -> (url: String)
        ensures
            url@ == "https://www.googleapis.com/youtube/v3/playlistItems?part=snippet&playlistId="@
                + playlist_id@ + "&maxResults="@ + decimal(count as nat) + "&key="@ + self.api_key@,
    {
        let a = join(
            "https://www.googleapis.com/youtube/v3/playlistItems?part=snippet&playlistId=",
            playlist_id,
        );
        let b = join(a.as_str(), "&maxResults=");
        let c = join(b.as_str(), to_decimal(count).as_str());
        let d = join(c.as_str(), "&key=");
        join(d.as_str(), self.api_key.as_str())
    }

    /// How many videos to ask for: the configured number, but fifty at least.
    pub fn fetch_count(max_results: u64) -> (count: u64)
        ensures
            count == if max_results > MIN_FETCH_COUNT {
                max_results
            } else {
                MIN_FETCH_COUNT
            },
    {
        if max_results > MIN_FETCH_COUNT {
            max_results
        } else {
            MIN_FETCH_COUNT
        }
    }

    /// The posts of a page's available videos, in page order.  The first
    /// available video whose date cannot be read fails the page.
    pub fn convert_videos(response: &YouTubeResponse, feed_id: &str) -> (posts: Result<Vec<Post>, FetchError>)
        ensures
            posts is Ok <==> dates_readable(response.items@),
            posts matches Ok(found) ==> texts(found@) == video_posts(response.items@, feed_id@),
            posts matches Err(error) ==> exists|at: int| #[trigger]
                first_unreadable_date(response.items@, at) && error == FetchError::BadPublicationDate(
                    response.items@[at].snippet.published_at,
                ),
    {
        let ghost keep = |v: YouTubeVideo| !v.unavailable();
        let mut posts: Vec<Post> = Vec::new();
        let mut i: usize = 0;
        assert(response.items@.take(0).filter(keep) == Seq::<YouTubeVideo>::empty()) by {
            reveal(Seq::filter);
        }
        while i < response.items.len()
            invariant
                i <= response.items@.len(),
                keep == |v: YouTubeVideo| !v.unavailable(),
                texts(posts@) == response.items@.take(i as int).filter(keep).map_values(|v: YouTubeVideo| v.as_post(feed_id@)),
                forall|k: int|
                    0 <= k < i && !(#[trigger] response.items@[k]).unavailable()
                        ==> response.items@[k].published() is Some,
            decreases response.items@.len() - i,
        {
            let video = &response.items[i];
            proof {
                crate::ledger::lemma_filter_push(response.items@.take(i as int), *video, keep);
                assert(response.items@.take(i + 1) == response.items@.take(i as int).push(*video));
            }
            if !video.is_unavailable() {
                match video.to_post(feed_id) {
                    Ok(post) => {
                        let ghost before = posts@;
                        posts.push(post);
                        assert(texts(posts@) =~= texts(before).push(video.as_post(feed_id@)));
                        assert(response.items@.take(i as int).filter(keep).push(*video).map_values(
                            |v: YouTubeVideo| v.as_post(feed_id@),
                        ) =~= texts(before).push(video.as_post(feed_id@)));
                    },
                    Err(error) => {
                        assert(first_unreadable_date(response.items@, i as int));
                        return Err(error);
                    },
                }
            }
            i += 1;
        }
        assert(response.items@.take(i as int) == response.items@);
        Ok(posts)
    }

    /// What a playlist page yields.  A page that the service did not answer
    /// with a success status fails with that status and the answer's
    /// text; else the posts of its available videos come back, the most
    /// recent first.
    pub fn accept_playlist(status: u16, error_text: &str, response: &YouTubeResponse, feed_id: &str) -> (posts: Result<
        Vec<Post>,
        FetchError,
    >)
        ensures
            !crate::feed::is_success(status) ==> (posts matches Err(
                FetchError::VideoApi { status: code, body },
            ) && code == status && body@ == error_text@),
            crate::feed::is_success(status) ==> (posts is Ok <==> dates_readable(response.items@)),
            crate::feed::is_success(status) ==> (posts matches Ok(sorted) ==> texts(sorted@)
                == newest_first(video_posts(response.items@, feed_id@))),
            crate::feed::is_success(status) ==> (posts matches Err(error) ==> exists|at: int| #[trigger]
                first_unreadable_date(response.items@, at) && error == FetchError::BadPublicationDate(
                    response.items@[at].snippet.published_at,
                )),
    {
        if !crate::feed::status_is_success(status) {
            return Err(FetchError::VideoApi { status, body: error_text.to_owned() });
        }
        match YouTubeClient::convert_videos(response, feed_id) {
            Ok(found) => {
                Ok(sort_newest_first(found))
            },
            Err(error) => Err(error),
        }
    }
}

} // verus!
