//! The data that the Gitter REST API sends and takes.

use crate::time::Timestamp;
use vstd::prelude::*;

verus! {

#[derive(Debug, Clone, Copy, PartialEq, Eq, Structural)]
pub enum GithubType {
    /// A room that represents a GitHub Organisation.
    Org,
    /// A room that represents a GitHub Repository.
    Repo,
    /// A one-to-one chat.
    OneToOne,
    /// A Gitter channel nested under a GitHub Organisation.
    OrgChannel,
    /// A Gitter channel nested under a GitHub Repository.
    RepoChannel,
    /// A Gitter channel nested under a GitHub User.
    UserChannel,
}

/// A Room in Gitter can represent a GitHub Organization, a GitHub Repository,
/// a Gitter Channel or a One-to-one conversation.
/// In the case of the Organizations and Repositories,
/// the access control policies are inherited from GitHub.
#[derive(Debug, Clone, PartialEq)]
pub struct Room {
    /// Room ID
    pub id: String,
    /// Room name
    pub name: String,
    /// Room topic. (default: GitHub repo description)
    pub topic: String,
    /// Room URI on Gitter
    pub uri: Option<String>,
    /// Indicates if the room is a one-to-one chat
    pub one_to_one: bool,
    /// Count of users in the room
    pub user_count: i32,
    /// Number of unread messages for the current user
    pub unread_items: i32,
    /// Number of unread mentions for the current user
    pub mentions: i32,
    /// Last time the current user accessed the room
    pub last_access_time: Option<Timestamp>,
    /// Indicates if the current user has disabled notifications
    pub lurk: bool,
    /// Path to the room on gitter
    pub url: String,
    /// Type of the room
    pub github_type: GithubType,
    /// Tags that define the room
    pub tags: Option<Vec<String>>,
    /// Determines, whether current user is room member or not
    pub room_member: bool,
    /// Room version
    pub version: Option<i32>,
}

/// Join room request model
#[derive(Debug, Clone, PartialEq)]
pub struct JoinRoom {
    /// Room ID to join
    pub id: Option<String>,
    /// Room URI to join
    pub uri: Option<String>,
}

/// What a [`JoinRoom`] holds.
pub struct JoinRoomView {
    pub id: Option<Seq<char>>,
    pub uri: Option<Seq<char>>,
}

impl View for JoinRoom {
    type V = JoinRoomView;

    open spec fn view(&self) -> JoinRoomView {
        JoinRoomView { id: self.id.deep_view(), uri: self.uri.deep_view() }
    }
}

impl JoinRoom {
    /// Create join room request from room ID
    pub fn from_id(id: &str) -> (r: JoinRoom)
        ensures
            r@ == (JoinRoomView { id: Some(id@), uri: None }),
    {
        JoinRoom { id: Some(id.to_owned()), uri: None }
    }

    /// Create join room request from URI
    pub fn from_uri(uri: &str) -> (r: JoinRoom)
        ensures
            r@ == (JoinRoomView { id: None, uri: Some(uri@) }),
    {
        JoinRoom { id: None, uri: Some(uri.to_owned()) }
    }
}

/// Update room request model
#[derive(Debug, Clone, PartialEq)]
pub struct UpdateRoom {
    /// Room topic
    pub topic: Option<String>,
    /// Whether the room is indexed by search engines
    pub noindex: Option<bool>,
    /// Tags that define the room
    pub tags: Option<String>,
}

/// What an [`UpdateRoom`] holds.
pub struct UpdateRoomView {
    pub topic: Option<Seq<char>>,
    pub noindex: Option<bool>,
    pub tags: Option<Seq<char>>,
}

impl View for UpdateRoom {
    type V = UpdateRoomView;

    open spec fn view(&self) -> UpdateRoomView {
        UpdateRoomView {
            topic: self.topic.deep_view(),
            noindex: self.noindex,
            tags: self.tags.deep_view(),
        }
    }
}

impl UpdateRoom {
    /// Create update room request only with topic parameter
    pub fn from_topic(topic: &str) -> (r: UpdateRoom)
        ensures
            r@ == (UpdateRoomView { topic: Some(topic@), noindex: None, tags: None }),
    {
        UpdateRoom { topic: Some(topic.to_owned()), noindex: None, tags: None }
    }

    /// Create update room request only with noindex parameter
    pub fn from_noindex(noindex: bool) -> (r: UpdateRoom)
        ensures
            r@ == (UpdateRoomView { topic: None, noindex: Some(noindex), tags: None }),
    {
        UpdateRoom { topic: None, noindex: Some(noindex), tags: None }
    }

    /// Create update room request only with tags parameter
    pub fn from_tags(tags: &str) -> (r: UpdateRoom)
        ensures
            r@ == (UpdateRoomView { topic: None, noindex: None, tags: Some(tags@) }),
    {
        UpdateRoom { topic: None, noindex: None, tags: Some(tags.to_owned()) }
    }
}

#[derive(Debug, Clone, PartialEq)]
pub struct User {
    /// Gitter User ID
    pub id: String,
    /// Gitter/GitHub username
    pub username: String,
    /// Gitter/GitHub user real name
    pub display_name: String,
    /// Path to the user on Gitter
    pub url: String,
    /// User avatar URI (small)
    pub avatar_url_small: String,
    /// User avatar URI (medium)
    pub avatar_url_medium: String,
}

#[derive(Debug, Clone, PartialEq)]
pub struct Message {
    /// ID of the message
    pub id: String,
    /// The message as it was written, in plain-text/markdown
    pub text: String,
    /// HTML formatted message
    pub html: String,
    /// When the message was sent
    pub sent: Timestamp,
    /// When the message was edited, if it was
    pub edited_at: Option<Timestamp>,
    /// User that sent the message
    pub from: User,
    /// Boolean that indicates if the current user has read the message.
    pub unread: bool,
    /// Number of users that have read the message
    pub read_by: i32,
    /// List of URLs present in the message
    pub urls: Vec<Url>,
    /// List of @Mentions in the message
    pub mentions: Vec<Mention>,
    /// List of #Issues referenced in the message
    pub issues: Vec<Issue>,
    /// Version
    pub version: i32,
}

/// Send message request model
#[derive(Debug, Clone, PartialEq)]
pub struct OutMessage {
    /// The message as it was written, in plain-text/markdown
    pub text: String,
}

impl View for OutMessage {
    type V = Seq<char>;

    open spec fn view(&self) -> Seq<char> {
        self.text@
    }
}

/// Mention holds data about mentioned user in the message
#[derive(Debug, Clone, PartialEq)]
pub struct Mention {
    /// User's username
    pub screen_name: String,
    /// Gitter User ID
    pub user_id: String,
}

/// Issue references issue in the message
#[derive(Debug, Clone, PartialEq)]
pub struct Issue {
    /// Issue number
    pub number: String,
}

/// URL presented in the message
#[derive(Debug, Clone, PartialEq)]
pub struct Url {
    /// URL
    pub url: String,
}

/// Search rooms result
#[derive(Debug, Clone, PartialEq)]
pub struct SearchResult {
    pub rooms: Vec<Room>,
}

#[derive(Debug, Clone, PartialEq)]
pub struct Group {
    /// Group ID
    pub id: String,
    /// Group name.
    pub name: String,
    /// Group URI on Gitter.
    pub uri: String,
    /// Security descriptor. Describes the backing object we get permissions from.
    pub backed_by: BackedBy,
    /// Base avatar URL (add s parameter to size)
    pub avatar_url: String,
}

/// Security descriptor. Describes the backing object we get permissions from.
#[derive(Debug, Clone, PartialEq)]
pub struct BackedBy {
    pub group_type: Option<GroupType>,
    /// Represents how we find the backing object given the type
    pub link_path: Option<String>,
}

#[derive(Debug, Clone, Copy, PartialEq, Eq, Structural)]
pub enum GroupType {
    OneToOne,
    GhRepo,
    GhOrg,
    GhUser,
}

/// Unread messages and mentions
#[derive(Debug, Clone, PartialEq)]
pub struct UnreadItems {
    /// Unread messages
    pub chat: Option<Vec<String>>,
    /// Mentioned messaged
    pub mention: Option<Vec<String>>,
}

/// What an [`UnreadItems`] holds.
pub struct UnreadItemsView {
    pub chat: Option<Seq<Seq<char>>>,
    pub mention: Option<Seq<Seq<char>>>,
}

impl View for UnreadItems {
    type V = UnreadItemsView;

    open spec fn view(&self) -> UnreadItemsView {
        UnreadItemsView { chat: self.chat.deep_view(), mention: self.mention.deep_view() }
    }
}

impl UnreadItems {
    /// The request that marks the messages with these ids as read.
    pub fn from_msg_ids(msg_ids: &Vec<String>) -> (r: UnreadItems)
        ensures
            r@ == (UnreadItemsView { chat: Some(msg_ids.deep_view()), mention: None }),
    {
        let ids = msg_ids.clone();
        assert(ids.deep_view() =~= msg_ids.deep_view());
        UnreadItems { chat: Some(ids), mention: None }
    }
}

/// Github organization
#[derive(Debug, Clone, PartialEq)]
pub struct Organization {
    /// Organization ID
    pub id: u64,
    /// Organization name
    pub name: String,
    /// Organization avatar url
    pub avatar_url: Option<String>,
    /// Organization respective room
    pub room: Option<Room>,
}

/// Github repository info
#[derive(Debug, Clone, PartialEq)]
pub struct Repository {
    /// Repository ID
    pub id: u64,
    /// Repository name
    pub name: String,
    /// Repository URI
    pub uri: String,
    /// Determines whether repository is private or not
    pub private: bool,
    /// Repository respective room
    pub room: Option<Room>,
}

/// Gitter channel
#[derive(Debug, Clone, PartialEq)]
pub struct Channel {
    /// Channel ID
    pub id: String,
    /// Channel name
    pub name: String,
    /// Channel topic
    pub topic: String,
    /// Channel URI
    pub uri: Option<String>,
    /// Is channel one-to-one
    pub one_to_one: bool,
    /// Unread items in channel
    pub unread_items: i32,
    /// Mentions in channel
    pub mentions: i32,
    /// Last access date and time
    pub last_access_time: Option<Timestamp>,
    pub lurk: bool,
    pub url: String,
    pub github_type: GithubType,
    pub security: String,
}

} // verus!
