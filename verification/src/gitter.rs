//! The requests of the Gitter REST API, and what is read out of its
//! responses. Nothing here talks to the network: each method of [`Gitter`]
//! describes one request, for the caller to send.

use crate::models::{
    JoinRoom, JoinRoomView, OutMessage, Room, SearchResult, UnreadItems, UnreadItemsView,
    UpdateRoom, UpdateRoomView, User,
};
use crate::text::{decimal, decimal_text, same_text};
use std::borrow::Cow;
use vstd::prelude::*;
use vstd::string::*;

verus! {

/// Where the API lives.
pub const API_BASE_URL: &'static str = "https://api.gitter.im/v1";

/// How many seconds a request may take.
pub const REQUEST_TIMEOUT_SECS: u64 = 40;

#[derive(Debug, Clone, PartialEq, Eq)]
pub enum ApiError {
    EmptyResponse,
    BadResponse(String),
    BadRequest(String),
    RoomNotFound,
    UserNotFound,
    Unknown(String),
}

pub type ApiResult<T> = Result<T, ApiError>;

/// `serde_urlencoded::ser::Error`, the error of the form encoder.
#[verifier::external_type_specification]
#[verifier::external_body]
pub struct ExFormError(serde_urlencoded::ser::Error);

/// The `application/x-www-form-urlencoded` text of a list of name and
/// value pairs, as `serde_urlencoded::to_string` writes it.
pub uninterp spec fn form_urlencoded(pairs: Seq<(Seq<char>, Seq<char>)>) -> Seq<char>;

/// `serde_urlencoded::to_string` on a list of pairs of strings. Its result
/// depends on the pairs alone. It is `Ok`: the serializer takes a sequence,
/// takes each tuple of two as a pair, takes a string as a name and as a
/// value, and fails on nothing else that such a list holds.
#[verifier::external_body]
fn form_encode(pairs: &Vec<(String, String)>) -> (r: Result<String, serde_urlencoded::ser::Error>)
    ensures
        r is Ok,
        r is Ok ==> r->Ok_0@ == form_urlencoded(pairs.deep_view()),
{
    serde_urlencoded::to_string(pairs)
}

/// The text of a string that is either borrowed or owned.
fn text_of<'b>(text: &'b Cow<'_, str>) -> (r: &'b str)
    ensures
        r@ == text@,
{
    match text {
        Cow::Borrowed(borrowed) => borrowed,
        Cow::Owned(owned) => owned.as_str(),
    }
}

/// Pagination params
#[derive(Debug)]
pub struct Pagination<'a> {
    /// Skip n messages
    pub skip: i32,
    /// Get messages before beforeId
    pub before_id: Option<Cow<'a, str>>,
    /// Get messages after afterId
    pub after_id: Option<Cow<'a, str>>,
    /// Maximum number of messages to return
    pub limit: i32,
    /// Search query
    pub query: Option<Cow<'a, str>>,
}

impl<'a> Pagination<'a> {
    /// The name and value of `afterId`, if it is set.
    pub open spec fn after_pair(self) -> Seq<(Seq<char>, Seq<char>)> {
        match self.after_id {
            Some(id) => seq![("afterId"@, id@)],
            None => Seq::empty(),
        }
    }

    /// The name and value of `beforeId`, if it is set.
    pub open spec fn before_pair(self) -> Seq<(Seq<char>, Seq<char>)> {
        match self.before_id {
            Some(id) => seq![("beforeId"@, id@)],
            None => Seq::empty(),
        }
    }

    /// The name and value of `skip`, if it is positive.
    pub open spec fn skip_pair(self) -> Seq<(Seq<char>, Seq<char>)> {
        if self.skip > 0 {
            seq![("skip"@, decimal_text(self.skip as nat))]
        } else {
            Seq::empty()
        }
    }

    /// The name and value of `limit`, if it is positive.
    pub open spec fn limit_pair(self) -> Seq<(Seq<char>, Seq<char>)> {
        if self.limit > 0 {
            seq![("limit"@, decimal_text(self.limit as nat))]
        } else {
            Seq::empty()
        }
    }

    /// The parameters that are set, in the order in which they are written:
    /// `afterId`, `beforeId`, `skip`, `limit`.
    pub open spec fn pairs(self) -> Seq<(Seq<char>, Seq<char>)> {
        self.after_pair() + self.before_pair() + self.skip_pair() + self.limit_pair()
    }

    /// The parameters as a query string.
    pub fn encode(self) -> (r: String)
        ensures
            r@ == form_urlencoded(self.pairs()),
    {
        let mut values: Vec<(String, String)> = Vec::new();
        if let Some(after_id) = self.after_id {
            values.push(("afterId".to_owned(), text_of(&after_id).to_owned()));
        }
        assert(values.deep_view() =~= self.after_pair());
        if let Some(before_id) = self.before_id {
            values.push(("beforeId".to_owned(), text_of(&before_id).to_owned()));
        }
        assert(values.deep_view() =~= self.after_pair() + self.before_pair());
        if self.skip > 0 {
            values.push(("skip".to_owned(), decimal(self.skip as u32)));
        }
        assert(values.deep_view() =~= self.after_pair() + self.before_pair() + self.skip_pair());
        if self.limit > 0 {
            values.push(("limit".to_owned(), decimal(self.limit as u32)));
        }
        assert(values.deep_view() =~= self.pairs());
        match form_encode(&values) {
            Ok(text) => text,
            Err(_) => String::new(),
        }
    }
}

/// The HTTP method of a request.
#[derive(Debug, Clone, Copy, PartialEq, Eq, Structural)]
pub enum Method {
    Get,
    Post,
    Put,
    Delete,
}

/// What a request carries as its JSON body.
#[derive(Debug, Clone, PartialEq)]
pub enum Body {
    Empty,
    Message(OutMessage),
    Join(JoinRoom),
    Update(UpdateRoom),
    Read(UnreadItems),
}

/// What a [`Body`] holds.
pub enum BodyView {
    Empty,
    Message(Seq<char>),
    Join(JoinRoomView),
    Update(UpdateRoomView),
    Read(UnreadItemsView),
}

impl View for Body {
    type V = BodyView;

    open spec fn view(&self) -> BodyView {
        match self {
            Body::Empty => BodyView::Empty,
            Body::Message(message) => BodyView::Message(message@),
            Body::Join(room) => BodyView::Join(room@),
            Body::Update(room) => BodyView::Update(room@),
            Body::Read(items) => BodyView::Read(items@),
        }
    }
}

/// One request to the API.
#[derive(Debug, Clone, PartialEq)]
pub struct Request {
    pub method: Method,
    pub url: String,
    pub body: Body,
}

/// What a [`Request`] holds.
pub struct RequestView {
    pub method: Method,
    pub url: Seq<char>,
    pub body: BodyView,
}

impl View for Request {
    type V = RequestView;

    open spec fn view(&self) -> RequestView {
        RequestView { method: self.method, url: self.url@, body: self.body@ }
    }
}

impl RequestView {
    /// The request that only fetches `url`.
    pub open spec fn get(url: Seq<char>) -> RequestView {
        RequestView { method: Method::Get, url, body: BodyView::Empty }
    }

    /// The request that deletes what is at `url`.
    pub open spec fn delete(url: Seq<char>) -> RequestView {
        RequestView { method: Method::Delete, url, body: BodyView::Empty }
    }

    /// The request that posts `body` to `url`.
    pub open spec fn post(url: Seq<char>, body: BodyView) -> RequestView {
        RequestView { method: Method::Post, url, body }
    }

    /// The request that puts `body` at `url`.
    pub open spec fn put(url: Seq<char>, body: BodyView) -> RequestView {
        RequestView { method: Method::Put, url, body }
    }
}

fn get(url: String) -> (r: Request)
    ensures
        r@ == RequestView::get(url@),
{
    Request { method: Method::Get, url, body: Body::Empty }
}

fn delete(url: String) -> (r: Request)
    ensures
        r@ == RequestView::delete(url@),
{
    Request { method: Method::Delete, url, body: Body::Empty }
}

fn post(url: String, body: Body) -> (r: Request)
    ensures
        r@ == RequestView::post(url@, body@),
{
    Request { method: Method::Post, url, body }
}

fn put(url: String, body: Body) -> (r: Request)
    ensures
        r@ == RequestView::put(url@, body@),
{
    Request { method: Method::Put, url, body }
}

/// Whether the room has the address `uri`.
pub open spec fn room_has_uri(room: Room, uri: Seq<char>) -> bool {
    room.uri matches Some(own) && own@ == uri
}

/// The first of `rooms` that has the address `uri`.
pub open spec fn first_room_with_uri(rooms: Seq<Room>, uri: Seq<char>) -> Option<Room>
    decreases rooms.len(),
{
    if rooms.len() == 0 {
        None
    } else if room_has_uri(rooms[0], uri) {
        Some(rooms[0])
    } else {
        first_room_with_uri(rooms.subrange(1, rooms.len() as int), uri)
    }
}

/// The first room with the address is a room of the list that has the
/// address, and no room before it has it; there is none only if no room of
/// the list has the address.
pub proof fn lemma_first_room_with_uri(rooms: Seq<Room>, uri: Seq<char>)
    ensures
        match first_room_with_uri(rooms, uri) {
            Some(room) => exists|i: int|
                0 <= i < rooms.len() && rooms[i] == room && room_has_uri(room, uri) && forall|
                    j: int,
                | 0 <= j < i ==> !room_has_uri(#[trigger] rooms[j], uri),
            None => forall|j: int| 0 <= j < rooms.len() ==> !room_has_uri(#[trigger] rooms[j], uri),
        },
    decreases rooms.len(),
{
    if rooms.len() > 0 && !room_has_uri(rooms[0], uri) {
        let tail = rooms.subrange(1, rooms.len() as int);
        lemma_first_room_with_uri(tail, uri);
        match first_room_with_uri(tail, uri) {
            Some(room) => {
                let i = choose|i: int|
                    0 <= i < tail.len() && tail[i] == room && room_has_uri(room, uri) && forall|
                        j: int,
                    | 0 <= j < i ==> !room_has_uri(#[trigger] tail[j], uri);
                assert(rooms[i + 1] == room);
                assert forall|j: int| 0 <= j < i + 1 implies !room_has_uri(
                    #[trigger] rooms[j],
                    uri,
                ) by {
                    if j > 0 {
                        assert(rooms[j] == tail[j - 1]);
                    }
                }
            },
            None => {
                assert forall|j: int| 0 <= j < rooms.len() implies !room_has_uri(
                    #[trigger] rooms[j],
                    uri,
                ) by {
                    if j > 0 {
                        assert(rooms[j] == tail[j - 1]);
                    }
                }
            },
        }
    }
}

/// The Gitter API as seen by the holder of one access token.
#[derive(Debug)]
pub struct Gitter<'a> {
    token: Cow<'a, str>,
    api_base_url: Cow<'a, str>,
}

impl<'a> Gitter<'a> {
    /// The access token.
    pub closed spec fn token(&self) -> Seq<char> {
        self.token@
    }

    /// The address that every request starts with.
    pub closed spec fn base(&self) -> Seq<char> {
        self.api_base_url@
    }

    /// New initializes the Gitter API client
    pub fn new(token: Cow<'a, str>) -> (r: Gitter<'a>)
        ensures
            r.token() == token@,
            r.base() == API_BASE_URL@,
    {
        Gitter { token, api_base_url: Cow::Borrowed(API_BASE_URL) }
    }

    /// The access token.
    pub fn access_token(&self) -> (r: &str)
        ensures
            r@ == self.token(),
    {
        text_of(&self.token)
    }

    /// The address that every request starts with.
    pub fn base_url(&self) -> (r: &str)
        ensures
            r@ == self.base(),
    {
        text_of(&self.api_base_url)
    }

    fn url1(&self, a: &str) -> (r: String)
        ensures
            r@ == self.base() + a@,
    {
        let mut url = text_of(&self.api_base_url).to_owned();
        url.append(a);
        url
    }

    fn url2(&self, a: &str, x: &str) -> (r: String)
        ensures
            r@ == self.base() + a@ + x@,
    {
        let mut url = self.url1(a);
        url.append(x);
        url
    }

    fn url3(&self, a: &str, x: &str, b: &str) -> (r: String)
        ensures
            r@ == self.base() + a@ + x@ + b@,
    {
        let mut url = self.url2(a, x);
        url.append(b);
        url
    }

    fn url4(&self, a: &str, x: &str, b: &str, y: &str) -> (r: String)
        ensures
            r@ == self.base() + a@ + x@ + b@ + y@,
    {
        let mut url = self.url3(a, x, b);
        url.append(y);
        url
    }

    fn url5(&self, a: &str, x: &str, b: &str, y: &str, c: &str) -> (r: String)
        ensures
            r@ == self.base() + a@ + x@ + b@ + y@ + c@,
    {
        let mut url = self.url4(a, x, b, y);
        url.append(c);
        url
    }

    /// The headers that go with every request: JSON both ways, and the
    /// token as bearer.
    pub fn default_headers(&self) -> (r: Vec<(String, String)>)
        ensures
            r.deep_view() == seq![
                ("Content-Type"@, "application/json"@),
                ("Accept"@, "application/json"@),
                ("Authorization"@, "Bearer "@ + self.token()),
            ],
    {
        let mut bearer = "Bearer ".to_owned();
        bearer.append(text_of(&self.token));
        let mut headers: Vec<(String, String)> = Vec::new();
        headers.push(("Content-Type".to_owned(), "application/json".to_owned()));
        headers.push(("Accept".to_owned(), "application/json".to_owned()));
        headers.push(("Authorization".to_owned(), bearer));
        assert(headers.deep_view() =~= seq![
            ("Content-Type"@, "application/json"@),
            ("Accept"@, "application/json"@),
            ("Authorization"@, "Bearer "@ + self.token()),
        ]);
        headers
    }

    /// Asks for the current user; the response is a list of users.
    pub fn get_user(&self) -> (r: Request)
        ensures
            r@ == RequestView::get(self.base() + "/user"@),
    {
        get(self.url1("/user"))
    }

    /// The current user out of the response to [`Gitter::get_user`]: the
    /// first of the list.
    pub fn pick_user(users: Vec<User>) -> (r: ApiResult<User>)
        ensures
            users@.len() > 0 ==> r == Ok::<User, ApiError>(users@[0]),
            users@.len() == 0 ==> r == Err::<User, ApiError>(ApiError::UserNotFound),
    {
        let mut users = users;
        if users.len() > 0 {
            Ok(users.swap_remove(0))
        } else {
            Err(ApiError::UserNotFound)
        }
    }

    /// Asks for the list of rooms the user is part of
    pub fn get_user_rooms(&self, user_id: &str) -> (r: Request)
        ensures
            r@ == RequestView::get(self.base() + "/user/"@ + user_id@ + "/rooms"@),
    {
        get(self.url3("/user/", user_id, "/rooms"))
    }

    /// Asks for the user's unread items and mentions in the room
    pub fn get_unread_items(&self, user_id: &str, room_id: &str) -> (r: Request)
        ensures
            r@ == RequestView::get(
                self.base() + "/user/"@ + user_id@ + "/rooms/"@ + room_id@ + "/unreadItems"@,
            ),
    {
        get(self.url5("/user/", user_id, "/rooms/", room_id, "/unreadItems"))
    }

    /// Marks the user's given room messages as read
    pub fn mark_messages_as_read(
        &self,
        user_id: &str,
        room_id: &str,
        message_ids: &Vec<String>,
    ) -> (r: Request)
        ensures
            r@ == RequestView::post(
                self.base() + "/user/"@ + user_id@ + "/rooms/"@ + room_id@ + "/unreadItems"@,
                BodyView::Read(
                    UnreadItemsView { chat: Some(message_ids.deep_view()), mention: None },
                ),
            ),
    {
        post(
            self.url5("/user/", user_id, "/rooms/", room_id, "/unreadItems"),
            Body::Read(UnreadItems::from_msg_ids(message_ids)),
        )
    }

    /// Asks for the list of rooms the current user is in
    pub fn get_rooms(&self) -> (r: Request)
        ensures
            r@ == RequestView::get(self.base() + "/rooms"@),
    {
        get(self.url1("/rooms"))
    }

    /// Asks for the user's GitHub Organizations and their respective Room if available.
    pub fn get_user_organizations(&self, user_id: &str) -> (r: Request)
        ensures
            r@ == RequestView::get(self.base() + "/user/"@ + user_id@ + "/orgs"@),
    {
        get(self.url3("/user/", user_id, "/orgs"))
    }

    /// Asks for the user's GitHub Repositories and their respective Room if available.
    pub fn get_user_repositories(&self, user_id: &str) -> (r: Request)
        ensures
            r@ == RequestView::get(self.base() + "/user/"@ + user_id@ + "/repos"@),
    {
        get(self.url3("/user/", user_id, "/repos"))
    }

    /// Asks for the Gitter channels nested under the user.
    pub fn get_user_channels(&self, user_id: &str) -> (r: Request)
        ensures
            r@ == RequestView::get(self.base() + "/user/"@ + user_id@ + "/channels"@),
    {
        get(self.url3("/user/", user_id, "/channels"))
    }

    /// Asks for the users in the room with the passed id
    pub fn get_users_in_room(&self, room_id: &str) -> (r: Request)
        ensures
            r@ == RequestView::get(self.base() + "/rooms/"@ + room_id@ + "/users"@),
    {
        get(self.url3("/rooms/", room_id, "/users"))
    }

    /// Asks for the room with the passed id
    pub fn get_room(&self, room_id: &str) -> (r: Request)
        ensures
            r@ == RequestView::get(self.base() + "/rooms/"@ + room_id@),
    {
        get(self.url2("/rooms/", room_id))
    }

    /// The address of the messages of a room, with the pagination as its
    /// query where one is given.
    pub open spec fn messages_url(
        self,
        room_id: Seq<char>,
        params: Option<Pagination>,
    ) -> Seq<char> {
        let plain = self.base() + "/rooms/"@ + room_id + "/chatMessages"@;
        match params {
            Some(p) => plain + "?"@ + form_urlencoded(p.pairs()),
            None => plain,
        }
    }

    /// Asks for a list of messages in a room.
    /// Pagination is optional.
    pub fn get_messages(&self, room_id: &str, params: Option<Pagination<'_>>) -> (r: Request)
        ensures
            r@ == RequestView::get(self.messages_url(room_id@, params)),
    {
        let mut full_url = self.url3("/rooms/", room_id, "/chatMessages");
        if let Some(p) = params {
            full_url.append("?");
            let query = p.encode();
            full_url.append(query.as_str());
        }
        get(full_url)
    }

    /// Asks for a message in a room.
    pub fn get_message(&self, room_id: &str, message_id: &str) -> (r: Request)
        ensures
            r@ == RequestView::get(
                self.base() + "/rooms/"@ + room_id@ + "/chatMessages/"@ + message_id@,
            ),
    {
        get(self.url4("/rooms/", room_id, "/chatMessages/", message_id))
    }

    /// Sends a message to a room
    pub fn send_message(&self, room_id: &str, text: &str) -> (r: Request)
        ensures
            r@ == RequestView::post(
                self.base() + "/rooms/"@ + room_id@ + "/chatMessages"@,
                BodyView::Message(text@),
            ),
    {
        post(
            self.url3("/rooms/", room_id, "/chatMessages"),
            Body::Message(OutMessage { text: text.to_owned() }),
        )
    }

    /// Update a message
    pub fn update_message(&self, room_id: &str, msg_id: &str, text: &str) -> (r: Request)
        ensures
            r@ == RequestView::put(
                self.base() + "/rooms/"@ + room_id@ + "/chatMessages/"@ + msg_id@,
                BodyView::Message(text@),
            ),
    {
        put(
            self.url4("/rooms/", room_id, "/chatMessages/", msg_id),
            Body::Message(OutMessage { text: text.to_owned() }),
        )
    }

    /// Joins a room
    pub fn join_room(&self, room_id: &str, user_id: &str) -> (r: Request)
        ensures
            r@ == RequestView::post(
                self.base() + "/user/"@ + user_id@ + "/rooms"@,
                BodyView::Join(JoinRoomView { id: Some(room_id@), uri: None }),
            ),
    {
        post(self.url3("/user/", user_id, "/rooms"), Body::Join(JoinRoom::from_id(room_id)))
    }

    /// Join a room (uri method)
    pub fn join_room_by_uri(&self, uri: &str) -> (r: Request)
        ensures
            r@ == RequestView::post(
                self.base() + "/rooms"@,
                BodyView::Join(JoinRoomView { id: None, uri: Some(uri@) }),
            ),
    {
        post(self.url1("/rooms"), Body::Join(JoinRoom::from_uri(uri)))
    }

    /// Update a room topic
    pub fn update_room_topic(&self, room_id: &str, topic: &str) -> (r: Request)
        ensures
            r@ == RequestView::post(
                self.base() + "/rooms/"@ + room_id@,
                BodyView::Update(
                    UpdateRoomView { topic: Some(topic@), noindex: None, tags: None },
                ),
            ),
    {
        post(self.url2("/rooms/", room_id), Body::Update(UpdateRoom::from_topic(topic)))
    }

    /// Update a room noindex (indexing in search engines)
    pub fn update_room_noindex(&self, room_id: &str, noindex: bool) -> (r: Request)
        ensures
            r@ == RequestView::post(
                self.base() + "/rooms/"@ + room_id@,
                BodyView::Update(
                    UpdateRoomView { topic: None, noindex: Some(noindex), tags: None },
                ),
            ),
    {
        post(self.url2("/rooms/", room_id), Body::Update(UpdateRoom::from_noindex(noindex)))
    }

    /// Update a room tags
    pub fn update_room_tags(&self, room_id: &str, tags: &str) -> (r: Request)
        ensures
            r@ == RequestView::post(
                self.base() + "/rooms/"@ + room_id@,
                BodyView::Update(UpdateRoomView { topic: None, noindex: None, tags: Some(tags@) }),
            ),
    {
        post(self.url2("/rooms/", room_id), Body::Update(UpdateRoom::from_tags(tags)))
    }

    /// Removes a user from the room
    pub fn leave_room(&self, room_id: &str, user_id: &str) -> (r: Request)
        ensures
            r@ == RequestView::delete(
                self.base() + "/rooms/"@ + room_id@ + "/users/"@ + user_id@,
            ),
    {
        delete(self.url4("/rooms/", room_id, "/users/", user_id))
    }

    /// Delete a room
    pub fn delete_room(&self, room_id: &str) -> (r: Request)
        ensures
            r@ == RequestView::delete(self.base() + "/rooms/"@ + room_id@),
    {
        delete(self.url2("/rooms/", room_id))
    }

    /// The address that searches the rooms for `room`.
    pub open spec fn search_url(self, room: Seq<char>) -> Seq<char> {
        self.base() + "/rooms?"@ + form_urlencoded(seq![("q"@, room)])
    }

    /// Queries the Rooms resources of gitter API
    pub fn search_rooms(&self, room: &str) -> (r: Request)
        ensures
            r@ == RequestView::get(self.search_url(room@)),
    {
        let mut query: Vec<(String, String)> = Vec::new();
        query.push(("q".to_owned(), room.to_owned()));
        assert(query.deep_view() =~= seq![("q"@, room@)]);
        let encoded = match form_encode(&query) {
            Ok(text) => text,
            Err(_) => String::new(),
        };
        get(self.url2("/rooms?", encoded.as_str()))
    }

    /// Asks for the room with the address `uri`: a search for it, whose
    /// response [`Gitter::pick_room_id`] reads.
    pub fn get_room_id(&self, uri: &str) -> (r: Request)
        ensures
            r@ == RequestView::get(self.search_url(uri@)),
    {
        self.search_rooms(uri)
    }

    /// The id of the first room found whose address is `uri`.
    pub fn pick_room_id(found: &SearchResult, uri: &str) -> (r: ApiResult<String>)
        ensures
            match first_room_with_uri(found.rooms@, uri@) {
                Some(room) => r matches Ok(id) && id@ == room.id@,
                None => r == Err::<String, ApiError>(ApiError::RoomNotFound),
            },
    {
        let n = found.rooms.len();
        let mut i: usize = 0;
        assert(found.rooms@.subrange(0, n as int) =~= found.rooms@);
        while i < n
            invariant
                n == found.rooms@.len(),
                i <= n,
                first_room_with_uri(found.rooms@, uri@) == first_room_with_uri(
                    found.rooms@.subrange(i as int, n as int),
                    uri@,
                ),
            decreases n - i,
        {
            let room = &found.rooms[i];
            let rest = Ghost(found.rooms@.subrange(i as int, n as int));
            assert(rest@[0] == *room);
            let hit = match &room.uri {
                Some(own) => same_text(own.as_str(), uri),
                None => false,
            };
            if hit {
                return Ok(room.id.clone());
            }
            assert(rest@.subrange(1, rest@.len() as int) =~= found.rooms@.subrange(
                i as int + 1,
                n as int,
            ));
            i += 1;
        }
        assert(found.rooms@.subrange(n as int, n as int).len() == 0);
        Err(ApiError::RoomNotFound)
    }

    /// Asks for the list of groups the current user is in
    pub fn get_groups(&self) -> (r: Request)
        ensures
            r@ == RequestView::get(self.base() + "/groups"@),
    {
        get(self.url1("/groups"))
    }

    /// Asks for the rooms nested under the specified group.
    pub fn get_group_rooms(&self, group_id: &str) -> (r: Request)
        ensures
            r@ == RequestView::get(self.base() + "/groups/"@ + group_id@ + "/rooms"@),
    {
        get(self.url3("/groups/", group_id, "/rooms"))
    }
}

} // verus!
