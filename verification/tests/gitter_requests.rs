use gitter::gitter::{Body, Method, Request, API_BASE_URL, REQUEST_TIMEOUT_SECS};
use gitter::models::{
    GithubType, JoinRoom, OutMessage, Room, SearchResult, UnreadItems, UpdateRoom, User,
};
use gitter::text::{decimal, same_text, starts_with};
use gitter::{ApiError, Gitter, Pagination};

fn api() -> Gitter<'static> {
    Gitter::new("GITTER_TOKEN_VALUE".into())
}

fn get(path: &str) -> Request {
    Request {
        method: Method::Get,
        url: format!("https://api.gitter.im/v1{}", path),
        body: Body::Empty,
    }
}

fn post(path: &str, body: Body) -> Request {
    Request { method: Method::Post, url: format!("https://api.gitter.im/v1{}", path), body }
}

fn user(id: &str) -> User {
    User {
        id: id.to_string(),
        username: "malditogeek".to_string(),
        display_name: "Mauro Pompilio".to_string(),
        url: "/malditogeek".to_string(),
        avatar_url_small: "https://avatars.githubusercontent.com/u/14751?".to_string(),
        avatar_url_medium: "https://avatars.githubusercontent.com/u/14751?".to_string(),
    }
}

fn room(id: &str, uri: Option<&str>) -> Room {
    Room {
        id: id.to_string(),
        name: "a room".to_string(),
        topic: String::new(),
        uri: uri.map(|u| u.to_string()),
        one_to_one: false,
        user_count: 2,
        unread_items: 0,
        mentions: 0,
        last_access_time: None,
        lurk: false,
        url: "/a".to_string(),
        github_type: GithubType::Repo,
        tags: None,
        room_member: true,
        version: Some(1),
    }
}

fn page<'a>(
    skip: i32,
    limit: i32,
    before: Option<&'a str>,
    after: Option<&'a str>,
) -> Pagination<'a> {
    Pagination {
        skip,
        before_id: before.map(|s| s.into()),
        after_id: after.map(|s| s.to_string().into()),
        limit,
        query: None,
    }
}

#[test]
fn api_takes_borrowed_and_owned_tokens() {
    let owned = Gitter::new(String::from("t1").into());
    assert_eq!(owned.access_token(), "t1");
    let token = String::from("t2");
    let borrowed = Gitter::new(token.as_str().into());
    assert_eq!(borrowed.access_token(), "t2");
    assert_eq!(borrowed.get_room("r"), get("/rooms/r"));
}

#[test]
fn new_api_uses_the_public_endpoint() {
    let api = api();
    assert_eq!(API_BASE_URL, "https://api.gitter.im/v1");
    assert_eq!(REQUEST_TIMEOUT_SECS, 40);
    assert_eq!(api.base_url(), "https://api.gitter.im/v1");
    assert_eq!(api.access_token(), "GITTER_TOKEN_VALUE");
}

#[test]
fn default_headers_carry_the_token() {
    let expected: Vec<(String, String)> = vec![
        ("Content-Type".to_string(), "application/json".to_string()),
        ("Accept".to_string(), "application/json".to_string()),
        ("Authorization".to_string(), "Bearer GITTER_TOKEN_VALUE".to_string()),
    ];
    assert_eq!(api().default_headers(), expected);
}

#[test]
fn plain_get_requests() {
    let api = api();
    assert_eq!(api.get_user(), get("/user"));
    assert_eq!(api.get_rooms(), get("/rooms"));
    assert_eq!(api.get_groups(), get("/groups"));
    assert_eq!(api.get_user_rooms("u1"), get("/user/u1/rooms"));
    assert_eq!(api.get_unread_items("u1", "r1"), get("/user/u1/rooms/r1/unreadItems"));
    assert_eq!(api.get_user_organizations("u1"), get("/user/u1/orgs"));
    assert_eq!(api.get_user_repositories("u1"), get("/user/u1/repos"));
    assert_eq!(api.get_user_channels("u1"), get("/user/u1/channels"));
    assert_eq!(api.get_users_in_room("r1"), get("/rooms/r1/users"));
    assert_eq!(api.get_room("r1"), get("/rooms/r1"));
    assert_eq!(api.get_message("r1", "m1"), get("/rooms/r1/chatMessages/m1"));
    assert_eq!(api.get_group_rooms("g1"), get("/groups/g1/rooms"));
}

#[test]
fn requests_with_a_body() {
    let api = api();
    let ids = vec!["m1".to_string(), "m2".to_string()];
    assert_eq!(
        api.mark_messages_as_read("u1", "r1", &ids),
        post(
            "/user/u1/rooms/r1/unreadItems",
            Body::Read(UnreadItems { chat: Some(ids.clone()), mention: None })
        )
    );
    let text = "@shmutalov this is a `test` message.\n\n```rust\nfn main() {}```";
    assert_eq!(
        api.send_message("r1", text),
        post("/rooms/r1/chatMessages", Body::Message(OutMessage { text: text.to_string() }))
    );
    assert_eq!(
        api.update_message("r1", "m1", "edited"),
        Request {
            method: Method::Put,
            url: "https://api.gitter.im/v1/rooms/r1/chatMessages/m1".to_string(),
            body: Body::Message(OutMessage { text: "edited".to_string() }),
        }
    );
    assert_eq!(
        api.join_room("r1", "u1"),
        post("/user/u1/rooms", Body::Join(JoinRoom { id: Some("r1".to_string()), uri: None }))
    );
    assert_eq!(
        api.join_room_by_uri("gitter-rs/testing"),
        post(
            "/rooms",
            Body::Join(JoinRoom { id: None, uri: Some("gitter-rs/testing".to_string()) })
        )
    );
    assert_eq!(
        api.update_room_topic("r1", "news"),
        post(
            "/rooms/r1",
            Body::Update(UpdateRoom { topic: Some("news".to_string()), noindex: None, tags: None })
        )
    );
    assert_eq!(
        api.update_room_noindex("r1", true),
        post("/rooms/r1", Body::Update(UpdateRoom { topic: None, noindex: Some(true), tags: None }))
    );
    assert_eq!(
        api.update_room_tags("r1", "rust, chat"),
        post(
            "/rooms/r1",
            Body::Update(UpdateRoom {
                topic: None,
                noindex: None,
                tags: Some("rust, chat".to_string())
            })
        )
    );
}

#[test]
fn delete_requests() {
    let api = api();
    assert_eq!(
        api.leave_room("r1", "u1"),
        Request {
            method: Method::Delete,
            url: "https://api.gitter.im/v1/rooms/r1/users/u1".to_string(),
            body: Body::Empty,
        }
    );
    assert_eq!(
        api.delete_room("r1"),
        Request {
            method: Method::Delete,
            url: "https://api.gitter.im/v1/rooms/r1".to_string(),
            body: Body::Empty,
        }
    );
}

#[test]
fn search_encodes_the_query() {
    let api = api();
    assert_eq!(api.search_rooms("gitter-rs/testing"), get("/rooms?q=gitter-rs%2Ftesting"));
    assert_eq!(api.search_rooms("a b&c=d"), get("/rooms?q=a+b%26c%3Dd"));
    assert_eq!(api.search_rooms(""), get("/rooms?q="));
    assert_eq!(api.get_room_id("gitter-rs/testing"), api.search_rooms("gitter-rs/testing"));
}

#[test]
fn messages_without_pagination() {
    assert_eq!(api().get_messages("r1", None), get("/rooms/r1/chatMessages"));
}

#[test]
fn messages_with_pagination() {
    assert_eq!(
        api().get_messages("r1", Some(page(1, 50, None, None))),
        get("/rooms/r1/chatMessages?skip=1&limit=50")
    );
    assert_eq!(
        api().get_messages("r1", Some(page(0, 0, None, None))),
        get("/rooms/r1/chatMessages?")
    );
}

#[test]
fn pagination_writes_what_is_set() {
    assert_eq!(page(1, 50, None, None).encode(), "skip=1&limit=50");
    assert_eq!(page(0, 0, None, None).encode(), "");
    assert_eq!(page(-3, -1, None, None).encode(), "");
    assert_eq!(page(0, 100, Some("b 1"), None).encode(), "beforeId=b+1&limit=100");
    assert_eq!(
        page(i32::MAX, 7, Some("b"), Some("a&b")).encode(),
        "afterId=a%26b&beforeId=b&skip=2147483647&limit=7"
    );
    let with_query = Pagination { query: Some("ignored".into()), ..page(0, 0, None, None) };
    assert_eq!(with_query.encode(), "");
}

#[test]
fn current_user_is_the_first_of_the_list() {
    assert_eq!(
        Gitter::pick_user(vec![user("53307734c3599d1de448e192"), user("2")]),
        Ok(user("53307734c3599d1de448e192"))
    );
    assert_eq!(Gitter::pick_user(vec![user("9")]), Ok(user("9")));
    assert_eq!(Gitter::pick_user(Vec::new()), Err(ApiError::UserNotFound));
}

#[test]
fn room_id_is_that_of_the_first_room_with_the_uri() {
    let found = SearchResult {
        rooms: vec![
            room("r0", None),
            room("r1", Some("gitter-rs/testing2")),
            room("r2", Some("gitter-rs/testing")),
            room("r3", Some("gitter-rs/testing")),
        ],
    };
    assert_eq!(Gitter::pick_room_id(&found, "gitter-rs/testing"), Ok("r2".to_string()));
    assert_eq!(Gitter::pick_room_id(&found, "gitter-rs/testing2"), Ok("r1".to_string()));
    assert_eq!(Gitter::pick_room_id(&found, "gitter-rs"), Err(ApiError::RoomNotFound));
    assert_eq!(Gitter::pick_room_id(&found, ""), Err(ApiError::RoomNotFound));
    let none = SearchResult { rooms: Vec::new() };
    assert_eq!(Gitter::pick_room_id(&none, "gitter-rs/testing"), Err(ApiError::RoomNotFound));
}

#[test]
fn join_room_models() {
    assert_eq!(JoinRoom::from_id("r1"), JoinRoom { id: Some("r1".to_string()), uri: None });
    assert_eq!(JoinRoom::from_uri("a/b"), JoinRoom { id: None, uri: Some("a/b".to_string()) });
}

#[test]
fn update_room_models() {
    assert_eq!(
        UpdateRoom::from_topic("t"),
        UpdateRoom { topic: Some("t".to_string()), noindex: None, tags: None }
    );
    assert_eq!(
        UpdateRoom::from_noindex(false),
        UpdateRoom { topic: None, noindex: Some(false), tags: None }
    );
    assert_eq!(
        UpdateRoom::from_tags("x,y"),
        UpdateRoom { topic: None, noindex: None, tags: Some("x,y".to_string()) }
    );
}

#[test]
fn unread_items_model() {
    let ids = vec!["1".to_string(), "2".to_string(), "3".to_string()];
    assert_eq!(
        UnreadItems::from_msg_ids(&ids),
        UnreadItems { chat: Some(ids.clone()), mention: None }
    );
    assert_eq!(
        UnreadItems::from_msg_ids(&Vec::new()),
        UnreadItems { chat: Some(Vec::new()), mention: None }
    );
}

#[test]
fn decimal_numerals() {
    assert_eq!(decimal(0), "0");
    assert_eq!(decimal(7), "7");
    assert_eq!(decimal(10), "10");
    assert_eq!(decimal(50), "50");
    assert_eq!(decimal(1234567890), "1234567890");
    assert_eq!(decimal(u32::MAX), "4294967295");
    for n in [0u32, 1, 9, 10, 11, 99, 100, 101, 999, 1000, 65535, 65536, 2147483647] {
        assert_eq!(decimal(n), n.to_string());
    }
}

#[test]
fn text_comparisons() {
    assert!(starts_with("/meta/connect", "/meta/"));
    assert!(starts_with("/meta/", "/meta/"));
    assert!(starts_with("abc", ""));
    assert!(starts_with("", ""));
    assert!(!starts_with("/meta", "/meta/"));
    assert!(!starts_with("", "a"));
    assert!(!starts_with("äbc", "abc"));
    assert!(starts_with("äbc", "äb"));
    assert!(same_text("", ""));
    assert!(same_text("héllo", "héllo"));
    assert!(!same_text("hello", "hellO"));
    assert!(!same_text("hello", "hell"));
    assert!(!same_text("hell", "hello"));
}
