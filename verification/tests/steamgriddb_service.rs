use cosy_gameapi::model::error::{Rejection, UpstreamError};
use cosy_gameapi::model::kind::Kind;
use cosy_gameapi::services::steamgriddb_service::{
    lookup_request, LookupEvent, LookupRequest, LookupStep, SteamgriddbService, LOOKUP_LIMIT,
};
use cosy_gameapi::steamgriddb_models::{
    HeroResponseData, HeroesResponse, LogoResposeData, LogosResponse, ResponseAuthor,
};
use reqwest::Client;
use serde_json::Value;
use std::sync::Arc;
use std::time::Duration;

const BASE: &str = "http://127.0.0.1:5000";

fn service() -> SteamgriddbService {
    let client = Client::builder().timeout(Duration::from_secs(5)).build().unwrap();
    SteamgriddbService::new(
        Arc::new(steamgriddb_api::Client::new("dummy")),
        Arc::new(client),
        BASE.to_string(),
    )
}

/// What a mocked catalog answers to one request.
struct Mock {
    path: &'static str,
    status: u16,
    body: &'static str,
}

fn text(v: &Value, key: &str) -> Option<String> {
    v.get(key)?.as_str().map(|s| s.to_string())
}

fn number(v: &Value, key: &str) -> Option<u32> {
    u32::try_from(v.get(key)?.as_u64()?).ok()
}

fn flag(v: &Value, key: &str) -> Option<bool> {
    v.get(key)?.as_bool()
}

struct Image {
    id: u32,
    score: u32,
    style: String,
    width: u32,
    height: u32,
    nsfw: bool,
    humor: bool,
    notes: Option<String>,
    mime: String,
    language: String,
    url: String,
    thumb: String,
    lock: bool,
    epilepsy: bool,
    upvotes: u32,
    downvotes: u32,
    author: ResponseAuthor,
    tags: Option<Vec<String>>,
}

fn image(v: &Value) -> Option<Image> {
    let author = v.get("author")?;
    let tags = match v.get("tags") {
        None | Some(Value::Null) => None,
        Some(list) => {
            let mut tags = Vec::new();
            for tag in list.as_array()? {
                tags.push(tag.as_str()?.to_string());
            }
            Some(tags)
        }
    };
    let notes = match v.get("notes") {
        None | Some(Value::Null) => None,
        Some(note) => Some(note.as_str()?.to_string()),
    };
    Some(Image {
        id: number(v, "id")?,
        score: number(v, "score")?,
        style: text(v, "style")?,
        width: number(v, "width")?,
        height: number(v, "height")?,
        nsfw: flag(v, "nsfw")?,
        humor: flag(v, "humor")?,
        notes,
        mime: text(v, "mime")?,
        language: text(v, "language")?,
        url: text(v, "url")?,
        thumb: text(v, "thumb")?,
        lock: flag(v, "lock")?,
        epilepsy: flag(v, "epilepsy")?,
        upvotes: number(v, "upvotes")?,
        downvotes: number(v, "downvotes")?,
        author: ResponseAuthor {
            name: text(author, "name")?,
            steam64: text(author, "steam64")?,
            avatar: text(author, "avatar")?,
        },
        tags,
    })
}

fn images(v: &Value) -> Option<Vec<Image>> {
    let mut all = Vec::new();
    for item in v.get("data")?.as_array()? {
        all.push(image(item)?);
    }
    Some(all)
}

fn logos(body: &str) -> Option<LogosResponse> {
    let v: Value = serde_json::from_str(body).ok()?;
    let data = images(&v)?
        .into_iter()
        .map(|i| LogoResposeData {
            id: i.id,
            score: i.score,
            style: i.style,
            width: i.width,
            height: i.height,
            nsfw: i.nsfw,
            humor: i.humor,
            notes: i.notes,
            mime: i.mime,
            language: i.language,
            url: i.url,
            thumb: i.thumb,
            lock: i.lock,
            epilepsy: i.epilepsy,
            upvotes: i.upvotes,
            downvotes: i.downvotes,
            author: i.author,
            tags: i.tags,
        })
        .collect();
    Some(LogosResponse {
        success: flag(&v, "success")?,
        page: number(&v, "page")?,
        total: number(&v, "total")?,
        limit: number(&v, "limit")?,
        data,
    })
}

fn heroes(body: &str) -> Option<HeroesResponse> {
    let v: Value = serde_json::from_str(body).ok()?;
    let data = images(&v)?
        .into_iter()
        .map(|i| HeroResponseData {
            id: i.id,
            score: i.score,
            style: i.style,
            width: i.width,
            height: i.height,
            nsfw: i.nsfw,
            humor: i.humor,
            notes: i.notes,
            mime: i.mime,
            language: i.language,
            url: i.url,
            thumb: i.thumb,
            lock: i.lock,
            epilepsy: i.epilepsy,
            upvotes: i.upvotes,
            downvotes: i.downvotes,
            author: i.author,
            tags: i.tags,
        })
        .collect();
    Some(HeroesResponse {
        success: flag(&v, "success")?,
        page: number(&v, "page")?,
        total: number(&v, "total")?,
        limit: number(&v, "limit")?,
        data,
    })
}

/// Answers the one request of a lookup as the mock says: only a GET of
/// the mocked path with `limit=1` gets the mocked status.
fn status_for(request: &LookupRequest, mock: &Mock) -> u16 {
    if request.url == format!("{}{}", BASE, mock.path) && request.limit == 1 {
        mock.status
    } else {
        404
    }
}

fn get_first_logo(service: &SteamgriddbService, game_id: usize, mock: &Mock) -> Result<Option<String>, UpstreamError> {
    let mut event = LookupEvent::Start;
    let mut sent = 0;
    loop {
        event = match service.get_first_logo_by_game_id(game_id, event) {
            LookupStep::Send(request) => {
                sent += 1;
                assert_eq!(sent, 1);
                LookupEvent::Responded(status_for(&request, mock))
            }
            LookupStep::ReadBody => match logos(mock.body) {
                Some(listing) => LookupEvent::Body(listing),
                None => LookupEvent::BodyMalformed,
            },
            LookupStep::Finished(result) => return result,
        }
    }
}

fn get_first_hero(service: &SteamgriddbService, game_id: usize, mock: &Mock) -> Result<Option<String>, UpstreamError> {
    let mut event = LookupEvent::Start;
    let mut sent = 0;
    loop {
        event = match service.get_first_hero_by_game_id(game_id, event) {
            LookupStep::Send(request) => {
                sent += 1;
                assert_eq!(sent, 1);
                LookupEvent::Responded(status_for(&request, mock))
            }
            LookupStep::ReadBody => match heroes(mock.body) {
                Some(listing) => LookupEvent::Body(listing),
                None => LookupEvent::BodyMalformed,
            },
            LookupStep::Finished(result) => return result,
        }
    }
}

#[test]
fn logo_empty_data_returns_none() {
    let mock = Mock {
        path: "/logos/game/42",
        status: 200,
        body: r#"{"success":true,"page":1,"total":0,"limit":1,"data":[]}"#,
    };

    let res = get_first_logo(&service(), 42, &mock).unwrap();
    assert!(res.is_none());
}

#[test]
fn logo_with_data_returns_url() {
    let mock = Mock {
        path: "/logos/game/99",
        status: 200,
        body: r#"{"success":true,"page":1,"total":1,"limit":1,"data":[{"id":1,"url":"https://example.com/logo.png","thumb":"thumb","score":0,"style":"","width":1,"height":1,"nsfw":false,"humor":false,"mime":"image/png","language":"","lock":false,"epilepsy":false,"upvotes":0,"downvotes":0,"author":{"name":"","steam64":"","avatar":""}}]}"#,
    };

    let res = get_first_logo(&service(), 99, &mock).unwrap();
    assert_eq!(res.unwrap(), "https://example.com/logo.png");
}

#[test]
fn logo_non_200_returns_err() {
    let mock = Mock { path: "/logos/game/500", status: 500, body: "internal error" };

    let res = get_first_logo(&service(), 500, &mock);
    assert!(res.is_err());
    let err = res.unwrap_err().message();
    assert!(err.contains("Failed to fetch"));
}

#[test]
fn logo_success_false_returns_err() {
    let mock = Mock {
        path: "/logos/game/400",
        status: 200,
        body: r#"{"success":false,"page":1,"total":0,"limit":1,"data":[]}"#,
    };

    let res = get_first_logo(&service(), 400, &mock);
    assert!(res.is_err());
    let err = res.unwrap_err().message();
    assert!(err.contains("success=false"));
}

// heroes

#[test]
fn hero_empty_data_returns_none() {
    let mock = Mock {
        path: "/heroes/game/12",
        status: 200,
        body: r#"{"success":true,"page":1,"total":0,"limit":1,"data":[]}"#,
    };

    let res = get_first_hero(&service(), 12, &mock).unwrap();
    assert!(res.is_none());
}

#[test]
fn hero_with_data_returns_url() {
    let mock = Mock {
        path: "/heroes/game/7",
        status: 200,
        body: r#"{"success":true,"page":1,"total":1,"limit":1,"data":[{"id":1,"url":"https://example.com/hero.png","thumb":"thumb","score":0,"style":"","width":1,"height":1,"nsfw":false,"humor":false,"mime":"image/png","language":"","lock":false,"epilepsy":false,"upvotes":0,"downvotes":0,"author":{"name":"","steam64":"","avatar":""}}]}"#,
    };

    let res = get_first_hero(&service(), 7, &mock).unwrap();
    assert_eq!(res.unwrap(), "https://example.com/hero.png");
}

#[test]
fn hero_non_200_returns_err() {
    let mock = Mock { path: "/heroes/game/500", status: 503, body: "unavailable" };

    let res = get_first_hero(&service(), 500, &mock);
    assert!(res.is_err());
    let err = res.unwrap_err().message();
    assert!(err.contains("Failed to fetch"));
}

#[test]
fn hero_success_false_returns_err() {
    let mock = Mock {
        path: "/heroes/game/400",
        status: 200,
        body: r#"{"success":false,"page":1,"total":0,"limit":1,"data":[]}"#,
    };

    let res = get_first_hero(&service(), 400, &mock);
    assert!(res.is_err());
    let err = res.unwrap_err().message();
    assert!(err.contains("success=false"));
}

#[test]
fn lookup_asks_for_one_image_at_the_kinds_address() {
    let s = service();
    assert_eq!(s.base_url(), BASE);
    let logo = s.lookup_request(Kind::Logo, 42);
    assert_eq!(logo.url, "http://127.0.0.1:5000/logos/game/42");
    assert_eq!(logo.limit, 1);
    let hero = s.lookup_request(Kind::Hero, 0);
    assert_eq!(hero.url, "http://127.0.0.1:5000/heroes/game/0");
    assert_eq!(hero.limit, LOOKUP_LIMIT);
    let far = lookup_request("https://www.steamgriddb.com/api/v2", Kind::Hero, 5153400);
    assert_eq!(far.url, "https://www.steamgriddb.com/api/v2/heroes/game/5153400");
    match s.get_first_hero_by_game_id(7993, LookupEvent::Start) {
        LookupStep::Send(request) => {
            assert_eq!(request.url, "http://127.0.0.1:5000/heroes/game/7993");
            assert_eq!(request.limit, 1);
        }
        _ => panic!("a lookup starts with its request"),
    }
}

#[test]
fn only_2xx_responses_have_their_body_read() {
    let s = service();
    for status in [200u16, 201, 204, 299] {
        assert!(matches!(s.get_first_logo_by_game_id(1, LookupEvent::Responded(status)), LookupStep::ReadBody));
        assert!(matches!(s.get_first_hero_by_game_id(1, LookupEvent::Responded(status)), LookupStep::ReadBody));
    }
    for status in [100u16, 199, 300, 301, 404, 500, 503] {
        match s.get_first_logo_by_game_id(1, LookupEvent::Responded(status)) {
            LookupStep::Finished(r) => {
                assert_eq!(r, Err(UpstreamError::UpstreamRejected(Kind::Logo, Rejection::Status(status))))
            }
            _ => panic!("a refused lookup is over"),
        }
        match s.get_first_hero_by_game_id(1, LookupEvent::Responded(status)) {
            LookupStep::Finished(r) => {
                assert_eq!(r, Err(UpstreamError::UpstreamRejected(Kind::Hero, Rejection::Status(status))))
            }
            _ => panic!("a refused lookup is over"),
        }
    }
}

#[test]
fn transport_and_parse_failures_end_the_lookup_without_retry() {
    let s = service();
    match s.get_first_logo_by_game_id(1, LookupEvent::SendFailed) {
        LookupStep::Finished(r) => assert_eq!(r, Err(UpstreamError::TransportError(Kind::Logo))),
        _ => panic!("a lookup is not sent twice"),
    }
    match s.get_first_logo_by_game_id(1, LookupEvent::BodyFailed) {
        LookupStep::Finished(r) => assert_eq!(r, Err(UpstreamError::TransportError(Kind::Logo))),
        _ => panic!("a lookup is not sent twice"),
    }
    match s.get_first_hero_by_game_id(1, LookupEvent::BodyMalformed) {
        LookupStep::Finished(r) => assert_eq!(r, Err(UpstreamError::MalformedResponse(Kind::Hero))),
        _ => panic!("a lookup is not sent twice"),
    }
    let mock = Mock { path: "/heroes/game/3", status: 200, body: "<html>not json</html>" };
    assert_eq!(get_first_hero(&s, 3, &mock), Err(UpstreamError::MalformedResponse(Kind::Hero)));
    let mock = Mock { path: "/logos/game/3", status: 200, body: r#"{"success":true}"# };
    assert_eq!(get_first_logo(&s, 3, &mock), Err(UpstreamError::MalformedResponse(Kind::Logo)));
}

#[test]
fn success_false_is_a_refusal_even_with_data() {
    let body = r#"{"success":false,"page":1,"total":1,"limit":1,"data":[{"id":1,"url":"https://example.com/logo.png","thumb":"thumb","score":0,"style":"","width":1,"height":1,"nsfw":false,"humor":false,"mime":"image/png","language":"","lock":false,"epilepsy":false,"upvotes":0,"downvotes":0,"author":{"name":"","steam64":"","avatar":""}}]}"#;
    let listing = logos(body).unwrap();
    assert_eq!(listing.data.len(), 1);
    assert_eq!(listing.first_url(), Err(UpstreamError::UpstreamRejected(Kind::Logo, Rejection::SuccessFlag)));
    let listing = heroes(body).unwrap();
    assert_eq!(listing.first_url(), Err(UpstreamError::UpstreamRejected(Kind::Hero, Rejection::SuccessFlag)));
}

#[test]
fn first_url_is_the_first_of_several() {
    let body = r#"{"success":true,"page":0,"total":2,"limit":50,"data":[{"id":1,"url":"https://example.com/a.png","thumb":"ta","score":0,"style":"official","width":1,"height":1,"nsfw":false,"humor":false,"notes":null,"mime":"image/png","language":"en","lock":false,"epilepsy":false,"upvotes":0,"downvotes":0,"author":{"name":"n","steam64":"1","avatar":"a"},"tags":["x","y"]},{"id":2,"url":"https://example.com/b.png","thumb":"tb","score":0,"style":"white","width":2,"height":2,"nsfw":false,"humor":false,"notes":"n","mime":"image/png","language":"en","lock":false,"epilepsy":false,"upvotes":0,"downvotes":0,"author":{"name":"n","steam64":"1","avatar":"a"}}]}"#;
    let listing = heroes(body).unwrap();
    assert_eq!(listing.data.len(), 2);
    assert_eq!(listing.data[0].tags, Some(vec!["x".to_string(), "y".to_string()]));
    assert_eq!(listing.first_url(), Ok(Some("https://example.com/a.png".to_string())));
    let listing = logos(body).unwrap();
    assert_eq!(listing.first_url(), Ok(Some("https://example.com/a.png".to_string())));
}

#[test]
fn error_messages_name_their_kind() {
    let all = [
        (UpstreamError::TransportError(Kind::Logo), "Failed to reach the catalog for logos"),
        (UpstreamError::TransportError(Kind::Hero), "Failed to reach the catalog for heroes"),
        (UpstreamError::UpstreamRejected(Kind::Logo, Rejection::Status(500)), "Failed to fetch logo"),
        (UpstreamError::UpstreamRejected(Kind::Hero, Rejection::Status(503)), "Failed to fetch heroes"),
        (
            UpstreamError::UpstreamRejected(Kind::Logo, Rejection::SuccessFlag),
            "steamgriddb API returned success=false for logos",
        ),
        (
            UpstreamError::UpstreamRejected(Kind::Hero, Rejection::SuccessFlag),
            "steamgriddb API returned success=false for heroes",
        ),
        (UpstreamError::MalformedResponse(Kind::Logo), "Malformed catalog response for logos"),
        (UpstreamError::MalformedResponse(Kind::Hero), "Malformed catalog response for heroes"),
    ];
    for (error, message) in all {
        assert_eq!(error.message(), message);
    }
    assert_eq!(UpstreamError::MalformedResponse(Kind::Hero).kind(), Kind::Hero);
    assert_eq!(UpstreamError::UpstreamRejected(Kind::Logo, Rejection::SuccessFlag).kind(), Kind::Logo);
    assert_eq!(Kind::Logo.segment(), "logos");
    assert_eq!(Kind::Hero.segment(), "heroes");
}
