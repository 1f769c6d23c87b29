use clipd::body::{from_bytes, Reading};
use clipd::clipboard::{dispatch, ClipError, Delivery, Image, Payload};
use clipd::reply::{
    get_auto, get_auto_image, get_image, get_text, health, notification_script, png_response,
    store, summarize, AppError, Reply,
};
use clipd::text::decimal_text;

fn pixel() -> Image {
    Image {
        width: 1,
        height: 1,
        rgba: vec![1, 2, 3, 4],
    }
}

fn empty_image() -> Image {
    Image {
        width: 0,
        height: 1,
        rgba: vec![],
    }
}

fn error(message: &str) -> ClipError {
    ClipError::new(message.to_owned())
}

fn replied(res: Result<Reply, AppError>) -> Reply {
    match res {
        Ok(reply) => reply,
        Err(err) => panic!("refused: {err:?}"),
    }
}

fn refused(res: Result<Reply, AppError>) -> (u16, String) {
    match res {
        Ok(_) => panic!("expected a refusal"),
        Err(err) => (err.status, err.message),
    }
}

fn is_text(reply: &Reply, status: u16, text: &str) -> bool {
    reply.status == status
        && reply.content_type == "text/plain; charset=utf-8"
        && reply.body == text.as_bytes()
}

#[test]
fn the_server_is_there() {
    assert!(is_text(&health(), 200, "ok\n"));
}

#[test]
fn refusals_are_told_on_a_line() {
    let reply = AppError::bad_request("no".to_owned()).into_response();
    assert!(is_text(&reply, 400, "no\n"));
    let reply = AppError::internal("broken".to_owned()).into_response();
    assert!(is_text(&reply, 500, "broken\n"));
    let reply = AppError::new(413, "too large".to_owned()).into_response();
    assert!(is_text(&reply, 413, "too large\n"));
}

#[test]
fn text_is_answered_as_it_is() {
    assert!(is_text(&replied(get_text(Ok("你好".to_owned()))), 200, "你好"));
    assert_eq!(
        refused(get_text(Err(error("empty")))),
        (404, "clipboard holds no text: empty".to_owned())
    );
}

#[test]
fn pushed_text_comes_back() {
    let body = "grüß & bye\n".as_bytes();
    for mime in ["text/plain", "application/json", "", "application/octet-stream"] {
        let Reading::Done(Ok(Payload::Text(text))) = from_bytes(body, mime) else {
            panic!("no text");
        };
        assert_eq!(replied(get_text(Ok(text))).body, body);
    }
}

#[test]
fn images_are_answered_as_png() {
    let reply = replied(get_image(Ok(pixel())));
    assert_eq!((reply.status, reply.content_type.as_str()), (200, "image/png"));
    assert_eq!(&reply.body[..8], b"\x89PNG\r\n\x1a\n");
    assert_eq!(reply.body, replied(png_response(&pixel())).body);
    assert_eq!(
        refused(get_image(Err(error("empty")))),
        (404, "clipboard holds no image: empty".to_owned())
    );
    assert_eq!(
        refused(get_image(Ok(empty_image()))),
        (500, "Zero width not allowed".to_owned())
    );
}

#[test]
fn whatever_is_there_is_answered() {
    let reply = get_auto(Ok("hi".to_owned())).unwrap();
    assert!(is_text(&reply, 200, "hi"));
    assert!(get_auto(Err(error("no text"))).is_none());

    let reply = replied(get_auto_image(Ok(pixel())));
    assert_eq!(reply.body, replied(get_image(Ok(pixel()))).body);
    assert_eq!(reply.content_type, "image/png");
    assert_eq!(
        refused(get_auto_image(Err(error("empty")))),
        (
            404,
            "clipboard holds neither text nor an image: empty".to_owned()
        )
    );
    assert_eq!(
        refused(get_auto_image(Ok(empty_image()))),
        (500, "Zero width not allowed".to_owned())
    );
}

#[test]
fn summaries_tell_kind_and_size() {
    let text = Payload::Text("grüß \"du\"".to_owned());
    assert_eq!(summarize(&text), "text (9 chars)");
    assert_eq!(summarize(&Payload::Text(String::new())), "text (0 chars)");
    let image = Image {
        width: 640,
        height: 10,
        rgba: vec![],
    };
    assert_eq!(summarize(&Payload::Image(image)), "image (640x10)");
}

#[test]
fn banners_quote_the_summary() {
    assert_eq!(
        notification_script("text (2 chars)"),
        r#"display notification "text (2 chars)" with title "clipd" subtitle "clipboard updated""#
    );
}

#[test]
fn a_stored_payload_is_confirmed() {
    let Ok(stored) = store("text (2 chars)", Ok(()), false) else {
        panic!("refused");
    };
    assert!(is_text(&stored.reply, 200, "ok: text (2 chars)\n"));
    assert_eq!(stored.banner, None);

    let Ok(stored) = store("image (1x1)", Ok(()), true) else {
        panic!("refused");
    };
    assert!(is_text(&stored.reply, 200, "ok: image (1x1)\n"));
    assert_eq!(stored.banner, Some(notification_script("image (1x1)")));

    let Err(err) = store("text (2 chars)", Err(error("locked")), true) else {
        panic!("stored");
    };
    assert_eq!((err.status, err.message.as_str()), (500, "locked"));
}

#[test]
fn lost_requests_are_errors() {
    let message = |delivery: Delivery<u8>| dispatch(delivery).unwrap_err().to_string();
    assert_eq!(message(Delivery::Refused), "clipboard worker is gone");
    assert_eq!(message(Delivery::Dropped), "clipboard worker dropped the request");
    assert_eq!(message(Delivery::Answered(Err(error("locked")))), "locked");
    assert_eq!(dispatch(Delivery::Answered(Ok(7))).unwrap(), 7);
}

#[test]
fn errors_keep_their_text() {
    assert_eq!(ClipError::new("a".to_owned()).to_string(), "a");
    assert_eq!(ClipError::new_from_display("b".to_owned()).to_string(), "b");
}

#[test]
fn numbers_are_written_in_decimal() {
    assert_eq!(decimal_text(0), "0");
    assert_eq!(decimal_text(10), "10");
    assert_eq!(decimal_text(9876543210), "9876543210");
    assert_eq!(decimal_text(u128::MAX), u128::MAX.to_string());
}
