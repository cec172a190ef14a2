use instagram_dl::data::Dimensions;
use instagram_dl::data::EdgeMediaToCaption;
use instagram_dl::data::EdgeOwnerToTimeline;
use instagram_dl::data::Image;
use instagram_dl::data::PageInfo;
use instagram_dl::data::User;
use instagram_dl::stream::ImageStream;
use instagram_dl::stream::StreamStep;

fn image(shortcode: &str) -> Image {
    Image::new(
        shortcode.to_string(),
        Dimensions::new(640, 480),
        format!("https://cdn.example.com/{}.jpg", shortcode),
        EdgeMediaToCaption::new(vec![format!("caption of {}", shortcode)]),
    )
}

fn page_info(has_next_page: bool, end_cursor: Option<&str>) -> PageInfo {
    PageInfo { has_next_page, end_cursor: end_cursor.map(|c| c.to_string()) }
}

fn expect_yield(stream: &mut ImageStream) -> String {
    match stream.next() {
        StreamStep::Yield(image) => image.shortcode,
        other => panic!("expected an image, got {:?}", other),
    }
}

fn expect_done(stream: &mut ImageStream) {
    match stream.next() {
        StreamStep::Done => {}
        other => panic!("expected the end, got {:?}", other),
    }
}

#[test]
fn single_page_is_drained_last_first_then_ends() {
    let seed = vec![image("a"), image("b"), image("c")];
    let mut stream =
        ImageStream::new(seed, page_info(false, Some("abc")), "42".to_string(), Some("key".to_string()));
    assert_eq!(expect_yield(&mut stream), "c");
    assert_eq!(expect_yield(&mut stream), "b");
    assert_eq!(expect_yield(&mut stream), "a");
    assert!(!stream.awaits_page());
    for _ in 0..5 {
        expect_done(&mut stream);
    }
}

#[test]
fn empty_single_page_ends_at_once() {
    let mut stream = ImageStream::new(Vec::new(), page_info(false, None), "42".to_string(), None);
    expect_done(&mut stream);
    expect_done(&mut stream);
}

#[test]
fn second_page_is_fetched_after_the_seed() {
    let seed = vec![image("a"), image("b")];
    let mut stream =
        ImageStream::new(seed, page_info(true, Some("abc")), "42".to_string(), Some("key".to_string()));
    let mut yielded: Vec<String> = Vec::new();
    yielded.push(expect_yield(&mut stream));
    yielded.push(expect_yield(&mut stream));
    assert!(stream.awaits_page());
    match stream.next() {
        StreamStep::Fetch(request) => {
            assert_eq!(request.id, "42");
            assert_eq!(request.cursor, "abc");
            assert_eq!(request.query_hash, "key");
        }
        other => panic!("expected a page request, got {:?}", other),
    }
    let first = stream.page_fetched(vec![image("z")], page_info(false, None));
    yielded.push(first.expect("the page holds an image").shortcode);
    expect_done(&mut stream);
    expect_done(&mut stream);
    assert_eq!(yielded, vec!["b", "a", "z"]);
}

#[test]
fn asking_twice_repeats_the_request() {
    let mut stream = ImageStream::new(
        Vec::new(),
        page_info(true, Some("abc")),
        "42".to_string(),
        Some("key".to_string()),
    );
    for _ in 0..2 {
        match stream.next() {
            StreamStep::Fetch(request) => assert_eq!(request.cursor, "abc"),
            other => panic!("expected a page request, got {:?}", other),
        }
    }
}

#[test]
fn pages_follow_each_other_until_the_last() {
    let mut stream = ImageStream::new(
        vec![image("a")],
        page_info(true, Some("c1")),
        "42".to_string(),
        Some("key".to_string()),
    );
    assert_eq!(expect_yield(&mut stream), "a");
    match stream.next() {
        StreamStep::Fetch(request) => assert_eq!(request.cursor, "c1"),
        other => panic!("expected a page request, got {:?}", other),
    }
    let first = stream.page_fetched(vec![image("b"), image("c"), image("d")], page_info(true, Some("c2")));
    assert_eq!(first.expect("the page holds images").shortcode, "d");
    assert_eq!(expect_yield(&mut stream), "c");
    assert_eq!(expect_yield(&mut stream), "b");
    match stream.next() {
        StreamStep::Fetch(request) => {
            assert_eq!(request.cursor, "c2");
            assert_eq!(request.id, "42");
        }
        other => panic!("expected a page request, got {:?}", other),
    }
    let first = stream.page_fetched(vec![image("e")], page_info(false, Some("c3")));
    assert_eq!(first.expect("the page holds an image").shortcode, "e");
    expect_done(&mut stream);
}

#[test]
fn without_a_key_only_the_seed_is_handed_out() {
    let seed = vec![image("a"), image("b")];
    let mut stream = ImageStream::new(seed, page_info(true, Some("abc")), "42".to_string(), None);
    assert_eq!(expect_yield(&mut stream), "b");
    assert_eq!(expect_yield(&mut stream), "a");
    assert!(!stream.awaits_page());
    for _ in 0..3 {
        expect_done(&mut stream);
    }
}

#[test]
fn without_a_cursor_the_stream_ends() {
    let mut stream = ImageStream::new(
        vec![image("a")],
        page_info(true, None),
        "42".to_string(),
        Some("key".to_string()),
    );
    assert_eq!(expect_yield(&mut stream), "a");
    assert!(!stream.awaits_page());
    expect_done(&mut stream);
}

#[test]
fn a_failed_request_ends_the_stream() {
    let mut stream = ImageStream::new(
        vec![image("a")],
        page_info(true, Some("abc")),
        "42".to_string(),
        Some("key".to_string()),
    );
    assert_eq!(expect_yield(&mut stream), "a");
    assert!(matches!(stream.next(), StreamStep::Fetch(_)));
    stream.fetch_failed();
    assert!(!stream.awaits_page());
    for _ in 0..3 {
        expect_done(&mut stream);
    }
}

#[test]
fn an_empty_page_ends_the_stream_whatever_its_cursor() {
    let mut stream = ImageStream::new(
        Vec::new(),
        page_info(true, Some("abc")),
        "42".to_string(),
        Some("key".to_string()),
    );
    assert!(matches!(stream.next(), StreamStep::Fetch(_)));
    let first = stream.page_fetched(Vec::new(), page_info(true, Some("def")));
    assert!(first.is_none());
    assert!(!stream.awaits_page());
    expect_done(&mut stream);
    expect_done(&mut stream);
}

#[test]
fn no_shortcode_is_handed_out_twice() {
    let mut stream = ImageStream::new(
        vec![image("a"), image("b")],
        page_info(true, Some("abc")),
        "42".to_string(),
        Some("key".to_string()),
    );
    let mut seen: Vec<String> = Vec::new();
    let mut pages = vec![
        (vec![image("e")], page_info(false, None)),
        (vec![image("c"), image("d")], page_info(true, Some("def"))),
    ];
    loop {
        match stream.next() {
            StreamStep::Yield(image) => seen.push(image.shortcode),
            StreamStep::Fetch(_) => {
                let (images, info) = pages.pop().expect("a page is left");
                if let Some(image) = stream.page_fetched(images, info) {
                    seen.push(image.shortcode);
                }
            }
            StreamStep::Done => break,
        }
    }
    assert_eq!(seen, vec!["b", "a", "d", "c", "e"]);
}

#[test]
fn the_stream_of_a_user_starts_with_the_first_page() {
    let timeline = EdgeOwnerToTimeline::new(
        7,
        page_info(true, Some("abc")),
        vec![image("a"), image("b"), image("c")],
    );
    assert_eq!(timeline.count(), 7);
    let copies: Vec<String> = timeline.images().into_iter().map(|i| i.shortcode).collect();
    assert_eq!(copies, vec!["a", "b", "c"]);
    let user = User {
        biography: "bio".to_string(),
        username: "alice".to_string(),
        id: "42".to_string(),
        profile_pic_url_hd: "https://cdn.example.com/alice.jpg".to_string(),
        edge_owner_to_timeline_media: timeline,
    };
    let mut stream = user.images(Some("key".to_string()));
    assert_eq!(expect_yield(&mut stream), "c");
    assert_eq!(expect_yield(&mut stream), "b");
    assert_eq!(expect_yield(&mut stream), "a");
    match stream.next() {
        StreamStep::Fetch(request) => {
            assert_eq!(request.id, "42");
            assert_eq!(request.cursor, "abc");
            assert_eq!(request.query_hash, "key");
        }
        other => panic!("expected a page request, got {:?}", other),
    }
}

#[test]
fn a_copied_image_keeps_its_fields() {
    let first = Image::new(
        "abc".to_string(),
        Dimensions::new(1080, 1350),
        "https://cdn.example.com/abc.jpg".to_string(),
        EdgeMediaToCaption::new(vec!["first".to_string(), "second".to_string()]),
    );
    let copy = first.clone();
    assert_eq!(copy.shortcode, "abc");
    assert_eq!(copy.dimensions.width(), 1080);
    assert_eq!(copy.dimensions.height(), 1350);
    assert_eq!(copy.url, "https://cdn.example.com/abc.jpg");
    assert_eq!(copy.get_caption(), Some("first".to_string()));
}
