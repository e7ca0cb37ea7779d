use bevy_wry::components::bounds::{Anchor, Bounds, Position as Offset, Size as Extent};
use bevy_wry::components::webview::{
    Source, Transparency, WebViewBundle, WebViewBundleBuilder, WebViewComponent, WebViews,
};
use bevy_wry::dpi::{
    LogicalPosition, LogicalSize, PhysicalSize, Position, Rect, ScaleFactor, Size,
};
use bevy_wry::error::Error as WebviewError;
use bevy_wry::events::error::Error;
use bevy_wry::events::system::{
    next_script, script_evaluated, send_out_events, send_script, ScriptCall,
};
use bevy_wry::events::{EmptyOutEvent, InMessageBus, InWryEvent, OutMessageBus, OutWryEvent};
use bevy_wry::systems::boot_delay_elapsed;
use bevy_wry::systems::events::{
    clear_busses, consume_ipfs_events, event_from_message, produce_out_scripts,
};
use bevy_wry::systems::webview::{
    create_webviews, keep_webviews_in_bounds, BoundsUpdate, NewWebView, WindowResized,
};
use bevy_wry::types::{deserialie_new_size, EditorCommand, UVec2};

fn rect(x: i64, y: i64, width: u32, height: u32) -> Rect {
    Rect {
        position: Position::Logical(LogicalPosition::new(x, y)),
        size: Size::Logical(LogicalSize::new(width, height)),
    }
}

fn update(webview: &str, bounds: Rect) -> BoundsUpdate {
    BoundsUpdate { webview: webview.to_string(), bounds }
}

fn call(webview: &str, script: &str) -> ScriptCall {
    ScriptCall { webview: webview.to_string(), script: script.to_string() }
}

fn three_webviews() -> WebViews<u8> {
    let mut webviews: WebViews<u8> = WebViews::new();
    webviews.insert(
        "panel".to_string(),
        1,
        Bounds::Relative { anchor: Anchor::Center, bounds: rect(10, 10, 100, 50) },
    );
    webviews.insert("fixed".to_string(), 2, Bounds::Absolute(rect(5, 6, 7, 8)));
    webviews.insert(
        "bar".to_string(),
        3,
        Bounds::Relative { anchor: Anchor::TopStretch, bounds: rect(10, 10, 100, 50) },
    );
    webviews
}

struct ConsoleLog {
    text: String,
    target: Option<String>,
}

impl OutWryEvent for ConsoleLog {
    fn to_script(&self) -> String {
        format!("console.log({})", self.text)
    }

    fn target_webview(&self) -> Option<String> {
        self.target.clone()
    }
}

#[derive(Debug, PartialEq, Eq)]
struct Print(String);

impl InWryEvent for Print {
    fn from_json(message: &String) -> Option<Self> {
        let inner = message.strip_prefix("{\"Print\":\"")?.strip_suffix("\"}")?;
        Some(Print(inner.to_string()))
    }
}

#[test]
fn builder_fills_in_the_defaults() {
    let bundle = WebViewBundleBuilder::new("main".to_string()).build();
    assert_eq!(
        bundle,
        WebViewBundle {
            webview: WebViewComponent::new("main".to_string()),
            anchor: Anchor::FullScreen,
            position: Offset(Position::Logical(LogicalPosition::new(0, 0))),
            size: Extent(Size::Logical(LogicalSize::new(0, 0))),
            source: Source::Html(String::new()),
            transparency: Transparency(false),
        }
    );
}

#[test]
fn builder_keeps_what_was_set() {
    let size = Size::Physical(PhysicalSize::new(300, 200));
    let position = Position::Logical(LogicalPosition::new(-5, 5));
    let bundle = WebViewBundleBuilder::new("side".to_string())
        .with_size(size)
        .with_position(position)
        .with_anchor(Anchor::BottomRight)
        .with_html("<p>old</p>".to_string())
        .with_url("https://example.org".to_string())
        .with_transparent(true)
        .build();
    assert_eq!(bundle.webview.webview_name, "side");
    assert_eq!(bundle.anchor, Anchor::BottomRight);
    assert_eq!(bundle.position, Offset(position));
    assert_eq!(bundle.size, Extent(size));
    assert_eq!(bundle.source, Source::Url("https://example.org".to_string()));
    assert_eq!(bundle.transparency, Transparency(true));
    let html = WebViewBundleBuilder::new("page".to_string()).with_html("<p>hi</p>".to_string()).build();
    assert_eq!(html.source, Source::Html("<p>hi</p>".to_string()));
    assert_eq!(html.source.duplicate(), html.source);
}

#[test]
fn create_webviews_resolves_each_bundle() {
    let bundles = vec![
        WebViewBundleBuilder::new("main".to_string()).build(),
        WebViewBundleBuilder::new("panel".to_string())
            .with_anchor(Anchor::Center)
            .with_position(Position::Logical(LogicalPosition::new(10, 10)))
            .with_size(Size::Logical(LogicalSize::new(100, 50)))
            .with_url("https://example.org".to_string())
            .with_transparent(true)
            .build(),
    ];
    let window = Size::Physical(PhysicalSize::new(1600, 1200));
    let created = create_webviews(&bundles, window, ScaleFactor::new(2, 1).unwrap());
    assert_eq!(
        created,
        vec![
            NewWebView {
                name: "main".to_string(),
                rect: rect(0, 0, 800, 600),
                bounds: Bounds::Relative { anchor: Anchor::FullScreen, bounds: rect(0, 0, 0, 0) },
                source: Source::Html(String::new()),
                transparent: false,
            },
            NewWebView {
                name: "panel".to_string(),
                rect: rect(410, 310, 100, 50),
                bounds: Bounds::Relative { anchor: Anchor::Center, bounds: rect(10, 10, 100, 50) },
                source: Source::Url("https://example.org".to_string()),
                transparent: true,
            },
        ]
    );
    assert_eq!(create_webviews(&Vec::new(), window, ScaleFactor::identity()), Vec::new());
}

#[test]
fn resize_of_the_primary_window_updates_every_webview() {
    let webviews = three_webviews();
    let events = vec![WindowResized { window: 7, width: 1000, height: 400 }];
    let updates = keep_webviews_in_bounds(&events, &webviews, 7, Some(ScaleFactor::identity()));
    assert_eq!(
        updates,
        // The webview with absolute bounds stays where it is: it gets no update.
        vec![update("panel", rect(510, 210, 100, 50)), update("bar", rect(0, 0, 1000, 50))]
    );
}

#[test]
fn resize_leaves_absolute_bounds_alone() {
    let mut webviews: WebViews<u8> = WebViews::new();
    webviews.insert("fixed".to_string(), 2, Bounds::Absolute(rect(5, 6, 7, 8)));
    let events = vec![
        WindowResized { window: 7, width: 1000, height: 400 },
        WindowResized { window: 7, width: 0, height: 0 },
    ];
    assert_eq!(
        keep_webviews_in_bounds(&events, &webviews, 7, Some(ScaleFactor::identity())),
        Vec::new()
    );
    assert_eq!(webviews.get_bounds(&"fixed".to_string()), Some(&Bounds::Absolute(rect(5, 6, 7, 8))));
}

#[test]
fn resize_to_nothing_collapses_what_fills_the_window() {
    let webviews = three_webviews();
    let events = vec![WindowResized { window: 7, width: 0, height: 0 }];
    assert_eq!(
        keep_webviews_in_bounds(&events, &webviews, 7, Some(ScaleFactor::identity())),
        vec![update("panel", rect(10, 10, 100, 50)), update("bar", rect(0, 0, 0, 50))]
    );
}

#[test]
fn resize_of_another_window_updates_nothing() {
    let webviews = three_webviews();
    let events = vec![
        WindowResized { window: 8, width: 1000, height: 400 },
        WindowResized { window: 9, width: 10, height: 10 },
    ];
    assert_eq!(
        keep_webviews_in_bounds(&events, &webviews, 7, Some(ScaleFactor::identity())),
        Vec::new()
    );
}

#[test]
fn resizes_are_handled_in_turn() {
    let mut webviews: WebViews<u8> = WebViews::new();
    webviews.insert("full".to_string(), 1, Bounds::FullScreen);
    let events = vec![
        WindowResized { window: 7, width: 100, height: 50 },
        WindowResized { window: 3, width: 1, height: 1 },
        WindowResized { window: 7, width: 200, height: 60 },
    ];
    assert_eq!(
        keep_webviews_in_bounds(&events, &webviews, 7, Some(ScaleFactor::identity())),
        vec![update("full", rect(0, 0, 100, 50)), update("full", rect(0, 0, 200, 60))]
    );
}

#[test]
fn without_a_scale_factor_nothing_is_updated() {
    let webviews = three_webviews();
    let events = vec![WindowResized { window: 7, width: 1000, height: 400 }];
    assert_eq!(keep_webviews_in_bounds(&events, &webviews, 7, None), Vec::new());
}

#[test]
fn event_without_target_goes_to_every_webview() {
    let webviews = three_webviews();
    let event = ConsoleLog { text: "1".to_string(), target: None };
    assert_eq!(
        send_out_events(&webviews, &vec![&event]),
        vec![
            call("panel", "console.log(1)"),
            call("fixed", "console.log(1)"),
            call("bar", "console.log(1)"),
        ]
    );
}

#[test]
fn event_with_target_goes_to_that_webview_only() {
    let webviews = three_webviews();
    let events = vec![
        ConsoleLog { text: "a".to_string(), target: Some("fixed".to_string()) },
        ConsoleLog { text: "b".to_string(), target: Some("ghost".to_string()) },
        ConsoleLog { text: "c".to_string(), target: Some("bar".to_string()) },
    ];
    assert_eq!(
        send_out_events(&webviews, &events.iter().collect()),
        vec![call("fixed", "console.log(a)"), call("bar", "console.log(c)")]
    );
    let mut calls = vec![call("earlier", "x")];
    send_script(&webviews, &Some("panel".to_string()), &"y".to_string(), &mut calls);
    send_script(&webviews, &Some("ghost".to_string()), &"z".to_string(), &mut calls);
    assert_eq!(calls, vec![call("earlier", "x"), call("panel", "y")]);
}

#[test]
fn empty_out_event_has_an_empty_script_for_all() {
    assert_eq!(EmptyOutEvent.to_script(), "");
    assert_eq!(EmptyOutEvent.target_webview(), None);
    let webviews = three_webviews();
    assert_eq!(
        send_out_events(&webviews, &vec![&EmptyOutEvent]),
        vec![call("panel", ""), call("fixed", ""), call("bar", "")]
    );
}

#[test]
fn ipc_messages_are_decoded_one_by_one() {
    let mut in_bus = InMessageBus::default();
    in_bus.0.push("{\"Print\":\"hello\"}".to_string());
    in_bus.0.push("garbage".to_string());
    in_bus.0.push("{\"Print\":\"again\"}".to_string());
    let events: Vec<Result<Print, Error>> = consume_ipfs_events(&mut in_bus);
    assert_eq!(
        events,
        vec![
            Ok(Print("hello".to_string())),
            Err(Error::Deserialize),
            Ok(Print("again".to_string())),
        ]
    );
    assert_eq!(event_from_message(Some(1)), Ok(1));
    assert_eq!(event_from_message::<u8>(None), Err(Error::Deserialize));
}

#[test]
fn ipc_message_is_delivered_once() {
    let mut in_bus = InMessageBus::default();
    in_bus.0.push("{\"Print\":\"one\"}".to_string());
    let first: Vec<Result<Print, Error>> = consume_ipfs_events(&mut in_bus);
    assert_eq!(first, vec![Ok(Print("one".to_string()))]);
    // What was delivered is off the bus: a second read in the tick finds nothing.
    assert!(in_bus.0.is_empty());
    let again: Vec<Result<Print, Error>> = consume_ipfs_events(&mut in_bus);
    assert_eq!(again, Vec::new());
}

#[test]
fn message_pushed_before_the_end_of_the_tick_is_kept_for_the_next() {
    let webviews = three_webviews();
    let component = WebViewComponent::new("panel".to_string());
    let mut in_bus = InMessageBus::default();
    let mut out_bus = OutMessageBus::default();
    in_bus.0.push("{\"Print\":\"early\"}".to_string());
    let first: Vec<Result<Print, Error>> = consume_ipfs_events(&mut in_bus);
    assert_eq!(first, vec![Ok(Print("early".to_string()))]);
    // The webview posts a message after the bus was read and before the tick ends.
    in_bus.0.push("{\"Print\":\"late\"}".to_string());
    out_bus.0.push("console.log(1)".to_string());
    assert_eq!(
        clear_busses(&webviews, &component, &mut out_bus),
        Ok(vec!["console.log(1)".to_string()])
    );
    assert_eq!(in_bus.0.len(), 1);
    let next: Vec<Result<Print, Error>> = consume_ipfs_events(&mut in_bus);
    assert_eq!(next, vec![Ok(Print("late".to_string()))]);
    assert!(in_bus.0.is_empty());
}

#[test]
fn out_scripts_are_queued_and_handed_out_at_the_end_of_the_tick() {
    let webviews = three_webviews();
    let component = WebViewComponent::new("panel".to_string());
    let mut out_bus = OutMessageBus::default();
    produce_out_scripts(&ConsoleLog { text: "1".to_string(), target: None }, &mut out_bus);
    produce_out_scripts(&ConsoleLog { text: "2".to_string(), target: None }, &mut out_bus);
    assert_eq!(
        clear_busses(&webviews, &component, &mut out_bus),
        Ok(vec!["console.log(1)".to_string(), "console.log(2)".to_string()])
    );
    assert!(out_bus.0.is_empty());
    assert_eq!(clear_busses(&webviews, &component, &mut out_bus), Ok(Vec::new()));
}

#[test]
fn scripts_for_an_unregistered_webview_are_an_error() {
    let webviews = three_webviews();
    let component = WebViewComponent::new("ghost".to_string());
    let mut out_bus = OutMessageBus::default();
    // Nothing is queued for it: the tick ends as for any other.
    assert_eq!(clear_busses(&webviews, &component, &mut out_bus), Ok(Vec::new()));
    out_bus.0.push("console.log(1)".to_string());
    assert_eq!(
        clear_busses(&webviews, &component, &mut out_bus),
        Err(WebviewError::FailedToGetWebview("ghost".to_string()))
    );
    assert_eq!(out_bus.0.len(), 1);
}

#[test]
fn script_run_goes_on_after_a_call_that_was_taken() {
    let calls = vec![call("a", "1"), call("b", "2")];
    assert_eq!(next_script(&calls, 0, Ok(())), Ok(Some(0)));
    assert_eq!(next_script(&calls, 1, Ok(())), Ok(Some(1)));
    assert_eq!(next_script(&calls, 2, Ok(())), Ok(None));
    assert_eq!(next_script(&Vec::new(), 0, Ok(())), Ok(None));
}

#[test]
fn script_run_ends_at_the_first_failure() {
    let calls = vec![call("a", "1"), call("b", "2"), call("c", "3")];
    assert_eq!(next_script(&calls, 1, Err(Error::EvaluateScript)), Err(Error::EvaluateScript));
    assert_eq!(next_script(&calls, 3, Err(Error::EvaluateScript)), Err(Error::EvaluateScript));
    assert_eq!(next_script(&calls, 2, Err(Error::Deserialize)), Err(Error::EvaluateScript));
    // A whole run in which the second webview does not take its script.
    let mut evaluated = Vec::new();
    let mut made = 0;
    let mut last = Ok(());
    let result = loop {
        match next_script(&calls, made, last) {
            Ok(Some(index)) => {
                evaluated.push(calls[index].webview.clone());
                last = script_evaluated(if index == 1 { Err("no") } else { Ok(()) });
                made = index + 1;
            }
            Ok(None) => break Ok(()),
            Err(error) => break Err(error),
        }
    };
    assert_eq!(result, Err(Error::EvaluateScript));
    assert_eq!(evaluated, vec!["a".to_string(), "b".to_string()]);
}

#[test]
fn boot_delay_is_more_than_one_second() {
    assert!(!boot_delay_elapsed(0, 0));
    assert!(!boot_delay_elapsed(0, 999_999_999));
    assert!(!boot_delay_elapsed(1, 0));
    assert!(boot_delay_elapsed(1, 1));
    assert!(boot_delay_elapsed(2, 0));
    assert!(boot_delay_elapsed(u64::MAX, u32::MAX));
    assert!(boot_delay_elapsed(0, 1_000_000_001));
    assert!(!boot_delay_elapsed(0, 1_000_000_000));
}

#[test]
fn new_size_is_read_from_an_object() {
    assert_eq!(deserialie_new_size(Some((3, 4))), Some(UVec2 { x: 3, y: 4 }));
    assert_eq!(deserialie_new_size(None), None);
    let command = EditorCommand::ResizeViewport {
        new_position: deserialie_new_size(None),
        new_size: deserialie_new_size(Some((800, 600))),
    };
    assert_eq!(
        command,
        EditorCommand::ResizeViewport { new_position: None, new_size: Some(UVec2 { x: 800, y: 600 }) }
    );
}

#[test]
fn failed_evaluation_is_reported_as_such() {
    assert_eq!(script_evaluated::<String>(Ok(())), Ok(()));
    assert_eq!(script_evaluated(Err("no such function".to_string())), Err(Error::EvaluateScript));
    assert_eq!(send_out_events::<u8, ConsoleLog>(&three_webviews(), &Vec::new()), Vec::new());
}
