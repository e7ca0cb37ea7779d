use bevy_wry::components::bounds::{Anchor, Bounds};
use bevy_wry::components::webview::WebViews;
use bevy_wry::dpi::{LogicalPosition, LogicalSize, Position, Rect, ScaleFactor, Size};
use bevy_wry::error::Error;

fn rect(x: i64, y: i64, width: u32, height: u32) -> Rect {
    Rect {
        position: Position::Logical(LogicalPosition::new(x, y)),
        size: Size::Logical(LogicalSize::new(width, height)),
    }
}

fn window() -> Size {
    Size::Logical(LogicalSize::new(800, 600))
}

#[test]
fn second_insert_under_a_name_does_not_replace_the_first() {
    let mut webviews: WebViews<&str> = WebViews::new();
    assert!(webviews.insert("main".to_string(), "first", Bounds::FullScreen));
    assert!(!webviews.insert("main".to_string(), "second", Bounds::Absolute(rect(1, 2, 3, 4))));
    assert_eq!(webviews.get_webview(&"main".to_string()), Some(&"first"));
    assert_eq!(webviews.get_bounds(&"main".to_string()), Some(&Bounds::FullScreen));
    assert_eq!(webviews.len(), 1);
}

#[test]
fn update_anchor_needs_relative_bounds() {
    let mut webviews: WebViews<u8> = WebViews::new();
    let fixed = Bounds::Absolute(rect(1, 2, 3, 4));
    webviews.insert("fixed".to_string(), 1, fixed);
    webviews.insert("full".to_string(), 2, Bounds::FullScreen);
    let scale = ScaleFactor::identity();
    assert_eq!(
        webviews.update_anchor(&"fixed".to_string(), Anchor::Top, window(), scale),
        Err(Error::FailedToUpdateAnchor)
    );
    assert_eq!(webviews.get_bounds(&"fixed".to_string()), Some(&fixed));
    assert_eq!(
        webviews.update_anchor(&"full".to_string(), Anchor::Top, window(), scale),
        Err(Error::FailedToUpdateAnchor)
    );
    assert_eq!(webviews.get_bounds(&"full".to_string()), Some(&Bounds::FullScreen));
}

#[test]
fn update_anchor_changes_the_anchor_and_returns_the_new_rectangle() {
    let mut webviews: WebViews<u8> = WebViews::new();
    let base = rect(10, 10, 100, 50);
    webviews.insert("panel".to_string(), 1, Bounds::Relative { anchor: Anchor::Center, bounds: base });
    let updated =
        webviews.update_anchor(&"panel".to_string(), Anchor::BottomStretch, window(), ScaleFactor::identity());
    assert_eq!(updated, Ok(rect(0, 550, 800, 50)));
    assert_eq!(
        webviews.get_bounds(&"panel".to_string()),
        Some(&Bounds::Relative { anchor: Anchor::BottomStretch, bounds: base })
    );
    assert_eq!(webviews.get_webview(&"panel".to_string()), Some(&1));
}

#[test]
fn update_anchor_of_an_unknown_name_is_reported() {
    let mut webviews: WebViews<u8> = WebViews::new();
    assert_eq!(
        webviews.update_anchor(&"ghost".to_string(), Anchor::Top, window(), ScaleFactor::identity()),
        Err(Error::FailedToGetWebview("ghost".to_string()))
    );
}

#[test]
fn lookup_of_an_unknown_name_finds_nothing() {
    let mut webviews: WebViews<u8> = WebViews::default();
    assert!(webviews.is_empty());
    assert_eq!(webviews.len(), 0);
    assert_eq!(webviews.get_all_names(), Vec::<String>::new());
    assert_eq!(webviews.get_webview(&"none".to_string()), None);
    assert_eq!(webviews.get_bounds(&"none".to_string()), None);
    assert!(webviews.get_webview_with_bounds_mut(&"none".to_string()).is_none());
    assert!(!webviews.contains(&"none".to_string()));
}

#[test]
fn remove_releases_the_name() {
    let mut webviews: WebViews<u8> = WebViews::new();
    webviews.insert("a".to_string(), 1, Bounds::FullScreen);
    webviews.insert("b".to_string(), 2, Bounds::FullScreen);
    webviews.insert("c".to_string(), 3, Bounds::FullScreen);
    assert_eq!(webviews.remove_webview(&"a".to_string()), Ok(()));
    assert_eq!(webviews.get_webview(&"a".to_string()), None);
    assert_eq!(webviews.get_webview(&"b".to_string()), Some(&2));
    assert_eq!(webviews.get_webview(&"c".to_string()), Some(&3));
    // The last name took the place of the one that left.
    assert_eq!(webviews.get_all_names(), vec!["c".to_string(), "b".to_string()]);
    assert_eq!(
        webviews.remove_webview(&"a".to_string()),
        Err(Error::FailedToGetWebview("a".to_string()))
    );
    assert!(webviews.insert("a".to_string(), 4, Bounds::FullScreen));
    assert_eq!(webviews.get_webview(&"a".to_string()), Some(&4));
    assert_eq!(webviews.remove_webview(&"a".to_string()), Ok(()));
    assert_eq!(webviews.remove_webview(&"b".to_string()), Ok(()));
    assert_eq!(webviews.remove_webview(&"c".to_string()), Ok(()));
    assert!(webviews.is_empty());
    assert_eq!(webviews.get_webview(&"c".to_string()), None);
}

#[test]
fn listings_follow_the_order_of_the_names() {
    let mut webviews: WebViews<u8> = WebViews::new();
    let fixed = Bounds::Absolute(rect(1, 2, 3, 4));
    webviews.insert("a".to_string(), 1, Bounds::FullScreen);
    webviews.insert("b".to_string(), 2, fixed);
    assert_eq!(webviews.get_all_names(), vec!["a".to_string(), "b".to_string()]);
    assert_eq!(webviews.get_all_webviews(), vec![&1, &2]);
    assert_eq!(webviews.get_all(), vec![&1, &2]);
    assert_eq!(
        webviews.get_all_webviews_with_bounds(),
        vec![(&1, &Bounds::FullScreen), (&2, &fixed)]
    );
    assert_eq!(
        webviews.get_all_bounds(),
        vec![("a".to_string(), Bounds::FullScreen), ("b".to_string(), fixed)]
    );
}

#[test]
fn webview_and_bounds_can_be_changed_in_place() {
    let mut webviews: WebViews<u8> = WebViews::new();
    webviews.insert("a".to_string(), 1, Bounds::FullScreen);
    webviews.insert("b".to_string(), 2, Bounds::FullScreen);
    let fixed = Bounds::Absolute(rect(1, 2, 3, 4));
    {
        let (webview, bounds) = webviews.get_webview_with_bounds_mut(&"b".to_string()).unwrap();
        *webview = 20;
        *bounds = fixed;
    }
    assert_eq!(webviews.get_webview(&"b".to_string()), Some(&20));
    assert_eq!(webviews.get_bounds(&"b".to_string()), Some(&fixed));
    assert_eq!(webviews.get_webview(&"a".to_string()), Some(&1));
    assert_eq!(webviews.get_bounds(&"a".to_string()), Some(&Bounds::FullScreen));
}

#[test]
fn many_names_are_all_found_again() {
    let mut webviews: WebViews<usize> = WebViews::new();
    for i in 0..200 {
        assert!(webviews.insert(format!("view{i}"), i, Bounds::FullScreen));
    }
    for i in (0..200).step_by(2) {
        assert_eq!(webviews.remove_webview(&format!("view{i}")), Ok(()));
    }
    assert_eq!(webviews.len(), 100);
    for i in 0..200 {
        let expected = if i % 2 == 1 { Some(&i) } else { None };
        assert_eq!(webviews.get_webview(&format!("view{i}")), expected);
    }
}

#[test]
fn errors_have_their_messages() {
    assert_eq!(Error::FailedToGetMainWindow.message(), "failed to get main window");
    assert_eq!(Error::Wry("no display".to_string()).message(), "wry error: no display");
    assert_eq!(
        Error::FailedToGetWebview("main".to_string()).message(),
        "webview with name 'main' doesn't exist"
    );
    assert_eq!(
        Error::FailedToUpdateAnchor.message(),
        "cannot update anchnor of a webview with not relative bounds"
    );
}
