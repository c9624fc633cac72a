use pinepods_core::components::feed::{feed, FeedView};
use pinepods_core::components::gen_components::{
    AdminSetupData, LongPress, SetupError, TimerAction, TouchPoint, DEFAULT_LONG_PRESS_DELAY,
};
use pinepods_core::components::queue::{queue, QueueView};
use pinepods_core::requests::episode::Episode;
use pinepods_core::requests::endpoints::episode_websocket_url;
use pinepods_core::strings::{starts_with_text, trim_start_text};
use pinepods_core::text::{clock_text, two_digits};

fn form(username: &str, password: &str, email: &str, fullname: &str) -> AdminSetupData {
    AdminSetupData {
        username: username.to_string(),
        password: password.to_string(),
        email: email.to_string(),
        fullname: fullname.to_string(),
    }
}

#[test]
fn setup_form_needs_every_field() {
    assert_eq!(form("", "longenough", "a@b", "A").validate(), Err(SetupError::MissingField));
    assert_eq!(form("u", "", "a@b", "A").validate(), Err(SetupError::MissingField));
    assert_eq!(form("u", "longenough", "", "A").validate(), Err(SetupError::MissingField));
    assert_eq!(form("u", "longenough", "a@b", "").validate(), Err(SetupError::MissingField));
    assert_eq!(form("", "", "", "").validate(), Err(SetupError::MissingField));
    assert_eq!(SetupError::MissingField.message(), "All fields are required");
}

#[test]
fn setup_form_needs_eight_bytes_of_password() {
    assert_eq!(form("u", "1234567", "a@b", "A").validate(), Err(SetupError::ShortPassword));
    assert_eq!(form("u", "12345678", "a@b", "A").validate(), Ok(()));
    // four characters of two bytes each
    assert_eq!(form("u", "ääää", "a@b", "A").validate(), Ok(()));
    assert_eq!(form("u", "äää", "a@b", "A").validate(), Err(SetupError::ShortPassword));
    assert_eq!(form("u", "short", "nowhere", "A").validate(), Err(SetupError::ShortPassword));
    assert_eq!(SetupError::ShortPassword.message(), "Password must be at least 8 characters");
}

#[test]
fn setup_form_needs_an_at_sign() {
    assert_eq!(form("u", "12345678", "nowhere", "A").validate(), Err(SetupError::InvalidEmail));
    assert_eq!(form("u", "12345678", "@", "A").validate(), Ok(()));
    assert_eq!(SetupError::InvalidEmail.message(), "Please enter a valid email address");
}

#[test]
fn long_press_fires_when_the_finger_stays() {
    let mut press = LongPress::new();
    assert!(!press.is_pressing && !press.is_long_press && !press.timer_running);
    let at = TouchPoint { x: 100, y: 200 };
    assert_eq!(press.touch_start(Some(at), None), TimerAction::Start(600));
    assert_eq!(DEFAULT_LONG_PRESS_DELAY, 600);
    assert!(press.is_pressing && !press.is_long_press && press.timer_running);
    assert_eq!(press.start_position, Some(at));
    assert_eq!(press.touch_move(Some(TouchPoint { x: 110, y: 190 })), TimerAction::Keep);
    assert!(press.is_pressing);
    assert!(press.timer_fired());
    assert!(press.is_long_press && !press.timer_running);
    assert!(!press.timer_fired());
    assert_eq!(press.touch_end(), TimerAction::Cancel);
    assert!(!press.is_pressing);
}

#[test]
fn long_press_is_dropped_when_the_finger_strays_or_lifts() {
    let at = TouchPoint { x: 100, y: 200 };
    for strayed in [
        TouchPoint { x: 111, y: 200 },
        TouchPoint { x: 89, y: 200 },
        TouchPoint { x: 100, y: 211 },
        TouchPoint { x: 100, y: 189 },
        TouchPoint { x: i32::MAX, y: i32::MIN },
    ] {
        let mut press = LongPress::new();
        assert_eq!(press.touch_start(Some(at), Some(250)), TimerAction::Start(250));
        assert_eq!(press.touch_move(Some(strayed)), TimerAction::Cancel);
        assert!(!press.is_pressing && !press.timer_running);
        assert!(!press.timer_fired());
        assert!(!press.is_long_press);
    }
    let mut press = LongPress::new();
    press.touch_start(Some(at), None);
    assert_eq!(press.touch_move(None), TimerAction::Keep);
    assert_eq!(press.touch_end(), TimerAction::Cancel);
    assert!(!press.timer_fired());
    assert!(!press.is_long_press);

    let mut unplaced = LongPress::new();
    unplaced.touch_start(None, None);
    assert_eq!(unplaced.touch_move(Some(at)), TimerAction::Keep);
    // the place of an earlier touch stays where a later one has none
    let mut again = LongPress::new();
    again.touch_start(Some(at), None);
    again.touch_end();
    again.touch_start(None, None);
    assert_eq!(again.start_position, Some(at));
}

#[test]
fn prefixes_are_found_and_trimmed_as_the_standard_library_does() {
    let texts = [
        "http://a", "https://a", "http://http://a", "http://https://a", "https://http://a",
        "a", "", "http:/", "http://", "hhttp://a", "HTTP://a", "ähttp://",
    ];
    for text in texts {
        for prefix in ["http://", "https://", "h", "ä", ""] {
            assert_eq!(starts_with_text(text, prefix), text.starts_with(prefix));
            assert_eq!(trim_start_text(text, prefix), text.trim_start_matches(prefix));
        }
    }
}

#[test]
fn socket_address_follows_the_server_name() {
    assert_eq!(
        episode_websocket_url("https://pods.example", 7, "k3y", false),
        "wss://pods.example/ws/api/data/episodes/7?api_key=k3y&nextcloud_refresh=false"
    );
    assert_eq!(
        episode_websocket_url("http://pods.example:8040", 7, "k3y", true),
        "ws://pods.example:8040/ws/api/data/episodes/7?api_key=k3y&nextcloud_refresh=true"
    );
    assert_eq!(
        episode_websocket_url("pods.example", -1, "", true),
        "ws://pods.example/ws/api/data/episodes/-1?api_key=&nextcloud_refresh=true"
    );
    assert_eq!(
        episode_websocket_url("http://https://odd", 1, "k", true),
        "ws://odd/ws/api/data/episodes/1?api_key=k&nextcloud_refresh=true"
    );
    assert_eq!(
        episode_websocket_url("https://http://odd", 1, "k", true),
        "wss://http://odd/ws/api/data/episodes/1?api_key=k&nextcloud_refresh=true"
    );
}

#[test]
fn clock_shows_hours_minutes_and_seconds() {
    assert_eq!(clock_text(0), "00:00:00");
    assert_eq!(clock_text(59), "00:00:59");
    assert_eq!(clock_text(60), "00:01:00");
    assert_eq!(clock_text(3599), "00:59:59");
    assert_eq!(clock_text(3600), "01:00:00");
    assert_eq!(clock_text(36_000 + 62), "10:01:02");
    assert_eq!(clock_text(360_000), "100:00:00");
    assert_eq!(u64::MAX % 3600, 15);
    assert_eq!(clock_text(u64::MAX), format!("{:02}:{:02}:{:02}", i32::MAX, 0, 15));
    assert_eq!(two_digits(7), "07");
    assert_eq!(two_digits(10), "10");
    assert_eq!(two_digits(123), "123");
    for seconds in [0.0f64, 0.9, 61.5, 3599.99, 7325.2, 86_400.0] {
        let hours = (seconds / 3600.0).floor() as i32;
        let minutes = ((seconds % 3600.0) / 60.0).floor() as i32;
        let rest = (seconds % 60.0).floor() as i32;
        assert_eq!(
            clock_text(seconds.floor() as u64),
            format!("{:02}:{:02}:{:02}", hours, minutes, rest)
        );
    }
}

#[test]
fn pages_show_the_list_only_when_there_is_one() {
    let none: Vec<Episode> = Vec::new();
    let some = vec![Episode::default()];
    assert_eq!(queue(true, None), QueueView::Loading);
    assert_eq!(queue(true, Some(&some)), QueueView::Loading);
    assert_eq!(queue(false, None), QueueView::NeverLoaded);
    assert_eq!(queue(false, Some(&none)), QueueView::NothingQueued);
    assert_eq!(queue(false, Some(&some)), QueueView::List);

    assert_eq!(feed(true, Some(Some(&some))), FeedView::Loading);
    assert_eq!(feed(false, None), FeedView::NeverLoaded);
    assert_eq!(feed(false, Some(None)), FeedView::NeverLoaded);
    assert_eq!(feed(false, Some(Some(&none))), FeedView::NothingRecent);
    assert_eq!(feed(false, Some(Some(&some))), FeedView::List);
}
