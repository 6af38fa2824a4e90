use hvtt::destination::macos_paste::{front_window, total_clicks, FocusStamp, PasteDestination};
use hvtt::pipeline::{DeliveryError, Liveness};

#[test]
fn the_shortcut_keys_are_not_typing_but_a_fourth_is() {
    let s = FocusStamp::new((42, 7), 3, 100);
    assert_eq!(s.pid(), 42);
    assert_eq!(s.moved(Some((42, 7)), 3, 103), None);
    assert_eq!(s.moved(Some((42, 7)), 3, 104), Some("typed"));
    assert_eq!(s.moved(Some((42, 7)), 4, 100), Some("clicked"));
    assert_eq!(s.moved(Some((43, 7)), 3, 100), Some("app-switched"));
    assert_eq!(s.moved(Some((42, 8)), 3, 100), Some("window-changed"));
    assert_eq!(s.moved(None, 3, 100), Some("no-front-window"));
}

#[test]
fn the_front_window_is_the_first_ordinary_one_of_another_program() {
    let own = 500;
    let list = [
        (Some(500), Some(0), Some(1)),
        (Some(20), Some(25), Some(2)),
        (Some(21), Some(0), None),
        (Some(22), Some(0), Some(4)),
        (Some(23), Some(0), Some(5)),
    ];
    assert_eq!(front_window(&list, own), Some((22, 4)));
    assert_eq!(front_window(&[], own), None);
    assert_eq!(total_clicks(u32::MAX, 2, 0), 1);
}

#[test]
fn a_mac_paste_destination_is_gated_on_the_stamp() {
    let d = PasteDestination::new(FocusStamp::new((1, 2), 0, 0), "Slack".into(), false);
    assert_eq!(d.label(), "Slack");
    assert_eq!(d.liveness(Some((1, 2)), 0, 3), Liveness::Alive);
    assert_eq!(d.deliver_check(Some((1, 2)), 0, 3), Ok(false));
    assert_eq!(d.deliver_check(Some((1, 2)), 1, 3), Err(DeliveryError::DestinationLost));
}
