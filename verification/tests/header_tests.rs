use muzak::events::ScanEvent;
use muzak::header::{button_row, scan_label, ScanLabel};
use muzak::header::{
    click_zooms_window, press_moves_window, rounded_corners, scan_icon, ButtonPalette,
    RoundedCorners, ScanIcon, Tiling, WindowAction, WindowButton,
};

#[test]
fn each_button_has_its_id_action_and_palette() {
    assert_eq!(WindowButton::Close.id(), "close");
    assert_eq!(WindowButton::Minimize.id(), "minimize");
    assert_eq!(WindowButton::Maximize.id(), "maximize");
    assert_eq!(WindowButton::Close.action(), WindowAction::Quit);
    assert_eq!(WindowButton::Minimize.action(), WindowAction::MinimizeWindow);
    assert_eq!(WindowButton::Maximize.action(), WindowAction::ZoomWindow);
    assert_eq!(WindowButton::Close.palette(), ButtonPalette::Close);
    assert_eq!(WindowButton::Minimize.palette(), ButtonPalette::Plain);
    assert_eq!(WindowButton::Maximize.palette(), ButtonPalette::Plain);
    assert!(WindowButton::Close.rounds_corner());
    assert!(!WindowButton::Maximize.rounds_corner());
}

#[test]
fn scan_icon_is_settled_only_when_complete() {
    assert_eq!(scan_icon(&ScanEvent::ScanCompleteIdle), ScanIcon::Settled);
    assert_eq!(scan_icon(&ScanEvent::ScanCompleteWatching), ScanIcon::Settled);
    assert_eq!(scan_icon(&ScanEvent::Cleaning), ScanIcon::Working);
    assert_eq!(scan_icon(&ScanEvent::DiscoverProgress(12)), ScanIcon::Working);
    assert_eq!(scan_icon(&ScanEvent::ScanProgress { current: 1, total: 2 }), ScanIcon::Working);
}

#[test]
fn double_click_zooms_and_does_not_move() {
    assert!(press_moves_window(1));
    assert!(!press_moves_window(2));
    assert!(press_moves_window(3));
    assert!(!click_zooms_window(1));
    assert!(click_zooms_window(2));
    assert!(!click_zooms_window(3));
}

#[test]
fn corners_touching_a_tiled_side_stay_square() {
    let free = Tiling { top: false, left: false, right: false, bottom: false };
    assert_eq!(rounded_corners(free), RoundedCorners { top_left: true, top_right: true });
    let left = Tiling { top: false, left: true, right: false, bottom: false };
    assert_eq!(rounded_corners(left), RoundedCorners { top_left: false, top_right: true });
    let top = Tiling { top: true, left: false, right: false, bottom: true };
    assert_eq!(rounded_corners(top), RoundedCorners { top_left: false, top_right: false });
    let right = Tiling { top: false, left: false, right: true, bottom: false };
    assert_eq!(rounded_corners(right), RoundedCorners { top_left: true, top_right: false });
}

#[test]
fn header_subscribes_its_scan_status() {
    let mut scan = muzak::reactive::ReactiveContainer::new(ScanEvent::ScanCompleteIdle);
    let first = scan.subscribe();
    let header = muzak::header::Header::new(&mut scan);
    assert_eq!(scan.notify(), vec![first, header.scan_status.subscription]);
    assert_eq!(header.scan_status.icon(&scan), ScanIcon::Settled);
    let round = scan.update(ScanEvent::ScanProgress { current: 3, total: 9 });
    assert_eq!(round, vec![first, header.scan_status.subscription]);
    assert_eq!(header.scan_status.icon(&scan), ScanIcon::Working);
    let status = muzak::header::ScanStatus::new(&mut scan);
    assert_eq!(status.subscription, 2);
    assert_eq!(scan.subscriber_count(), 3);
}

#[test]
fn each_scan_status_has_its_label() {
    assert_eq!(scan_label(&ScanEvent::ScanCompleteIdle), ScanLabel::Nothing);
    assert_eq!(scan_label(&ScanEvent::Cleaning), ScanLabel::Nothing);
    assert_eq!(scan_label(&ScanEvent::ScanCompleteWatching), ScanLabel::Watching);
    assert_eq!(scan_label(&ScanEvent::DiscoverProgress(12)), ScanLabel::Discovering(12));
    assert_eq!(
        scan_label(&ScanEvent::ScanProgress { current: 1, total: 3 }),
        ScanLabel::Scanning { current: 1, total: 3 }
    );
    let mut scan = muzak::reactive::ReactiveContainer::new(ScanEvent::DiscoverProgress(4));
    let status = muzak::header::ScanStatus::new(&mut scan);
    assert_eq!(status.label(&scan), ScanLabel::Discovering(4));
}

#[test]
fn the_button_row_ends_with_close() {
    assert_eq!(
        button_row(true),
        vec![WindowButton::Minimize, WindowButton::Maximize, WindowButton::Close]
    );
    assert!(button_row(false).is_empty());
}
