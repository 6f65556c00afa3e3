//! What the title bar decides: its buttons, the scan indicator, and how it
//! answers the mouse.

use crate::events::ScanEvent;
use crate::reactive::ReactiveContainer;
use vstd::prelude::*;

verus! {

#[derive(Debug, PartialEq, Eq, Clone, Copy)]
pub enum WindowButton {
    Close,
    Minimize,
    Maximize,
}

/// What a click on a window button does.
#[derive(Debug, PartialEq, Eq, Clone, Copy)]
pub enum WindowAction {
    Quit,
    MinimizeWindow,
    ZoomWindow,
}

/// The colours of a window button.
#[derive(Debug, PartialEq, Eq, Clone, Copy)]
pub enum ButtonPalette {
    /// The colours of the close button.
    Close,
    /// The colours of every other button.
    Plain,
}

/// The icon beside the scan status.
#[derive(Debug, PartialEq, Eq, Clone, Copy)]
pub enum ScanIcon {
    /// The scan is complete.
    Settled,
    /// The scanner is at work.
    Working,
}

/// What the text beside the scan icon says.
#[derive(Debug, PartialEq, Eq, Clone, Copy)]
pub enum ScanLabel {
    /// No text.
    Nothing,
    /// The library is watched for updates.
    Watching,
    /// Files are being discovered; so many were found.
    Discovering(u64),
    /// Files are being scanned: `current` of `total`.
    Scanning { current: u64, total: u64 },
}

/// Which sides of the window are tiled against something.
#[derive(Debug, PartialEq, Eq, Clone, Copy)]
pub struct Tiling {
    pub top: bool,
    pub left: bool,
    pub right: bool,
    pub bottom: bool,
}

/// The upper corners that a title bar rounds.
#[derive(Debug, PartialEq, Eq, Clone, Copy)]
pub struct RoundedCorners {
    pub top_left: bool,
    pub top_right: bool,
}

/// The scan indicator of the title bar. It follows the scan cell through
/// a subscription of its own.
#[derive(Debug, PartialEq, Eq, Clone, Copy)]
pub struct ScanStatus {
    pub subscription: u64,
}

/// The title bar.
#[derive(Debug, PartialEq, Eq, Clone, Copy)]
pub struct Header {
    pub scan_status: ScanStatus,
}

impl ScanStatus {
    /// Makes the indicator and subscribes it to the scan cell, behind the
    /// subscriptions that the cell has.
    pub fn new(scan_state: &mut ReactiveContainer<ScanEvent>) -> (view: ScanStatus)
        requires
            old(scan_state).issued() < u64::MAX,
        ensures
            final(scan_state).wf(),
            final(scan_state).value == old(scan_state).value,
            final(scan_state).issued() == old(scan_state).issued() + 1,
            final(scan_state).subscribers() == old(scan_state).subscribers().push(
                view.subscription,
            ),
            view.subscription == old(scan_state).issued(),
    {
        ScanStatus { subscription: scan_state.subscribe() }
    }

    /// The text to show for what the scan cell holds.
    pub fn label(&self, scan_state: &ReactiveContainer<ScanEvent>) -> (label: ScanLabel)
        ensures
            label == scan_label_of(scan_state.value),
    {
        scan_label(scan_state.read())
    }

    /// The icon to show for what the scan cell holds.
    pub fn icon(&self, scan_state: &ReactiveContainer<ScanEvent>) -> (icon: ScanIcon)
        ensures
            icon == scan_icon_of(scan_state.value),
    {
        scan_icon(scan_state.read())
    }
}

impl Header {
    /// Makes the title bar with its scan indicator, which subscribes to the
    /// scan cell.
    pub fn new(scan_state: &mut ReactiveContainer<ScanEvent>) -> (view: Header)
        requires
            old(scan_state).issued() < u64::MAX,
        ensures
            final(scan_state).wf(),
            final(scan_state).value == old(scan_state).value,
            final(scan_state).issued() == old(scan_state).issued() + 1,
            final(scan_state).subscribers() == old(scan_state).subscribers().push(
                view.scan_status.subscription,
            ),
            view.scan_status.subscription == old(scan_state).issued(),
    {
        Header { scan_status: ScanStatus::new(scan_state) }
    }
}

/// The icon for a scan status: settled once the scan is complete, whether
/// or not the library is watched afterwards.
pub open spec fn scan_icon_of(status: ScanEvent) -> ScanIcon {
    if status == ScanEvent::ScanCompleteIdle || status == ScanEvent::ScanCompleteWatching {
        ScanIcon::Settled
    } else {
        ScanIcon::Working
    }
}

impl WindowButton {
    /// The element id of the button.
    pub fn id(self) -> (id: &'static str)
        ensures
            id@ == (match self {
                WindowButton::Close => "close"@,
                WindowButton::Minimize => "minimize"@,
                WindowButton::Maximize => "maximize"@,
            }),
    {
        match self {
            WindowButton::Close => "close",
            WindowButton::Minimize => "minimize",
            WindowButton::Maximize => "maximize",
        }
    }

    pub fn action(self) -> (action: WindowAction)
        ensures
            action == (match self {
                WindowButton::Close => WindowAction::Quit,
                WindowButton::Minimize => WindowAction::MinimizeWindow,
                WindowButton::Maximize => WindowAction::ZoomWindow,
            }),
    {
        match self {
            WindowButton::Close => WindowAction::Quit,
            WindowButton::Minimize => WindowAction::MinimizeWindow,
            WindowButton::Maximize => WindowAction::ZoomWindow,
        }
    }

    pub fn palette(self) -> (palette: ButtonPalette)
        ensures
            palette == (if self == WindowButton::Close {
                ButtonPalette::Close
            } else {
                ButtonPalette::Plain
            }),
    {
        match self {
            WindowButton::Close => ButtonPalette::Close,
            _ => ButtonPalette::Plain,
        }
    }

    /// Whether the button rounds its upper right corner: the close button
    /// does, as the last of the row.
    pub fn rounds_corner(self) -> (rounds: bool)
        ensures
            rounds == (self == WindowButton::Close),
    {
        match self {
            WindowButton::Close => true,
            _ => false,
        }
    }
}

/// The text for a scan status: none while idle or cleaning, the counts
/// while discovering or scanning.
pub open spec fn scan_label_of(status: ScanEvent) -> ScanLabel {
    match status {
        ScanEvent::ScanCompleteIdle => ScanLabel::Nothing,
        ScanEvent::ScanProgress { current, total } => ScanLabel::Scanning { current, total },
        ScanEvent::DiscoverProgress(progress) => ScanLabel::Discovering(progress),
        ScanEvent::Cleaning => ScanLabel::Nothing,
        ScanEvent::ScanCompleteWatching => ScanLabel::Watching,
    }
}

/// The text for a scan status.
pub fn scan_label(status: &ScanEvent) -> (label: ScanLabel)
    ensures
        label == scan_label_of(*status),
{
    match status {
        ScanEvent::ScanCompleteIdle => ScanLabel::Nothing,
        ScanEvent::ScanProgress { current, total } => ScanLabel::Scanning {
            current: *current,
            total: *total,
        },
        ScanEvent::DiscoverProgress(progress) => ScanLabel::Discovering(*progress),
        ScanEvent::Cleaning => ScanLabel::Nothing,
        ScanEvent::ScanCompleteWatching => ScanLabel::Watching,
    }
}

/// The buttons at the end of the title bar, in order: minimize, maximize,
/// close, where the title bar draws them itself, and none where the system
/// does.
pub fn button_row(draws_buttons: bool) -> (row: Vec<WindowButton>)
    ensures
        row@ == (if draws_buttons {
            seq![WindowButton::Minimize, WindowButton::Maximize, WindowButton::Close]
        } else {
            Seq::<WindowButton>::empty()
        }),
{
    let mut row: Vec<WindowButton> = Vec::new();
    if draws_buttons {
        row.push(WindowButton::Minimize);
        row.push(WindowButton::Maximize);
        row.push(WindowButton::Close);
        proof {
            assert(row@ =~= seq![
                WindowButton::Minimize,
                WindowButton::Maximize,
                WindowButton::Close,
            ]);
        }
    }
    row
}

/// The icon for a scan status.
pub fn scan_icon(status: &ScanEvent) -> (icon: ScanIcon)
    ensures
        icon == scan_icon_of(*status),
{
    match status {
        ScanEvent::ScanCompleteIdle => ScanIcon::Settled,
        ScanEvent::ScanCompleteWatching => ScanIcon::Settled,
        _ => ScanIcon::Working,
    }
}

/// Whether a press on the title bar starts moving the window: every press
/// but the second of a double click.
pub fn press_moves_window(click_count: usize) -> (moves: bool)
    ensures
        moves == (click_count != 2),
{
    click_count != 2
}

/// Whether a click on the title bar zooms the window: a double click does.
pub fn click_zooms_window(click_count: usize) -> (zooms: bool)
    ensures
        zooms == (click_count == 2),
{
    click_count == 2
}

/// The corners that the title bar rounds where the window draws its own
/// decorations: each upper corner that touches no tiled side.
pub fn rounded_corners(tiling: Tiling) -> (corners: RoundedCorners)
    ensures
        corners.top_left == !(tiling.top || tiling.left),
        corners.top_right == !(tiling.top || tiling.right),
{
    RoundedCorners {
        top_left: !(tiling.top || tiling.left),
        top_right: !(tiling.top || tiling.right),
    }
}

} // verus!
