//! The buttons of Mahjong Soul's result screens: where they are, how a screen
//! is told by them, and which to press.
//!
//! Positions are in a 1600 by 900 space that is stretched over the canvas.

use vstd::prelude::*;

verus! {

/// The width of the coordinate space.
pub const GAME_WIDTH: u32 = 1600;

/// The height of the coordinate space.
pub const GAME_HEIGHT: u32 = 900;

/// How often the Confirm button is pressed at most.
pub const MAX_CONFIRM_CLICKS: u32 = 2;

/// How often the Rematch button is pressed at most.
pub const MAX_REMATCH_CLICKS: u32 = 2;

/// How many points of a button are looked at.
pub const SAMPLES: u32 = 32;

/// The rectangle of a button.
#[derive(Clone, Copy, Debug, PartialEq, Eq, Structural)]
pub struct Region {
    pub left: u16,
    pub top: u16,
    pub right: u16,
    pub bottom: u16,
}

/// Where the button is that confirms a result.
pub open spec fn confirm_region() -> Region {
    Region { left: 1352, top: 797, right: 1550, bottom: 849 }
}

/// Where the button is that asks for another game.
pub open spec fn rematch_region() -> Region {
    Region { left: 1119, top: 797, right: 1313, bottom: 849 }
}

/// Where the button is that accepts the matchmaking dialog.
pub open spec fn dialog_region() -> Region {
    Region { left: 530, top: 636, right: 772, bottom: 686 }
}

impl Region {
    /// The button that confirms a result.
    pub fn confirm() -> (r: Region)
        ensures
            r == confirm_region(),
    {
        Region { left: 1352, top: 797, right: 1550, bottom: 849 }
    }

    /// The button that asks for another game.
    pub fn rematch() -> (r: Region)
        ensures
            r == rematch_region(),
    {
        Region { left: 1119, top: 797, right: 1313, bottom: 849 }
    }

    /// The button that accepts the matchmaking dialog.
    pub fn dialog() -> (r: Region)
        ensures
            r == dialog_region(),
    {
        Region { left: 530, top: 636, right: 772, bottom: 686 }
    }

    /// Twice the coordinates of the centre, which may lie between two units.
    pub open spec fn twice_center(self) -> (int, int) {
        (self.left + self.right, self.top + self.bottom)
    }

    /// Twice the coordinates of the centre, which may lie between two units.
    pub fn center(self) -> (c: (u32, u32))
        ensures
            (c.0 as int, c.1 as int) == self.twice_center(),
    {
        (self.left as u32 + self.right as u32, self.top as u32 + self.bottom as u32)
    }
}

/// What a screenshot shows.
#[derive(Clone, Copy, Debug, PartialEq, Eq, Structural)]
pub enum Screen {
    Confirm,
    Rematch,
    Dialog,
    Other,
}

/// Whether the matchmaking dialog is expected yet.
#[derive(Clone, Copy, Debug, PartialEq, Eq, Structural)]
pub enum Phase {
    Results,
    MatchDialog,
}

/// What to do about a screen.
#[derive(Clone, Copy, Debug, PartialEq, Eq, Structural)]
pub enum Action {
    Confirm,
    Rematch,
    Dialog,
    /// Click where Rematch will be, to get past an unknown screen.
    Advance,
    Wait,
}

/// The button that an action presses.
pub open spec fn button_of(action: Action) -> Option<Region> {
    match action {
        Action::Confirm => Some(confirm_region()),
        Action::Rematch => Some(rematch_region()),
        Action::Dialog => Some(dialog_region()),
        Action::Advance => Some(rematch_region()),
        Action::Wait => None,
    }
}

impl Action {
    /// Twice the coordinates of the point that the action clicks, if it clicks.
    pub fn point(self) -> (p: Option<(u32, u32)>)
        ensures
            p is Some <==> button_of(self) is Some,
            p matches Some(c) ==> (c.0 as int, c.1 as int) == button_of(self)->0.twice_center(),
    {
        match self {
            Action::Confirm => Some(Region::confirm().center()),
            Action::Rematch => Some(Region::rematch().center()),
            Action::Dialog => Some(Region::dialog().center()),
            Action::Advance => Some(Region::rematch().center()),
            Action::Wait => None,
        }
    }
}

/// What to do about `screen`, with so many presses of Confirm and Rematch made
/// already.
pub open spec fn chosen_action(phase: Phase, screen: Screen, confirms: u32, rematches: u32) -> Action {
    if screen is Dialog {
        Action::Dialog
    } else if screen is Rematch && rematches < MAX_REMATCH_CLICKS {
        Action::Rematch
    } else if phase is MatchDialog {
        Action::Wait
    } else if screen is Confirm && confirms < MAX_CONFIRM_CLICKS {
        Action::Confirm
    } else {
        Action::Advance
    }
}

/// What to do about `screen`, with so many presses of Confirm and Rematch made
/// already.
pub fn choose_action(phase: Phase, screen: Screen, confirms: u32, rematches: u32) -> (a: Action)
    ensures
        a == chosen_action(phase, screen, confirms, rematches),
{
    match (phase, screen) {
        // A blind advance click can hit Rematch before its blue is recognized,
        // so the dialog is answered in either phase.
        (_, Screen::Dialog) => Action::Dialog,
        (Phase::Results, Screen::Rematch) if rematches < MAX_REMATCH_CLICKS => Action::Rematch,
        (Phase::Results, Screen::Confirm) if confirms < MAX_CONFIRM_CLICKS => Action::Confirm,
        (Phase::Results, _) => Action::Advance,
        (Phase::MatchDialog, Screen::Rematch) if rematches < MAX_REMATCH_CLICKS => Action::Rematch,
        (Phase::MatchDialog, _) => Action::Wait,
    }
}

/// Whether a colour, as red, green and blue, is the gold of a button.
pub open spec fn gold(rgb: Seq<u8>) -> bool {
    rgb[0] > 200 && rgb[1] > 160 && 65 < rgb[2] < 180 && rgb[0] > rgb[1]
}

/// Whether a colour, as red, green and blue, is the blue of a button.
pub open spec fn blue(rgb: Seq<u8>) -> bool {
    rgb[2] > 95 && rgb[2] > rgb[1] + 25 && rgb[1] > rgb[0] + 15
}

/// Whether a colour is the gold of a button.
pub fn is_gold(rgb: [u8; 3]) -> (res: bool)
    ensures
        res == gold(rgb@),
{
    let (r, g, b) = (rgb[0], rgb[1], rgb[2]);
    r > 200 && g > 160 && b > 65 && b < 180 && r > g
}

/// Whether a colour is the blue of a button.
pub fn is_blue(rgb: [u8; 3]) -> (res: bool)
    ensures
        res == blue(rgb@),
{
    let (r, g, b) = (rgb[0], rgb[1], rgb[2]);
    b > 95 && b > g.saturating_add(25) && g > r.saturating_add(15)
}

/// Whether `hits` of the points looked at are at least `percent` percent.
pub open spec fn covers(hits: u32, percent: int) -> bool {
    hits * 100 >= percent * SAMPLES
}

/// What a screen shows whose Rematch button is blue, and whose dialog and
/// Confirm buttons are gold, at so many of the points looked at.
///
/// The result page can show Confirm and Rematch together, and the dialog
/// darkens both. The order keeps Confirm, which leads back to the lobby, from
/// being taken for the answer once Rematch begins to appear.
pub open spec fn screen_of(rematch_blue: u32, dialog_gold: u32, confirm_gold: u32) -> Screen {
    if covers(dialog_gold, 55) {
        Screen::Dialog
    } else if covers(rematch_blue, 40) {
        Screen::Rematch
    } else if covers(confirm_gold, 55) && rematch_blue == 0 {
        Screen::Confirm
    } else {
        Screen::Other
    }
}

/// What a screen shows, by how many of the points looked at have each button's
/// colour.
pub fn classify_coverage(rematch_blue: u32, dialog_gold: u32, confirm_gold: u32) -> (s: Screen)
    ensures
        s == screen_of(rematch_blue, dialog_gold, confirm_gold),
{
    let all: u64 = SAMPLES as u64;
    if dialog_gold as u64 * 100 >= 55 * all {
        Screen::Dialog
    } else if rematch_blue as u64 * 100 >= 40 * all {
        Screen::Rematch
    } else if confirm_gold as u64 * 100 >= 55 * all && rematch_blue == 0 {
        Screen::Confirm
    } else {
        Screen::Other
    }
}

/// A blind advance clicks exactly where Rematch is clicked, and an unknown
/// screen never gets Confirm pressed.
pub proof fn unknown_screens_never_get_confirm(phase: Phase, confirms: u32, rematches: u32)
    ensures
        button_of(Action::Advance) == button_of(Action::Rematch),
        !(chosen_action(phase, Screen::Other, confirms, rematches) is Confirm),
{
}

/// Confirm is pressed only on a screen that shows it and no trace of Rematch,
/// and no more often than is allowed.
pub proof fn confirm_is_pressed_with_care(
    phase: Phase,
    rematch_blue: u32,
    dialog_gold: u32,
    confirm_gold: u32,
    confirms: u32,
    rematches: u32,
)
    requires
        chosen_action(
            phase,
            screen_of(rematch_blue, dialog_gold, confirm_gold),
            confirms,
            rematches,
        ) is Confirm,
    ensures
        rematch_blue == 0,
        covers(confirm_gold, 55),
        confirms < MAX_CONFIRM_CLICKS,
{
}

/// The matchmaking dialog is answered whenever it is seen.
pub proof fn the_dialog_is_always_answered(phase: Phase, confirms: u32, rematches: u32)
    ensures
        chosen_action(phase, Screen::Dialog, confirms, rematches) is Dialog,
{
}

/// Where the three buttons are drawn, by their edges.
pub proof fn buttons_have_their_places()
    ensures
        confirm_region().left == 1352 && confirm_region().right == 1550,
        rematch_region().left == 1119 && rematch_region().right == 1313,
        dialog_region().left == 530 && dialog_region().right == 772,
        confirm_region().top == 797 && confirm_region().bottom == 849,
        rematch_region().top == 797 && rematch_region().bottom == 849,
        dialog_region().top == 636 && dialog_region().bottom == 686,
{
}

/// The centre of a rectangle is as far from one edge as from the other, whatever
/// the rectangle.
pub proof fn a_center_is_in_the_middle(r: Region)
    ensures
        r.twice_center().0 - 2 * r.left == 2 * r.right - r.twice_center().0,
        r.twice_center().1 - 2 * r.top == 2 * r.bottom - r.twice_center().1,
{
}

/// Each press is aimed at the button it is called after, a blind advance at the
/// place of the Rematch button, and waiting at none.
pub proof fn presses_hit_their_buttons(action: Action)
    ensures
        button_of(action) is None <==> action is Wait,
        button_of(action) == Some(confirm_region()) <==> action is Confirm,
        button_of(action) == Some(dialog_region()) <==> action is Dialog,
        button_of(action) == Some(rematch_region()) <==> action is Rematch || action is Advance,
{
}

/// Each screen gets its press exactly while it is due. The dialog always is.
/// Rematch is on its own screen, for the first two times. Confirm is on its own
/// screen, for the first two times, while the dialog is not expected. Anything else
/// is clicked past while the dialog is not expected, and waited out once it is.
pub proof fn every_screen_gets_its_due(phase: Phase, screen: Screen, confirms: u32, rematches: u32)
    ensures
        ({
            let action = chosen_action(phase, screen, confirms, rematches);
            let rematch = screen is Rematch && rematches < 2;
            let confirm = screen is Confirm && confirms < 2;
            &&& action is Dialog <==> screen is Dialog
            &&& action is Rematch <==> rematch
            &&& action is Confirm <==> confirm && phase is Results
            &&& action is Advance <==> phase is Results && !(screen is Dialog) && !rematch
                && !confirm
            &&& action is Wait <==> phase is MatchDialog && !(screen is Dialog) && !rematch
        }),
{
}

/// Gold has red from 201 on, green from 161 on and less than red, and blue from 66
/// to 179. Blue is from 96 on, at least 26 above green, which is at least 16 above
/// red. No colour is both.
pub proof fn colors_have_their_limits(rgb: Seq<u8>)
    ensures
        gold(rgb) <==> rgb[0] >= 201 && rgb[1] >= 161 && rgb[0] - rgb[1] >= 1 && rgb[2] - 66 >= 0
            && 179 - rgb[2] >= 0,
        blue(rgb) <==> rgb[2] >= 96 && rgb[2] - rgb[1] >= 26 && rgb[1] - rgb[0] >= 16,
        !(gold(rgb) && blue(rgb)),
{
}

/// The dialog is told by 18 of its 32 points or more, whatever the others show.
/// Without it, Rematch is told by 13 of its points or more, and without any point
/// of Rematch, Confirm by 18 of its own or more.
pub proof fn screens_are_told_by_their_points(
    rematch_blue: u32,
    dialog_gold: u32,
    confirm_gold: u32,
)
    ensures
        ({
            let screen = screen_of(rematch_blue, dialog_gold, confirm_gold);
            &&& screen is Dialog <==> dialog_gold >= 18
            &&& screen is Rematch <==> dialog_gold < 18 && rematch_blue >= 13
            &&& screen is Confirm <==> dialog_gold < 18 && rematch_blue == 0 && confirm_gold >= 18
        }),
{
}

} // verus!
