//! The event class of an Apple event.

use crate::four_char_code::{big_endian, bytes_of, compare, debug_text, FourCharCode};
use std::cmp::Ordering;
use vstd::prelude::*;

verus! {

/// Specifies the event class of an Apple event.
///
/// Apple events are identified by their event class and event ID attributes.
/// The event class is the attribute that identifies a group of related Apple
/// events; the Apple Event Manager uses both attributes to pick the handler of
/// an event.
#[derive(Clone, Copy, PartialEq, Eq, Structural, Ord, Hash)]
pub struct AEEventClass(pub FourCharCode);

impl View for AEEventClass {
    type V = u32;

    open spec fn view(&self) -> u32 {
        self.0@
    }
}

impl PartialOrd for AEEventClass {
    fn partial_cmp(&self, other: &AEEventClass) -> (r: Option<Ordering>)
        ensures
            r == Some(compare(self@, other@)),
    {
        self.0.partial_cmp(&other.0)
    }
}

impl vstd::std_specs::cmp::PartialOrdSpecImpl for AEEventClass {
    open spec fn obeys_partial_cmp_spec() -> bool {
        true
    }

    open spec fn partial_cmp_spec(&self, other: &AEEventClass) -> Option<Ordering> {
        Some(compare(self@, other@))
    }
}

impl AEEventClass {
    /// Returns an instance from the integer value.
    pub fn from_int(value: u32) -> (r: Self)
        ensures
            r@ == value,
    {
        AEEventClass(FourCharCode::from_int(value))
    }

    /// Returns an instance from the 4-character code, its first byte the most
    /// significant.
    pub fn from_chars(chars: [u8; 4]) -> (r: Self)
        ensures
            r@ == big_endian(chars@),
    {
        AEEventClass(FourCharCode::from_chars(chars))
    }

    /// Returns this event class's integer value.
    pub fn into_int(self) -> (r: u32)
        ensures
            r == self@,
    {
        self.0.into_int()
    }

    /// Returns this event class's 4-character code.
    pub fn into_chars(self) -> (r: [u8; 4])
        ensures
            r@ == bytes_of(self@),
    {
        self.0.into_chars()
    }

    /// The 4-character code as escaped text between double quotes, as
    /// `Debug` shows an event class.
    pub fn debug_string(&self) -> (r: String)
        ensures
            r@ == debug_text(self@),
    {
        self.0.debug_string()
    }
}

impl AEEventClass {
    /// Value: `aevt`.
    ///
    /// An Apple event sent by the Mac OS; applications that present a graphical
    /// interface to the user should be able to handle any events sent by the Mac OS
    /// that apply to the application.
    ///
    /// See [documentation](https://developer.apple.com/documentation/coreservices/kcoreeventclass?language=objc).
    ///
    /// Native name: `kCoreEventClass`.
    pub fn core_event() -> (r: Self)
        ensures
            bytes_of(r@) == seq!['a' as u8, 'e' as u8, 'v' as u8, 't' as u8],
    {
        Self::from_chars(['a' as u8, 'e' as u8, 'v' as u8, 't' as u8])
    }
}

/// Events in HIToolbox framework.
impl AEEventClass {
    /// Events related to the mouse (mouse down/up/moved).
    ///
    /// Value: `mous`.
    ///
    /// Native name: `kEventClassMouse`.
    pub fn mouse() -> (r: Self)
        ensures
            bytes_of(r@) == seq!['m' as u8, 'o' as u8, 'u' as u8, 's' as u8],
    {
        Self::from_chars(['m' as u8, 'o' as u8, 'u' as u8, 's' as u8])
    }

    /// Events related to the keyboard.
    ///
    /// Value: `keyb`.
    ///
    /// Native name: `kEventClassKeyboard`.
    pub fn keyboard() -> (r: Self)
        ensures
            bytes_of(r@) == seq!['k' as u8, 'e' as u8, 'y' as u8, 'b' as u8],
    {
        Self::from_chars(['k' as u8, 'e' as u8, 'y' as u8, 'b' as u8])
    }

    /// Events related to text input (by keyboard, or by input method).
    ///
    /// Value: `text`.
    ///
    /// Native name: `kEventClassTextInput`.
    pub fn text_input() -> (r: Self)
        ensures
            bytes_of(r@) == seq!['t' as u8, 'e' as u8, 'x' as u8, 't' as u8],
    {
        Self::from_chars(['t' as u8, 'e' as u8, 'x' as u8, 't' as u8])
    }

    /// Application-level events (launch, quit, etc.).
    ///
    /// Value: `appl`.
    ///
    /// Native name: `kEventClassApplication`.
    pub fn application() -> (r: Self)
        ensures
            bytes_of(r@) == seq!['a' as u8, 'p' as u8, 'p' as u8, 'l' as u8],
    {
        Self::from_chars(['a' as u8, 'p' as u8, 'p' as u8, 'l' as u8])
    }

    /// Apple Events.
    ///
    /// Value: `eppc`.
    ///
    /// Native name: `kEventClassAppleEvent`.
    pub fn apple_event() -> (r: Self)
        ensures
            bytes_of(r@) == seq!['e' as u8, 'p' as u8, 'p' as u8, 'c' as u8],
    {
        Self::from_chars(['e' as u8, 'p' as u8, 'p' as u8, 'c' as u8])
    }

    /// Events related to menus.
    ///
    /// Value: `menu`.
    ///
    /// Native name: `kEventClassMenu`.
    pub fn menu() -> (r: Self)
        ensures
            bytes_of(r@) == seq!['m' as u8, 'e' as u8, 'n' as u8, 'u' as u8],
    {
        Self::from_chars(['m' as u8, 'e' as u8, 'n' as u8, 'u' as u8])
    }

    /// Events related to windows.
    ///
    /// Value: `wind`.
    ///
    /// Native name: `kEventClassWindow`.
    pub fn window() -> (r: Self)
        ensures
            bytes_of(r@) == seq!['w' as u8, 'i' as u8, 'n' as u8, 'd' as u8],
    {
        Self::from_chars(['w' as u8, 'i' as u8, 'n' as u8, 'd' as u8])
    }

    /// Events related to controls.
    ///
    /// Value: `cntl`.
    ///
    /// Native name: `kEventClassControl`.
    pub fn control() -> (r: Self)
        ensures
            bytes_of(r@) == seq!['c' as u8, 'n' as u8, 't' as u8, 'l' as u8],
    {
        Self::from_chars(['c' as u8, 'n' as u8, 't' as u8, 'l' as u8])
    }

    /// Events related to commands generated by menu items or controls.
    ///
    /// These events contain `HICommand` structures.
    ///
    /// Value: `cmds`.
    ///
    /// Native name: `kEventClassCommand`.
    pub fn command() -> (r: Self)
        ensures
            bytes_of(r@) == seq!['c' as u8, 'm' as u8, 'd' as u8, 's' as u8],
    {
        Self::from_chars(['c' as u8, 'm' as u8, 'd' as u8, 's' as u8])
    }

    /// Events related to tablets.
    ///
    /// Value: `tblt`.
    ///
    /// Native name: `kEventClassTablet`.
    pub fn tablet() -> (r: Self)
        ensures
            bytes_of(r@) == seq!['t' as u8, 'b' as u8, 'l' as u8, 't' as u8],
    {
        Self::from_chars(['t' as u8, 'b' as u8, 'l' as u8, 't' as u8])
    }

    /// Events related to File Manager volumes.
    ///
    /// Value: `vol `.
    ///
    /// Native name: `kEventClassVolume`.
    pub fn volume() -> (r: Self)
        ensures
            bytes_of(r@) == seq!['v' as u8, 'o' as u8, 'l' as u8, ' ' as u8],
    {
        Self::from_chars(['v' as u8, 'o' as u8, 'l' as u8, ' ' as u8])
    }

    /// Events related to the Appearance Manager.
    ///
    /// Value: `appm`.
    ///
    /// Native name: `kEventClassAppearance`.
    pub fn appearance_manager() -> (r: Self)
        ensures
            bytes_of(r@) == seq!['a' as u8, 'p' as u8, 'p' as u8, 'm' as u8],
    {
        Self::from_chars(['a' as u8, 'p' as u8, 'p' as u8, 'm' as u8])
    }

    /// Events related to the Services Manager.
    ///
    /// Value: `serv`.
    ///
    /// Native name: `kEventClassService`.
    pub fn service() -> (r: Self)
        ensures
            bytes_of(r@) == seq!['s' as u8, 'e' as u8, 'r' as u8, 'v' as u8],
    {
        Self::from_chars(['s' as u8, 'e' as u8, 'r' as u8, 'v' as u8])
    }

    /// Events related to toolbars.
    ///
    /// Value: `tbar`.
    ///
    /// Native name: `kEventClassToolbar`.
    pub fn toolbar() -> (r: Self)
        ensures
            bytes_of(r@) == seq!['t' as u8, 'b' as u8, 'a' as u8, 'r' as u8],
    {
        Self::from_chars(['t' as u8, 'b' as u8, 'a' as u8, 'r' as u8])
    }

    /// Events related to toolbar items.
    ///
    /// Value: `tbit`.
    ///
    /// Native name: `kEventClassToolbarItem`.
    pub fn toolbar_item() -> (r: Self)
        ensures
            bytes_of(r@) == seq!['t' as u8, 'b' as u8, 'i' as u8, 't' as u8],
    {
        Self::from_chars(['t' as u8, 'b' as u8, 'i' as u8, 't' as u8])
    }

    /// Events related to toolbar item views.
    ///
    /// Value: `tbiv`.
    ///
    /// Native name: `kEventClassToolbarItemView`.
    pub fn toolbar_item_view() -> (r: Self)
        ensures
            bytes_of(r@) == seq!['t' as u8, 'b' as u8, 'i' as u8, 'v' as u8],
    {
        Self::from_chars(['t' as u8, 'b' as u8, 'i' as u8, 'v' as u8])
    }

    /// Events related to application accessibility.
    ///
    /// Value: `acce`.
    ///
    /// Native name: `kEventClassAccessibility`.
    pub fn accessibility() -> (r: Self)
        ensures
            bytes_of(r@) == seq!['a' as u8, 'c' as u8, 'c' as u8, 'e' as u8],
    {
        Self::from_chars(['a' as u8, 'c' as u8, 'c' as u8, 'e' as u8])
    }

    /// Events related to the system.
    ///
    /// Value: `macs`.
    ///
    /// Native name: `kEventClassSystem`.
    pub fn system() -> (r: Self)
        ensures
            bytes_of(r@) == seq!['m' as u8, 'a' as u8, 'c' as u8, 's' as u8],
    {
        Self::from_chars(['m' as u8, 'a' as u8, 'c' as u8, 's' as u8])
    }

    /// Events related to ink.
    ///
    /// Value: `ink `.
    ///
    /// Native name: `kEventClassInk`.
    pub fn ink() -> (r: Self)
        ensures
            bytes_of(r@) == seq!['i' as u8, 'n' as u8, 'k' as u8, ' ' as u8],
    {
        Self::from_chars(['i' as u8, 'n' as u8, 'k' as u8, ' ' as u8])
    }

    /// Value: `tdac`.
    ///
    /// Native name: `kEventClassTSMDocumentAccess`.
    pub fn tsm_document_access() -> (r: Self)
        ensures
            bytes_of(r@) == seq!['t' as u8, 'd' as u8, 'a' as u8, 'c' as u8],
    {
        Self::from_chars(['t' as u8, 'd' as u8, 'a' as u8, 'c' as u8])
    }

    /// Events related to gestures: magnify, swipe, rotate.
    ///
    /// Value: `gest`.
    ///
    /// Native name: `kEventClassGesture`.
    pub fn gesture() -> (r: Self)
        ensures
            bytes_of(r@) == seq!['g' as u8, 'e' as u8, 's' as u8, 't' as u8],
    {
        Self::from_chars(['g' as u8, 'e' as u8, 's' as u8, 't' as u8])
    }

    /// Value: `cloc`.
    ///
    /// Native name: `kEventClassClockView`.
    pub fn clock_view() -> (r: Self)
        ensures
            bytes_of(r@) == seq!['c' as u8, 'l' as u8, 'o' as u8, 'c' as u8],
    {
        Self::from_chars(['c' as u8, 'l' as u8, 'o' as u8, 'c' as u8])
    }

    /// Value: `txfd`.
    ///
    /// Native name: `kEventClassTextField`.
    pub fn text_field() -> (r: Self)
        ensures
            bytes_of(r@) == seq!['t' as u8, 'x' as u8, 'f' as u8, 'd' as u8],
    {
        Self::from_chars(['t' as u8, 'x' as u8, 'f' as u8, 'd' as u8])
    }

    /// Value: `hiob`.
    ///
    /// Native name: `kEventClassHIObject`.
    pub fn hi_object() -> (r: Self)
        ensures
            bytes_of(r@) == seq!['h' as u8, 'i' as u8, 'o' as u8, 'b' as u8],
    {
        Self::from_chars(['h' as u8, 'i' as u8, 'o' as u8, 'b' as u8])
    }

    /// Value: `dele`.
    ///
    /// Native name: `kEventClassDelegate`.
    pub fn delegate() -> (r: Self)
        ensures
            bytes_of(r@) == seq!['d' as u8, 'e' as u8, 'l' as u8, 'e' as u8],
    {
        Self::from_chars(['d' as u8, 'e' as u8, 'l' as u8, 'e' as u8])
    }

    /// Value: `scrl`.
    ///
    /// Native name: `kEventClassScrollable`.
    pub fn scrollable() -> (r: Self)
        ensures
            bytes_of(r@) == seq!['s' as u8, 'c' as u8, 'r' as u8, 'l' as u8],
    {
        Self::from_chars(['s' as u8, 'c' as u8, 'r' as u8, 'l' as u8])
    }

    /// Value: `hicb`.
    ///
    /// Native name: `kEventClassHIComboBox`.
    pub fn hi_combo_box() -> (r: Self)
        ensures
            bytes_of(r@) == seq!['h' as u8, 'i' as u8, 'c' as u8, 'b' as u8],
    {
        Self::from_chars(['h' as u8, 'i' as u8, 'c' as u8, 'b' as u8])
    }

    /// Value: `srfd`.
    ///
    /// Native name: `kEventClassSearchField`.
    pub fn search_field() -> (r: Self)
        ensures
            bytes_of(r@) == seq!['s' as u8, 'r' as u8, 'f' as u8, 'd' as u8],
    {
        Self::from_chars(['s' as u8, 'r' as u8, 'f' as u8, 'd' as u8])
    }

    /// Value: `appr`.
    ///
    /// Native name: `kAppearanceEventClass`.
    pub fn appearance() -> (r: Self)
        ensures
            bytes_of(r@) == seq!['a' as u8, 'p' as u8, 'p' as u8, 'r' as u8],
    {
        Self::from_chars(['a' as u8, 'p' as u8, 'p' as u8, 'r' as u8])
    }

    /// Value: `hidb`.
    ///
    /// Native name: `kEventClassDataBrowser`.
    pub fn data_browser() -> (r: Self)
        ensures
            bytes_of(r@) == seq!['h' as u8, 'i' as u8, 'd' as u8, 'b' as u8],
    {
        Self::from_chars(['h' as u8, 'i' as u8, 'd' as u8, 'b' as u8])
    }
}

/// Events in HIServices framework.
impl AEEventClass {
    /// Value: `GURL`.
    ///
    /// Native name: `kInternetEventClass`.
    pub fn internet() -> (r: Self)
        ensures
            bytes_of(r@) == seq!['G' as u8, 'U' as u8, 'R' as u8, 'L' as u8],
    {
        Self::from_chars(['G' as u8, 'U' as u8, 'R' as u8, 'L' as u8])
    }

    /// Edit preference in Internet configuration.
    ///
    /// Value: `ICAp`.
    ///
    /// Native name: `kICEditPreferenceEventClass`.
    pub fn ic_edit_preference() -> (r: Self)
        ensures
            bytes_of(r@) == seq!['I' as u8, 'C' as u8, 'A' as u8, 'p' as u8],
    {
        Self::from_chars(['I' as u8, 'C' as u8, 'A' as u8, 'p' as u8])
    }
}

/// Events in Open Scripting framework.
impl AEEventClass {
    /// Value: `dhub`.
    ///
    /// Native name: `kDigiHubEventClass`.
    pub fn digi_hub() -> (r: Self)
        ensures
            bytes_of(r@) == seq!['d' as u8, 'h' as u8, 'u' as u8, 'b' as u8],
    {
        Self::from_chars(['d' as u8, 'h' as u8, 'u' as u8, 'b' as u8])
    }
}

/// Events in Common Panels framework.
impl AEEventClass {
    /// Value: `font`.
    ///
    /// Native name: `kEventClassFont`.
    pub fn font() -> (r: Self)
        ensures
            bytes_of(r@) == seq!['f' as u8, 'o' as u8, 'n' as u8, 't' as u8],
    {
        Self::from_chars(['f' as u8, 'o' as u8, 'n' as u8, 't' as u8])
    }
}

/// Events in Address Book framework.
impl AEEventClass {
    /// People-picker events.
    ///
    /// Value: `abpp`.
    ///
    /// See [documentation](https://developer.apple.com/documentation/addressbook/1591603-people-picker_event_class/keventclassabpeoplepicker?language=objc).
    ///
    /// Native name: `kEventClassABPeoplePicker`.
    pub fn ab_people_picker() -> (r: Self)
        ensures
            bytes_of(r@) == seq!['a' as u8, 'b' as u8, 'p' as u8, 'p' as u8],
    {
        Self::from_chars(['a' as u8, 'b' as u8, 'p' as u8, 'p' as u8])
    }
}

} // verus!
