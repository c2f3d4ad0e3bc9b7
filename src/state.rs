use vstd::prelude::*;

use crate::panel::LeftMenuEnum;

verus! {

/// The form's greeting and the window's state, kept across frames.
pub struct MyApp {
    pub is_running: bool,
    pub is_fullscreen: bool,
    pub is_popup_shown: bool,
    pub is_dark: bool,
    pub left_menu: LeftMenuEnum,
    pub name: String,
    pub age: u32,
}

/// The mathematical value of a `MyApp`: the name as characters, the age as an integer.
pub struct AppModel {
    pub running: bool,
    pub fullscreen: bool,
    pub popup_shown: bool,
    pub dark: bool,
    pub panel: LeftMenuEnum,
    pub name: Seq<char>,
    pub age: int,
}

impl View for MyApp {
    type V = AppModel;

    open spec fn view(&self) -> AppModel {
        AppModel {
            running: self.is_running,
            fullscreen: self.is_fullscreen,
            popup_shown: self.is_popup_shown,
            dark: self.is_dark,
            panel: self.left_menu,
            name: self.name@,
            age: self.age as int,
        }
    }
}

/// One interaction that the user performed during a frame.
pub enum Event {
    /// The "Click each year" button.
    AddOneYear,
    /// The "Click add 2 years" button.
    AddTwoYears,
    /// The "Exit" button.
    Exit,
    /// The "Fullscreen" button.
    ToggleFullscreen,
    /// The "Close" button of the popup window.
    ClosePopup,
    /// "Set age to 45" in the "File" menu of the top bar.
    SetAgeTo45,
    /// The theme toggle in the "Edit" menu of the top bar.
    ToggleTheme,
    /// An entry of the left navigation panel was selected.
    SelectPanel(LeftMenuEnum),
    /// The name field now holds this text.
    EditName(String),
    /// The age slider or the age drag box now holds this value.
    EditAge(u32),
}

/// The greatest age that the state can hold.
pub const AGE_MAX: u32 = 0xffff_ffff;

impl AppModel {
    /// The state at startup.
    pub open spec fn initial() -> AppModel {
        AppModel {
            running: true,
            fullscreen: false,
            popup_shown: true,
            dark: false,
            panel: LeftMenuEnum::First,
            name: "Arthur"@,
            age: 42,
        }
    }

    /// Whether the new state of `e` fits the machine: the increments are not
    /// clamped, so they are possible only while the sum stays within `u32`.
    pub open spec fn admits(self, e: Event) -> bool {
        match e {
            Event::AddOneYear => self.age + 1 <= AGE_MAX,
            Event::AddTwoYears => self.age + 2 <= AGE_MAX,
            _ => true,
        }
    }

    /// The state after the interaction `e`.
    pub open spec fn step(self, e: Event) -> AppModel {
        match e {
            Event::AddOneYear => AppModel { age: self.age + 1, ..self },
            Event::AddTwoYears => AppModel { age: self.age + 2, ..self },
            Event::Exit => AppModel { running: false, ..self },
            Event::ToggleFullscreen => AppModel { fullscreen: !self.fullscreen, ..self },
            Event::ClosePopup => AppModel { popup_shown: false, ..self },
            Event::SetAgeTo45 => AppModel { age: 45, ..self },
            Event::ToggleTheme => AppModel { dark: !self.dark, ..self },
            Event::SelectPanel(p) => AppModel { panel: p, ..self },
            Event::EditName(s) => AppModel { name: s@, ..self },
            Event::EditAge(a) => AppModel { age: a as int, ..self },
        }
    }
}

impl Default for MyApp {
    fn default() -> (r: MyApp)
        ensures
            r@ == AppModel::initial(),
    {
        MyApp {
            is_running: true,
            is_fullscreen: false,
            is_popup_shown: true,
            is_dark: false,
            left_menu: LeftMenuEnum::First,
            name: String::from_str("Arthur"),
            age: 42,
        }
    }
}

impl MyApp {
    /// Whether `apply` may take `e` in the present state.
    pub fn can_apply(&self, e: &Event) -> (r: bool)
        ensures
            r == self@.admits(*e),
    {
        match e {
            Event::AddOneYear => self.age < AGE_MAX,
            Event::AddTwoYears => self.age < AGE_MAX - 1,
            _ => true,
        }
    }

    /// Takes the interaction `e` into the state.
    pub fn apply(&mut self, e: Event)
        requires
            old(self)@.admits(e),
        ensures
            final(self)@ == old(self)@.step(e),
    {
        match e {
            Event::AddOneYear => self.age = self.age + 1,
            Event::AddTwoYears => self.age = self.age + 2,
            Event::Exit => self.is_running = false,
            Event::ToggleFullscreen => self.is_fullscreen = !self.is_fullscreen,
            Event::ClosePopup => self.is_popup_shown = false,
            Event::SetAgeTo45 => self.age = 45,
            Event::ToggleTheme => self.is_dark = !self.is_dark,
            Event::SelectPanel(p) => self.left_menu = p,
            Event::EditName(s) => self.name = s,
            Event::EditAge(a) => self.age = a,
        }
    }
}

} // verus!
