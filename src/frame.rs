use vstd::prelude::*;

use crate::panel::{placeholder_text, LeftMenuEnum};
use crate::state::{AppModel, MyApp};
use crate::text::{greeting, greeting_text, theme_toggle_label, theme_toggle_text};

verus! {

/// What the central area shows.
pub enum Central {
    /// The form, with its greeting label, and whether the popup window stands beside it.
    Form { greeting: String, popup: bool },
    /// A placeholder label in place of the form.
    Placeholder(String),
}

/// The widgets of one frame that depend on the state.
pub struct Screen {
    pub fullscreen: bool,
    pub dark: bool,
    pub theme_toggle_label: String,
    pub selected: LeftMenuEnum,
    pub central: Central,
}

/// What one frame does: ask the host to close the window, or draw.
pub enum FramePlan {
    Close,
    Draw(Screen),
}

pub enum CentralModel {
    Form { greeting: Seq<char>, popup: bool },
    Placeholder(Seq<char>),
}

pub struct ScreenModel {
    pub fullscreen: bool,
    pub dark: bool,
    pub theme_toggle: Seq<char>,
    pub selected: LeftMenuEnum,
    pub central: CentralModel,
}

pub enum PlanModel {
    Close,
    Draw(ScreenModel),
}

impl View for Central {
    type V = CentralModel;

    open spec fn view(&self) -> CentralModel {
        match self {
            Central::Form { greeting, popup } => CentralModel::Form { greeting: greeting@, popup: *popup },
            Central::Placeholder(t) => CentralModel::Placeholder(t@),
        }
    }
}

impl View for Screen {
    type V = ScreenModel;

    open spec fn view(&self) -> ScreenModel {
        ScreenModel {
            fullscreen: self.fullscreen,
            dark: self.dark,
            theme_toggle: self.theme_toggle_label@,
            selected: self.selected,
            central: self.central@,
        }
    }
}

impl View for FramePlan {
    type V = PlanModel;

    open spec fn view(&self) -> PlanModel {
        match self {
            FramePlan::Close => PlanModel::Close,
            FramePlan::Draw(s) => PlanModel::Draw(s@),
        }
    }
}

/// The central area in state `m`: the form and the popup for the first entry,
/// the entry's placeholder label for the others.
pub open spec fn central_of(m: AppModel) -> CentralModel {
    if m.panel == LeftMenuEnum::First {
        CentralModel::Form { greeting: greeting_text(m.name, m.age as nat), popup: m.popup_shown }
    } else {
        CentralModel::Placeholder(placeholder_text(m.panel))
    }
}

/// The frame for state `m`: once the application no longer runs it only
/// closes the window; else it draws the state.
pub open spec fn plan_of(m: AppModel) -> PlanModel {
    if !m.running {
        PlanModel::Close
    } else {
        PlanModel::Draw(ScreenModel {
            fullscreen: m.fullscreen,
            dark: m.dark,
            theme_toggle: theme_toggle_text(m.dark),
            selected: m.panel,
            central: central_of(m),
        })
    }
}

impl MyApp {
    /// Whether the host must close the window this frame.
    pub fn should_close(&self) -> (r: bool)
        ensures
            r == !self@.running,
    {
        !self.is_running
    }

    /// What the central area shows in the present state.
    pub fn central(&self) -> (r: Central)
        ensures
            r@ == central_of(self@),
    {
        match self.left_menu.placeholder_label() {
            None => Central::Form { greeting: greeting(&self.name, self.age), popup: self.is_popup_shown },
            Some(t) => Central::Placeholder(t),
        }
    }

    /// What this frame does.
    pub fn plan(&self) -> (r: FramePlan)
        ensures
            r@ == plan_of(self@),
    {
        if self.should_close() {
            FramePlan::Close
        } else {
            FramePlan::Draw(Screen {
                fullscreen: self.is_fullscreen,
                dark: self.is_dark,
                theme_toggle_label: theme_toggle_label(self.is_dark),
                selected: self.left_menu,
                central: self.central(),
            })
        }
    }
}

} // verus!
