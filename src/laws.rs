use vstd::prelude::*;

use crate::frame::{central_of, plan_of, CentralModel, PlanModel};
use crate::panel::LeftMenuEnum;
use crate::state::{AppModel, Event, AGE_MAX};
use crate::text::greeting_text;

verus! {

/// The two age buttons add one and two years, and their effects add up in
/// either order, as long as the age stays within the machine's range.
pub proof fn year_clicks_add_up(m: AppModel)
    requires
        0 <= m.age,
        m.age + 3 <= AGE_MAX,
    ensures
        m.step(Event::AddOneYear).age == m.age + 1,
        m.step(Event::AddTwoYears).age == m.age + 2,
        m.admits(Event::AddOneYear) && m.step(Event::AddOneYear).admits(Event::AddTwoYears),
        m.admits(Event::AddTwoYears) && m.step(Event::AddTwoYears).admits(Event::AddOneYear),
        m.step(Event::AddOneYear).step(Event::AddTwoYears)
            == m.step(Event::AddTwoYears).step(Event::AddOneYear),
        m.step(Event::AddOneYear).step(Event::AddTwoYears) == (AppModel { age: m.age + 3, ..m }),
{
}

/// After "Exit" the next frame only closes the window and draws nothing.
pub proof fn exit_closes_next_frame(m: AppModel)
    ensures
        !m.step(Event::Exit).running,
        plan_of(m.step(Event::Exit)) == PlanModel::Close,
{
}

/// "Fullscreen" flips the display mode, and a second click restores the state.
pub proof fn fullscreen_toggle_twice(m: AppModel)
    ensures
        m.step(Event::ToggleFullscreen).fullscreen == !m.fullscreen,
        m.step(Event::ToggleFullscreen).step(Event::ToggleFullscreen) == m,
{
}

/// Selecting "Second" then "Third" shows each entry's placeholder in turn;
/// selecting "First" again brings back the form as it was, popup included.
pub proof fn panel_round_trip(m: AppModel)
    ensures
        ({
            let m2 = m.step(Event::SelectPanel(LeftMenuEnum::Second));
            let m3 = m2.step(Event::SelectPanel(LeftMenuEnum::Third));
            let m4 = m3.step(Event::SelectPanel(LeftMenuEnum::First));
            &&& m2.panel == LeftMenuEnum::Second
            &&& central_of(m2) == CentralModel::Placeholder("Second panel"@)
            &&& m3.panel == LeftMenuEnum::Third
            &&& central_of(m3) == CentralModel::Placeholder("Third panel"@)
            &&& m4 == (AppModel { panel: LeftMenuEnum::First, ..m })
            &&& central_of(m4) == (CentralModel::Form {
                greeting: greeting_text(m.name, m.age as nat),
                popup: m.popup_shown,
            })
            &&& m.panel == LeftMenuEnum::First ==> m4 == m
        }),
{
}

/// "Set age to 45" sets the age to 45 whatever it was.
pub proof fn set_age_to_45(m: AppModel)
    ensures
        m.step(Event::SetAgeTo45).age == 45,
        m.step(Event::SetAgeTo45) == (AppModel { age: 45, ..m }),
{
}

/// The theme toggle flips the theme, and the next frame labels the toggle
/// after the theme it would now switch to.
pub proof fn theme_toggle_flips(m: AppModel)
    ensures
        m.step(Event::ToggleTheme).dark == !m.dark,
        m.step(Event::ToggleTheme).step(Event::ToggleTheme) == m,
        m.running ==> (plan_of(m.step(Event::ToggleTheme)) matches PlanModel::Draw(s)
            && s.dark == !m.dark
            && s.theme_toggle == (if m.dark { "Set dark"@ } else { "Set light"@ })),
{
}

} // verus!
