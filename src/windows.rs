//! Which window an externally delivered per-window event is about.
use vstd::prelude::*;
use vstd::std_specs::cmp::PartialEqSpec;

verus! {

/// The part a window plays.
#[derive(Clone, Copy, Debug, PartialEq, Eq, Structural)]
pub enum WindowRole {
    MainClock,
    Reminder,
}

/// The clock window's identity and, while one is open, the reminder's.
pub struct WindowRoles<I> {
    pub main: I,
    pub reminder: Option<I>,
}

impl<I: PartialEq> WindowRoles<I> {
    pub fn new(main: I) -> (r: WindowRoles<I>)
        ensures
            r.main == main,
            r.reminder is None,
    {
        WindowRoles { main, reminder: None }
    }

    /// Records a newly opened reminder window.
    pub fn set_reminder(&mut self, id: I)
        ensures
            final(self).main == old(self).main,
            final(self).reminder == Some(id),
    {
        self.reminder = Some(id);
    }

    /// Forgets the reminder window and hands back its identity.
    pub fn take_reminder(&mut self) -> (r: Option<I>)
        ensures
            final(self).main == old(self).main,
            final(self).reminder is None,
            r == old(self).reminder,
    {
        self.reminder.take()
    }

    /// The role of the window `id`: the clock where it is the clock's
    /// identity, else the reminder where it is the reminder's.
    pub fn role_of(&self, id: &I) -> (r: Option<WindowRole>)
        ensures
            I::obeys_eq_spec() ==> r == (if id.eq_spec(&self.main) {
                Some(WindowRole::MainClock)
            } else if self.reminder matches Some(rid) && id.eq_spec(&rid) {
                Some(WindowRole::Reminder)
            } else {
                None
            }),
    {
        if *id == self.main {
            Some(WindowRole::MainClock)
        } else {
            match &self.reminder {
                Some(rid) => if *id == *rid {
                    Some(WindowRole::Reminder)
                } else {
                    None
                },
                None => None,
            }
        }
    }
}

/// The title of a window in the given role.
pub open spec fn title_of(role: Option<WindowRole>) -> Seq<char> {
    if role == Some(WindowRole::MainClock) {
        "Tomato Clock"@
    } else {
        "Time out"@
    }
}

pub fn window_title(role: Option<WindowRole>) -> (r: String)
    ensures
        r@ == title_of(role),
{
    match role {
        Some(WindowRole::MainClock) => "Tomato Clock".to_owned(),
        _ => "Time out".to_owned(),
    }
}

} // verus!
