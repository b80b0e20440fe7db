//! The dev console's visibility and focus styling. Open and close it with
//! Ctrl + backquote.
use vstd::prelude::*;

use crate::registry::{extends, App, Registration, Schedule, System};

verus! {

/// The visibility of a console node.
#[derive(Clone, Copy, Debug, PartialEq, Eq, Structural)]
pub enum Visibility {
    Inherited,
    Hidden,
    Visible,
}

/// A console node: its entity (the engine's entity bits) and its visibility.
#[derive(Clone, Copy, Debug, PartialEq, Eq, Structural)]
pub struct ConsoleNode {
    pub entity: u64,
    pub visibility: Visibility,
}

/// The visibility that toggling gives: hidden opens, visible closes, and an
/// inherited visibility is left alone (and reported).
pub open spec fn toggled(visibility: Visibility) -> Visibility {
    match visibility {
        Visibility::Hidden => Visibility::Visible,
        Visibility::Visible => Visibility::Hidden,
        Visibility::Inherited => Visibility::Inherited,
    }
}

/// The input focus after toggling `consoles` in order from `focus`: opening a
/// console focuses it, closing the focused console clears the focus.
pub open spec fn focus_after(consoles: Seq<ConsoleNode>, focus: Option<u64>) -> Option<u64>
    decreases consoles.len(),
{
    if consoles.len() == 0 {
        focus
    } else {
        let last = consoles.last();
        let before = focus_after(consoles.drop_last(), focus);
        match last.visibility {
            Visibility::Hidden => Some(last.entity),
            Visibility::Visible => if before == Some(last.entity) {
                None
            } else {
                before
            },
            Visibility::Inherited => before,
        }
    }
}

/// Console `j` is opened by a toggle of `consoles`, and no later console is
/// opened or has its entity.
pub open spec fn opened_last(consoles: Seq<ConsoleNode>, j: int) -> bool {
    &&& 0 <= j < consoles.len()
    &&& consoles[j].visibility == Visibility::Hidden
    &&& forall|k: int|
        j < k < consoles.len() ==> (#[trigger] consoles[k]).visibility != Visibility::Hidden
            && consoles[k].entity != consoles[j].entity
}

/// Console `j` is closed by a toggle of `consoles`, and no later console of
/// its entity is opened.
pub open spec fn closed_for_good(consoles: Seq<ConsoleNode>, j: int) -> bool {
    &&& 0 <= j < consoles.len()
    &&& consoles[j].visibility == Visibility::Visible
    &&& forall|k: int|
        j < k < consoles.len() ==> !((#[trigger] consoles[k]).visibility == Visibility::Hidden
            && consoles[k].entity == consoles[j].entity)
}

/// A toggle of `consoles` opens no console and closes none that holds `focus`.
pub open spec fn keeps_focus(consoles: Seq<ConsoleNode>, focus: Option<u64>) -> bool {
    forall|k: int|
        0 <= k < consoles.len() ==> (#[trigger] consoles[k]).visibility != Visibility::Hidden
            && !(consoles[k].visibility == Visibility::Visible && focus == Some(consoles[k].entity))
}

/// A toggle of `consoles` opens a console of `entity`.
pub open spec fn opens(consoles: Seq<ConsoleNode>, entity: u64) -> bool {
    exists|j: int|
        0 <= j < consoles.len() && (#[trigger] consoles[j]).visibility == Visibility::Hidden
            && consoles[j].entity == entity
}

/// A console opened by a toggle takes the focus, whatever it was before, and
/// keeps it unless a later console is opened or a later console of the same
/// entity is closed.
pub proof fn lemma_opened_console_takes_focus(consoles: Seq<ConsoleNode>, focus: Option<u64>, j: int)
    requires
        opened_last(consoles, j),
    ensures
        focus_after(consoles, focus) == Some(consoles[j].entity),
    decreases consoles.len(),
{
    let n = consoles.len() - 1;
    if j < n {
        let init = consoles.drop_last();
        assert forall|k: int| j < k < init.len() implies (#[trigger] init[k]).visibility
            != Visibility::Hidden && init[k].entity != init[j].entity by {
            assert(init[k] == consoles[k]);
        }
        assert(opened_last(init, j));
        lemma_opened_console_takes_focus(init, focus, j);
        assert(consoles[n].visibility != Visibility::Hidden && consoles[n].entity != consoles[j].entity);
    }
}

/// A console closed by a toggle does not hold the focus afterwards, unless a
/// later console of the same entity is opened.
pub proof fn lemma_closed_console_gives_up_focus(consoles: Seq<ConsoleNode>, focus: Option<u64>, j: int)
    requires
        closed_for_good(consoles, j),
    ensures
        focus_after(consoles, focus) != Some(consoles[j].entity),
    decreases consoles.len(),
{
    let n = consoles.len() - 1;
    if j < n {
        let init = consoles.drop_last();
        assert forall|k: int| j < k < init.len() implies !((#[trigger] init[k]).visibility
            == Visibility::Hidden && init[k].entity == init[j].entity) by {
            assert(init[k] == consoles[k]);
        }
        assert(closed_for_good(init, j));
        lemma_closed_console_gives_up_focus(init, focus, j);
        assert(!(consoles[n].visibility == Visibility::Hidden && consoles[n].entity
            == consoles[j].entity));
    }
}

/// After a toggle the focus is nowhere, where it was, or on an opened console.
pub proof fn lemma_focus_lands_on_an_opened_console(consoles: Seq<ConsoleNode>, focus: Option<u64>)
    ensures
        ({
            let r = focus_after(consoles, focus);
            r is None || r == focus || opens(consoles, r->0)
        }),
    decreases consoles.len(),
{
    if consoles.len() > 0 {
        let n = consoles.len() - 1;
        let init = consoles.drop_last();
        lemma_focus_lands_on_an_opened_console(init, focus);
        let r = focus_after(consoles, focus);
        let before = focus_after(init, focus);
        if consoles[n].visibility == Visibility::Hidden {
            assert(r == Some(consoles[n].entity));
            assert(consoles[n].visibility == Visibility::Hidden && consoles[n].entity == r->0);
        } else if !(r is None || r == focus) {
            assert(r == before);
            let j = choose|j: int|
                0 <= j < init.len() && (#[trigger] init[j]).visibility == Visibility::Hidden
                    && init[j].entity == before->0;
            assert(consoles[j] == init[j]);
        }
    }
}

/// When a toggle opens nothing and closes no console that holds the focus,
/// the focus stays where it was.
pub proof fn lemma_focus_stays_without_opening(consoles: Seq<ConsoleNode>, focus: Option<u64>)
    requires
        keeps_focus(consoles, focus),
    ensures
        focus_after(consoles, focus) == focus,
    decreases consoles.len(),
{
    if consoles.len() > 0 {
        let n = consoles.len() - 1;
        let init = consoles.drop_last();
        assert forall|k: int| 0 <= k < init.len() implies (#[trigger] init[k]).visibility
            != Visibility::Hidden && !(init[k].visibility == Visibility::Visible && focus == Some(
            init[k].entity,
        )) by {
            assert(init[k] == consoles[k]);
        }
        lemma_focus_stays_without_opening(init, focus);
        assert(consoles[n].visibility != Visibility::Hidden);
    }
}

/// The focus laws of one toggle, stated of its inputs and its resulting focus.
proof fn lemma_toggled_focus(cs: Seq<ConsoleNode>, f: Option<u64>)
    ensures
        forall|j: int| #[trigger] opened_last(cs, j) ==> focus_after(cs, f) == Some(cs[j].entity),
        forall|j: int| #[trigger] closed_for_good(cs, j) ==> focus_after(cs, f) != Some(cs[j].entity),
        focus_after(cs, f) is None || focus_after(cs, f) == f || opens(cs, focus_after(cs, f)->0),
        keeps_focus(cs, f) ==> focus_after(cs, f) == f,
{
    if keeps_focus(cs, f) {
        lemma_focus_stays_without_opening(cs, f);
    }
    assert forall|j: int| #[trigger] opened_last(cs, j) implies focus_after(cs, f) == Some(
        cs[j].entity,
    ) by {
        lemma_opened_console_takes_focus(cs, f, j);
    }
    assert forall|j: int| #[trigger] closed_for_good(cs, j) implies focus_after(cs, f) != Some(
        cs[j].entity,
    ) by {
        lemma_closed_console_gives_up_focus(cs, f, j);
    }
    lemma_focus_lands_on_an_opened_console(cs, f);
}

/// Ctrl + backquote toggles every console, opening ones gaining the focus
/// and closing ones giving it up; other input changes nothing.
pub fn toggle_console(
    backquote_just_pressed: bool,
    ctrl_held: bool,
    consoles: &mut Vec<ConsoleNode>,
    focus: &mut Option<u64>,
)
    ensures
        final(consoles).len() == old(consoles).len(),
        backquote_just_pressed && ctrl_held ==> {
            &&& forall|i: int|
                0 <= i < final(consoles).len() ==> (#[trigger] final(consoles)[i]) == (ConsoleNode {
                    entity: old(consoles)[i].entity,
                    visibility: toggled(old(consoles)[i].visibility),
                })
            &&& *final(focus) == focus_after(old(consoles)@, *old(focus))
        },
        !(backquote_just_pressed && ctrl_held) ==> final(consoles)@ == old(consoles)@,
        !(backquote_just_pressed && ctrl_held) ==> *final(focus) == *old(focus),
        backquote_just_pressed && ctrl_held ==> forall|i: int|
            0 <= i < old(consoles).len() ==> {
                &&& final(consoles)[i].entity == (#[trigger] old(consoles)[i]).entity
                &&& old(consoles)[i].visibility == Visibility::Hidden ==> final(consoles)[i].visibility
                    == Visibility::Visible
                &&& old(consoles)[i].visibility == Visibility::Visible ==> final(consoles)[i].visibility
                    == Visibility::Hidden
                &&& old(consoles)[i].visibility == Visibility::Inherited
                    ==> final(consoles)[i].visibility == Visibility::Inherited
            },
        backquote_just_pressed && ctrl_held ==> forall|j: int|
            #[trigger] opened_last(old(consoles)@, j) ==> *final(focus) == Some(old(consoles)[j].entity),
        backquote_just_pressed && ctrl_held ==> forall|j: int|
            #[trigger] closed_for_good(old(consoles)@, j) ==> *final(focus) != Some(
                old(consoles)[j].entity,
            ),
        backquote_just_pressed && ctrl_held ==> ((*final(focus)) is None || *final(focus) == *old(focus)
            || opens(old(consoles)@, final(focus)->0)),
        backquote_just_pressed && ctrl_held && keeps_focus(old(consoles)@, *old(focus))
            ==> *final(focus) == *old(focus),
{
    if !(backquote_just_pressed && ctrl_held) {
        return;
    }
    let ghost cs = consoles@;
    let ghost f = *focus;
    toggle_each(consoles, focus);
    proof {
        lemma_toggled_focus(cs, f);
    }
}

/// Toggles every console in order, moving the focus as `focus_after` says.
fn toggle_each(consoles: &mut Vec<ConsoleNode>, focus: &mut Option<u64>)
    ensures
        final(consoles).len() == old(consoles).len(),
        forall|i: int|
            0 <= i < final(consoles).len() ==> (#[trigger] final(consoles)[i]) == (ConsoleNode {
                entity: old(consoles)[i].entity,
                visibility: toggled(old(consoles)[i].visibility),
            }),
        *final(focus) == focus_after(old(consoles)@, *old(focus)),
{
    let n = consoles.len();
    let mut i: usize = 0;
    while i < n
        invariant
            n == consoles.len(),
            n == old(consoles).len(),
            i <= n,
            forall|j: int|
                0 <= j < i ==> (#[trigger] consoles[j]) == (ConsoleNode {
                    entity: old(consoles)[j].entity,
                    visibility: toggled(old(consoles)[j].visibility),
                }),
            forall|j: int| i <= j < n ==> #[trigger] consoles[j] == old(consoles)[j],
            *focus == focus_after(old(consoles)@.take(i as int), *old(focus)),
        decreases n - i,
    {
        let node = consoles[i];
        assert(old(consoles)@.take(i + 1).drop_last() == old(consoles)@.take(i as int));
        match node.visibility {
            Visibility::Hidden => {
                consoles.set(i, ConsoleNode { entity: node.entity, visibility: Visibility::Visible });
                *focus = Some(node.entity);
            },
            Visibility::Visible => {
                consoles.set(i, ConsoleNode { entity: node.entity, visibility: Visibility::Hidden });
                if let Some(focused) = *focus {
                    if focused == node.entity {
                        *focus = None;
                    }
                }
            },
            Visibility::Inherited => {},
        }
        i += 1;
    }
    assert(old(consoles)@.take(n as int) == old(consoles)@);
}

/// How a console is drawn: opaque while it has the focus, faded otherwise.
#[derive(Clone, Copy, Debug, PartialEq, Eq, Structural)]
pub enum ConsoleStyle {
    Focused,
    Unfocused,
}

/// When the focus changed: the focused console, if the focus is on one, is
/// drawn focused; otherwise every console is drawn unfocused. Returns the
/// styles to insert.
pub fn on_focus(focus_changed: bool, focus: Option<u64>, consoles: &Vec<u64>) -> (styles: Vec<(u64, ConsoleStyle)>)
    ensures
        !focus_changed ==> styles@ == Seq::<(u64, ConsoleStyle)>::empty(),
        focus_changed && (focus matches Some(id) && consoles@.contains(id)) ==> styles@ == seq![
            (focus->0, ConsoleStyle::Focused),
        ],
        focus_changed && !(focus matches Some(id) && consoles@.contains(id)) ==> {
            &&& styles.len() == consoles.len()
            &&& forall|i: int|
                0 <= i < consoles.len() ==> #[trigger] styles[i] == (
                    consoles[i],
                    ConsoleStyle::Unfocused,
                )
        },
{
    let mut styles: Vec<(u64, ConsoleStyle)> = Vec::new();
    if !focus_changed {
        return styles;
    }
    if let Some(id) = focus {
        let n = consoles.len();
        let mut i: usize = 0;
        while i < n
            invariant
                n == consoles.len(),
                i <= n,
                focus_changed,
                focus == Some(id),
                styles@ == Seq::<(u64, ConsoleStyle)>::empty(),
                forall|j: int| 0 <= j < i ==> consoles[j] != id,
            decreases n - i,
        {
            if consoles[i] == id {
                styles.push((id, ConsoleStyle::Focused));
                assert(styles@ =~= seq![(id, ConsoleStyle::Focused)]);
                return styles;
            }
            i += 1;
        }
    }
    assert(!(focus matches Some(id) && consoles@.contains(id)));
    let n = consoles.len();
    let mut i: usize = 0;
    while i < n
        invariant
            n == consoles.len(),
            i <= n,
            styles.len() == i,
            forall|j: int| 0 <= j < i ==> #[trigger] styles[j] == (consoles[j], ConsoleStyle::Unfocused),
        decreases n - i,
    {
        styles.push((consoles[i], ConsoleStyle::Unfocused));
        i += 1;
    }
    styles
}

/// Toggling twice with Ctrl + backquote leaves every console as it was.
pub proof fn lemma_toggle_twice_restores(visibility: Visibility)
    ensures
        toggled(toggled(visibility)) == visibility,
{
}

pub open spec fn registrations() -> Seq<Registration> {
    seq![
        Registration::System(Schedule::PostUpdate, System::ConsoleToggleAndFocus),
        Registration::System(Schedule::Startup, System::SpawnDevOverlay),
    ]
}

/// The console's toggle and focus styling, and the overlay that holds it.
pub fn plugin(app: &mut App)
    ensures
        extends(*old(app), *final(app), registrations()),
{
    app.add(Registration::System(Schedule::PostUpdate, System::ConsoleToggleAndFocus));
    app.add(Registration::System(Schedule::Startup, System::SpawnDevOverlay));
}

} // verus!
