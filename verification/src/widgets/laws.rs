use vstd::prelude::*;
use crate::widgets::dropdown::{DropdownState, DropdownEvent, spec_dropdown_step};
use crate::widgets::navigation::{Crumb, spec_breadcrumbs, spec_crumb};

verus! {

/// A click on a dropdown's trigger, which the document then sees too, flips
/// the dropdown open or closed, whatever state it was in, and leaves no
/// click pending.
pub proof fn law_trigger_click_toggles(s: DropdownState)
    ensures
        ({
            let t = spec_dropdown_step(
                spec_dropdown_step(s, DropdownEvent::TriggerClick),
                DropdownEvent::DocumentClick,
            );
            t.open == !s.open && !t.just_opened
        }),
{
}

/// Once no click is pending, a click outside an open dropdown closes it.
pub proof fn law_outside_click_closes(s: DropdownState)
    requires
        !s.just_opened,
    ensures
        !spec_dropdown_step(s, DropdownEvent::DocumentClick).open,
{
}

/// A trail of `n` items (n at least 1) has `2n - 1` elements: item `k` at
/// position `2k`, a separator at every odd position, and the last item, and
/// only it, marked as the current page.
pub proof fn law_breadcrumb_shape(clickable: Seq<bool>, k: int)
    requires
        0 < k <= clickable.len(),
    ensures
        spec_breadcrumbs(clickable, k).len() == 2 * k - 1,
        forall|j: int|
            0 <= j < 2 * k - 1 ==> #[trigger] spec_breadcrumbs(clickable, k)[j] == if j % 2 == 1 {
                Crumb::Separator
            } else {
                spec_crumb(j / 2, clickable.len() as int, clickable[j / 2])
            },
    decreases k,
{
    let n = clickable.len() as int;
    let r = spec_breadcrumbs(clickable, k);
    let i = k - 1;
    let last = spec_crumb(i, n, clickable[i]);
    if k == 1 {
        assert(spec_breadcrumbs(clickable, 0) =~= Seq::<Crumb>::empty());
        assert(r =~= seq![last]);
    } else {
        law_breadcrumb_shape(clickable, k - 1);
        let front = spec_breadcrumbs(clickable, i);
        assert(r =~= front.push(Crumb::Separator).push(last));
        assert forall|j: int| 0 <= j < 2 * k - 1 implies #[trigger] r[j] == if j % 2 == 1 {
            Crumb::Separator
        } else {
            spec_crumb(j / 2, n, clickable[j / 2])
        } by {
            if j < 2 * i - 1 {
                assert(r[j] == front[j]);
            }
        }
    }
}

/// Exactly one element of a non-empty trail is the current page: the last
/// item.
pub proof fn law_one_current_page(clickable: Seq<bool>)
    requires
        clickable.len() > 0,
    ensures
        ({
            let n = clickable.len() as int;
            let r = spec_breadcrumbs(clickable, n);
            &&& r.last() == Crumb::Current((n - 1) as usize)
            &&& forall|j: int| 0 <= j < r.len() - 1 ==> !(#[trigger] r[j] is Current)
        }),
{
    let n = clickable.len() as int;
    law_breadcrumb_shape(clickable, n);
    let r = spec_breadcrumbs(clickable, n);
    assert(r[2 * n - 2] == spec_crumb(n - 1, n, clickable[n - 1]));
    assert forall|j: int| 0 <= j < r.len() - 1 implies !(#[trigger] r[j] is Current) by {
        if j % 2 == 0 {
            assert(j / 2 < n - 1);
        }
    }
}

} // verus!
