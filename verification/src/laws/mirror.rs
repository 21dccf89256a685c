//! The host sees the guest's windows as they are.
use vstd::prelude::*;

use crate::dll_state::DllId;
use crate::present::{MirrorWindow, PresentState};
use crate::state::WinApiState;
use crate::window::{WindowRecord, WindowState};

verus! {

/// Whether the host sees a window as it is: place, size, title, whether it shows, whose
/// child it is, its menu and whether it tracks the mouse.
pub open spec fn shows(seen: MirrorWindow, window: WindowRecord) -> bool {
    &&& seen.handle == window.handle
    &&& seen.parent == window.parent_handle
    &&& seen.x == window.x
    &&& seen.y == window.y
    &&& seen.width == window.width
    &&& seen.height == window.height
    &&& seen.visible == window.visible
    &&& seen.title == window.title
    &&& seen.menu_handle == window.menu_handle
    &&& seen.mouse_tracking == window.mouse_tracking
}

/// After a sync the host sees every window as it is, in order and no other, and the
/// focus, the capture and the menu gate of the guest. Syncing changes no window and
/// loses no key event.
pub proof fn the_host_sees_every_window<F>(before: WinApiState<F>, after: WinApiState<F>)
    requires
        before.dll_states.state::<WindowState>(DllId::Window) is Some,
        before.mirror_synced(after),
    ensures
        ({
            let ws = before.dll_states.state::<WindowState>(DllId::Window)->0;
            &&& after.dll_states.state::<PresentState>(DllId::Present) matches Some(present) && {
                let mirror = present.channel.mirror;
                &&& mirror.windows@.len() == ws.windows@.len()
                &&& forall|i: int| 0 <= i < ws.windows@.len() ==> shows(#[trigger] mirror.windows@[i], ws.windows@[i])
                &&& mirror.focus == ws.focus_window_handle
                &&& mirror.capture == ws.capture_window_handle
                &&& mirror.menu_dirty == ws.menu_dirty
                &&& before.dll_states.state::<PresentState>(DllId::Present) matches Some(earlier)
                    ==> present.channel.key_writes == earlier.channel.key_writes && present.message_box_bridge
                    == earlier.message_box_bridge
            }
            &&& after.dll_states.state::<WindowState>(DllId::Window) matches Some(now) && {
                &&& now.windows == ws.windows
                &&& now.focus_window_handle == ws.focus_window_handle
                &&& now.capture_window_handle == ws.capture_window_handle
                &&& now.menu_dirty == ws.menu_dirty
                &&& now.keyboard_state == ws.keyboard_state
                &&& now.window_mirror_rev == ws.window_mirror_rev
                &&& now.window_mirror_synced_rev == ws.window_mirror_rev
            }
        }),
{
    before.dll_states.lemma_len();
    after.dll_states.lemma_len();
}

/// At the end of a call the host is up to date: where something changed since the last
/// sync it sees every window as it is, and where nothing did the state is untouched.
pub proof fn a_finished_call_is_seen<F>(before: WinApiState<F>, after: WinApiState<F>)
    requires
        before.settled(after),
    ensures
        before.dll_states.state::<WindowState>(DllId::Window) matches Some(ws) && ws.window_mirror_rev
            != ws.window_mirror_synced_rev ==> {
            let ws = before.dll_states.state::<WindowState>(DllId::Window)->0;
            &&& after.dll_states.state::<PresentState>(DllId::Present) matches Some(present) && {
                &&& present.channel.mirror.windows@.len() == ws.windows@.len()
                &&& forall|i: int|
                    0 <= i < ws.windows@.len() ==> shows(
                        #[trigger] present.channel.mirror.windows@[i],
                        ws.windows@[i],
                    )
            }
        },
        !(before.dll_states.state::<WindowState>(DllId::Window) matches Some(ws) && ws.window_mirror_rev
            != ws.window_mirror_synced_rev) ==> after == before,
{
    if before.mirror_dirty() {
        the_host_sees_every_window(before, after);
    }
}

} // verus!
