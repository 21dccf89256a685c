//! What the emulator state keeps, and what a fresh one holds.
use vstd::prelude::*;

use crate::clipboard::ClipboardState;
use crate::cpu;
use crate::d3d9::D3D9State;
use crate::dll_state;
use crate::dll_state::{DllId, DllStateMap, SlotState};
use crate::font::FontEngine;
use crate::laws::memory;
use crate::present::{KeyWrite, PresentState};
use crate::state;
use crate::state::WinApiState;
use crate::subsystems::{ConsoleState, GdiState};
use crate::window::WindowState;
use crate::winmm::WinmmState;

verus! {

/// Setting the last error sets it for the running thread and for the process, and
/// changes nothing else.
pub proof fn the_last_error_is_set_for_thread_and_process<F>(before: WinApiState<F>, value: u32)
    ensures
        ({
            let after = before.with_last_error(value);
            &&& after.process.last_error == value
            &&& after.kernel.threads.active.last_error == value
            &&& after.kernel.threads.active.tid == before.kernel.threads.active.tid
            &&& after.kernel.sync == before.kernel.sync
            &&& after.kernel.seh_pending == before.kernel.seh_pending
            &&& after.process.registry_keys == before.process.registry_keys
            &&& after.process.environment == before.process.environment
            &&& after.process.error_mode == before.process.error_mode
            &&& after.dll_states == before.dll_states
            &&& after.heap_state == before.heap_state
            &&& after.file_io == before.file_io
            &&& after.module_state == before.module_state
            &&& after.display == before.display
            &&& after.message_queue == before.message_queue
        }),
{
}

/// The last error that is published for the guest stands in the thread's block, 0x68
/// bytes from its start, low byte first, and is the one that is absorbed again.
pub proof fn a_published_error_is_read_by_the_guest(memory: Map<int, u8>, block: u64, value: u32)
    requires
        forall|a: int| block + 0x68 <= a < block + 0x6C ==> #[trigger] memory.dom().contains(a),
    ensures
        ({
            let after = cpu::store(memory, block + cpu::TEB_LAST_ERROR_OFFSET, cpu::le_bytes(value as nat, 4));
            &&& after[block + 0x68] + 256 * after[block + 0x69] + 65536 * after[block + 0x6A] + 16777216 * after[block
                + 0x6B] == value
            &&& cpu::le_value(cpu::load(after, block + 0x68, 4)) == value
        }),
{
    assert(cpu::mapped(memory, block + 0x68, 4));
    state::published_error_is_absorbed(memory, block + 0x68, value);
    let after = cpu::store(memory, block + 0x68, cpu::le_bytes(value as nat, 4));
    memory::numbers_stand_low_byte_first(after, block + 0x68);
}

/// A key that the host reports as pressed has its top bit set, one that it reports as
/// released has it clear, and nothing else of the keyboard changes.
pub proof fn key_events_set_the_top_bit(keys: Seq<u8>, write: KeyWrite, vk: int)
    requires
        keys.len() == 256,
        0 <= vk < 256,
    ensures
        ({
            let after = state::apply_key_writes(keys, seq![write]);
            &&& after.len() == 256
            &&& write.vk == vk && write.pressed ==> after[vk] >= 0x80 && (keys[vk] >= 0x80 ==> after[vk] == keys[vk]) && (
            keys[vk] < 0x80 ==> after[vk] == keys[vk] + 0x80)
            &&& write.vk == vk && !write.pressed ==> after[vk] < 0x80 && (keys[vk] < 0x80 ==> after[vk] == keys[vk]) && (
            keys[vk] >= 0x80 ==> after[vk] == keys[vk] - 0x80)
            &&& write.vk != vk ==> after[vk] == keys[vk]
        }),
{
    reveal_with_fuel(state::apply_key_writes, 2);
    assert(seq![write].drop_last() =~= Seq::<KeyWrite>::empty());
    assert(seq![write].last() == write);
    let key: u8 = keys[vk];
    assert((key | 0x80u8) >= 0x80 && (key >= 0x80 ==> (key | 0x80u8) == key) && (key < 0x80 ==> (key | 0x80u8) == key
        + 0x80) && (key & !0x80u8) < 0x80 && (key < 0x80 ==> (key & !0x80u8) == key) && (key >= 0x80 ==> (key & !0x80u8)
        == key - 0x80)) by (bit_vector);
}

/// Key events are taken in the order in which they came.
pub proof fn key_events_are_taken_in_order(keys: Seq<u8>, first: Seq<KeyWrite>, then: Seq<KeyWrite>)
    ensures
        state::apply_key_writes(keys, first + then) == state::apply_key_writes(
            state::apply_key_writes(keys, first),
            then,
        ),
    decreases then.len(),
{
    if then.len() == 0 {
        assert(first + then =~= first);
    } else {
        key_events_are_taken_in_order(keys, first, then.drop_last());
        assert((first + then).drop_last() =~= first + then.drop_last());
        assert((first + then).last() == then.last());
    }
}

/// Draining hands every pending event to the keyboard and leaves none; windows, focus
/// and the mirror stay.
pub proof fn drained_events_reach_the_keyboard<F>(
    before: WinApiState<F>,
    after: WinApiState<F>,
    present: PresentState,
    ws: WindowState,
)
    requires
        before.keys_drained(after),
        before.dll_states.state::<PresentState>(DllId::Present) == Some(present),
        before.dll_states.state::<WindowState>(DllId::Window) == Some(ws),
    ensures
        after.dll_states.state::<PresentState>(DllId::Present) matches Some(left) && left.channel.key_writes@.len() == 0
            && left.channel.mirror == present.channel.mirror && left.message_box_bridge == present.message_box_bridge,
        after.dll_states.state::<WindowState>(DllId::Window) matches Some(now) && {
            &&& now.keyboard_state@ == state::apply_key_writes(ws.keyboard_state@, present.channel.key_writes@)
            &&& now.windows == ws.windows
            &&& now.focus_window_handle == ws.focus_window_handle
            &&& now.capture_window_handle == ws.capture_window_handle
            &&& now.window_mirror_rev == ws.window_mirror_rev
            &&& now.menus == ws.menus
        },
{
    before.dll_states.lemma_len();
    after.dll_states.lemma_len();
}

/// A state that was put in a slot is the one that is found there, by its own type and by
/// no other, and an empty slot gives a fresh one.
pub proof fn slots_give_back_what_was_put_in<T: SlotState>(before: DllStateMap, after: DllStateMap, id: DllId, kept: T)
    requires
        after@ == before.with_state(id, kept),
    ensures
        after.state::<T>(id) == Some(kept),
        after.accepts::<T>(id),
        after.reached(id, kept),
        forall|other: DllId| other != id ==> #[trigger] after@[dll_state::slot_index(other)]
            == before@[dll_state::slot_index(other)],
{
    before.lemma_len();
    T::slot_law(kept.inject(), kept);
    dll_state::slots_round_trip(id, 0);
    assert forall|other: DllId| other != id implies #[trigger] after@[dll_state::slot_index(other)]
        == before@[dll_state::slot_index(other)] by {
        dll_state::slots_round_trip(other, 0);
    }
}

/// A state is found only under its own type.
pub proof fn a_slot_of_another_type_is_not_accepted<T: SlotState, U: SlotState>(map: DllStateMap, id: DllId, kept: T)
    requires
        map.state::<T>(id) == Some(kept),
        T::home() != U::home(),
    ensures
        map.state::<U>(id) is None,
        !map.accepts::<U>(id),
{
    let slot = map@[dll_state::slot_index(id)]->0;
    T::slot_law(slot, kept);
    U::slot_law(slot, arbitrary());
}

/// Before the first call there are no windows, nobody has the focus or the mouse, no key
/// is held, and handles are counted from their own ranges.
pub proof fn fresh_window_state_is_empty(ws: WindowState)
    requires
        ws.initial_state(),
    ensures
        ws.windows@.len() == 0,
        ws.focus_window_handle.0 == 0,
        ws.capture_window_handle.0 == 0,
        !ws.menu_dirty,
        ws.window_mirror_rev == ws.window_mirror_synced_rev,
        forall|vk: int| 0 <= vk < 256 ==> #[trigger] ws.keyboard_state@[vk] == 0,
        ws.keyboard_state@.len() == 256,
        ws.next_window_handle.0 == 0x6610_0000,
        ws.next_menu_handle.0 == 0x6620_0000,
        ws.next_windows_hook_handle.0 == 0x6630_0000,
        ws.next_accel_handle.0 == 0x6640_0000,
        ws.next_window_class_atom == 0xC000,
        ws.next_global_atom == 0xC000,
        ws.next_timer_id == 1,
        ws.menus@.len() == 0 && ws.accels@.len() == 0 && ws.classes@.len() == 0 && ws.timers@.len() == 0,
        ws.registered_messages@.len() == 0,
        ws.pending_message_box is None,
        ws.wf(),
{
}

/// Before the first call nothing is on the clipboard, in the console buffer, mirrored,
/// pending or timed, and fonts measure eight by sixteen pixels.
pub proof fn fresh_states_are_empty(
    clipboard: ClipboardState,
    console: ConsoleState,
    present: PresentState,
    winmm: WinmmState,
    gdi: GdiState,
    c: char,
)
    requires
        clipboard.initial_state(),
        console.initial_state(),
        present.initial_state(),
        winmm.initial_state(),
        gdi.initial_state(),
    ensures
        clipboard@ is None,
        console.stream_output@.len() == 0,
        present.channel.mirror.windows@.len() == 0,
        present.channel.mirror.focus.0 == 0,
        present.channel.mirror.capture.0 == 0,
        !present.channel.mirror.menu_dirty,
        present.channel.key_writes@.len() == 0,
        !present.message_box_bridge,
        winmm.timers@.len() == 0,
        winmm.period == 0,
        gdi.fonts@.len() == 0,
        gdi.font_engine.line_height == 16,
        gdi.font_engine.advance(c) == 8,
{
}

/// A character is as wide as its entry in the font's table says, the default where it has
/// none, and never less than nothing.
pub proof fn advances_come_from_the_table(font: FontEngine, c: char)
    ensures
        (c as int) < font.advances@.len() && font.advances@[c as int] >= 0 ==> font.advance(c)
            == font.advances@[c as int],
        (c as int) < font.advances@.len() && font.advances@[c as int] < 0 ==> font.advance(c) == 0,
        (c as int) >= font.advances@.len() && font.default_advance >= 0 ==> font.advance(c) == font.default_advance,
{
}

/// A fresh Direct3D device leaves vertices where they are: its three matrices have ones
/// on the diagonal and zeros elsewhere, and the depth range runs from 0 to 1.
pub proof fn a_fresh_device_leaves_vertices_alone(device: D3D9State, row: int, column: int)
    requires
        device.initial_state(),
        0 <= row < 4,
        0 <= column < 4,
    ensures
        ({
            let one: u32 = 0x3F80_0000;
            let entry: u32 = if row == column {
                one
            } else {
                0
            };
            &&& device.d3d9_world_matrix@.len() == 16 && device.d3d9_world_matrix@[4 * row + column] == entry
            &&& device.d3d9_view_matrix@.len() == 16 && device.d3d9_view_matrix@[4 * row + column] == entry
            &&& device.d3d9_projection_matrix@.len() == 16 && device.d3d9_projection_matrix@[4 * row + column] == entry
            &&& device.d3d9_viewport.min_z == 0
            &&& device.d3d9_viewport.max_z == one
            &&& device.d3d9_viewport.width == 0 && device.d3d9_viewport.height == 0
        }),
        device.d3d9_textures@.dom().is_empty(),
        device.d3d9_shaders@.dom().is_empty(),
        device.d3d9_pixel_shader == 0,
        device.d3d9_current_vertex_shader == 0,
        !device.d3d9_scene_active,
        device.d3d9_backbuffer@.len() == 0,
        forall|i: int| 0 <= i < 8 ==> #[trigger] device.d3d9_texture_bindings@[i] == 0,
{
    assert((4 * row + column) / 4 == row && (4 * row + column) % 4 == column);
    assert(device.d3d9_textures@.dom() =~= Set::empty());
    assert(device.d3d9_shaders@.dom() =~= Set::empty());
}

/// A fresh device draws opaque pixels over what is there, writes depth without testing
/// it, and takes the texture's colour times the current one, with nearest texels and
/// wrapped coordinates.
pub proof fn a_fresh_device_has_the_fixed_function_defaults(device: D3D9State, stage: int, r: int, c: int)
    requires
        device.initial_state(),
        0 <= stage < 8,
        0 <= c < 4,
    ensures
        ({
            let render = device.d3d9_render_state;
            &&& !render.alpha_blend_enable && render.z_write_enable && render.z_enable == 0
            &&& render.z_func == 4
            &&& render.src_blend == 2 && render.dest_blend == 1 && render.blend_op == 1
        }),
        ({
            let texture = device.d3d9_stage_states@[stage];
            &&& texture.color_op == 4 && texture.color_arg1 == 2 && texture.color_arg2 == 1
            &&& texture.alpha_op == 2 && texture.alpha_arg1 == 2 && texture.alpha_arg2 == 1
            &&& texture.tex_coord_index == 0 && texture.mag_filter == 1
            &&& texture.address_u == 1 && texture.address_v == 1
        }),
        0 <= r < device.d3d9_ps_constants@.len() ==> device.d3d9_ps_constants@[r]@[c] == 0,
        0 <= r < device.d3d9_vs_constants@.len() ==> device.d3d9_vs_constants@[r]@[c] == 0,
        device.d3d9_present_hwnd.0 == 0,
        device.d3d9_dirty is None,
        device.d3d9_device_ref_count == 0 && device.d3d9_ref_count == 0,
{
}

/// The font engine that is lent out is the state's own, and what comes back takes its
/// place; the fonts that the guest made stay where they are.
pub proof fn a_lent_font_engine_comes_back<F>(
    before: WinApiState<F>,
    lent: WinApiState<F>,
    font: FontEngine,
    gdi: GdiState,
    again: WinApiState<F>,
    other: FontEngine,
)
    requires
        before.dll_states.state::<GdiState>(DllId::Gdi) == Some(gdi),
        before.font_taken(lent, font),
        lent.font_put_back(other, again),
    ensures
        font == gdi.font_engine,
        again.dll_states.state::<GdiState>(DllId::Gdi) matches Some(back) && back.font_engine == other && back.fonts
            == gdi.fonts,
        forall|id: DllId| id != DllId::Gdi ==> #[trigger] again.dll_states@[dll_state::slot_index(id)]
            == before.dll_states@[dll_state::slot_index(id)],
        again.process == before.process && again.kernel == before.kernel,
{
    before.dll_states.lemma_len();
    lent.dll_states.lemma_len();
    again.dll_states.lemma_len();
    assert forall|id: DllId| id != DllId::Gdi implies #[trigger] again.dll_states@[dll_state::slot_index(id)]
        == before.dll_states@[dll_state::slot_index(id)] by {
        dll_state::slots_round_trip(id, 0);
    }
}

/// The number that decimal digits spell.
pub open spec fn spelled(digits: Seq<char>) -> int
    decreases digits.len(),
{
    if digits.len() == 0 {
        0
    } else {
        10 * spelled(digits.drop_last()) + (digits.last() as int - '0' as int)
    }
}

/// Numbers are written in decimal digits that spell them.
pub proof fn numbers_are_spelled_in_decimal(n: nat)
    ensures
        spelled(dll_state::decimal(n)) == n,
        dll_state::decimal(n).len() >= 1,
        forall|i: int| 0 <= i < dll_state::decimal(n).len() ==> '0' <= #[trigger] dll_state::decimal(n)[i] <= '9',
    decreases n,
{
    let all = dll_state::decimal(n);
    if n >= 10 {
        numbers_are_spelled_in_decimal(n / 10);
        let upper = dll_state::decimal(n / 10);
        assert(all.drop_last() =~= upper);
        assert forall|i: int| 0 <= i < all.len() implies '0' <= #[trigger] all[i] <= '9' by {
            if i < upper.len() {
                assert(all[i] == upper[i]);
            }
        }
    } else {
        reveal_with_fuel(spelled, 2);
        assert(all.drop_last() =~= Seq::<char>::empty());
    }
}

/// The labels of the loaded states are those of the slots that are filled, in slot order.
pub proof fn filled_slots_are_listed(map: DllStateMap, n: nat)
    requires
        n <= 15,
    ensures
        map.labels_of(n) == DllId::variants().take(n as int).filter(
            |id: DllId| map@[dll_state::slot_index(id)] is Some,
        ).map_values(|id: DllId| dll_state::slot_label(id)),
    decreases n,
{
    reveal(Seq::filter);
    let loaded = |id: DllId| map@[dll_state::slot_index(id)] is Some;
    let label = |id: DllId| dll_state::slot_label(id);
    if n > 0 {
        filled_slots_are_listed(map, (n - 1) as nat);
        let ids = DllId::variants().take(n as int);
        assert(ids.drop_last() =~= DllId::variants().take(n - 1));
        dll_state::slots_round_trip(ids.last(), n - 1);
        assert(ids.last() == DllId::variants()[n - 1]);
        let earlier = ids.drop_last().filter(loaded);
        assert(earlier.push(ids.last()).map_values(label) =~= earlier.map_values(label).push(label(ids.last())));
    } else {
        assert(DllId::variants().take(0) =~= Seq::<DllId>::empty());
        assert(map.labels_of(0) =~= Seq::<DllId>::empty().map_values(label));
    }
}

/// The label of a slot is the name of its DLL in small letters.
pub proof fn labels_are_names_in_small_letters(id: DllId)
    ensures
        crate::text::same_name(dll_state::slot_label(id), dll_state::variant_name(id)),
        forall|i: int|
            0 <= i < dll_state::slot_label(id).len() ==> !('A' <= #[trigger] dll_state::slot_label(id)[i] <= 'Z'),
{
    reveal_strlit("Console");
    reveal_strlit("console");
    reveal_strlit("Window");
    reveal_strlit("window");
    reveal_strlit("D3D9");
    reveal_strlit("d3d9");
    reveal_strlit("Pthread");
    reveal_strlit("pthread");
    reveal_strlit("Gdi");
    reveal_strlit("gdi");
    reveal_strlit("Present");
    reveal_strlit("present");
    reveal_strlit("Clipboard");
    reveal_strlit("clipboard");
    reveal_strlit("Registry");
    reveal_strlit("registry");
    reveal_strlit("DragDrop");
    reveal_strlit("dragdrop");
    reveal_strlit("Ws2");
    reveal_strlit("ws2");
    reveal_strlit("Crypt32");
    reveal_strlit("crypt32");
    reveal_strlit("Ole32");
    reveal_strlit("ole32");
    reveal_strlit("Winmm");
    reveal_strlit("winmm");
    reveal_strlit("Wininet");
    reveal_strlit("wininet");
    reveal_strlit("Winhttp");
    reveal_strlit("winhttp");
    crate::laws::creation::names_are_compared_without_case(dll_state::slot_label(id), dll_state::variant_name(id));
}

} // verus!
