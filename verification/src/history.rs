//! Per-window history for Restore and repeated commands, the identity of
//! each tracked window, and the bounded record of recently used windows.

use std::collections::{HashMap, VecDeque};

use vstd::prelude::*;

use crate::command::Command;
use crate::failure::CommandExecutionError;
use crate::text::str_equal;

verus! {

broadcast use vstd::std_specs::vecdeque::group_vec_dequeue_axioms, vstd::std_specs::hash::group_hash_axioms;

/// A native window, identified by the platform.
#[derive(Debug, Clone, Copy, PartialEq, Eq, Hash, Structural)]
pub struct WindowId(pub u64);

/// The most windows whose state is kept at once; the least recently used
/// window is forgotten first.
pub const MAX_TRACKED_WINDOWS: usize = 64;

/// The first position of `id` in `windows`.
pub open spec fn first_position(windows: Seq<WindowId>, id: WindowId) -> int
    recommends
        windows.contains(id),
{
    choose|k: int| 0 <= k < windows.len() && windows[k] == id && forall|j: int| 0 <= j < k ==> windows[j] != id
}

/// `windows` without its first occurrence of `id`, if any.
pub open spec fn without_window(windows: Seq<WindowId>, id: WindowId) -> Seq<WindowId> {
    if windows.contains(id) {
        windows.remove(first_position(windows, id))
    } else {
        windows
    }
}

/// Removes the first occurrence of `id` from the recent windows.
pub fn remove_recent_window(recent_windows: &mut VecDeque<WindowId>, id: WindowId)
    ensures
        final(recent_windows)@ == without_window(old(recent_windows)@, id),
{
    let len = recent_windows.len();
    let mut i: usize = 0;
    while i < len
        invariant
            len == recent_windows@.len(),
            recent_windows@ == old(recent_windows)@,
            i <= len,
            forall|j: int| 0 <= j < i ==> recent_windows@[j] != id,
        decreases len - i,
    {
        if recent_windows[i] == id {
            proof {
                let w = old(recent_windows)@;
                assert(w.contains(id));
                let k = first_position(w, id);
                assert(0 <= k < w.len() && w[k] == id && forall|j: int| 0 <= j < k ==> w[j] != id);
                assert(k == i);
            }
            let _ = recent_windows.remove(i);
            return;
        }
        i = i + 1;
    }
}

/// The recent windows after using `id`: it moves to the back, and the oldest
/// windows beyond [`MAX_TRACKED_WINDOWS`] drop off the front.
pub open spec fn touched(windows: Seq<WindowId>, id: WindowId) -> Seq<WindowId> {
    let used = without_window(windows, id).push(id);
    if used.len() > MAX_TRACKED_WINDOWS {
        used.subrange(used.len() - MAX_TRACKED_WINDOWS, used.len() as int)
    } else {
        used
    }
}

/// The windows that using `id` drops off the front, oldest first.
pub open spec fn evicted_by(windows: Seq<WindowId>, id: WindowId) -> Seq<WindowId> {
    let used = without_window(windows, id).push(id);
    if used.len() > MAX_TRACKED_WINDOWS {
        used.subrange(0, used.len() - MAX_TRACKED_WINDOWS)
    } else {
        Seq::empty()
    }
}

/// Marks `id` as the most recently used window and returns the windows that
/// no longer fit, oldest first; their state is to be forgotten.
pub fn touch_recent_window(recent_windows: &mut VecDeque<WindowId>, id: WindowId) -> (evicted: Vec<WindowId>)
    ensures
        final(recent_windows)@ == touched(old(recent_windows)@, id),
        evicted@ == evicted_by(old(recent_windows)@, id),
{
    remove_recent_window(recent_windows, id);
    recent_windows.push_back(id);
    let ghost used = recent_windows@;
    let mut evicted: Vec<WindowId> = Vec::new();
    while recent_windows.len() > MAX_TRACKED_WINDOWS
        invariant
            used == without_window(old(recent_windows)@, id).push(id),
            used.len() > MAX_TRACKED_WINDOWS ==> recent_windows@.len() >= MAX_TRACKED_WINDOWS,
            used.len() <= MAX_TRACKED_WINDOWS ==> recent_windows@ == used && evicted@.len() == 0,
            evicted@.len() + recent_windows@.len() == used.len(),
            evicted@ == used.subrange(0, evicted@.len() as int),
            recent_windows@ == used.subrange(evicted@.len() as int, used.len() as int),
        decreases recent_windows@.len(),
    {
        match recent_windows.pop_front() {
            Some(oldest) => {
                evicted.push(oldest);
            },
            None => {},
        }
    }
    proof {
        if used.len() <= MAX_TRACKED_WINDOWS {
            assert(evicted@ =~= Seq::<WindowId>::empty());
        }
    }
    evicted
}

/// What identifies the window behind a native window id: its application
/// and its title.
#[derive(Debug, Clone, PartialEq, Eq)]
pub struct WindowIdentity {
    pub app_id: String,
    pub title: String,
}

impl View for WindowIdentity {
    type V = (Seq<char>, Seq<char>);

    open spec fn view(&self) -> (Seq<char>, Seq<char>) {
        (self.app_id@, self.title@)
    }
}

/// The keys of the windows in `windows`.
pub open spec fn window_keys(windows: Seq<WindowId>) -> Set<u64> {
    Set::new(|key: u64| exists|i: int| 0 <= i < windows.len() && windows[i].0 == key)
}

/// Whether `window_id` was last seen with an identity other than `identity`.
pub open spec fn identity_changed(
    identities: Map<u64, (Seq<char>, Seq<char>)>,
    window_id: WindowId,
    identity: (Seq<char>, Seq<char>),
) -> bool {
    identities.contains_key(window_id.0) && identities[window_id.0] != identity
}

/// `map` without the entry of `window_id` when `forget` holds.
pub open spec fn forgetting<V>(map: Map<u64, V>, window_id: WindowId, forget: bool) -> Map<u64, V> {
    if forget {
        map.remove(window_id.0)
    } else {
        map
    }
}

/// The identity last seen for each tracked window, and the order in which
/// the tracked windows were last used.
#[derive(Debug)]
pub struct WindowIdentities {
    identities: HashMap<u64, WindowIdentity>,
    recent_windows: VecDeque<WindowId>,
}

impl WindowIdentities {
    /// The identity of each tracked window.
    pub closed spec fn identities(&self) -> Map<u64, (Seq<char>, Seq<char>)> {
        self.identities@.map_values(|identity: WindowIdentity| identity@)
    }

    /// The tracked windows, least recently used first.
    pub closed spec fn recent(&self) -> Seq<WindowId> {
        self.recent_windows@
    }

    /// Each tracked window is listed once, and no more are listed than are
    /// kept.
    pub closed spec fn well_formed(&self) -> bool {
        &&& self.recent_windows@.no_duplicates()
        &&& self.recent_windows@.len() <= MAX_TRACKED_WINDOWS
    }

    /// No window tracked yet.
    pub fn new() -> (identities: Self)
        ensures
            identities.well_formed(),
            identities.identities() == Map::<u64, (Seq<char>, Seq<char>)>::empty(),
            identities.recent() == Seq::<WindowId>::empty(),
    {
        let identities = WindowIdentities { identities: HashMap::new(), recent_windows: VecDeque::new() };
        proof {
            assert(identities.identities() =~= Map::<u64, (Seq<char>, Seq<char>)>::empty());
        }
        identities
    }

    /// Notes that `window_id` is in use and shows `identity`.
    ///
    /// When the id was last seen with another identity, it now names a
    /// different window, so its history is discarded. The window becomes
    /// the most recently used; the windows beyond [`MAX_TRACKED_WINDOWS`]
    /// are forgotten, history included, and returned so that the platform
    /// can release them too.
    pub fn observe<R>(
        &mut self,
        history: &mut WindowHistory<R>,
        window_id: WindowId,
        identity: WindowIdentity,
    ) -> (evicted: Vec<WindowId>)
        requires
            old(self).well_formed(),
        ensures
            final(self).well_formed(),
            final(self).recent() == touched(old(self).recent(), window_id),
            evicted@ == evicted_by(old(self).recent(), window_id),
            !evicted@.contains(window_id),
            old(self).identities().contains_key(window_id.0) && (old(self).identities()[window_id.0].0 != identity.app_id@
                || old(self).identities()[window_id.0].1 != identity.title@) ==> {
                &&& !final(history).restore_rects().contains_key(window_id.0)
                &&& !final(history).last_commands().contains_key(window_id.0)
            },
            old(self).identities().contains_key(window_id.0) && old(self).identities()[window_id.0] == identity@ ==> {
                &&& final(history).restore_rects().contains_key(window_id.0) == old(history).restore_rects().contains_key(window_id.0)
                &&& final(history).last_commands().contains_key(window_id.0) == old(history).last_commands().contains_key(window_id.0)
            },
            final(self).identities() == old(self).identities().insert(window_id.0, identity@).remove_keys(
                window_keys(evicted@),
            ),
            ({
                let changed = identity_changed(old(self).identities(), window_id, identity@);
                &&& final(history).restore_rects() == forgetting(old(history).restore_rects(), window_id, changed).remove_keys(
                    window_keys(evicted@),
                )
                &&& final(history).last_commands() == forgetting(old(history).last_commands(), window_id, changed).remove_keys(
                    window_keys(evicted@),
                )
            }),
    {
        let ghost changed = identity_changed(self.identities(), window_id, identity@);
        let changed_now = match self.identities.get(&window_id.0) {
            Some(previous) => !(str_equal(previous.app_id.as_str(), identity.app_id.as_str()) && str_equal(
                previous.title.as_str(),
                identity.title.as_str(),
            )),
            None => false,
        };
        proof {
            if self.identities@.contains_key(window_id.0) {
                let previous = self.identities@[window_id.0];
                assert(self.identities()[window_id.0] == previous@);
            }
        }
        if changed_now {
            history.clear_window(window_id);
        }
        let ghost identities_before = self.identities();
        self.identities.insert(window_id.0, identity);
        proof {
            assert(self.identities() =~= identities_before.insert(window_id.0, identity@));
            lemma_touch_keeps_recent_windows_bounded(self.recent_windows@, window_id);
        }
        let evicted = touch_recent_window(&mut self.recent_windows, window_id);
        let ghost identities_kept = self.identities();
        let ghost restore_kept = history.restore_rects();
        let ghost commands_kept = history.last_commands();
        let ghost recent_after = self.recent_windows@;
        let mut i: usize = 0;
        while i < evicted.len()
            invariant
                i <= evicted@.len(),
                self.recent_windows@ == recent_after,
                self.identities() == identities_kept.remove_keys(window_keys(evicted@.subrange(0, i as int))),
                history.restore_rects() == restore_kept.remove_keys(window_keys(evicted@.subrange(0, i as int))),
                history.last_commands() == commands_kept.remove_keys(window_keys(evicted@.subrange(0, i as int))),
            decreases evicted@.len() - i,
        {
            let gone = evicted[i];
            let ghost before = self.identities();
            self.identities.remove(&gone.0);
            history.clear_window(gone);
            proof {
                let shorter = evicted@.subrange(0, i as int);
                let longer = evicted@.subrange(0, i as int + 1);
                let keys = window_keys(shorter);
                let more = window_keys(longer);
                assert(more =~= keys.insert(gone.0)) by {
                    assert forall|key: u64| more.contains(key) implies keys.insert(gone.0).contains(key) by {
                        let j = choose|j: int| 0 <= j < longer.len() && (#[trigger] longer[j]).0 == key;
                        if j < i {
                            assert(shorter[j] == longer[j]);
                        }
                    }
                    assert forall|key: u64| keys.insert(gone.0).contains(key) implies more.contains(key) by {
                        if key == gone.0 {
                            assert(longer[i as int].0 == key);
                        } else {
                            let j = choose|j: int| 0 <= j < shorter.len() && (#[trigger] shorter[j]).0 == key;
                            assert(longer[j] == shorter[j]);
                        }
                    }
                }
                assert(self.identities() =~= before.remove(gone.0));
                assert(before.remove(gone.0) =~= identities_kept.remove_keys(more));
                assert(history.restore_rects() =~= restore_kept.remove_keys(more));
                assert(history.last_commands() =~= commands_kept.remove_keys(more));
            }
            i = i + 1;
        }
        proof {
            assert(evicted@.subrange(0, evicted@.len() as int) =~= evicted@);
            assert(changed == changed_now);
        }
        evicted
    }

    /// Forgets `window_id`: its history, its identity and its place among
    /// the recent windows.
    pub fn forget<R>(&mut self, history: &mut WindowHistory<R>, window_id: WindowId)
        requires
            old(self).well_formed(),
        ensures
            final(self).well_formed(),
            final(self).identities() == old(self).identities().remove(window_id.0),
            final(self).recent() == without_window(old(self).recent(), window_id),
            final(history).restore_rects() == old(history).restore_rects().remove(window_id.0),
            final(history).last_commands() == old(history).last_commands().remove(window_id.0),
    {
        history.clear_window(window_id);
        let ghost before = self.identities();
        self.identities.remove(&window_id.0);
        proof {
            assert(self.identities() =~= before.remove(window_id.0));
            lemma_without_window_keeps_bounds(self.recent_windows@, window_id);
        }
        remove_recent_window(&mut self.recent_windows, window_id);
    }
}

/// Seeing a window id with another application or another title than the
/// one it was last seen with means it names a different window: its restore
/// rectangle and last command are forgotten. Seeing it with the same
/// application and title keeps them.
pub proof fn lemma_a_different_window_loses_its_history<V>(
    identities: Map<u64, (Seq<char>, Seq<char>)>,
    history: Map<u64, V>,
    window_id: WindowId,
    app_id: Seq<char>,
    title: Seq<char>,
)
    requires
        identities.contains_key(window_id.0),
    ensures
        identities[window_id.0].0 != app_id || identities[window_id.0].1 != title ==> !forgetting(
            history,
            window_id,
            identity_changed(identities, window_id, (app_id, title)),
        ).contains_key(window_id.0),
        identities[window_id.0] == (app_id, title) ==> forgetting(
            history,
            window_id,
            identity_changed(identities, window_id, (app_id, title)),
        ) == history,
{
}

/// However the windows are used, at most [`MAX_TRACKED_WINDOWS`] of them are
/// tracked, each once.
pub proof fn lemma_tracked_windows_stay_bounded(identities: WindowIdentities)
    requires
        identities.well_formed(),
    ensures
        identities.recent().len() <= MAX_TRACKED_WINDOWS,
        identities.recent().no_duplicates(),
{
}

proof fn lemma_without_window_keeps_bounds(windows: Seq<WindowId>, id: WindowId)
    requires
        windows.no_duplicates(),
    ensures
        without_window(windows, id).no_duplicates(),
        without_window(windows, id).len() <= windows.len(),
{
    if windows.contains(id) {
        let k = first_position(windows, id);
        assert(0 <= k < windows.len() && windows[k] == id);
        let rest = without_window(windows, id);
        assert forall|a: int, b: int| 0 <= a < b < rest.len() implies rest[a] != rest[b] by {
            let wa = if a < k { a } else { a + 1 };
            let wb = if b < k { b } else { b + 1 };
            assert(rest[a] == windows[wa] && rest[b] == windows[wb]);
        }
    }
}

/// With no duplicates and room for every window, using a window keeps the
/// record duplicate-free and bounded, drops at most one window, and never
/// drops the window just used.
pub proof fn lemma_touch_keeps_recent_windows_bounded(windows: Seq<WindowId>, id: WindowId)
    requires
        windows.no_duplicates(),
        windows.len() <= MAX_TRACKED_WINDOWS,
    ensures
        touched(windows, id).no_duplicates(),
        touched(windows, id).len() <= MAX_TRACKED_WINDOWS,
        touched(windows, id).last() == id,
        evicted_by(windows, id).len() <= 1,
        !evicted_by(windows, id).contains(id),
{
    let rest = without_window(windows, id);
    if windows.contains(id) {
        let k = first_position(windows, id);
        assert(0 <= k < windows.len() && windows[k] == id);
        assert(!rest.contains(id)) by {
            if rest.contains(id) {
                let j = choose|j: int| 0 <= j < rest.len() && rest[j] == id;
                if j < k {
                    assert(windows[j] == id);
                } else {
                    assert(windows[j + 1] == id);
                }
            }
        }
        assert(rest.no_duplicates()) by {
            assert forall|a: int, b: int| 0 <= a < b < rest.len() implies rest[a] != rest[b] by {
                let wa = if a < k { a } else { a + 1 };
                let wb = if b < k { b } else { b + 1 };
                assert(rest[a] == windows[wa] && rest[b] == windows[wb]);
            }
        }
    }
    let used = rest.push(id);
    assert(used[used.len() - 1] == id);
    assert(used.no_duplicates()) by {
        assert forall|a: int, b: int| 0 <= a < b < used.len() implies used[a] != used[b] by {
            if b == used.len() - 1 {
                assert(used[a] == rest[a]);
            } else {
                assert(used[a] == rest[a] && used[b] == rest[b]);
            }
        }
    }
    if used.len() > MAX_TRACKED_WINDOWS {
        let kept = used.subrange(used.len() - MAX_TRACKED_WINDOWS, used.len() as int);
        assert(kept[kept.len() - 1] == id);
        assert(kept.no_duplicates()) by {
            assert forall|a: int, b: int| 0 <= a < b < kept.len() implies kept[a] != kept[b] by {
                assert(kept[a] == used[a + 1] && kept[b] == used[b + 1]);
            }
        }
        let gone = used.subrange(0, used.len() - MAX_TRACKED_WINDOWS);
        assert(gone.len() == 1);
        assert(gone[0] == used[0]);
        assert(!gone.contains(id)) by {
            if gone.contains(id) {
                assert(used[0] == id);
                assert(used[0] != used[used.len() - 1]);
            }
        }
    }
}

/// The last command applied to a window, with the rectangle the platform
/// reported after applying it, the exact rectangle requested before native
/// rounding or app constraints, and how many times in a row it was applied.
#[derive(Debug, Clone, Copy, PartialEq)]
pub struct RecordedCommand<R> {
    pub command: Command,
    pub rect: R,
    pub requested_rect: R,
    pub count: u32,
}

/// Per-window restore rectangles and last commands, over any rectangle type
/// `R`.
#[derive(Debug)]
pub struct WindowHistory<R> {
    restore_rects: HashMap<u64, R>,
    last_commands: HashMap<u64, RecordedCommand<R>>,
}

impl<R> WindowHistory<R> {
    /// The restore rectangle of each window.
    pub closed spec fn restore_rects(&self) -> Map<u64, R> {
        self.restore_rects@
    }

    /// The last command of each window.
    pub closed spec fn last_commands(&self) -> Map<u64, RecordedCommand<R>> {
        self.last_commands@
    }

    /// The entry of `key` in `map`, if any.
    pub open spec fn entry<V>(map: Map<u64, V>, key: u64) -> Option<V> {
        if map.contains_key(key) {
            Some(map[key])
        } else {
            None
        }
    }

    /// An empty history.
    pub fn new() -> (history: Self)
        ensures
            history.restore_rects() == Map::<u64, R>::empty(),
            history.last_commands() == Map::<u64, RecordedCommand<R>>::empty(),
    {
        WindowHistory { restore_rects: HashMap::new(), last_commands: HashMap::new() }
    }

    /// The rectangle that Restore returns `window_id` to, if any.
    pub fn restore_rect(&self, window_id: WindowId) -> (rect: Option<R>)
        where
            R: Copy,
        ensures
            rect == Self::entry(self.restore_rects(), window_id.0),
    {
        match self.restore_rects.get(&window_id.0) {
            Some(rect) => Some(*rect),
            None => None,
        }
    }

    /// Sets the rectangle that Restore returns `window_id` to.
    pub fn set_restore_rect(&mut self, window_id: WindowId, rect: R)
        ensures
            final(self).restore_rects() == old(self).restore_rects().insert(window_id.0, rect),
            final(self).last_commands() == old(self).last_commands(),
    {
        self.restore_rects.insert(window_id.0, rect);
    }

    /// Forgets the restore rectangle of `window_id`.
    pub fn clear_restore_rect(&mut self, window_id: WindowId)
        ensures
            final(self).restore_rects() == old(self).restore_rects().remove(window_id.0),
            final(self).last_commands() == old(self).last_commands(),
    {
        self.restore_rects.remove(&window_id.0);
    }

    /// The last command applied to `window_id`, if any.
    pub fn last_command(&self, window_id: WindowId) -> (record: Option<RecordedCommand<R>>)
        where
            R: Copy,
        ensures
            record == Self::entry(self.last_commands(), window_id.0),
    {
        match self.last_commands.get(&window_id.0) {
            Some(record) => Some(*record),
            None => None,
        }
    }

    /// Records `command` as applied to `window_id` with `rect` both requested
    /// and applied.
    pub fn record_command(&mut self, window_id: WindowId, command: Command, rect: R)
        where
            R: Copy,
        requires
            old(self).last_commands().contains_key(window_id.0) && old(self).last_commands()[window_id.0].command
                == command ==> old(self).last_commands()[window_id.0].count < u32::MAX,
        ensures
            final(self).restore_rects() == old(self).restore_rects(),
            final(self).last_commands() == old(self).last_commands().insert(
                window_id.0,
                recorded(old(self).last_commands(), window_id, command, rect, rect),
            ),
    {
        self.record_applied_command(window_id, command, rect, rect);
    }

    /// Records `command` as applied to `window_id`: the rectangle requested
    /// and the one the platform reported. A command applied again right after
    /// itself counts up; any other command starts counting at one.
    pub fn record_applied_command(&mut self, window_id: WindowId, command: Command, requested_rect: R, applied_rect: R)
        requires
            old(self).last_commands().contains_key(window_id.0) && old(self).last_commands()[window_id.0].command
                == command ==> old(self).last_commands()[window_id.0].count < u32::MAX,
        ensures
            final(self).restore_rects() == old(self).restore_rects(),
            final(self).last_commands() == old(self).last_commands().insert(
                window_id.0,
                recorded(old(self).last_commands(), window_id, command, requested_rect, applied_rect),
            ),
    {
        let count = match self.last_commands.get(&window_id.0) {
            Some(record) => if record.command == command {
                record.count + 1
            } else {
                1
            },
            None => 1,
        };
        self.last_commands.insert(
            window_id.0,
            RecordedCommand { command, rect: applied_rect, requested_rect, count },
        );
    }

    /// Forgets the last command of `window_id`.
    pub fn clear_last_command(&mut self, window_id: WindowId)
        ensures
            final(self).restore_rects() == old(self).restore_rects(),
            final(self).last_commands() == old(self).last_commands().remove(window_id.0),
    {
        self.last_commands.remove(&window_id.0);
    }

    /// Forgets everything about `window_id`.
    pub fn clear_window(&mut self, window_id: WindowId)
        ensures
            final(self).restore_rects() == old(self).restore_rects().remove(window_id.0),
            final(self).last_commands() == old(self).last_commands().remove(window_id.0),
    {
        self.clear_restore_rect(window_id);
        self.clear_last_command(window_id);
    }

    /// Forgets every window.
    pub fn clear(&mut self)
        ensures
            final(self).restore_rects() == Map::<u64, R>::empty(),
            final(self).last_commands() == Map::<u64, RecordedCommand<R>>::empty(),
    {
        self.restore_rects.clear();
        self.last_commands.clear();
    }

    /// Records a command other than Restore that was applied to a window
    /// whose rectangle was `previous_rect`: the first such command since the
    /// window's history was cleared keeps `previous_rect` as the restore
    /// rectangle, and the command becomes the window's last command.
    pub fn record_execution(
        &mut self,
        window_id: WindowId,
        command: Command,
        previous_rect: R,
        requested_rect: R,
        applied_rect: R,
    )
        where
            R: Copy,
        requires
            old(self).last_commands().contains_key(window_id.0) && old(self).last_commands()[window_id.0].command
                == command ==> old(self).last_commands()[window_id.0].count < u32::MAX,
        ensures
            final(self).restore_rects() == restore_after_execution(old(self).restore_rects(), window_id, previous_rect),
            final(self).last_commands() == old(self).last_commands().insert(
                window_id.0,
                recorded(old(self).last_commands(), window_id, command, requested_rect, applied_rect),
            ),
    {
        if self.restore_rect(window_id).is_none() {
            self.set_restore_rect(window_id, previous_rect);
        }
        self.record_applied_command(window_id, command, requested_rect, applied_rect);
    }
}

impl<R> Default for WindowHistory<R> {
    fn default() -> (history: Self)
        ensures
            history.restore_rects() == Map::<u64, R>::empty(),
            history.last_commands() == Map::<u64, RecordedCommand<R>>::empty(),
    {
        Self::new()
    }
}

/// Where Restore takes `window_id`, given whether the window still is where
/// its last recorded command left it (`at_last_command`; false without a
/// record). Without a restore rectangle there is nothing to restore; a
/// window that moved since is not trusted to be the same window, and its
/// history is forgotten.
pub fn restore_target<R: Copy>(
    history: &mut WindowHistory<R>,
    window_id: WindowId,
    at_last_command: bool,
) -> (target: Result<R, CommandExecutionError>)
    ensures
        !old(history).restore_rects().contains_key(window_id.0) ==> {
            &&& target == Err::<R, CommandExecutionError>(CommandExecutionError::NoRestoreRect { window_id })
            &&& final(history).restore_rects() == old(history).restore_rects()
            &&& final(history).last_commands() == old(history).last_commands()
        },
        old(history).restore_rects().contains_key(window_id.0) && !at_last_command ==> {
            &&& target == Err::<R, CommandExecutionError>(CommandExecutionError::StaleWindowHistory { window_id })
            &&& final(history).restore_rects() == old(history).restore_rects().remove(window_id.0)
            &&& final(history).last_commands() == old(history).last_commands().remove(window_id.0)
        },
        old(history).restore_rects().contains_key(window_id.0) && at_last_command ==> {
            &&& target == Ok::<R, CommandExecutionError>(old(history).restore_rects()[window_id.0])
            &&& final(history).restore_rects() == old(history).restore_rects()
            &&& final(history).last_commands() == old(history).last_commands()
        },
{
    match history.restore_rect(window_id) {
        None => Err(CommandExecutionError::NoRestoreRect { window_id }),
        Some(rect) => {
            if at_last_command {
                Ok(rect)
            } else {
                history.clear_window(window_id);
                Err(CommandExecutionError::StaleWindowHistory { window_id })
            }
        },
    }
}

/// The restore rectangles after a command other than Restore ran on
/// `window_id` from `previous_rect`: an existing restore rectangle stays.
pub open spec fn restore_after_execution<R>(restore_rects: Map<u64, R>, window_id: WindowId, previous_rect: R) -> Map<u64, R> {
    if restore_rects.contains_key(window_id.0) {
        restore_rects
    } else {
        restore_rects.insert(window_id.0, previous_rect)
    }
}

/// However many commands run on a window, Restore returns it to where it was
/// before the first of them: later commands never replace that rectangle,
/// and other windows are not affected.
pub proof fn lemma_first_restore_rect_is_kept<R>(
    restore_rects: Map<u64, R>,
    window_id: WindowId,
    first_previous: R,
    later_previous: R,
    other: WindowId,
)
    requires
        !restore_rects.contains_key(window_id.0),
        other.0 != window_id.0,
    ensures
        ({
            let after_first = restore_after_execution(restore_rects, window_id, first_previous);
            let after_both = restore_after_execution(after_first, window_id, later_previous);
            &&& after_both.contains_key(window_id.0)
            &&& after_both[window_id.0] == first_previous
            &&& after_both.contains_key(other.0) == restore_rects.contains_key(other.0)
            &&& restore_rects.contains_key(other.0) ==> after_both[other.0] == restore_rects[other.0]
        }),
{
}

/// Applying the same command again counts up from the last record, and any
/// other command starts over at one.
pub proof fn lemma_repeated_command_counts_up<R>(
    last_commands: Map<u64, RecordedCommand<R>>,
    window_id: WindowId,
    command: Command,
    other_command: Command,
    rect: R,
)
    requires
        !last_commands.contains_key(window_id.0),
        other_command != command,
    ensures
        ({
            let first = last_commands.insert(window_id.0, recorded(last_commands, window_id, command, rect, rect));
            let second = first.insert(window_id.0, recorded(first, window_id, command, rect, rect));
            let third = second.insert(window_id.0, recorded(second, window_id, other_command, rect, rect));
            &&& first[window_id.0].count == 1
            &&& second[window_id.0].count == 2
            &&& third[window_id.0].count == 1
            &&& third[window_id.0].command == other_command
        }),
{
}

/// The record of `command` applied to `window_id`, counting on from the
/// window's last record when that was the same command.
pub open spec fn recorded<R>(
    last_commands: Map<u64, RecordedCommand<R>>,
    window_id: WindowId,
    command: Command,
    requested_rect: R,
    applied_rect: R,
) -> RecordedCommand<R> {
    RecordedCommand {
        command,
        rect: applied_rect,
        requested_rect,
        count: if last_commands.contains_key(window_id.0) && last_commands[window_id.0].command == command {
            (last_commands[window_id.0].count + 1) as u32
        } else {
            1
        },
    }
}

} // verus!
