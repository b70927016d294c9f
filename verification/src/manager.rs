//! The command surface: a registry of open windows addressed by label.
//!
//! Creation is the one operation whose failure matters to the caller and it
//! alone returns a result; every other operation is best-effort, a no-op when
//! the label addresses no window. The registry keeps labels unique and
//! non-empty.

use vstd::prelude::*;

use crate::config::ConfigEntry;
use crate::config::WindowConfig;
use crate::config::config_of;
use crate::config::recognized_key;
use crate::config::law_unrecognized_key_ignored;
use crate::window::WindowModel;
use crate::window::WindowState;
use crate::window::apply_model;
use crate::window::law_empty_config_identity;

verus! {

/// One open window: its addressing label and its state.
pub struct Window {
    pub label: String,
    pub state: WindowState,
}

/// The mathematical model of one open window.
#[verifier::ext_equal]
pub ghost struct WindowRecord {
    pub label: Seq<char>,
    pub state: WindowModel,
}

impl View for Window {
    type V = WindowRecord;

    open spec fn view(&self) -> WindowRecord {
        WindowRecord { label: self.label@, state: self.state@ }
    }
}

/// Whether some open window is addressable by `label`.
pub open spec fn contains_label(m: Seq<WindowRecord>, label: Seq<char>) -> bool {
    exists|i: int| 0 <= i < m.len() && m[i].label == label
}

/// Well-formedness of the registry: labels are unique and non-empty.
pub open spec fn wf(m: Seq<WindowRecord>) -> bool {
    &&& forall|i: int, j: int| 0 <= i < j < m.len() ==> m[i].label != m[j].label
    &&& forall|i: int| 0 <= i < m.len() ==> m[i].label.len() > 0
}

/// Whether creation under `label` is owed success: the label is non-empty
/// and not yet in use.
pub open spec fn create_ok(m: Seq<WindowRecord>, label: Seq<char>) -> bool {
    label.len() > 0 && !contains_label(m, label)
}

/// The window a successful creation registers: the platform-default state
/// the native build yields, with the identity marker set at construction and
/// the payload applied once.
pub open spec fn created_window(
    label: Seq<char>,
    base: WindowModel,
    entries: Seq<ConfigEntry>,
) -> WindowRecord {
    WindowRecord {
        label,
        state: apply_model(WindowModel { init_label: label, ..base }, config_of(entries)),
    }
}

/// The registry a successful creation leaves.
pub open spec fn create_result(
    m: Seq<WindowRecord>,
    label: Seq<char>,
    base: WindowModel,
    entries: Seq<ConfigEntry>,
) -> Seq<WindowRecord> {
    m.push(created_window(label, base, entries))
}

/// The one error kind the command surface reports to its caller.
#[derive(Clone, Copy, PartialEq, Eq, Structural, Debug)]
pub enum CreationError {
    /// The requested label is empty.
    EmptyLabel,
    /// A window with the requested label is already open.
    LabelInUse,
}

impl CreationError {
    /// The descriptive string surfaced to the caller.
    pub fn message(&self) -> (r: String)
        ensures
            (match self {
                CreationError::EmptyLabel => r@ == "window label must not be empty"@,
                CreationError::LabelInUse => r@ == "a window with this label already exists"@,
            }),
    {
        match self {
            CreationError::EmptyLabel => "window label must not be empty".to_owned(),
            CreationError::LabelInUse => "a window with this label already exists".to_owned(),
        }
    }
}

/// The registry of open windows, addressed by label.
pub struct WindowManager {
    windows: Vec<Window>,
}

impl View for WindowManager {
    type V = Seq<WindowRecord>;

    closed spec fn view(&self) -> Seq<WindowRecord> {
        self.windows@.map_values(|w: Window| w@)
    }
}

impl WindowManager {
    /// An empty registry: no window is addressable.
    pub fn new() -> (r: WindowManager)
        ensures
            r@ == Seq::<WindowRecord>::empty(),
            wf(r@),
    {
        let r = WindowManager { windows: Vec::new() };
        proof {
            assert(r@ =~= Seq::<WindowRecord>::empty());
        }
        r
    }

    /// Index of the first window with the given label, if any.
    fn find_index(&self, label: &String) -> (r: Option<usize>)
        ensures
            match r {
                Some(i) => 0 <= i < self@.len() && self@[i as int].label == label@,
                None => !contains_label(self@, label@),
            },
    {
        let mut i: usize = 0;
        while i < self.windows.len()
            invariant
                i <= self.windows@.len(),
                self@ == self.windows@.map_values(|w: Window| w@),
                forall|j: int| 0 <= j < i ==> self@[j].label != label@,
            decreases self.windows@.len() - i,
        {
            if self.windows[i].label == *label {
                return Some(i);
            }
            i += 1;
        }
        None
    }

    /// Whether a window is addressable by `label`.
    pub fn contains(&self, label: &String) -> (r: bool)
        ensures
            r == contains_label(self@, label@),
    {
        self.find_index(label).is_some()
    }

    /// The state of the window addressed by `label`, if one is open.
    pub fn get_window(&self, label: &String) -> (r: Option<&WindowState>)
        ensures
            match r {
                Some(w) => exists|i: int|
                    0 <= i < self@.len() && self@[i].label == label@ && self@[i].state == w@,
                None => !contains_label(self@, label@),
            },
    {
        match self.find_index(label) {
            Some(i) => Some(&self.windows[i].state),
            None => None,
        }
    }

    /// Opens a new window. Fails exactly when the label is empty or already
    /// in use; on success the window is built from the platform-default state
    /// `base`, gets its identity marker at construction, has the payload
    /// applied once, and becomes addressable by its label.
    pub fn create_window(
        &mut self,
        label: String,
        base: WindowState,
        entries: &Vec<ConfigEntry>,
    ) -> (r: Result<(), CreationError>)
        requires
            wf(old(self)@),
        ensures
            wf(final(self)@),
            r is Ok <==> create_ok(old(self)@, label@),
            r is Ok ==> final(self)@ == create_result(old(self)@, label@, base@, entries@),
            r is Err ==> final(self)@ == old(self)@,
            r == Err::<(), CreationError>(CreationError::EmptyLabel) <==> label@.len() == 0,
            r == Err::<(), CreationError>(CreationError::LabelInUse) <==> (label@.len() > 0
                && contains_label(old(self)@, label@)),
    {
        if label.as_str().is_empty() {
            return Err(CreationError::EmptyLabel);
        }
        if self.contains(&label) {
            return Err(CreationError::LabelInUse);
        }
        let mut state = base;
        state.init_label = label.clone();
        let config = WindowConfig::from_entries(entries);
        state.apply_config(&config);
        proof {
            assert(state@ =~= created_window(label@, base@, entries@).state);
        }
        self.windows.push(Window { label, state });
        proof {
            assert(final(self)@ =~= create_result(old(self)@, label@, base@, entries@));
        }
        Ok(())
    }

    /// The shape every best-effort setter leaves the registry in when it
    /// replaces the state of the window at index `i` with `st`: every window
    /// under another label is untouched, the window under this label reaches
    /// `st`, and the registry stays well-formed.
    proof fn lemma_setter_shape(
        old_m: Seq<WindowRecord>,
        new_m: Seq<WindowRecord>,
        i: int,
        label: Seq<char>,
        st: WindowModel,
    )
        requires
            wf(old_m),
            0 <= i < old_m.len(),
            old_m[i].label == label,
            new_m == old_m.update(i, WindowRecord { label: old_m[i].label, state: st }),
        ensures
            wf(new_m),
            new_m.len() == old_m.len(),
            forall|j: int|
                0 <= j < old_m.len() && old_m[j].label != label ==> new_m[j] == old_m[j],
            forall|j: int|
                0 <= j < old_m.len() && old_m[j].label == label ==> new_m[j] == (WindowRecord {
                    label: old_m[j].label,
                    state: st,
                }),
    {
        assert(forall|j: int| 0 <= j < new_m.len() ==> new_m[j].label == old_m[j].label);
    }

    /// Closes the window addressed by `label`, best-effort: the window, if
    /// open, leaves the registry and nothing is addressable by that label any
    /// more; with no such window the registry is unchanged.
    pub fn close_window(&mut self, label: &String)
        requires
            wf(old(self)@),
        ensures
            wf(final(self)@),
            !contains_label(final(self)@, label@),
            contains_label(old(self)@, label@) ==> exists|i: int|
                0 <= i < old(self)@.len() && old(self)@[i].label == label@
                && final(self)@ == old(self)@.remove(i),
            !contains_label(old(self)@, label@) ==> final(self)@ == old(self)@,
    {
        match self.find_index(label) {
            Some(i) => {
                self.windows.remove(i);
                proof {
                    assert(final(self)@ =~= old(self)@.remove(i as int));
                    law_removed_label_not_addressable(old(self)@, label@, i as int);
                }
            },
            None => {},
        }
    }

    /// Minimizes the window addressed by `label`, best-effort: a no-op when
    /// no window has that label.
    pub fn minimize_window(&mut self, label: &String)
        requires
            wf(old(self)@),
        ensures
            wf(final(self)@),
            final(self)@.len() == old(self)@.len(),
            forall|i: int|
                0 <= i < old(self)@.len() && old(self)@[i].label != label@ ==> final(self)@[i]
                    == old(self)@[i],
            forall|i: int|
                0 <= i < old(self)@.len() && old(self)@[i].label == label@ ==> final(self)@[i]
                    == (WindowRecord {
                    label: old(self)@[i].label,
                    state: (WindowModel { minimized: true, ..old(self)@[i].state }),
                }),
    {
        match self.find_index(label) {
            Some(i) => {
                self.windows[i].state.minimized = true;
                proof {
                    let st = WindowModel { minimized: true, ..old(self)@[i as int].state };
                    assert(final(self)@ =~= old(self)@.update(
                        i as int,
                        WindowRecord { label: old(self)@[i as int].label, state: st },
                    ));
                    Self::lemma_setter_shape(old(self)@, final(self)@, i as int, label@, st);
                }
            },
            None => {},
        }
    }

    /// Maximizes the window addressed by `label`, best-effort.
    pub fn maximize_window(&mut self, label: &String)
        requires
            wf(old(self)@),
        ensures
            wf(final(self)@),
            final(self)@.len() == old(self)@.len(),
            forall|i: int|
                0 <= i < old(self)@.len() && old(self)@[i].label != label@ ==> final(self)@[i]
                    == old(self)@[i],
            forall|i: int|
                0 <= i < old(self)@.len() && old(self)@[i].label == label@ ==> final(self)@[i]
                    == (WindowRecord {
                    label: old(self)@[i].label,
                    state: (WindowModel { maximized: true, ..old(self)@[i].state }),
                }),
    {
        match self.find_index(label) {
            Some(i) => {
                self.windows[i].state.maximized = true;
                proof {
                    let st = WindowModel { maximized: true, ..old(self)@[i as int].state };
                    assert(final(self)@ =~= old(self)@.update(
                        i as int,
                        WindowRecord { label: old(self)@[i as int].label, state: st },
                    ));
                    Self::lemma_setter_shape(old(self)@, final(self)@, i as int, label@, st);
                }
            },
            None => {},
        }
    }

    /// Takes the window addressed by `label` out of its maximized state,
    /// best-effort.
    pub fn unmaximize_window(&mut self, label: &String)
        requires
            wf(old(self)@),
        ensures
            wf(final(self)@),
            final(self)@.len() == old(self)@.len(),
            forall|i: int|
                0 <= i < old(self)@.len() && old(self)@[i].label != label@ ==> final(self)@[i]
                    == old(self)@[i],
            forall|i: int|
                0 <= i < old(self)@.len() && old(self)@[i].label == label@ ==> final(self)@[i]
                    == (WindowRecord {
                    label: old(self)@[i].label,
                    state: (WindowModel { maximized: false, ..old(self)@[i].state }),
                }),
    {
        match self.find_index(label) {
            Some(i) => {
                self.windows[i].state.maximized = false;
                proof {
                    let st = WindowModel { maximized: false, ..old(self)@[i as int].state };
                    assert(final(self)@ =~= old(self)@.update(
                        i as int,
                        WindowRecord { label: old(self)@[i as int].label, state: st },
                    ));
                    Self::lemma_setter_shape(old(self)@, final(self)@, i as int, label@, st);
                }
            },
            None => {},
        }
    }

    /// Makes the window addressed by `label` visible, best-effort.
    pub fn show_window(&mut self, label: &String)
        requires
            wf(old(self)@),
        ensures
            wf(final(self)@),
            final(self)@.len() == old(self)@.len(),
            forall|i: int|
                0 <= i < old(self)@.len() && old(self)@[i].label != label@ ==> final(self)@[i]
                    == old(self)@[i],
            forall|i: int|
                0 <= i < old(self)@.len() && old(self)@[i].label == label@ ==> final(self)@[i]
                    == (WindowRecord {
                    label: old(self)@[i].label,
                    state: (WindowModel { visible: true, ..old(self)@[i].state }),
                }),
    {
        match self.find_index(label) {
            Some(i) => {
                self.windows[i].state.visible = true;
                proof {
                    let st = WindowModel { visible: true, ..old(self)@[i as int].state };
                    assert(final(self)@ =~= old(self)@.update(
                        i as int,
                        WindowRecord { label: old(self)@[i as int].label, state: st },
                    ));
                    Self::lemma_setter_shape(old(self)@, final(self)@, i as int, label@, st);
                }
            },
            None => {},
        }
    }

    /// Hides the window addressed by `label`, best-effort.
    pub fn hide_window(&mut self, label: &String)
        requires
            wf(old(self)@),
        ensures
            wf(final(self)@),
            final(self)@.len() == old(self)@.len(),
            forall|i: int|
                0 <= i < old(self)@.len() && old(self)@[i].label != label@ ==> final(self)@[i]
                    == old(self)@[i],
            forall|i: int|
                0 <= i < old(self)@.len() && old(self)@[i].label == label@ ==> final(self)@[i]
                    == (WindowRecord {
                    label: old(self)@[i].label,
                    state: (WindowModel { visible: false, ..old(self)@[i].state }),
                }),
    {
        match self.find_index(label) {
            Some(i) => {
                self.windows[i].state.visible = false;
                proof {
                    let st = WindowModel { visible: false, ..old(self)@[i as int].state };
                    assert(final(self)@ =~= old(self)@.update(
                        i as int,
                        WindowRecord { label: old(self)@[i as int].label, state: st },
                    ));
                    Self::lemma_setter_shape(old(self)@, final(self)@, i as int, label@, st);
                }
            },
            None => {},
        }
    }

    /// Sets the title of the window addressed by `label`, best-effort.
    pub fn set_window_title(&mut self, label: &String, title: String)
        requires
            wf(old(self)@),
        ensures
            wf(final(self)@),
            final(self)@.len() == old(self)@.len(),
            forall|i: int|
                0 <= i < old(self)@.len() && old(self)@[i].label != label@ ==> final(self)@[i]
                    == old(self)@[i],
            forall|i: int|
                0 <= i < old(self)@.len() && old(self)@[i].label == label@ ==> final(self)@[i]
                    == (WindowRecord {
                    label: old(self)@[i].label,
                    state: (WindowModel { title: title@, ..old(self)@[i].state }),
                }),
    {
        match self.find_index(label) {
            Some(i) => {
                self.windows[i].state.title = title;
                proof {
                    let st = WindowModel { title: title@, ..old(self)@[i as int].state };
                    assert(final(self)@ =~= old(self)@.update(
                        i as int,
                        WindowRecord { label: old(self)@[i as int].label, state: st },
                    ));
                    Self::lemma_setter_shape(old(self)@, final(self)@, i as int, label@, st);
                }
            },
            None => {},
        }
    }
}

/// Creation under a fresh, non-empty label with an empty payload is owed
/// success and yields a window addressable by that label, whose state keeps
/// the platform defaults it was built with; only the identity marker, set at
/// construction, differs.
pub proof fn law_create_fresh_empty(
    m: Seq<WindowRecord>,
    label: Seq<char>,
    base: WindowModel,
    entries: Seq<ConfigEntry>,
)
    requires
        label.len() > 0,
        !contains_label(m, label),
        entries.len() == 0,
    ensures
        create_ok(m, label),
        contains_label(create_result(m, label, base, entries), label),
        create_result(m, label, base, entries).last().state == (WindowModel {
            init_label: label,
            ..base
        }),
{
    law_empty_config_identity(WindowModel { init_label: label, ..base }, entries);
    let res = create_result(m, label, base, entries);
    assert(0 <= m.len() < res.len() && res[m.len() as int].label == label);
}

/// Creation under a label already in use is refused.
pub proof fn law_create_label_in_use(m: Seq<WindowRecord>, label: Seq<char>)
    requires
        contains_label(m, label),
    ensures
        !create_ok(m, label),
{
}

/// An entry under an unrecognized key is harmless to creation: whether
/// creation succeeds never depends on the payload at all, and the window a
/// successful creation registers is the same with the entry as without it,
/// so the recognized keys beside it still apply.
pub proof fn law_unrecognized_entry_harmless(
    m: Seq<WindowRecord>,
    label: Seq<char>,
    base: WindowModel,
    entries: Seq<ConfigEntry>,
    i: int,
)
    requires
        0 <= i < entries.len(),
        !recognized_key(entries[i].key@),
    ensures
        create_result(m, label, base, entries.remove(i)) == create_result(m, label, base, entries),
{
    law_unrecognized_key_ignored(entries, i);
}

/// A window removed from a well-formed registry is no longer addressable by
/// its label: labels are unique, so no other window answers to it.
pub proof fn law_removed_label_not_addressable(m: Seq<WindowRecord>, label: Seq<char>, i: int)
    requires
        wf(m),
        0 <= i < m.len(),
        m[i].label == label,
    ensures
        !contains_label(m.remove(i), label),
{
    assert forall|j: int| 0 <= j < m.remove(i).len() implies m.remove(i)[j].label != label by {
        if j >= i {
            assert(m.remove(i)[j] == m[j + 1]);
        }
    }
}

} // verus!
