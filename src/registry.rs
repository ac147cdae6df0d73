use vstd::prelude::*;
use crate::config::{plan_update, require_absent, require_present, PresentationWindowConfig, WindowState, PRESENTATION_LABEL};
use crate::error::WindowError;

verus! {

/// A window as the host tracks it: its name and its display properties.
pub type Entry = (Seq<char>, WindowState);

/// The name of the presentation window, as a sequence of characters.
pub open spec fn presentation() -> Seq<char> {
    PRESENTATION_LABEL@
}

/// Some window in `ws` is called `label`.
pub open spec fn has_label(ws: Seq<Entry>, label: Seq<char>) -> bool {
    exists|i: int| #![trigger ws[i]] 0 <= i < ws.len() && ws[i].0 == label
}

/// No two windows in `ws` share a name.
pub open spec fn unique_labels(ws: Seq<Entry>) -> bool {
    forall|i: int, j: int|
        #![trigger ws[i], ws[j]]
        0 <= i < ws.len() && 0 <= j < ws.len() && ws[i].0 == ws[j].0 ==> i == j
}

/// At most one window in `ws` is called `label`.
pub open spec fn at_most_one(ws: Seq<Entry>, label: Seq<char>) -> bool {
    forall|i: int, j: int|
        #![trigger ws[i], ws[j]]
        0 <= i < ws.len() && 0 <= j < ws.len() && ws[i].0 == label && ws[j].0 == label ==> i == j
}

/// Position of the window called `label` (meaningful when there is one).
pub open spec fn index_of(ws: Seq<Entry>, label: Seq<char>) -> int {
    choose|i: int| #![trigger ws[i]] 0 <= i < ws.len() && ws[i].0 == label
}

/// Properties of the presentation window, if it exists.
pub open spec fn presentation_state(ws: Seq<Entry>) -> Option<WindowState> {
    if has_label(ws, presentation()) {
        Some(ws[index_of(ws, presentation())].1)
    } else {
        None
    }
}

/// Registry after `open` and the reply, given what the host answered to the
/// creation request (asked for only when no presentation window exists).
pub open spec fn open_step(
    ws: Seq<Entry>,
    config: PresentationWindowConfig,
    created: Result<(), String>,
) -> (Seq<Entry>, Result<(), WindowError>) {
    if has_label(ws, presentation()) {
        (ws, Err(WindowError::WindowAlreadyOpen))
    } else {
        match created {
            Ok(_) => (ws.push((presentation(), config.state_spec())), Ok(())),
            Err(m) => (ws, Err(WindowError::PlatformError(m))),
        }
    }
}

/// Registry after `close` and the reply, given what the host answered to the
/// request to destroy the window (asked for only when it exists).
pub open spec fn close_step(ws: Seq<Entry>, destroyed: Result<(), String>) -> (
    Seq<Entry>,
    Result<(), WindowError>,
) {
    if !has_label(ws, presentation()) {
        (ws, Err(WindowError::WindowNotFound))
    } else {
        match destroyed {
            Ok(_) => (ws.remove(index_of(ws, presentation())), Ok(())),
            Err(m) => (ws, Err(WindowError::PlatformError(m))),
        }
    }
}

/// Registry after `update` and the reply, given what the host answered to
/// setting always-on-top and then fullscreen. A failure of the second setting
/// leaves the first in place.
pub open spec fn update_step(
    ws: Seq<Entry>,
    config: PresentationWindowConfig,
    on_top_set: Result<(), String>,
    fullscreen_set: Result<(), String>,
) -> (Seq<Entry>, Result<(), WindowError>) {
    if !has_label(ws, presentation()) {
        (ws, Err(WindowError::WindowNotFound))
    } else {
        let i = index_of(ws, presentation());
        let s = ws[i].1;
        match on_top_set {
            Err(m) => (ws, Err(WindowError::PlatformError(m))),
            Ok(_) => {
                let s1 = WindowState { always_on_top: config.always_on_top, fullscreen: s.fullscreen };
                match fullscreen_set {
                    Err(m) => (ws.update(i, (presentation(), s1)), Err(WindowError::PlatformError(m))),
                    Ok(_) => (ws.update(i, (presentation(), config.state_spec())), Ok(())),
                }
            },
        }
    }
}

/// A window held by the registry.
#[derive(Debug)]
pub struct NamedWindow {
    pub label: String,
    pub state: WindowState,
}

/// The windows the host manager tracks, each addressed by its name.
///
/// Every command looks the presentation window up by name; `open` creates it
/// only after the lookup finds none, so no two windows ever share a name.
#[derive(Debug)]
pub struct WindowRegistry {
    windows: Vec<NamedWindow>,
}

impl View for WindowRegistry {
    type V = Seq<Entry>;

    closed spec fn view(&self) -> Seq<Entry> {
        self.windows@.map_values(|w: NamedWindow| (w.label@, w.state))
    }
}

impl WindowRegistry {
    pub open spec fn wf(&self) -> bool {
        unique_labels(self@)
    }

    /// A registry with no windows.
    pub fn new() -> (r: Self)
        ensures
            r@ == Seq::<Entry>::empty(),
            r.wf(),
    {
        WindowRegistry { windows: Vec::new() }
    }

    /// Position of the window called `label`, if there is one.
    fn find(&self, label: &String) -> (r: Option<usize>)
        requires
            self.wf(),
        ensures
            match r {
                Some(i) => i < self@.len() && self@[i as int].0 == label@ && i == index_of(
                    self@,
                    label@,
                ),
                None => !has_label(self@, label@),
            },
    {
        let mut i: usize = 0;
        while i < self.windows.len()
            invariant
                i <= self.windows@.len(),
                self@.len() == self.windows@.len(),
                self.wf(),
                forall|k: int| #![trigger self@[k]] 0 <= k < i ==> self@[k].0 != label@,
            decreases self.windows@.len() - i,
        {
            if self.windows[i].label.eq(label) {
                proof {
                    assert(self@[i as int] == (self.windows@[i as int].label@, self.windows@[i as int].state));
                    assert(has_label(self@, label@));
                    let j = index_of(self@, label@);
                    assert(self@[j].0 == self@[i as int].0);
                }
                return Some(i);
            }
            i = i + 1;
        }
        None
    }

    /// Whether the presentation window exists.
    pub fn is_open(&self) -> (r: bool)
        requires
            self.wf(),
        ensures
            r == has_label(self@, presentation()),
    {
        let label = PRESENTATION_LABEL.to_owned();
        self.find(&label).is_some()
    }

    /// Properties of the presentation window, if it exists.
    pub fn presentation_state(&self) -> (r: Option<WindowState>)
        requires
            self.wf(),
        ensures
            r == presentation_state(self@),
    {
        let label = PRESENTATION_LABEL.to_owned();
        match self.find(&label) {
            Some(i) => Some(self.windows[i].state),
            None => None,
        }
    }
    /// Opens the presentation window unless it exists. `created` is the host's
    /// answer to the creation request, consulted only when the request is made.
    pub fn open(&mut self, config: &PresentationWindowConfig, created: Result<(), String>) -> (r:
        Result<(), WindowError>)
        requires
            old(self).wf(),
        ensures
            final(self).wf(),
            (final(self)@, r) == open_step(old(self)@, *config, created),
    {
        match require_absent(self.is_open()) {
            Err(e) => Err(e),
            Ok(()) => match created {
                Ok(()) => {
                    let w = NamedWindow {
                        label: PRESENTATION_LABEL.to_owned(),
                        state: config.window_state(),
                    };
                    self.windows.push(w);
                    proof {
                        lemma_push_keeps_labels_unique(old(self)@, (presentation(), config.state_spec()));
                        assert(self@ =~= old(self)@.push((presentation(), config.state_spec())));
                    }
                    Ok(())
                },
                Err(m) => Err(WindowError::PlatformError(m)),
            },
        }
    }

    /// Closes the presentation window if it exists. `destroyed` is the host's
    /// answer to the request to destroy it, consulted only when the request is
    /// made.
    pub fn close(&mut self, destroyed: Result<(), String>) -> (r: Result<(), WindowError>)
        requires
            old(self).wf(),
        ensures
            final(self).wf(),
            (final(self)@, r) == close_step(old(self)@, destroyed),
    {
        let label = PRESENTATION_LABEL.to_owned();
        let found = self.find(&label);
        match require_present(found.is_some()) {
            Err(e) => Err(e),
            Ok(()) => {
                let i = found.unwrap();
                match destroyed {
                    Ok(()) => {
                        self.windows.remove(i);
                        proof {
                            lemma_remove_keeps_labels_unique(old(self)@, i as int);
                            assert(self@ =~= old(self)@.remove(i as int));
                        }
                        Ok(())
                    },
                    Err(m) => Err(WindowError::PlatformError(m)),
                }
            },
        }
    }

    /// Applies the always-on-top and fullscreen settings of `config` to the
    /// presentation window, in that order, if it exists; the background colour
    /// is not applied. `on_top_set` and `fullscreen_set` are the host's answers
    /// to the two requests; a failure stops at that request.
    pub fn update(
        &mut self,
        config: &PresentationWindowConfig,
        on_top_set: Result<(), String>,
        fullscreen_set: Result<(), String>,
    ) -> (r: Result<(), WindowError>)
        requires
            old(self).wf(),
        ensures
            final(self).wf(),
            (final(self)@, r) == update_step(old(self)@, *config, on_top_set, fullscreen_set),
    {
        let label = PRESENTATION_LABEL.to_owned();
        let found = self.find(&label);
        let wanted = match plan_update(found.is_some(), config) {
            Err(e) => {
                return Err(e);
            },
            Ok(s) => s,
        };
        let i = found.unwrap();
        let current = self.windows[i].state;
        match on_top_set {
            Err(m) => Err(WindowError::PlatformError(m)),
            Ok(()) => {
                let s1 = WindowState { always_on_top: wanted.always_on_top, fullscreen: current.fullscreen };
                let (last, r) = match fullscreen_set {
                    Err(m) => (s1, Err(WindowError::PlatformError(m))),
                    Ok(()) => (wanted, Ok(())),
                };
                self.windows.set(i, NamedWindow { label, state: last });
                proof {
                    lemma_relabel_keeps_labels_unique(old(self)@, i as int, (presentation(), last));
                    assert(self@ =~= old(self)@.update(i as int, (presentation(), last)));
                }
                r
            },
        }
    }
}

/// Adding a window under a name not yet used keeps names unique.
pub(crate) proof fn lemma_push_keeps_labels_unique(ws: Seq<Entry>, e: Entry)
    requires
        unique_labels(ws),
        !has_label(ws, e.0),
    ensures
        unique_labels(ws.push(e)),
{
    let ws2 = ws.push(e);
    assert forall|i: int, j: int|
        0 <= i < ws2.len() && 0 <= j < ws2.len() && ws2[i].0 == ws2[j].0 implies i == j by {
        if i < ws.len() {
            assert(ws2[i] == ws[i]);
        }
        if j < ws.len() {
            assert(ws2[j] == ws[j]);
        }
    }
}

/// Removing a window keeps names unique, and its name is then unused.
pub(crate) proof fn lemma_remove_keeps_labels_unique(ws: Seq<Entry>, k: int)
    requires
        unique_labels(ws),
        0 <= k < ws.len(),
    ensures
        unique_labels(ws.remove(k)),
        !has_label(ws.remove(k), ws[k].0),
{
    let ws2 = ws.remove(k);
    assert forall|i: int, j: int|
        0 <= i < ws2.len() && 0 <= j < ws2.len() && ws2[i].0 == ws2[j].0 implies i == j by {
        let oi = if i < k { i } else { i + 1 };
        let oj = if j < k { j } else { j + 1 };
        assert(ws2[i] == ws[oi]);
        assert(ws2[j] == ws[oj]);
    }
    if has_label(ws2, ws[k].0) {
        let i = choose|i: int| #![trigger ws2[i]] 0 <= i < ws2.len() && ws2[i].0 == ws[k].0;
        let oi = if i < k { i } else { i + 1 };
        assert(ws2[i] == ws[oi]);
    }
}

/// Changing the properties of a window, keeping its name, keeps names unique.
pub(crate) proof fn lemma_relabel_keeps_labels_unique(ws: Seq<Entry>, k: int, e: Entry)
    requires
        unique_labels(ws),
        0 <= k < ws.len(),
        e.0 == ws[k].0,
    ensures
        unique_labels(ws.update(k, e)),
{
    let ws2 = ws.update(k, e);
    assert forall|i: int, j: int|
        0 <= i < ws2.len() && 0 <= j < ws2.len() && ws2[i].0 == ws2[j].0 implies i == j by {
        assert(ws2[i].0 == ws[i].0);
        assert(ws2[j].0 == ws[j].0);
    }
}

} // verus!
