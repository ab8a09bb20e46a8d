//! The application context: the registry of windows (with their
//! webviews) owned by the GUI thread.
//!
//! The registry is generic in the window handle type: the embedder
//! stores its toolkit's window/webview pair there.  The first window
//! registered is the primary window every command addresses; closing
//! it when it is the last one tracked is what ends the event loop.

use crate::kvmap::{
    lemma_map_of_at, lemma_map_of_len, lemma_map_of_push, lemma_map_of_swap_remove,
    spec_keys_unique, spec_map_of,
};
use vstd::prelude::*;
use vstd::string::StringExecFns;

verus! {

/// What closing the primary window decides, as a pure function of the
/// registry state: the new primary id, the new window map, whether the
/// host's close signal fires (the last window went away), and whether
/// the close succeeded at all.
pub open spec fn spec_close_window<W>(first: Option<u64>, windows: Map<u64, W>) -> (
    Option<u64>,
    Map<u64, W>,
    bool,
    bool,
) {
    match first {
        None => (None, windows, false, false),
        Some(id) => if windows.dom().contains(id) {
            let w2 = windows.remove(id);
            (None, w2, w2.dom().len() == 0, true)
        } else {
            (None, windows, false, false)
        },
    }
}

/// Registry of windows keyed by window id.
pub struct AppContext<W> {
    first_id: Option<u64>,
    windows: Vec<(u64, W)>,
}

impl<W> AppContext<W> {
    pub closed spec fn wf(&self) -> bool {
        spec_keys_unique(self.windows@)
    }

    /// The windows tracked, as a map from id to handle.
    pub closed spec fn spec_windows(&self) -> Map<u64, W> {
        spec_map_of(self.windows@)
    }

    /// The primary window's id, set by the first registration.
    pub closed spec fn spec_first(&self) -> Option<u64> {
        self.first_id
    }

    /// Whether a primary window is present.
    pub open spec fn spec_has_window(&self) -> bool {
        match self.spec_first() {
            Some(id) => self.spec_windows().dom().contains(id),
            None => false,
        }
    }

    /// An empty registry: no windows, no primary.
    pub fn new() -> (r: Self)
        ensures
            r.wf(),
            r.spec_windows() == Map::<u64, W>::empty(),
            r.spec_first() is None,
    {
        let r = AppContext { first_id: None, windows: Vec::new() };
        proof {
            assert(r.spec_windows() =~= Map::<u64, W>::empty());
        }
        r
    }

    /// The primary window's id, or an error when none is set.
    pub fn _window_id(&self) -> (r: Result<u64, String>)
        ensures
            match r {
                Ok(id) => self.spec_first() == Some(id),
                Err(_) => self.spec_first() is None,
            },
    {
        match self.first_id {
            Some(id) => Ok(id),
            None => Err(String::from_str("No window ID set")),
        }
    }

    /// Whether the primary window is present.
    pub fn has_window(&self) -> (r: bool)
        requires
            self.wf(),
        ensures
            r == self.spec_has_window(),
    {
        match self.first_id {
            None => false,
            Some(id) => self.find_index(id).is_some(),
        }
    }

    /// Index of `id` in the backing vector, if present.
    #[verifier::loop_isolation(false)]
    fn find_index(&self, id: u64) -> (r: Option<usize>)
        requires
            self.wf(),
        ensures
            match r {
                Some(i) => i < self.windows@.len() && self.windows@[i as int].0 == id
                    && self.spec_windows().dom().contains(id) && self.spec_windows()[id]
                    == self.windows@[i as int].1,
                None => !self.spec_windows().dom().contains(id),
            },
    {
        let n = self.windows.len();
        let mut i: usize = 0;
        while i < n
            invariant
                i <= n,
                forall|k: int| 0 <= k < i ==> (#[trigger] self.windows@[k]).0 != id,
            decreases n - i,
        {
            if self.windows[i].0 == id {
                proof {
                    lemma_map_of_at(self.windows@, i as int);
                }
                return Some(i);
            }
            i = i + 1;
        }
        proof {
            if self.spec_windows().dom().contains(id) {
                let k = choose|k: int|
                    0 <= k < self.windows@.len() && (#[trigger] self.windows@[k]).0 == id;
            }
        }
        None
    }

    /// Registers a window (with its webview) under `id`; the first
    /// registration fixes the primary window.  Registering an id again
    /// replaces its handle.
    pub fn add_window(&mut self, id: u64, window: W)
        requires
            old(self).wf(),
        ensures
            final(self).wf(),
            final(self).spec_windows() == old(self).spec_windows().insert(id, window),
            final(self).spec_first() == (if old(self).spec_first() is None {
                Some(id)
            } else {
                old(self).spec_first()
            }),
    {
        match self.find_index(id) {
            Some(i) => {
                let ghost old_entries = self.windows@;
                let _old_pair = self.windows.swap_remove(i);
                proof {
                    lemma_map_of_swap_remove(old_entries, i as int, id);
                    assert forall|k: int|
                        0 <= k < self.windows@.len() implies (#[trigger] self.windows@[k]).0
                        != id by {
                        if self.windows@[k].0 == id {
                            lemma_map_of_at(self.windows@, k);
                        }
                    }
                    lemma_map_of_push(self.windows@, id, window);
                }
                self.windows.push((id, window));
                proof {
                    assert(self.spec_windows() =~= old(self).spec_windows().insert(id, window));
                }
            },
            None => {
                proof {
                    assert forall|k: int|
                        0 <= k < self.windows@.len() implies (#[trigger] self.windows@[k]).0
                        != id by {
                        if self.windows@[k].0 == id {
                            lemma_map_of_at(self.windows@, k);
                        }
                    }
                    lemma_map_of_push(self.windows@, id, window);
                }
                self.windows.push((id, window));
            },
        }
        if self.first_id.is_none() {
            self.first_id = Some(id);
        }
    }

    /// The primary window's handle.  Errors exactly when no primary id
    /// is set or its window is no longer tracked.
    pub fn get_window(&self) -> (r: Result<&W, String>)
        requires
            self.wf(),
        ensures
            match r {
                Ok(w) => self.spec_has_window() && *w == self.spec_windows()[self.spec_first()
                    ->Some_0],
                Err(_) => !self.spec_has_window(),
            },
    {
        match self.first_id {
            None => Err(String::from_str("No window ID set")),
            Some(id) => match self.find_index(id) {
                Some(i) => Ok(&self.windows[i].1),
                None => Err(String::from_str("Window with id not found")),
            },
        }
    }

    /// The primary window's handle, for its webview half.  The same
    /// lookup as `get_window`, with the webview's error wording.
    pub fn get_webview(&self) -> (r: Result<&W, String>)
        requires
            self.wf(),
        ensures
            match r {
                Ok(w) => self.spec_has_window() && *w == self.spec_windows()[self.spec_first()
                    ->Some_0],
                Err(_) => !self.spec_has_window(),
            },
    {
        match self.first_id {
            None => Err(String::from_str("No WebView ID set")),
            Some(id) => match self.find_index(id) {
                Some(i) => Ok(&self.windows[i].1),
                None => Err(String::from_str("WebView with id not found")),
            },
        }
    }

    /// Closes the primary window: takes the primary id, removes its
    /// window, and reports whether that was the last window — the
    /// host's cue to fire the close signal and end the event loop.
    /// Exactly `spec_close_window` on the registry state.
    pub fn close_window(&mut self) -> (r: Result<(W, bool), String>)
        requires
            old(self).wf(),
        ensures
            final(self).wf(),
            ({
                let (f2, w2, signal, ok) = spec_close_window(
                    old(self).spec_first(),
                    old(self).spec_windows(),
                );
                &&& final(self).spec_first() == f2
                &&& final(self).spec_windows() == w2
                &&& match r {
                    Ok((w, s)) => ok && s == signal && w == old(self).spec_windows()[old(
                        self,
                    ).spec_first()->Some_0],
                    Err(_) => !ok && !signal,
                }
            }),
    {
        let first = self.first_id;
        self.first_id = None;
        match first {
            None => Err(String::from_str("No window ID set")),
            Some(id) => match self.find_index(id) {
                None => Err(String::from_str("Window with id not found")),
                Some(i) => {
                    let ghost old_entries = self.windows@;
                    let pair = self.windows.swap_remove(i);
                    proof {
                        lemma_map_of_swap_remove(old_entries, i as int, id);
                        lemma_map_of_len(self.windows@);
                    }
                    let last = self.windows.is_empty();
                    Ok((pair.1, last))
                },
            },
        }
    }
}

/// The close signal fires exactly once: from a registry whose primary
/// window is its only window, closing fires the signal; from the state
/// that leaves behind, closing again neither succeeds nor signals, and
/// no state with the primary id unset can ever signal.
pub proof fn lemma_close_signal_once<W>(first: Option<u64>, windows: Map<u64, W>, id: u64)
    requires
        first == Some(id),
        windows.dom().finite(),
        windows.dom() == set![id],
    ensures
        ({
            let (f2, w2, signal, ok) = spec_close_window(first, windows);
            &&& signal
            &&& ok
            &&& f2 is None
            &&& !spec_close_window(f2, w2).2
            &&& !spec_close_window(f2, w2).3
        }),
{
    let w2 = windows.remove(id);
    assert(w2.dom() =~= Set::<u64>::empty());
}

} // verus!
