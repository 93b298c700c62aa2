//! Launching an application: the windows to open, its configuration, and
//! the one-launch-per-process rule.

use vstd::prelude::*;

verus! {

/// Why an application could not be launched.
#[derive(Debug)]
pub enum LaunchError {
    /// An application was already launched in this process.
    AlreadyStarted,
}

/// Collects what an application starts with: its windows `W` (at least
/// one), its graphics configuration `C`, and, once it runs, its state `S`
/// and translation map `T`.
pub struct AppLauncher<S, W, C, T> {
    windows: Vec<W>,
    translation_map: Option<T>,
    wgpu_config: C,
    state: Option<S>,
}

impl<S, W, C, T> AppLauncher<S, W, C, T> {
    /// There is always a first window.
    #[verifier::type_invariant]
    closed spec fn has_window(self) -> bool {
        self.windows@.len() >= 1
    }

    /// The windows to open, in the order they were added.
    pub closed spec fn spec_windows(&self) -> Seq<W> {
        self.windows@
    }

    /// The translation map, once running.
    pub closed spec fn spec_translation_map(&self) -> Option<T> {
        self.translation_map
    }

    /// The graphics configuration.
    pub closed spec fn spec_wgpu_config(&self) -> C {
        self.wgpu_config
    }

    /// The application state, once running.
    pub closed spec fn spec_state(&self) -> Option<S> {
        self.state
    }

    /// Replaces the graphics configuration.
    pub fn with_wgpu_config(self, config: C) -> (r: Self)
        ensures
            r.spec_wgpu_config() == config,
            r.spec_windows() == self.spec_windows(),
            r.spec_translation_map() == self.spec_translation_map(),
            r.spec_state() == self.spec_state(),
    {
        proof {
            use_type_invariant(&self);
        }
        AppLauncher {
            windows: self.windows,
            translation_map: self.translation_map,
            wgpu_config: config,
            state: self.state,
        }
    }

    /// Adds a window to open after the ones added before.
    pub fn add_window(self, window: W) -> (r: Self)
        ensures
            r.spec_windows() == self.spec_windows().push(window),
            r.spec_wgpu_config() == self.spec_wgpu_config(),
            r.spec_translation_map() == self.spec_translation_map(),
            r.spec_state() == self.spec_state(),
    {
        proof {
            use_type_invariant(&self);
        }
        let mut windows = self.windows;
        windows.push(window);
        AppLauncher {
            windows,
            translation_map: self.translation_map,
            wgpu_config: self.wgpu_config,
            state: self.state,
        }
    }

    /// Prepares the launch with `state` and `translation_map`.
    ///
    /// `first_launch` says whether this is the first launch in the process;
    /// any later one fails with `AlreadyStarted`.  On success the launcher
    /// holds the state and the translation map, and its windows and
    /// configuration are unchanged.
    pub fn run(self, state: S, translation_map: T, first_launch: bool) -> (r: Result<Self, LaunchError>)
        ensures
            !first_launch ==> r matches Err(LaunchError::AlreadyStarted),
            first_launch ==> (r matches Ok(l) && l.spec_state() == Some(state)
                && l.spec_translation_map() == Some(translation_map)
                && l.spec_windows() == self.spec_windows()
                && l.spec_wgpu_config() == self.spec_wgpu_config()),
    {
        proof {
            use_type_invariant(&self);
        }
        if !first_launch {
            return Err(LaunchError::AlreadyStarted);
        }
        Ok(AppLauncher {
            windows: self.windows,
            translation_map: Some(translation_map),
            wgpu_config: self.wgpu_config,
            state: Some(state),
        })
    }

    /// The windows to open, in the order they were added.
    pub fn windows(&self) -> (r: &Vec<W>)
        ensures
            r@ == self.spec_windows(),
            r@.len() >= 1,
    {
        proof {
            use_type_invariant(self);
        }
        &self.windows
    }

    /// The first window to open.
    pub fn first_window(&self) -> (r: &W)
        ensures
            r == self.spec_windows()[0],
    {
        proof {
            use_type_invariant(self);
        }
        &self.windows[0]
    }

    /// The translation map, once running.
    pub fn translation_map(&self) -> (r: Option<&T>)
        ensures
            r == match self.spec_translation_map() {
                Some(t) => Some(&t),
                None => None::<&T>,
            },
    {
        match &self.translation_map {
            Some(t) => Some(t),
            None => None,
        }
    }

    /// The graphics configuration.
    pub fn wgpu_config(&self) -> (r: &C)
        ensures
            *r == self.spec_wgpu_config(),
    {
        &self.wgpu_config
    }

    /// The application state, once running.
    pub fn state(&self) -> (r: Option<&S>)
        ensures
            r == match self.spec_state() {
                Some(s) => Some(&s),
                None => None::<&S>,
            },
    {
        match &self.state {
            Some(s) => Some(s),
            None => None,
        }
    }

    /// Takes the launcher apart into its windows, translation map,
    /// configuration and state.
    pub fn into_parts(self) -> (r: (Vec<W>, Option<T>, C, Option<S>))
        ensures
            r.0@ == self.spec_windows(),
            r.0@.len() >= 1,
            r.1 == self.spec_translation_map(),
            r.2 == self.spec_wgpu_config(),
            r.3 == self.spec_state(),
    {
        proof {
            use_type_invariant(&self);
        }
        (self.windows, self.translation_map, self.wgpu_config, self.state)
    }
}

impl<S, W, C: Default, T> AppLauncher<S, W, C, T> {
    /// A launcher that opens `window`, with the default graphics
    /// configuration and, until it runs, no state and no translation map.
    pub fn new(window: W) -> (r: Self)
        ensures
            r.spec_windows() == seq![window],
            call_ensures(C::default, (), r.spec_wgpu_config()),
            r.spec_translation_map() is None,
            r.spec_state() is None,
    {
        let mut windows = Vec::new();
        windows.push(window);
        AppLauncher { windows, translation_map: None, wgpu_config: C::default(), state: None }
    }
}

} // verus!
