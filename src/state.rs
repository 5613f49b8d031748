use vstd::prelude::*;

verus! {

/// The cache of lifecycle state shared with readers on other threads: the
/// last configuration snapshot and the current display surface, if any.
/// Each update replaces one value whole.
pub struct SharedState<C, W> {
    config: C,
    window: Option<W>,
}

impl<C, W> SharedState<C, W> {
    /// The cached configuration snapshot.
    pub closed spec fn config_view(&self) -> C {
        self.config
    }

    /// The cached display surface.
    pub closed spec fn window_view(&self) -> Option<W> {
        self.window
    }

    /// A cache holding the startup configuration and no surface.
    pub fn new(config: C) -> (r: Self)
        ensures
            r.config_view() == config,
            r.window_view() is None,
    {
        SharedState { config, window: None }
    }

    /// The cached configuration snapshot.
    pub fn config(&self) -> (r: &C)
        ensures
            *r == self.config_view(),
    {
        &self.config
    }

    /// The cached display surface, if one exists.
    pub fn native_window(&self) -> (r: Option<&W>)
        ensures
            r is Some <==> self.window_view() is Some,
            r is Some ==> *r->Some_0 == self.window_view()->Some_0,
    {
        match &self.window {
            Some(w) => Some(w),
            None => None,
        }
    }

    /// Replaces the configuration snapshot; the surface is kept.
    pub fn sync_config(&mut self, config: C)
        ensures
            final(self).config_view() == config,
            final(self).window_view() == old(self).window_view(),
    {
        self.config = config;
    }

    /// Installs the surface a window-creation command brought; the
    /// configuration is kept.
    pub fn capture_window(&mut self, window: W)
        ensures
            final(self).window_view() == Some(window),
            final(self).config_view() == old(self).config_view(),
    {
        self.window = Some(window);
    }

    /// Drops the surface on window termination; the configuration is kept.
    pub fn clear_window(&mut self)
        ensures
            final(self).window_view() is None,
            final(self).config_view() == old(self).config_view(),
    {
        self.window = None;
    }
}

} // verus!
