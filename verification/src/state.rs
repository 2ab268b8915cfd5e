//! Application view state.
//!
//! The application shows one of two views: the light table, where images
//! are browsed and one can be selected, and the darkroom, where the
//! selected image is graded. The transitions are small but they carry the
//! rules that keep the shell honest: the darkroom opens only when an image
//! is selected, and a renderer must be bound exactly when the darkroom view
//! is current and none is bound yet.

use vstd::prelude::*;

verus! {

/// Which view the application currently shows.
#[derive(Clone, Copy, Debug, PartialEq, Eq, Structural)]
pub enum CurrentView {
    /// The browsing grid of all imported images.
    LightTable,
    /// The grading view of the selected image.
    Darkroom,
}

impl Default for CurrentView {
    /// The application starts on the light table.
    fn default() -> (v: CurrentView)
        ensures
            v == CurrentView::LightTable,
    {
        CurrentView::LightTable
    }
}

/// The state shared between the views: the selected image and the view
/// being shown.
#[derive(Clone, Debug)]
pub struct EmulseState {
    /// Path of the image selected on the light table; empty when none is.
    pub selected_image_path: String,
    /// The view being shown.
    pub current_view: CurrentView,
}

impl EmulseState {
    /// The starting state: nothing selected, light table shown.
    pub fn new() -> (s: EmulseState)
        ensures
            s.selected_image_path@.len() == 0,
            s.current_view == CurrentView::LightTable,
    {
        EmulseState { selected_image_path: String::new(), current_view: CurrentView::LightTable }
    }

    /// Selecting an image on the light table records its path and moves to
    /// the darkroom, as a double click on a slide does.
    pub fn select_image(&mut self, path: String)
        ensures
            final(self).selected_image_path@ == path@,
            final(self).current_view == CurrentView::Darkroom,
    {
        self.selected_image_path = path;
        self.current_view = CurrentView::Darkroom;
    }

    /// Asks for the darkroom view. The request is honored only when an
    /// image is selected; with no selection the view stays as it was.
    pub fn open_darkroom(&mut self) -> (switched: bool)
        ensures
            final(self).selected_image_path@ == old(self).selected_image_path@,
            switched == (old(self).selected_image_path@.len() != 0),
            switched ==> final(self).current_view == CurrentView::Darkroom,
            !switched ==> final(self).current_view == old(self).current_view,
    {
        if !self.selected_image_path.as_str().is_empty() {
            self.current_view = CurrentView::Darkroom;
            true
        } else {
            false
        }
    }

    /// Returns to the light table; the selection is kept.
    pub fn open_light_table(&mut self)
        ensures
            final(self).selected_image_path@ == old(self).selected_image_path@,
            final(self).current_view == CurrentView::LightTable,
    {
        self.current_view = CurrentView::LightTable;
    }
}

impl Default for EmulseState {
    /// The starting state.
    fn default() -> (s: EmulseState)
        ensures
            s.selected_image_path@.len() == 0,
            s.current_view == CurrentView::LightTable,
    {
        EmulseState::new()
    }
}

/// The per-tick decision of the event loop: a renderer must be bound
/// exactly when the darkroom view is current and none is bound yet.
pub fn needs_darkroom_bind(view: &CurrentView, darkroom_bound: bool) -> (b: bool)
    ensures
        b == (view is Darkroom && !darkroom_bound),
{
    match view {
        CurrentView::Darkroom => !darkroom_bound,
        CurrentView::LightTable => false,
    }
}

} // verus!
