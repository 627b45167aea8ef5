//! Colour cycling: an index into a text palette and one into a background
//! palette, kept apart for the idle and the running timer.
use vstd::prelude::*;

verus! {

/// The four palette positions in use.
#[derive(Clone, Copy, Debug, PartialEq, Eq, Structural)]
pub struct ColorIndices {
    pub stop_text: usize,
    pub run_text: usize,
    pub stop_background: usize,
    pub run_background: usize,
}

/// A configured index, or the last position of the palette where it lies
/// beyond the end.
pub open spec fn clamped(index: usize, len: nat) -> usize {
    if index < len {
        index
    } else {
        (len - 1) as usize
    }
}

/// The position after `index` in a palette of `len` colours, wrapping round.
pub open spec fn next_index(index: usize, len: nat) -> usize {
    ((index + 1) % (len as int)) as usize
}

impl ColorIndices {
    pub open spec fn text(self, running: bool) -> usize {
        if running {
            self.run_text
        } else {
            self.stop_text
        }
    }

    pub open spec fn background(self, running: bool) -> usize {
        if running {
            self.run_background
        } else {
            self.stop_background
        }
    }

    pub open spec fn with_text(self, running: bool, i: usize) -> ColorIndices {
        if running {
            ColorIndices { run_text: i, ..self }
        } else {
            ColorIndices { stop_text: i, ..self }
        }
    }

    pub open spec fn with_background(self, running: bool, i: usize) -> ColorIndices {
        if running {
            ColorIndices { run_background: i, ..self }
        } else {
            ColorIndices { stop_background: i, ..self }
        }
    }

    /// Every index clamped to the palette it points into.
    pub open spec fn clamped_to(self, text_len: nat, background_len: nat) -> ColorIndices {
        ColorIndices {
            stop_text: clamped(self.stop_text, text_len),
            run_text: clamped(self.run_text, text_len),
            stop_background: clamped(self.stop_background, background_len),
            run_background: clamped(self.run_background, background_len),
        }
    }

    pub open spec fn within(self, text_len: nat, background_len: nat) -> bool {
        &&& self.stop_text < text_len
        &&& self.run_text < text_len
        &&& self.stop_background < background_len
        &&& self.run_background < background_len
    }
}

/// Clamps a configured palette index to the palette's last position.
pub fn clamp_index(index: usize, len: usize) -> (r: usize)
    requires
        len > 0,
    ensures
        r == clamped(index, len as nat),
        r < len,
{
    if index < len {
        index
    } else {
        len - 1
    }
}

/// The abstract state of a colour cycler.
pub struct ThemeModel<C> {
    pub text_colors: Seq<C>,
    pub background_colors: Seq<C>,
    pub indices: ColorIndices,
}

impl<C> ThemeModel<C> {
    pub open spec fn wf(self) -> bool {
        &&& 0 < self.text_colors.len() <= usize::MAX
        &&& 0 < self.background_colors.len() <= usize::MAX
        &&& self.indices.within(self.text_colors.len(), self.background_colors.len())
    }

    pub open spec fn advanced_text(self, running: bool) -> ThemeModel<C> {
        let i = next_index(self.indices.text(running), self.text_colors.len());
        ThemeModel { indices: self.indices.with_text(running, i), ..self }
    }

    pub open spec fn advanced_background(self, running: bool) -> ThemeModel<C> {
        let i = next_index(self.indices.background(running), self.background_colors.len());
        ThemeModel { indices: self.indices.with_background(running, i), ..self }
    }
}

/// Two palettes and the positions in them used while idle and while running.
pub struct ThemeCycler<C> {
    text_colors: Vec<C>,
    background_colors: Vec<C>,
    indices: ColorIndices,
}

impl<C> View for ThemeCycler<C> {
    type V = ThemeModel<C>;

    closed spec fn view(&self) -> ThemeModel<C> {
        ThemeModel {
            text_colors: self.text_colors@,
            background_colors: self.background_colors@,
            indices: self.indices,
        }
    }
}

impl<C> ThemeCycler<C> {
    pub open spec fn wf(&self) -> bool {
        self@.wf()
    }

    /// Builds a cycler from configured palettes and positions; a position
    /// beyond its palette is taken as the palette's last colour.
    pub fn from_config(text_colors: Vec<C>, background_colors: Vec<C>, requested: ColorIndices) -> (r:
        ThemeCycler<C>)
        requires
            text_colors.len() > 0,
            background_colors.len() > 0,
        ensures
            r.wf(),
            r@.text_colors == text_colors@,
            r@.background_colors == background_colors@,
            r@.indices == requested.clamped_to(text_colors@.len(), background_colors@.len()),
    {
        let indices = ColorIndices {
            stop_text: clamp_index(requested.stop_text, text_colors.len()),
            run_text: clamp_index(requested.run_text, text_colors.len()),
            stop_background: clamp_index(requested.stop_background, background_colors.len()),
            run_background: clamp_index(requested.run_background, background_colors.len()),
        };
        ThemeCycler { text_colors, background_colors, indices }
    }

    pub fn indices(&self) -> (r: ColorIndices)
        ensures
            r == self@.indices,
    {
        self.indices
    }

    /// Moves the text colour of the given run state to the next palette
    /// entry and returns its position.
    pub fn advance_text_color(&mut self, running: bool) -> (r: usize)
        requires
            old(self).wf(),
        ensures
            final(self)@ == old(self)@.advanced_text(running),
            final(self).wf(),
            r == final(self)@.indices.text(running),
    {
        let len = self.text_colors.len();
        if running {
            self.indices.run_text = (self.indices.run_text + 1) % len;
            self.indices.run_text
        } else {
            self.indices.stop_text = (self.indices.stop_text + 1) % len;
            self.indices.stop_text
        }
    }

    /// Moves the background colour of the given run state to the next
    /// palette entry and returns its position.
    pub fn advance_background_color(&mut self, running: bool) -> (r: usize)
        requires
            old(self).wf(),
        ensures
            final(self)@ == old(self)@.advanced_background(running),
            final(self).wf(),
            r == final(self)@.indices.background(running),
    {
        let len = self.background_colors.len();
        if running {
            self.indices.run_background = (self.indices.run_background + 1) % len;
            self.indices.run_background
        } else {
            self.indices.stop_background = (self.indices.stop_background + 1) % len;
            self.indices.stop_background
        }
    }

    /// The text colour shown in the given run state.
    pub fn text_color(&self, running: bool) -> (r: &C)
        requires
            self.wf(),
        ensures
            *r == self@.text_colors[self@.indices.text(running) as int],
    {
        if running {
            &self.text_colors[self.indices.run_text]
        } else {
            &self.text_colors[self.indices.stop_text]
        }
    }

    /// The background colour shown in the given run state.
    pub fn background_color(&self, running: bool) -> (r: &C)
        requires
            self.wf(),
        ensures
            *r == self@.background_colors[self@.indices.background(running) as int],
    {
        if running {
            &self.background_colors[self.indices.run_background]
        } else {
            &self.background_colors[self.indices.stop_background]
        }
    }
}

} // verus!
